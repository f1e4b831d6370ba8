use vstd::prelude::*;
use vstd::string::StrSliceExecFns;

verus! {

/// Relies on `String::push`: appends exactly one character to the string.
#[verifier::external_body]
pub(crate) fn push_char(s: &mut String, c: char)
    ensures
        final(s)@ == old(s)@.push(c),
{
    s.push(c);
}

/// Character-by-character string comparison.
pub fn str_eq(a: &str, b: &str) -> (r: bool)
    ensures
        r == (a@ == b@),
{
    let an = a.unicode_len();
    let bn = b.unicode_len();
    if an != bn {
        return false;
    }
    let mut i: usize = 0;
    while i < an
        invariant
            an == a@.len(),
            bn == b@.len(),
            an == bn,
            i <= an,
            forall|j: int| 0 <= j < i ==> a@[j] == b@[j],
        decreases an - i,
    {
        if a.get_char(i) != b.get_char(i) {
            return false;
        }
        i += 1;
    }
    proof {
        assert(a@ =~= b@);
    }
    true
}

pub(crate) proof fn lemma_deep_view_index(v: &Vec<String>, i: int)
    requires
        0 <= i < v@.len(),
    ensures
        v.deep_view().len() == v@.len(),
        v.deep_view()[i] == v@[i]@,
{
}

/// Whether `s` holds the character `c`.
pub fn contains_char(s: &str, c: char) -> (r: bool)
    ensures
        r == s@.contains(c),
{
    let n = s.unicode_len();
    let mut i: usize = 0;
    while i < n
        invariant
            n == s@.len(),
            i <= n,
            forall|j: int| 0 <= j < i ==> s@[j] != c,
        decreases n - i,
    {
        if s.get_char(i) == c {
            proof {
                assert(s@[i as int] == c);
            }
            return true;
        }
        i += 1;
    }
    proof {
        assert(forall|j: int| 0 <= j < s@.len() ==> s@[j] != c);
    }
    false
}

/// The per-character escaping rules the tool's text formats use.
#[derive(Clone, Copy)]
pub enum EscapeStyle {
    /// Outside single quotes in a shell word: `'` becomes `\'`.
    ShellBare,
    /// Inside a single-quoted shell word: `'` becomes `'\''`.
    ShellQuoted,
    /// Inside a double-quoted literal: `"` and `\` get a backslash,
    /// and a control character becomes `\u00` plus two hex digits, so
    /// the JSON listing stays well-formed for every name.
    DoubleQuoted,
}

/// What one character escapes to under the given style.
pub open spec fn escape_char(style: EscapeStyle, c: char) -> Seq<char> {
    match style {
        EscapeStyle::ShellBare => if c == '\'' {
            seq!['\\', '\'']
        } else {
            seq![c]
        },
        EscapeStyle::ShellQuoted => if c == '\'' {
            seq!['\'', '\\', '\'', '\'']
        } else {
            seq![c]
        },
        EscapeStyle::DoubleQuoted => if c == '"' {
            seq!['\\', '"']
        } else if c == '\\' {
            seq!['\\', '\\']
        } else if (c as u32) < 32 {
            seq!['\\', 'u', '0', '0', hex_digit_char(((c as u32) / 16) as nat), hex_digit_char(
                ((c as u32) % 16) as nat,
            )]
        } else {
            seq![c]
        },
    }
}

/// A whole string escaped character by character.
pub open spec fn escape_seq(style: EscapeStyle, s: Seq<char>) -> Seq<char>
    decreases s.len(),
{
    if s.len() == 0 {
        Seq::empty()
    } else {
        escape_seq(style, s.drop_last()) + escape_char(style, s.last())
    }
}

/// Appends `s`, escaped under `style`, to `out`.
pub fn append_escaped(style: EscapeStyle, s: &str, out: &mut String)
    ensures
        final(out)@ == old(out)@ + escape_seq(style, s@),
{
    let n = s.unicode_len();
    let mut i: usize = 0;
    while i < n
        invariant
            n == s@.len(),
            i <= n,
            out@ == old(out)@ + escape_seq(style, s@.subrange(0, i as int)),
        decreases n - i,
    {
        let c = s.get_char(i);
        match style {
            EscapeStyle::ShellBare => {
                if c == '\'' {
                    push_char(out, '\\');
                    push_char(out, '\'');
                } else {
                    push_char(out, c);
                }
            }
            EscapeStyle::ShellQuoted => {
                if c == '\'' {
                    push_char(out, '\'');
                    push_char(out, '\\');
                    push_char(out, '\'');
                    push_char(out, '\'');
                } else {
                    push_char(out, c);
                }
            }
            EscapeStyle::DoubleQuoted => {
                if c == '"' {
                    push_char(out, '\\');
                    push_char(out, '"');
                } else if c == '\\' {
                    push_char(out, '\\');
                    push_char(out, '\\');
                } else {
                    let code = c as u32;
                    if code < 32 {
                        push_char(out, '\\');
                        push_char(out, 'u');
                        push_char(out, '0');
                        push_char(out, '0');
                        push_char(out, exec_hex_digit_char(code / 16));
                        push_char(out, exec_hex_digit_char(code % 16));
                    } else {
                        push_char(out, c);
                    }
                }
            }
        }
        proof {
            assert(s@.subrange(0, (i + 1) as int).drop_last() =~= s@.subrange(0, i as int));
            assert(s@.subrange(0, (i + 1) as int).last() == s@[i as int]);
            assert(out@ =~= old(out)@ + escape_seq(style, s@.subrange(0, (i + 1) as int)));
        }
        i += 1;
    }
    proof {
        assert(s@.subrange(0, n as int) =~= s@);
    }
}

/// The parts joined with `sep` between consecutive parts.
pub open spec fn join_with(parts: Seq<Seq<char>>, sep: Seq<char>) -> Seq<char>
    decreases parts.len(),
{
    if parts.len() == 0 {
        Seq::empty()
    } else if parts.len() == 1 {
        parts[0]
    } else {
        join_with(parts.drop_last(), sep) + sep + parts.last()
    }
}

/// The character for one hex digit, lower case.
pub open spec fn hex_digit_char(d: nat) -> char {
    if d < 10 {
        digit_char(d)
    } else if d == 10 {
        'a'
    } else if d == 11 {
        'b'
    } else if d == 12 {
        'c'
    } else if d == 13 {
        'd'
    } else if d == 14 {
        'e'
    } else {
        'f'
    }
}

fn exec_hex_digit_char(d: u32) -> (c: char)
    requires
        d < 16,
    ensures
        c == hex_digit_char(d as nat),
{
    if d == 0 {
        '0'
    } else if d == 1 {
        '1'
    } else if d == 2 {
        '2'
    } else if d == 3 {
        '3'
    } else if d == 4 {
        '4'
    } else if d == 5 {
        '5'
    } else if d == 6 {
        '6'
    } else if d == 7 {
        '7'
    } else if d == 8 {
        '8'
    } else if d == 9 {
        '9'
    } else if d == 10 {
        'a'
    } else if d == 11 {
        'b'
    } else if d == 12 {
        'c'
    } else if d == 13 {
        'd'
    } else if d == 14 {
        'e'
    } else {
        'f'
    }
}

/// The character for one decimal digit.
pub open spec fn digit_char(d: nat) -> char {
    if d == 0 {
        '0'
    } else if d == 1 {
        '1'
    } else if d == 2 {
        '2'
    } else if d == 3 {
        '3'
    } else if d == 4 {
        '4'
    } else if d == 5 {
        '5'
    } else if d == 6 {
        '6'
    } else if d == 7 {
        '7'
    } else if d == 8 {
        '8'
    } else {
        '9'
    }
}

/// The usual decimal rendering of `n`, without leading zeros.
pub open spec fn dec_str(n: nat) -> Seq<char>
    decreases n,
{
    if n < 10 {
        seq![digit_char(n)]
    } else {
        dec_str(n / 10) + seq![digit_char(n % 10)]
    }
}

fn exec_digit_char(d: u16) -> (c: char)
    requires
        d < 10,
    ensures
        c == digit_char(d as nat),
{
    if d == 0 {
        '0'
    } else if d == 1 {
        '1'
    } else if d == 2 {
        '2'
    } else if d == 3 {
        '3'
    } else if d == 4 {
        '4'
    } else if d == 5 {
        '5'
    } else if d == 6 {
        '6'
    } else if d == 7 {
        '7'
    } else if d == 8 {
        '8'
    } else {
        '9'
    }
}

/// Appends the decimal rendering of `n` to `out`.
pub fn append_u16_dec(n: u16, out: &mut String)
    ensures
        final(out)@ == old(out)@ + dec_str(n as nat),
    decreases n,
{
    if n < 10 {
        push_char(out, exec_digit_char(n));
        proof {
            assert(old(out)@.push(digit_char(n as nat)) =~= old(out)@ + dec_str(n as nat));
        }
    } else {
        proof {
            assert(n / 10 < n) by (nonlinear_arith)
                requires
                    n >= 10,
            ;
        }
        append_u16_dec(n / 10, out);
        push_char(out, exec_digit_char(n % 10));
        proof {
            assert((old(out)@ + dec_str((n / 10) as nat)).push(digit_char((n % 10) as nat))
                =~= old(out)@ + dec_str(n as nat));
        }
    }
}

/// Whether one of the strings equals `s`.
pub fn vec_contains_string(v: &Vec<String>, s: &str) -> (r: bool)
    ensures
        r == v.deep_view().contains(s@),
{
    let n = v.len();
    let mut i: usize = 0;
    while i < n
        invariant
            n == v@.len(),
            i <= n,
            forall|j: int| 0 <= j < i ==> v.deep_view()[j] != s@,
        decreases n - i,
    {
        proof {
            lemma_deep_view_index(v, i as int);
        }
        if str_eq(v[i].as_str(), s) {
            proof {
                assert(v.deep_view()[i as int] == s@);
            }
            return true;
        }
        i += 1;
    }
    proof {
        assert(v.deep_view().len() == v@.len());
        assert(forall|j: int| 0 <= j < v.deep_view().len() ==> v.deep_view()[j] != s@);
    }
    false
}

} // verus!
