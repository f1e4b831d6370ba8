use vstd::prelude::*;
use vstd::string::StringExecFns;
use crate::index::FileIndex;
use crate::text;

verus! {

/// Joins the parts, putting `sep` between consecutive ones.
pub fn join_strings(parts: &Vec<String>, sep: &str) -> (r: String)
    ensures
        r@ == text::join_with(parts.deep_view(), sep@),
{
    let mut out = String::new();
    let n = parts.len();
    let mut i: usize = 0;
    while i < n
        invariant
            n == parts@.len(),
            i <= n,
            out@ == text::join_with(parts.deep_view().subrange(0, i as int), sep@),
        decreases n - i,
    {
        if i > 0 {
            out.append(sep);
        }
        out.append(parts[i].as_str());
        proof {
            text::lemma_deep_view_index(parts, i as int);
            let dv = parts.deep_view();
            assert(dv.subrange(0, (i + 1) as int).drop_last() =~= dv.subrange(0, i as int));
            assert(dv.subrange(0, (i + 1) as int).last() == dv[i as int]);
            assert(out@ =~= text::join_with(dv.subrange(0, (i + 1) as int), sep@));
        }
        i += 1;
    }
    proof {
        assert(parts.deep_view().subrange(0, n as int) =~= parts.deep_view());
    }
    out
}

/// A name as a single shell word: wrapped in single quotes, with inner
/// quotes escaped as `'\''`, when it holds a space; otherwise bare, with
/// quotes escaped as `\'`.
pub open spec fn shell_quote_spec(name: Seq<char>) -> Seq<char> {
    if name.contains(' ') {
        seq!['\''] + text::escape_seq(text::EscapeStyle::ShellQuoted, name) + seq!['\'']
    } else {
        text::escape_seq(text::EscapeStyle::ShellBare, name)
    }
}

/// Quotes one public name for the shell-format listing.
pub fn shell_quote(name: &str) -> (r: String)
    ensures
        r@ == shell_quote_spec(name@),
{
    let mut out = String::new();
    if text::contains_char(name, ' ') {
        text::push_char(&mut out, '\'');
        text::append_escaped(text::EscapeStyle::ShellQuoted, name, &mut out);
        text::push_char(&mut out, '\'');
        proof {
            assert(out@ =~= shell_quote_spec(name@));
        }
    } else {
        text::append_escaped(text::EscapeStyle::ShellBare, name, &mut out);
    }
    out
}

/// The `/files` body in shell format: the quoted names, space-joined.
pub open spec fn shell_listing_spec(names: Seq<Seq<char>>) -> Seq<char> {
    text::join_with(names.map_values(|n: Seq<char>| shell_quote_spec(n)), " "@)
}

/// Renders the shell-format listing of the index.
pub fn shell_listing(ix: &FileIndex) -> (r: String)
    ensures
        r@ == shell_listing_spec(ix@),
{
    let words = render_each(ix, Render::ShellWord);
    let r = join_strings(&words, " ");
    proof {
        assert(words.deep_view() =~= ix@.map_values(|n: Seq<char>| shell_quote_spec(n)));
    }
    r
}

/// One name as a JSON string literal.
pub open spec fn json_item_spec(name: Seq<char>) -> Seq<char> {
    seq!['"'] + text::escape_seq(text::EscapeStyle::DoubleQuoted, name) + seq!['"']
}

/// The `/files` body in JSON format: an array of the names as string
/// literals, comma-and-space separated.
pub open spec fn json_listing_spec(names: Seq<Seq<char>>) -> Seq<char> {
    seq!['['] + text::join_with(names.map_values(|n: Seq<char>| json_item_spec(n)), ", "@)
        + seq![']']
}

/// Renders the JSON-format listing of the index.
pub fn json_listing(ix: &FileIndex) -> (r: String)
    ensures
        r@ == json_listing_spec(ix@),
{
    let items = render_each(ix, Render::JsonItem);
    let mut out = String::new();
    text::push_char(&mut out, '[');
    let joined = join_strings(&items, ", ");
    out.append(joined.as_str());
    text::push_char(&mut out, ']');
    proof {
        assert(items.deep_view() =~= ix@.map_values(|n: Seq<char>| json_item_spec(n)));
        assert(out@ =~= json_listing_spec(ix@));
    }
    out
}

/// The index-page anchor for one name: a download link to `/<name>`.
pub open spec fn download_link_spec(name: Seq<char>) -> Seq<char> {
    "<a href=\"/"@ + name + "\" download></a>"@
}

/// The download anchor for each indexed file, in index order.
pub fn get_download_links(ix: &FileIndex) -> (r: Vec<String>)
    ensures
        r.deep_view() == ix@.map_values(|n: Seq<char>| download_link_spec(n)),
{
    render_each(ix, Render::DownloadLink)
}

/// The download anchors joined with newlines, ready to splice into the
/// index-page template.
pub fn download_links_joined(ix: &FileIndex) -> (r: String)
    ensures
        r@ == text::join_with(
            ix@.map_values(|n: Seq<char>| download_link_spec(n)),
            "\n"@,
        ),
{
    let links = get_download_links(ix);
    join_strings(&links, "\n")
}

/// The per-name renderings the listings are built from.
enum Render {
    ShellWord,
    JsonItem,
    DownloadLink,
}

impl Render {
    spec fn apply(self, name: Seq<char>) -> Seq<char> {
        match self {
            Render::ShellWord => shell_quote_spec(name),
            Render::JsonItem => json_item_spec(name),
            Render::DownloadLink => download_link_spec(name),
        }
    }
}

fn render_one(kind: &Render, name: &str) -> (r: String)
    ensures
        r@ == kind.apply(name@),
{
    match kind {
        Render::ShellWord => shell_quote(name),
        Render::JsonItem => {
            let mut out = String::new();
            text::push_char(&mut out, '"');
            text::append_escaped(text::EscapeStyle::DoubleQuoted, name, &mut out);
            text::push_char(&mut out, '"');
            proof {
                assert(out@ =~= json_item_spec(name@));
            }
            out
        }
        Render::DownloadLink => {
            let mut out = String::from_str("<a href=\"/");
            out.append(name);
            out.append("\" download></a>");
            proof {
                assert(out@ =~= download_link_spec(name@));
            }
            out
        }
    }
}

fn render_each(ix: &FileIndex, kind: Render) -> (r: Vec<String>)
    ensures
        r.deep_view() == ix@.map_values(|n: Seq<char>| kind.apply(n)),
{
    let mut out: Vec<String> = Vec::new();
    let n = ix.len();
    let mut i: usize = 0;
    while i < n
        invariant
            n == ix@.len(),
            i <= n,
            out@.len() == i,
            out.deep_view() =~= ix@.subrange(0, i as int).map_values(
                |n: Seq<char>| kind.apply(n),
            ),
        decreases n - i,
    {
        let item = render_one(&kind, ix.name_at(i).as_str());
        let ghost old_dv = out.deep_view();
        out.push(item);
        proof {
            assert(out.deep_view() =~= old_dv.push(kind.apply(ix@[i as int])));
            assert(out.deep_view() =~= ix@.subrange(0, (i + 1) as int).map_values(
                |n: Seq<char>| kind.apply(n),
            ));
        }
        i += 1;
    }
    proof {
        assert(ix@.subrange(0, n as int) =~= ix@);
        assert(out.deep_view() =~= ix@.map_values(|n: Seq<char>| kind.apply(n)));
    }
    out
}

} // verus!
