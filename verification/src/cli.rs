use vstd::prelude::*;
use vstd::string::StringExecFns;
use crate::text;

verus! {

/// The startup configuration: bind address and port, quiet mode, the
/// `/files` listing format, upload mode with its accept budget, and the
/// positional paths (files to host, or upload-name filters).
pub struct Args {
    pub address: String,
    pub port: u16,
    pub quiet: bool,
    pub file: FileOption,
    pub upload: bool,
    pub count: usize,
    pub no_index: bool,
    pub paths: Vec<String>,
}

/// How `/files` answers in download mode: disabled, a shell-quoted list,
/// or a JSON array.
#[derive(Clone, Copy, Debug, PartialEq, Eq, Structural)]
pub enum FileOption {
    Off,
    Bash,
    Json,
}

/// What `str::to_lowercase` returns; it depends on the characters alone.
pub uninterp spec fn lower_of(s: Seq<char>) -> Seq<char>;

/// Relies on `str::to_lowercase`: lowercases every character of the text.
#[verifier::external_body]
fn lowercase(s: &str) -> (r: String)
    ensures
        r@ == lower_of(s@),
{
    s.to_lowercase()
}

/// The error text for a listing-format name that is not recognised.
pub open spec fn invalid_option_msg(s: Seq<char>) -> Seq<char> {
    "Invalid /file option \""@ + text::escape_seq(text::EscapeStyle::DoubleQuoted, s) + "\""@
}

impl FileOption {
    /// Reads a listing-format name, case-insensitively: `off`, `bash` or
    /// `json`; anything else is an error naming the rejected text.
    pub fn parse(s: &str) -> (r: Result<FileOption, String>)
        ensures
            r == Ok::<FileOption, String>(FileOption::Off) <==> lower_of(s@) == "off"@,
            r == Ok::<FileOption, String>(FileOption::Bash) <==> lower_of(s@) == "bash"@,
            r == Ok::<FileOption, String>(FileOption::Json) <==> lower_of(s@) == "json"@,
            r is Err <==> (lower_of(s@) != "off"@ && lower_of(s@) != "bash"@ && lower_of(s@)
                != "json"@),
            r matches Err(m) ==> m@ == invalid_option_msg(s@),
    {
        proof {
            reveal_strlit("off");
            reveal_strlit("bash");
            reveal_strlit("json");
            assert("off"@.len() == 3 && "bash"@.len() == 4 && "json"@.len() == 4);
            assert("json"@[0] == 'j' && "bash"@[0] == 'b');
        }
        let lowered = lowercase(s);
        if text::str_eq(lowered.as_str(), "off") {
            Ok(FileOption::Off)
        } else if text::str_eq(lowered.as_str(), "bash") {
            Ok(FileOption::Bash)
        } else if text::str_eq(lowered.as_str(), "json") {
            Ok(FileOption::Json)
        } else {
            let mut m = String::from_str("Invalid /file option \"");
            text::append_escaped(text::EscapeStyle::DoubleQuoted, s, &mut m);
            m.append("\"");
            proof {
                assert(m@ =~= invalid_option_msg(s@));
            }
            Err(m)
        }
    }
}

impl Args {
    /// The address shown to the user, with the wildcard bind address
    /// replaced by `localhost`.
    pub open spec fn pretty_address_spec(self) -> Seq<char> {
        "http://"@ + (if self.address@ == "0.0.0.0"@ {
            "localhost"@
        } else {
            self.address@
        }) + ":"@ + text::dec_str(self.port as nat)
    }

    /// `http://<host>:<port>` for this configuration.
    pub fn pretty_address(&self) -> (r: String)
        ensures
            r@ == self.pretty_address_spec(),
    {
        let mut out = String::new();
        out.append("http://");
        if text::str_eq(self.address.as_str(), "0.0.0.0") {
            out.append("localhost");
        } else {
            out.append(self.address.as_str());
        }
        out.append(":");
        text::append_u16_dec(self.port, &mut out);
        proof {
            assert(out@ =~= self.pretty_address_spec());
        }
        out
    }

    /// The line logged once the server is listening.
    pub open spec fn startup_line_spec(self) -> Seq<char> {
        "Server up at "@ + self.pretty_address_spec()
    }

    /// `Server up at <address>`.
    pub fn startup_line(&self) -> (r: String)
        ensures
            r@ == self.startup_line_spec(),
    {
        let mut out = String::from_str("Server up at ");
        let pa = self.pretty_address();
        out.append(pa.as_str());
        out
    }
}

} // verus!
