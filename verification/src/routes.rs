use vstd::prelude::*;
use vstd::string::StrSliceExecFns;
use vstd::string::StringExecFns;
use crate::cli::FileOption;
use crate::index::FileIndex;
use crate::text;

verus! {

/// Why a `PUT /upload` request was answered without storing a file.
#[derive(Clone, Copy, Debug, PartialEq, Eq, Structural)]
pub enum RejectReason {
    /// The request lacks the `File-Name` header: answered 400.
    MissingHeader,
    /// A filter is set and the declared name is not in it: answered 200
    /// with an empty body, so the filter does not leak which names pass.
    FilteredOut,
    /// The bounded accept budget is already spent: answered 503.
    BudgetSpent,
}

/// How one request is answered; computed from the method, the path and
/// the server mode, never persisted.
#[derive(Debug, Clone, PartialEq, Eq)]
pub enum RequestOutcome {
    /// `GET /`: render the mode's index template.
    ServeIndex,
    /// `/files` with a listing enabled: answer in this format.
    ServeListing(FileOption),
    /// Stream the indexed file with this public name.
    ServeFile(String),
    /// Store the upload body under this declared name, then answer 201.
    AcceptUpload(String),
    /// Answer the upload without storing anything.
    RejectUpload(RejectReason),
    /// A non-`PUT` method on `/upload`: answer 308 back to `/`.
    RedirectUploadForm,
    /// No route matched: answer 404.
    NotFound,
    /// A per-request failure; the body carries the failure text.
    ServerError(String),
}

impl RequestOutcome {
    /// The HTTP status code each outcome is answered with.
    pub open spec fn status_spec(self) -> u16 {
        match self {
            RequestOutcome::ServeIndex => 200,
            RequestOutcome::ServeListing(_) => 200,
            RequestOutcome::ServeFile(_) => 200,
            RequestOutcome::AcceptUpload(_) => 201,
            RequestOutcome::RejectUpload(why) => match why {
                RejectReason::MissingHeader => 400,
                RejectReason::FilteredOut => 200,
                RejectReason::BudgetSpent => 503,
            },
            RequestOutcome::RedirectUploadForm => 308,
            RequestOutcome::NotFound => 404,
            RequestOutcome::ServerError(_) => 500,
        }
    }

    /// The status code to answer with.
    pub fn status(&self) -> (s: u16)
        ensures
            s == self.status_spec(),
    {
        match self {
            RequestOutcome::ServeIndex => 200,
            RequestOutcome::ServeListing(_) => 200,
            RequestOutcome::ServeFile(_) => 200,
            RequestOutcome::AcceptUpload(_) => 201,
            RequestOutcome::RejectUpload(why) => match why {
                RejectReason::MissingHeader => 400,
                RejectReason::FilteredOut => 200,
                RejectReason::BudgetSpent => 503,
            },
            RequestOutcome::RedirectUploadForm => 308,
            RequestOutcome::NotFound => 404,
            RequestOutcome::ServerError(_) => 500,
        }
    }

    /// The response text for the outcomes whose body is fixed; the
    /// template, listing and file-streaming outcomes have none.
    pub open spec fn fixed_body_spec(self) -> Option<Seq<char>> {
        match self {
            RequestOutcome::AcceptUpload(_) => Some(Seq::<char>::empty()),
            RequestOutcome::RejectUpload(why) => match why {
                RejectReason::MissingHeader => Some("Could not find File-Name header"@),
                RejectReason::FilteredOut => Some(Seq::<char>::empty()),
                RejectReason::BudgetSpent => Some(Seq::<char>::empty()),
            },
            RequestOutcome::RedirectUploadForm => Some("Redirecting you back..."@),
            RequestOutcome::NotFound => Some("File not found."@),
            RequestOutcome::ServerError(m) => Some(m@),
            _ => None,
        }
    }

    /// The fixed response body, where the outcome has one.
    pub fn fixed_body(&self) -> (r: Option<String>)
        ensures
            match (r, self.fixed_body_spec()) {
                (Some(s), Some(t)) => s@ == t,
                (None, None) => true,
                _ => false,
            },
    {
        match self {
            RequestOutcome::AcceptUpload(_) => Some(String::new()),
            RequestOutcome::RejectUpload(why) => match why {
                RejectReason::MissingHeader => Some(
                    String::from_str("Could not find File-Name header"),
                ),
                RejectReason::FilteredOut => Some(String::new()),
                RejectReason::BudgetSpent => Some(String::new()),
            },
            RequestOutcome::RedirectUploadForm => Some(String::from_str("Redirecting you back...")),
            RequestOutcome::NotFound => Some(String::from_str("File not found.")),
            RequestOutcome::ServerError(m) => Some(m.clone()),
            _ => None,
        }
    }
}

/// The lookup target of a request path: the path with its first
/// character (the leading slash) stripped.
pub open spec fn strip_slash(url: Seq<char>) -> Seq<char> {
    if url.len() == 0 {
        url
    } else {
        url.skip(1)
    }
}

fn strip_first(url: &str) -> (r: String)
    ensures
        r@ == strip_slash(url@),
{
    let n = url.unicode_len();
    if n == 0 {
        let r = String::new();
        proof {
            assert(r@ =~= strip_slash(url@));
        }
        r
    } else {
        let tail = url.substring_char(1, n);
        proof {
            assert(tail@ =~= strip_slash(url@));
        }
        String::from_str(tail)
    }
}

/// Decides a download-mode request from the configuration, the index
/// and the request path. The HTTP method is not consulted: every
/// download-mode route answers any method alike.
pub fn dispatch_download(no_index: bool, file: FileOption, ix: &FileIndex, url: &str) -> (r:
    RequestOutcome)
    ensures
        url@ == "/"@ && !no_index ==> r == RequestOutcome::ServeIndex,
        url@ == "/files"@ && file == FileOption::Bash ==> r == RequestOutcome::ServeListing(
            FileOption::Bash,
        ),
        url@ == "/files"@ && file == FileOption::Json ==> r == RequestOutcome::ServeListing(
            FileOption::Json,
        ),
        !(url@ == "/"@ && !no_index) && !(url@ == "/files"@ && (file == FileOption::Bash || file
            == FileOption::Json)) ==> ({
            if ix@.contains(strip_slash(url@)) {
                r matches RequestOutcome::ServeFile(n) && n@ == strip_slash(url@)
            } else {
                r == RequestOutcome::NotFound
            }
        }),
        ({
            let name = strip_slash(url@);
            (url@.len() > 1 && url@[0] == '/' && ix@.contains(name) && !(url@ == "/files"@ && (
            file == FileOption::Bash || file == FileOption::Json))) ==> (r matches
                RequestOutcome::ServeFile(n) && n@ == name && r.status_spec() == 200)
        }),
{
    proof {
        reveal_strlit("/");
        reveal_strlit("/files");
        assert("/"@.len() == 1 && "/files"@.len() == 6);
    }
    if !no_index && text::str_eq(url, "/") {
        return RequestOutcome::ServeIndex;
    }
    if text::str_eq(url, "/files") {
        match file {
            FileOption::Bash => {
                return RequestOutcome::ServeListing(FileOption::Bash);
            }
            FileOption::Json => {
                return RequestOutcome::ServeListing(FileOption::Json);
            }
            FileOption::Off => {}
        }
    }
    let name = strip_first(url);
    match ix.lookup(name.as_str()) {
        Some(_) => RequestOutcome::ServeFile(name),
        None => RequestOutcome::NotFound,
    }
}

/// The log line for one request: the peer address (empty when unknown),
/// `>> `, then the method and the path.
pub open spec fn request_line_spec(
    addr: Option<Seq<char>>,
    method: Seq<char>,
    url: Seq<char>,
) -> Seq<char> {
    (match addr {
        Some(a) => a,
        None => Seq::<char>::empty(),
    }) + ">> "@ + method + " "@ + url
}

/// Formats the per-request trace line.
pub fn request_line(addr: Option<&String>, method: &str, url: &str) -> (r: String)
    ensures
        r@ == request_line_spec(
            match addr {
                Some(a) => Some(a@),
                None => None,
            },
            method@,
            url@,
        ),
{
    let mut out = String::new();
    match addr {
        Some(a) => out.append(a.as_str()),
        None => {}
    }
    out.append(">> ");
    out.append(method);
    out.append(" ");
    out.append(url);
    proof {
        assert(out@ =~= request_line_spec(
            match addr {
                Some(a) => Some(a@),
                None => None,
            },
            method@,
            url@,
        ));
    }
    out
}

/// The 500 body when a stored file handle cannot be duplicated for a
/// download: the failure text after `Error opening file: `.
pub open spec fn open_error_spec(err: Seq<char>) -> Seq<char> {
    "Error opening file: "@ + err
}

/// Formats the handle-duplication failure body.
pub fn open_error_body(err: &str) -> (r: String)
    ensures
        r@ == open_error_spec(err@),
{
    let mut out = String::from_str("Error opening file: ");
    out.append(err);
    out
}

} // verus!
