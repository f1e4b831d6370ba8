use vstd::prelude::*;
use crate::routes::{RejectReason, RequestOutcome};
use crate::text;

verus! {

/// Upload-mode state: the optional filter of accepted names and the
/// accept budget. `budget` is the configured count, 0 meaning
/// unlimited; `left` counts the accepts still allowed under a nonzero
/// budget.
pub struct UploadMode {
    pub filter: Vec<String>,
    pub budget: usize,
    pub left: usize,
}

impl UploadMode {
    /// The remaining count never exceeds the configured budget.
    pub open spec fn wf(self) -> bool {
        self.left <= self.budget
    }

    /// Configures upload mode: the positional paths become the name
    /// filter, and the whole count is still available.
    pub fn new_upload(filter: Vec<String>, count: usize) -> (s: UploadMode)
        ensures
            s.filter == filter,
            s.budget == count,
            s.left == count,
            s.wf(),
    {
        UploadMode { filter, budget: count, left: count }
    }

    /// Whether the name filter admits `name`; an empty filter admits
    /// every name.
    pub open spec fn filter_admits(self, name: Seq<char>) -> bool {
        self.filter.deep_view().len() == 0 || self.filter.deep_view().contains(name)
    }

    /// Whether the bounded accept budget is spent.
    pub open spec fn exhausted(self) -> bool {
        self.budget != 0 && self.left == 0
    }

    /// Whether an upload declaring `name` is admitted in this state.
    pub open spec fn admits(self, name: Seq<char>) -> bool {
        !self.exhausted() && self.filter_admits(name)
    }

    /// The state after one accepted upload: a bounded budget has one
    /// accept fewer; an unlimited one is unchanged.
    pub open spec fn after_accept(self) -> UploadMode {
        if self.budget == 0 {
            self
        } else {
            UploadMode { left: (self.left - 1) as usize, ..self }
        }
    }

    /// Admits or rejects one `PUT /upload` request from the declared
    /// name, and spends one accept of a bounded budget on success. A
    /// missing `File-Name` header is answered 400; a name a nonempty
    /// filter does not allow is answered 200 and silently discarded; a
    /// spent budget is answered 503.
    pub fn admission(&mut self, file_name: Option<&String>) -> (r: RequestOutcome)
        requires
            old(self).wf(),
        ensures
            final(self).wf(),
            final(self).filter == old(self).filter,
            final(self).budget == old(self).budget,
            (r is AcceptUpload) <==> match file_name {
                Some(n) => old(self).admits(n@),
                None => false,
            },
            old(self).exhausted() ==> r == RequestOutcome::RejectUpload(RejectReason::BudgetSpent)
                && *final(self) == *old(self),
            !old(self).exhausted() ==> match file_name {
                None => r == RequestOutcome::RejectUpload(RejectReason::MissingHeader)
                    && *final(self) == *old(self),
                Some(n) => {
                    if old(self).filter_admits(n@) {
                        (r matches RequestOutcome::AcceptUpload(m) && m@ == n@)
                            && *final(self) == old(self).after_accept()
                    } else {
                        r == RequestOutcome::RejectUpload(RejectReason::FilteredOut)
                            && *final(self) == *old(self)
                    }
                },
            },
    {
        if self.budget != 0 && self.left == 0 {
            return RequestOutcome::RejectUpload(RejectReason::BudgetSpent);
        }
        match file_name {
            None => RequestOutcome::RejectUpload(RejectReason::MissingHeader),
            Some(n) => {
                let filtered = self.filter.len() > 0 && !text::vec_contains_string(
                    &self.filter,
                    n.as_str(),
                );
                if filtered {
                    RequestOutcome::RejectUpload(RejectReason::FilteredOut)
                } else {
                    if self.budget != 0 {
                        self.left = self.left - 1;
                    }
                    RequestOutcome::AcceptUpload(n.clone())
                }
            }
        }
    }

    /// Decides an upload-mode request: `/` serves the upload form, a
    /// `PUT` on `/upload` goes through admission, any other method on
    /// `/upload` is redirected to the form, and everything else is 404.
    pub fn dispatch_upload(&mut self, is_put: bool, url: &str, file_name: Option<&String>) -> (r:
        RequestOutcome)
        requires
            old(self).wf(),
        ensures
            final(self).wf(),
            final(self).filter == old(self).filter,
            final(self).budget == old(self).budget,
            url@ == "/"@ ==> r == RequestOutcome::ServeIndex && *final(self) == *old(self),
            url@ != "/"@ && url@ != "/upload"@ ==> r == RequestOutcome::NotFound
                && *final(self) == *old(self),
            url@ == "/upload"@ && !is_put ==> r == RequestOutcome::RedirectUploadForm
                && *final(self) == *old(self),
            url@ == "/upload"@ && is_put ==> ({
                &&& old(self).exhausted() ==> r == RequestOutcome::RejectUpload(
                    RejectReason::BudgetSpent,
                ) && *final(self) == *old(self)
                &&& !old(self).exhausted() ==> match file_name {
                    None => r == RequestOutcome::RejectUpload(RejectReason::MissingHeader)
                        && *final(self) == *old(self),
                    Some(n) => {
                        if old(self).filter_admits(n@) {
                            (r matches RequestOutcome::AcceptUpload(m) && m@ == n@)
                                && *final(self) == old(self).after_accept()
                        } else {
                            r == RequestOutcome::RejectUpload(RejectReason::FilteredOut)
                                && *final(self) == *old(self)
                        }
                    },
                }
            }),
    {
        proof {
            reveal_strlit("/");
            reveal_strlit("/upload");
            assert("/"@.len() == 1 && "/upload"@.len() == 7);
        }
        if text::str_eq(url, "/") {
            return RequestOutcome::ServeIndex;
        }
        if !text::str_eq(url, "/upload") {
            return RequestOutcome::NotFound;
        }
        if !is_put {
            return RequestOutcome::RedirectUploadForm;
        }
        self.admission(file_name)
    }
}

/// Budget law: a spent bounded budget admits no upload; an accepted
/// upload under a bounded budget spends exactly one accept, and
/// spending the last one exhausts the state; an unlimited budget
/// (count 0) never exhausts.
pub proof fn lemma_upload_budget(p: UploadMode, name: Seq<char>)
    requires
        p.wf(),
    ensures
        p.exhausted() ==> !p.admits(name),
        p.admits(name) ==> p.after_accept().wf(),
        p.budget != 0 && p.admits(name) ==> p.after_accept().left == p.left - 1,
        p.budget != 0 && p.left == 1 && p.admits(name) ==> p.after_accept().exhausted(),
        p.budget == 0 ==> !p.exhausted() && !p.after_accept().exhausted(),
{
}

} // verus!
