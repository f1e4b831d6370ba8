use vstd::prelude::*;
use crate::text;

verus! {

/// What the filesystem answered when one pending path was probed.
pub enum FsEvent {
    /// The path does not exist: it is skipped silently.
    NotExists,
    /// The path is a leaf file, given by its canonical path.
    Leaf(String),
    /// The path is a directory: its canonical path and the paths of
    /// its entries, in read order.
    Dir(String, Vec<String>),
}

/// The resolved-list transition of one step: only a leaf adds a file.
pub open spec fn step_resolved(resolved: Seq<Seq<char>>, ev: FsEvent) -> Seq<Seq<char>> {
    match ev {
        FsEvent::Leaf(c) => resolved.push(c@),
        _ => resolved,
    }
}

/// The resolved list after a whole run of answers.
pub open spec fn resolved_after(resolved: Seq<Seq<char>>, evs: Seq<FsEvent>) -> Seq<Seq<char>>
    decreases evs.len(),
{
    if evs.len() == 0 {
        resolved
    } else {
        resolved_after(step_resolved(resolved, evs[0]), evs.drop_first())
    }
}

/// Worklist state of the path resolver. The caller pops a pending
/// path, probes the filesystem, and hands the answer back to `step`;
/// when nothing is pending, `resolved` holds every leaf file found,
/// in depth-first traversal order.
pub struct Resolver {
    /// Paths not yet probed, next one first.
    pub pending: Vec<String>,
    /// Canonical directories already expanded: the symlink-cycle guard.
    pub visited: Vec<String>,
    /// Canonical leaf-file paths found so far, in traversal order.
    pub resolved: Vec<String>,
}

impl Resolver {
    /// Starts a resolution of the given input paths.
    pub fn new(paths: Vec<String>) -> (r: Resolver)
        ensures
            r.pending == paths,
            r.visited@.len() == 0,
            r.resolved@.len() == 0,
    {
        Resolver { pending: paths, visited: Vec::new(), resolved: Vec::new() }
    }

    /// Takes the next path to probe; `None` once the worklist is empty.
    pub fn next_pending(&mut self) -> (r: Option<String>)
        ensures
            old(self).pending@.len() == 0 ==> r is None && *final(self) == *old(self),
            old(self).pending@.len() > 0 ==> (r matches Some(p)
                && p@ == old(self).pending.deep_view()[0]
                && final(self).pending.deep_view() == old(self).pending.deep_view().drop_first()
                && final(self).visited == old(self).visited
                && final(self).resolved == old(self).resolved),
    {
        if self.pending.len() == 0 {
            None
        } else {
            let p = self.pending.remove(0);
            proof {
                text::lemma_deep_view_index(&old(self).pending, 0);
                assert(self.pending.deep_view() =~= old(self).pending.deep_view().drop_first());
            }
            Some(p)
        }
    }

    /// Applies one filesystem answer. A missing path changes nothing; a
    /// leaf file joins the resolved list; a directory not yet visited is
    /// marked visited and its entries go to the front of the worklist
    /// (so its contents resolve before its siblings); a directory
    /// already visited — a symlink cycle — is never expanded twice.
    pub fn step(&mut self, ev: FsEvent)
        ensures
            final(self).resolved.deep_view() == step_resolved(old(self).resolved.deep_view(), ev),
            ev matches FsEvent::NotExists ==> *final(self) == *old(self),
            ev matches FsEvent::Leaf(c) ==> final(self).resolved.deep_view()
                == old(self).resolved.deep_view().push(c@)
                && final(self).visited == old(self).visited
                && final(self).pending == old(self).pending,
            ev matches FsEvent::Dir(c, es) ==> ({
                if old(self).visited.deep_view().contains(c@) {
                    *final(self) == *old(self)
                } else {
                    final(self).visited.deep_view() == old(self).visited.deep_view().push(c@)
                        && final(self).pending.deep_view()
                            == es.deep_view() + old(self).pending.deep_view()
                        && final(self).resolved == old(self).resolved
                }
            }),
    {
        match ev {
            FsEvent::NotExists => {}
            FsEvent::Leaf(c) => {
                let ghost old_dv = self.resolved.deep_view();
                let ghost cv = c@;
                self.resolved.push(c);
                proof {
                    assert(self.resolved.deep_view() =~= old_dv.push(cv));
                }
            }
            FsEvent::Dir(c, es) => {
                if !text::vec_contains_string(&self.visited, c.as_str()) {
                    let ghost old_visited_dv = self.visited.deep_view();
                    let ghost cv = c@;
                    let ghost es_dv = es.deep_view();
                    let ghost old_pending_dv = self.pending.deep_view();
                    self.visited.push(c);
                    let mut new_pending = es;
                    new_pending.append(&mut self.pending);
                    self.pending = new_pending;
                    proof {
                        assert(self.visited.deep_view() =~= old_visited_dv.push(cv));
                        assert(self.pending.deep_view() =~= es_dv + old_pending_dv);
                    }
                }
            }
        }
    }
}

/// Resolution law: a run in which no probed path is a leaf file — every
/// input missing, or no input at all — leaves the resolved list exactly
/// as it began; from the empty start, it stays empty.
pub proof fn lemma_no_leaves_resolves_nothing(resolved: Seq<Seq<char>>, evs: Seq<FsEvent>)
    requires
        forall|i: int| 0 <= i < evs.len() ==> !(#[trigger] evs[i] matches FsEvent::Leaf(_)),
    ensures
        resolved_after(resolved, evs) == resolved,
    decreases evs.len(),
{
    if evs.len() > 0 {
        assert(step_resolved(resolved, evs[0]) == resolved);
        assert(forall|i: int|
            0 <= i < evs.drop_first().len() ==> !(#[trigger] evs.drop_first()[i]
                matches FsEvent::Leaf(_)));
        lemma_no_leaves_resolves_nothing(resolved, evs.drop_first());
    }
}

} // verus!
