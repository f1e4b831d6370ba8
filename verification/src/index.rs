use vstd::prelude::*;
use vstd::string::StrSliceExecFns;
use vstd::string::StringExecFns;
use crate::text;

verus! {

/// Index of the last `/` in the path, or -1 if it has none.
pub open spec fn last_slash(p: Seq<char>) -> int
    decreases p.len(),
{
    if p.len() == 0 {
        -1
    } else if p.last() == '/' {
        p.len() - 1
    } else {
        last_slash(p.drop_last())
    }
}

/// The final path component: everything after the last `/`.
pub open spec fn basename_of(p: Seq<char>) -> Seq<char> {
    p.subrange(last_slash(p) + 1, p.len() as int)
}

proof fn lemma_last_slash_at(p: Seq<char>, k: int)
    requires
        0 <= k < p.len(),
        p[k] == '/',
        forall|j: int| k < j < p.len() ==> p[j] != '/',
    ensures
        last_slash(p) == k,
    decreases p.len(),
{
    if k < p.len() - 1 {
        lemma_last_slash_at(p.drop_last(), k);
    }
}

proof fn lemma_last_slash_none(p: Seq<char>)
    requires
        forall|j: int| 0 <= j < p.len() ==> p[j] != '/',
    ensures
        last_slash(p) == -1,
    decreases p.len(),
{
    if p.len() > 0 {
        lemma_last_slash_none(p.drop_last());
    }
}

/// The public name of a hosted path: its final path component.
pub fn basename(path: &str) -> (r: String)
    ensures
        r@ == basename_of(path@),
{
    let n = path.unicode_len();
    let mut i: usize = n;
    while i > 0 && path.get_char(i - 1) != '/'
        invariant
            n == path@.len(),
            i <= n,
            forall|j: int| i <= j < n ==> path@[j] != '/',
        decreases i,
    {
        i -= 1;
    }
    proof {
        if i == 0 {
            lemma_last_slash_none(path@);
        } else {
            lemma_last_slash_at(path@, i - 1);
        }
    }
    let tail = path.substring_char(i, n);
    String::from_str(tail)
}

/// Why building the file index failed.
#[derive(Debug, Clone, PartialEq, Eq)]
pub enum BuildError {
    /// The resolved path list was empty.
    NoFilesGiven,
    /// Two resolved paths share a basename; holds the repeated name.
    DuplicateName(String),
}

impl BuildError {
    /// The error text reported for this failure.
    pub open spec fn message_spec(self) -> Seq<char> {
        match self {
            BuildError::NoFilesGiven => "No files given."@,
            BuildError::DuplicateName(n) => "Duplicate file name \""@ + n@ + "\"."@,
        }
    }

    /// Renders the error for the startup failure report.
    pub fn message(&self) -> (r: String)
        ensures
            r@ == self.message_spec(),
    {
        match self {
            BuildError::NoFilesGiven => String::from_str("No files given."),
            BuildError::DuplicateName(n) => {
                let mut m = String::from_str("Duplicate file name \"");
                m.append(n.as_str());
                m.append("\".");
                proof {
                    assert(m@ =~= self.message_spec());
                }
                m
            }
        }
    }
}

/// The basename of every path, in order.
pub open spec fn basenames(paths: Seq<Seq<char>>) -> Seq<Seq<char>> {
    paths.map_values(|p: Seq<char>| basename_of(p))
}

/// Index-size law: an index whose names are the basenames of the
/// given paths holds exactly one entry per path.
pub proof fn lemma_index_size(ix: FileIndex, paths: Seq<Seq<char>>)
    requires
        ix@ == basenames(paths),
    ensures
        ix@.len() == paths.len(),
{
}

/// Whether the name at `j` repeats an earlier one.
pub open spec fn dup_at(bs: Seq<Seq<char>>, j: int) -> bool {
    exists|i: int| 0 <= i < j && bs[i] == bs[j]
}

/// Whether any name repeats an earlier one.
pub open spec fn has_dup(bs: Seq<Seq<char>>) -> bool {
    exists|j: int| 0 <= j < bs.len() && dup_at(bs, j)
}

/// The fixed set of servable files, keyed by public name. Its view is
/// the sequence of names; well-formedness says no name repeats.
#[derive(Debug)]
pub struct FileIndex {
    pub names: Vec<String>,
}

impl View for FileIndex {
    type V = Seq<Seq<char>>;

    open spec fn view(&self) -> Seq<Seq<char>> {
        self.names.deep_view()
    }
}

impl FileIndex {
    /// No two entries share a public name.
    pub open spec fn wf(self) -> bool {
        forall|i: int, j: int| 0 <= i < j < self@.len() ==> self@[i] != self@[j]
    }

    /// Builds the index from the resolved leaf-file paths: one entry per
    /// path, named by the path's basename, in order. Fails with
    /// `NoFilesGiven` on an empty list and with `DuplicateName` on the
    /// first name that repeats an earlier one.
    pub fn build(paths: &Vec<String>) -> (r: Result<FileIndex, BuildError>)
        ensures
            ({
                let bs = basenames(paths.deep_view());
                match r {
                    Ok(ix) => ix@ == bs && ix@.len() == paths@.len() && paths@.len() > 0
                        && !has_dup(bs) && ix.wf(),
                    Err(e) => match e {
                        BuildError::NoFilesGiven => paths@.len() == 0,
                        BuildError::DuplicateName(n) => exists|j: int|
                            0 <= j < bs.len() && #[trigger] dup_at(bs, j) && n@ == bs[j]
                                && (forall|k: int| 0 <= k < j ==> !dup_at(bs, k)),
                    },
                }
            }),
    {
        let ghost bs = basenames(paths.deep_view());
        if paths.len() == 0 {
            return Err(BuildError::NoFilesGiven);
        }
        let mut names: Vec<String> = Vec::new();
        let mut j: usize = 0;
        while j < paths.len()
            invariant
                bs == basenames(paths.deep_view()),
                bs.len() == paths@.len(),
                j <= paths@.len(),
                names@.len() == j,
                names.deep_view() =~= bs.subrange(0, j as int),
                forall|k: int| 0 <= k < j ==> !dup_at(bs, k),
            decreases paths@.len() - j,
        {
            let name = basename(paths[j].as_str());
            proof {
                assert(name@ == bs[j as int]);
            }
            let mut i: usize = 0;
            while i < names.len()
                invariant
                    bs == basenames(paths.deep_view()),
                    j < paths@.len(),
                    names@.len() == j,
                    names.deep_view() =~= bs.subrange(0, j as int),
                    name@ == bs[j as int],
                    i <= names@.len(),
                    forall|k: int| 0 <= k < j ==> !dup_at(bs, k),
                    forall|k: int| 0 <= k < i ==> bs[k] != name@,
                decreases names@.len() - i,
            {
                let hit = text::str_eq(names[i].as_str(), name.as_str());
                proof {
                    text::lemma_deep_view_index(&names, i as int);
                    assert(bs[i as int] == names@[i as int]@);
                }
                if hit {
                    proof {
                        assert(bs[i as int] == bs[j as int]);
                        assert(dup_at(bs, j as int));
                        assert(bs == basenames(paths.deep_view()));
                        assert(exists|d: int|
                            0 <= d < bs.len() && #[trigger] dup_at(bs, d) && name@ == bs[d]
                                && (forall|k: int| 0 <= k < d ==> !dup_at(bs, k)));
                    }
                    return Err(BuildError::DuplicateName(name));
                }
                i += 1;
            }
            proof {
                assert(forall|k: int| 0 <= k < j ==> bs[k] != bs[j as int]);
                assert(!dup_at(bs, j as int));
            }
            let ghost old_dv = names.deep_view();
            names.push(name);
            proof {
                assert(names.deep_view() =~= old_dv.push(bs[j as int]));
                assert(names.deep_view() =~= bs.subrange(0, (j + 1) as int));
            }
            j += 1;
        }
        proof {
            assert(names.deep_view() =~= bs);
            assert forall|a: int, b: int| 0 <= a < b < bs.len() implies bs[a] != bs[b] by {
                if bs[a] == bs[b] {
                    assert(dup_at(bs, b));
                }
            }
            assert(!has_dup(bs));
        }
        Ok(FileIndex { names })
    }

    /// How many files are indexed.
    pub fn len(&self) -> (n: usize)
        ensures
            n == self@.len(),
    {
        self.names.len()
    }

    /// The public name at position `i`.
    pub fn name_at(&self, i: usize) -> (r: &String)
        requires
            i < self@.len(),
        ensures
            r@ == self@[i as int],
    {
        &self.names[i]
    }

    /// The position of `name` in the index, if it is indexed.
    pub fn lookup(&self, name: &str) -> (r: Option<usize>)
        ensures
            match r {
                Some(i) => i < self@.len() && self@[i as int] == name@,
                None => !self@.contains(name@),
            },
    {
        let n = self.names.len();
        let mut i: usize = 0;
        while i < n
            invariant
                n == self@.len(),
                i <= n,
                forall|j: int| 0 <= j < i ==> self@[j] != name@,
            decreases n - i,
        {
            if text::str_eq(self.names[i].as_str(), name) {
                return Some(i);
            }
            i += 1;
        }
        proof {
            assert(forall|j: int| 0 <= j < self@.len() ==> self@[j] != name@);
        }
        None
    }
}

} // verus!
