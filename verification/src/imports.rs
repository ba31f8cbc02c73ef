//! Resolution of textual source import directives: a requested name, as
//! written in the source, is joined with the origin file's directory into one
//! concrete path, and that path names the text to substitute.
//!
//! The joined path's string form is kept as the resolved name, not reduced to
//! a bare file name, so diagnostics reference a disambiguated path. Recursive
//! resolution passes the imported file's own directory as the new origin.

use vstd::prelude::*;
use vstd::string::StrSliceExecFns;
use vstd::string::StringExecFns;
use crate::shader::ShaderError;

verus! {

/// Position of the last separator in `p`, or -1 when `p` has none.
pub open spec fn last_separator_index(p: Seq<char>) -> int
    decreases p.len(),
{
    if p.len() == 0 {
        -1
    } else if p[p.len() - 1] == '/' {
        p.len() - 1
    } else {
        last_separator_index(p.drop_last())
    }
}

/// What `parent_dir` computes: the characters before the last separator, or
/// the empty sequence when there is none. A name without a separator, or with
/// only a leading one, therefore has the empty directory as its parent, and
/// its siblings resolve as relative names.
pub open spec fn spec_parent_dir(p: Seq<char>) -> Seq<char> {
    if last_separator_index(p) < 0 {
        Seq::empty()
    } else {
        p.subrange(0, last_separator_index(p))
    }
}

proof fn lemma_last_separator_found(p: Seq<char>, j: int)
    requires
        0 <= j < p.len(),
        p[j] == '/',
        forall|k: int| j < k < p.len() ==> p[k] != '/',
    ensures
        last_separator_index(p) == j,
    decreases p.len(),
{
    if j < p.len() - 1 {
        lemma_last_separator_found(p.drop_last(), j);
    }
}

proof fn lemma_no_separator(p: Seq<char>)
    requires
        forall|k: int| 0 <= k < p.len() ==> p[k] != '/',
    ensures
        last_separator_index(p) == -1,
    decreases p.len(),
{
    if p.len() > 0 {
        lemma_no_separator(p.drop_last());
    }
}

/// The directory part of a path: everything before the last separator, empty
/// when there is none.
pub fn parent_dir(p: &str) -> (r: String)
    ensures
        r@ == spec_parent_dir(p@),
{
    let n = p.unicode_len();
    let mut i: usize = n;
    while i > 0
        invariant
            i <= n,
            n == p@.len(),
            forall|k: int| i <= k < p@.len() ==> p@[k] != '/',
        decreases i,
    {
        if p.get_char(i - 1) == '/' {
            let d = p.substring_char(0, i - 1);
            proof {
                lemma_last_separator_found(p@, i - 1);
            }
            return d.to_owned();
        }
        i -= 1;
    }
    proof {
        lemma_no_separator(p@);
    }
    String::new()
}

/// What `join_path` computes: an absolute `name` stands alone; otherwise
/// `name` follows `dir` behind exactly one separator; an empty `dir` leaves
/// `name` as it is.
pub open spec fn spec_join_path(dir: Seq<char>, name: Seq<char>) -> Seq<char> {
    if name.len() > 0 && name[0] == '/' {
        name
    } else if dir.len() == 0 {
        name
    } else if dir[dir.len() - 1] == '/' {
        dir + name
    } else {
        dir + seq!['/'] + name
    }
}

/// Join a requested name onto an origin directory as a filesystem path.
pub fn join_path(dir: &str, name: &str) -> (r: String)
    ensures
        r@ == spec_join_path(dir@, name@),
{
    let name_len = name.unicode_len();
    if name_len > 0 && name.get_char(0) == '/' {
        return name.to_owned();
    }
    let dir_len = dir.unicode_len();
    if dir_len == 0 {
        return name.to_owned();
    }
    let mut r = dir.to_owned();
    if dir.get_char(dir_len - 1) != '/' {
        r.append("/");
    }
    r.append(name);
    proof {
        reveal_strlit("/");
        assert(r@ =~= spec_join_path(dir@, name@));
    }
    r
}

/// A successfully resolved import: the joined path's string form, used in
/// diagnostics and as the origin of nested resolution, and the source text it
/// names.
#[derive(Clone, Debug)]
pub struct ResolvedImport {
    pub resolved_name: String,
    pub content: String,
}

/// What looking a path up among the entries yields: the text of the first
/// entry whose path matches, or nothing.
pub open spec fn lookup_entries(entries: Seq<(String, String)>, path: Seq<char>) -> Option<
    Seq<char>,
>
    decreases entries.len(),
{
    if entries.len() == 0 {
        None
    } else if entries[0].0@ == path {
        Some(entries[0].1@)
    } else {
        lookup_entries(entries.drop_first(), path)
    }
}

/// An in-memory store of import targets, one entry per concrete path. It
/// stands for whatever medium holds the importable sources; resolution reads
/// it and nothing else, so resolving the same name from the same origin
/// always yields the same text.
#[derive(Clone, Debug)]
pub struct ImportStore {
    pub entries: Vec<(String, String)>,
}

impl ImportStore {
    /// The text stored under `path`, if any.
    pub open spec fn spec_lookup(self, path: Seq<char>) -> Option<Seq<char>> {
        lookup_entries(self.entries@, path)
    }

    /// An empty store: every resolution fails.
    pub fn new() -> (r: ImportStore)
        ensures
            r.entries@.len() == 0,
    {
        ImportStore { entries: Vec::new() }
    }

    /// Store `content` under the concrete path `path`.
    pub fn add(&mut self, path: String, content: String)
        ensures
            final(self).entries@ == old(self).entries@.push((path, content)),
    {
        self.entries.push((path, content));
    }

    fn lookup(&self, path: &String) -> (r: Option<&String>)
        ensures
            match r {
                Some(c) => self.spec_lookup(path@) == Some(c@),
                None => self.spec_lookup(path@) is None,
            },
    {
        let mut i: usize = 0;
        proof {
            assert(self.entries@.skip(0) =~= self.entries@);
        }
        while i < self.entries.len()
            invariant
                i <= self.entries@.len(),
                lookup_entries(self.entries@.skip(i as int), path@) == lookup_entries(
                    self.entries@,
                    path@,
                ),
            decreases self.entries@.len() - i,
        {
            let ghost rest = self.entries@.skip(i as int);
            proof {
                assert(rest[0] == self.entries@[i as int]);
            }
            if self.entries[i].0 == *path {
                return Some(&self.entries[i].1);
            }
            proof {
                assert(rest.drop_first() =~= self.entries@.skip(i as int + 1));
            }
            i += 1;
        }
        proof {
            assert(self.entries@.skip(i as int) =~= Seq::<(String, String)>::empty());
        }
        None
    }

    /// Resolve a requested import, as written in the source, against the
    /// origin file's directory: join the two into one concrete path and read
    /// that path's text from the store. Succeeds exactly when the store holds
    /// the joined path; failure names that path.
    pub fn resolve(&self, origin_dir: &str, requested: &str) -> (r: Result<
        ResolvedImport,
        ShaderError,
    >)
        ensures
            match r {
                Ok(ri) => {
                    &&& ri.resolved_name@ == spec_join_path(origin_dir@, requested@)
                    &&& self.spec_lookup(spec_join_path(origin_dir@, requested@)) == Some(
                        ri.content@,
                    )
                },
                Err(e) => {
                    &&& self.spec_lookup(spec_join_path(origin_dir@, requested@)) is None
                    &&& e matches ShaderError::ImportResolutionFailure(p) && p@ == spec_join_path(
                        origin_dir@,
                        requested@,
                    )
                },
            },
    {
        let path = join_path(origin_dir, requested);
        match self.lookup(&path) {
            Some(content) => {
                let content = content.clone();
                Ok(ResolvedImport { resolved_name: path, content })
            },
            None => Err(ShaderError::ImportResolutionFailure(path)),
        }
    }
}

} // verus!
