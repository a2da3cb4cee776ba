//! Finding a reference module: a depth-first walk over the running
//! kernel's module directory tree, on an explicit stack, looking for the
//! first regular file whose name carries a recognized module suffix.
//!
//! The walk itself cannot read directories; its driver lists one directory
//! at a time and hands the entries back.  Every decision — what to descend
//! into, what to skip, what counts as a find — is made here.

use vstd::prelude::*;
use vstd::slice::slice_to_vec;
use crate::compress::{spec_classify, ModuleCompression};

verus! {

/// What a directory entry is, as far as the walk cares.
#[derive(Clone, Copy, Debug, PartialEq, Eq, Structural)]
pub enum DirEntryKind {
    File,
    Dir,
    Symlink,
    Other,
}

/// One listed directory entry: its bare name, its full path, and its kind.
pub struct DirEntryInfo {
    pub name: Vec<u8>,
    pub path: Vec<u8>,
    pub kind: DirEntryKind,
}

/// The path prefix under which the running kernel's modules live.
pub open spec fn spec_modules_prefix() -> Seq<u8> {
    seq![
        47u8, 117u8, 115u8, 114u8, 47u8, 108u8, 105u8, 98u8, 47u8, 109u8, 111u8, 100u8, 117u8,
        108u8, 101u8, 115u8, 47u8,
    ]
}

/// The root of the search tree for a kernel release: the module prefix,
/// the release string, and a trailing slash.
pub fn module_search_root(release: &[u8]) -> (r: Vec<u8>)
    ensures
        r@ == spec_modules_prefix() + release@ + seq![47u8],
{
    let prefix: [u8; 17] = [
        47, 117, 115, 114, 47, 108, 105, 98, 47, 109, 111, 100, 117, 108, 101, 115, 47,
    ];
    let mut out = slice_to_vec(prefix.as_slice());
    let n = release.len();
    let mut i: usize = 0;
    while i < n
        invariant
            0 <= i <= n,
            n == release@.len(),
            out@ == prefix@ + release@.take(i as int),
        decreases n - i,
    {
        out.push(release[i]);
        proof {
            assert(prefix@ + release@.take(i + 1) =~= (prefix@ + release@.take(i as int)).push(
                release@[i as int],
            ));
        }
        i += 1;
    }
    out.push(47);
    proof {
        assert(release@.take(n as int) =~= release@);
        assert(prefix@ =~= spec_modules_prefix());
        assert(spec_modules_prefix() + release@ + seq![47u8] =~= (prefix@ + release@).push(47u8));
    }
    out
}

/// The index of the first entry from `i` on that the walk returns: a
/// regular file whose name carries a recognized suffix.
pub open spec fn spec_first_module(entries: Seq<DirEntryInfo>, i: int) -> Option<int>
    decreases entries.len() - i,
{
    if i < 0 || i >= entries.len() {
        None
    } else if entries[i].kind == DirEntryKind::File && spec_classify(entries[i].name@) is Some {
        Some(i)
    } else {
        spec_first_module(entries, i + 1)
    }
}

/// The paths of the directories among the first `upto` entries, in order:
/// what a scan pushes before it stops.
pub open spec fn spec_dir_paths(entries: Seq<DirEntryInfo>, upto: int) -> Seq<Seq<u8>>
    decreases upto,
{
    if upto <= 0 || upto > entries.len() {
        Seq::<Seq<u8>>::empty()
    } else {
        let rest = spec_dir_paths(entries, upto - 1);
        if entries[upto - 1].kind == DirEntryKind::Dir {
            rest.push(entries[upto - 1].path@)
        } else {
            rest
        }
    }
}

/// The views of a stack of paths.
pub open spec fn spec_paths_of(stack: Seq<Vec<u8>>) -> Seq<Seq<u8>>
    decreases stack.len(),
{
    if stack.len() == 0 {
        Seq::<Seq<u8>>::empty()
    } else {
        spec_paths_of(stack.drop_last()).push(stack.last()@)
    }
}

/// A depth-first walk in flight: the directories still to be listed.
pub struct ModuleSearch {
    pub stack: Vec<Vec<u8>>,
}

impl ModuleSearch {
    /// Opens the walk at the root directory.
    pub fn start(root: Vec<u8>) -> (r: ModuleSearch)
        ensures
            spec_paths_of(r.stack@) == seq![root@],
    {
        let mut stack: Vec<Vec<u8>> = Vec::new();
        stack.push(root);
        proof {
            assert(stack@.drop_last() =~= Seq::<Vec<u8>>::empty());
            assert(spec_paths_of(Seq::<Vec<u8>>::empty()) =~= Seq::<Seq<u8>>::empty());
            assert(spec_paths_of(stack@) =~= seq![stack@.last()@]);
        }
        ModuleSearch { stack }
    }

    /// The next directory to list, taken off the stack; `None` when the
    /// tree is exhausted and the search has failed.
    pub fn next_dir(&mut self) -> (r: Option<Vec<u8>>)
        ensures
            old(self).stack@.len() == 0 ==> (r is None && final(self).stack@ == old(self).stack@),
            old(self).stack@.len() > 0 ==> (r matches Some(d) && d@ == old(self).stack@.last()@
                && final(self).stack@ == old(self).stack@.drop_last()),
    {
        self.stack.pop()
    }

    /// Scans one directory's entries in order: descends into directories by
    /// pushing them, skips symbolic links and anything else that is not a
    /// regular file, and stops at the first file whose name classifies,
    /// returning its path and compression kind.
    pub fn scan(&mut self, entries: &Vec<DirEntryInfo>) -> (r: Option<(Vec<u8>, ModuleCompression)>)
        ensures
            match spec_first_module(entries@, 0) {
                Some(j) => (r matches Some(found) && found.0@ == entries@[j].path@ && Some(
                    found.1,
                ) == spec_classify(entries@[j].name@) && spec_paths_of(final(self).stack@)
                    == spec_paths_of(old(self).stack@) + spec_dir_paths(entries@, j)),
                None => r is None && spec_paths_of(final(self).stack@) == spec_paths_of(
                    old(self).stack@,
                ) + spec_dir_paths(entries@, entries@.len() as int),
            },
    {
        let n = entries.len();
        let mut i: usize = 0;
        proof {
            assert(spec_paths_of(self.stack@) + spec_dir_paths(entries@, 0) =~= spec_paths_of(
                self.stack@,
            ));
        }
        while i < n
            invariant
                0 <= i <= n,
                n == entries@.len(),
                spec_first_module(entries@, 0) == spec_first_module(entries@, i as int),
                spec_paths_of(self.stack@) == spec_paths_of(old(self).stack@) + spec_dir_paths(
                    entries@,
                    i as int,
                ),
            decreases n - i,
        {
            let ghost pre_stack = self.stack@;
            let entry = &entries[i];
            match entry.kind {
                DirEntryKind::Dir => {
                    self.stack.push(slice_to_vec(entry.path.as_slice()));
                    proof {
                        assert(self.stack@.drop_last() =~= pre_stack);
                        assert(spec_paths_of(self.stack@) == spec_paths_of(pre_stack).push(
                            entries@[i as int].path@,
                        ));
                        assert(spec_dir_paths(entries@, i + 1) == spec_dir_paths(
                            entries@,
                            i as int,
                        ).push(entries@[i as int].path@));
                        assert(spec_paths_of(old(self).stack@) + spec_dir_paths(entries@, i + 1)
                            =~= (spec_paths_of(old(self).stack@) + spec_dir_paths(
                            entries@,
                            i as int,
                        )).push(entries@[i as int].path@));
                    }
                },
                DirEntryKind::File => {
                    match ModuleCompression::from_name(entry.name.as_slice()) {
                        Ok(kind) => {
                            assert(spec_first_module(entries@, i as int) == Some(i as int));
                            return Some((slice_to_vec(entry.path.as_slice()), kind));
                        },
                        Err(_) => {
                            assert(spec_dir_paths(entries@, i + 1) == spec_dir_paths(
                                entries@,
                                i as int,
                            ));
                        },
                    }
                },
                _ => {
                    assert(spec_dir_paths(entries@, i + 1) == spec_dir_paths(entries@, i as int));
                },
            }
            i += 1;
        }
        None
    }
}

} // verus!
