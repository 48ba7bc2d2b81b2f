//! The set of directories under observation. It holds each directory at
//! most once, grows monotonically, and carries the walk's decision of
//! whether to descend into a directory entry.

use vstd::prelude::*;

use crate::filter::IgnoreCheck;
use crate::filter::ignored_spec;
use crate::paths::is_prefix_of;
use crate::paths::path_view;

verus! {

/// The set of canonical directory paths currently under observation,
/// each held as its component list.
pub struct WatchSet {
    dirs: Vec<Vec<Vec<u8>>>,
}

impl WatchSet {
    /// Whether the set holds the path whose value is `p`.
    pub closed spec fn contains_spec(self, p: Seq<Seq<u8>>) -> bool {
        exists|k: int| 0 <= k < self.dirs@.len() && path_view(self.dirs@[k]@) == p
    }

    /// No directory is held twice.
    pub closed spec fn wf(self) -> bool {
        forall|k1: int, k2: int|
            0 <= k1 < k2 < self.dirs@.len() ==> path_view(self.dirs@[k1]@) != path_view(
                self.dirs@[k2]@,
            )
    }

    /// How many directories the set holds.
    pub closed spec fn len_spec(self) -> nat {
        self.dirs@.len()
    }

    /// The empty watch set.
    pub fn new() -> (ws: WatchSet)
        ensures
            ws.wf(),
            forall|p: Seq<Seq<u8>>| !ws.contains_spec(p),
            ws.len_spec() == 0,
    {
        WatchSet { dirs: Vec::new() }
    }

    /// How many directories are under observation.
    pub fn len(&self) -> (n: usize)
        ensures
            n == self.len_spec(),
    {
        self.dirs.len()
    }

    /// Whether `p` is already under observation.
    pub fn contains(&self, p: &Vec<Vec<u8>>) -> (r: bool)
        ensures
            r == self.contains_spec(path_view(p@)),
    {
        let mut i: usize = 0;
        while i < self.dirs.len()
            invariant
                i <= self.dirs@.len(),
                forall|k: int| 0 <= k < i ==> path_view(self.dirs@[k]@) != path_view(p@),
            decreases self.dirs@.len() - i,
        {
            if crate::paths::path_eq(&self.dirs[i], p) {
                return true;
            }
            i = i + 1;
        }
        false
    }

    /// Add `p` to the set. The set only grows: everything observed
    /// before stays observed, `p` is observed afterwards, nothing else
    /// appears, and no duplicate is ever introduced.
    pub fn insert(&mut self, p: Vec<Vec<u8>>)
        ensures
            final(self).contains_spec(path_view(p@)),
            forall|q: Seq<Seq<u8>>|
                final(self).contains_spec(q) == (old(self).contains_spec(q) || q == path_view(
                    p@,
                )),
            old(self).wf() ==> final(self).wf(),
            final(self).len_spec() == (if old(self).contains_spec(path_view(p@)) {
                old(self).len_spec()
            } else {
                old(self).len_spec() + 1
            }),
    {
        if !self.contains(&p) {
            let ghost before = self.dirs@;
            self.dirs.push(p);
            proof {
                assert(self.dirs@.drop_last() =~= before);
                assert(path_view(self.dirs@[self.dirs@.len() - 1]@) == path_view(p@));
                assert forall|q: Seq<Seq<u8>>|
                    self.contains_spec(q) == (old(self).contains_spec(q) || q == path_view(
                        p@,
                    )) by {
                    if old(self).contains_spec(q) {
                        let k = choose|k: int|
                            0 <= k < before.len() && path_view(before[k]@) == q;
                        assert(path_view(self.dirs@[k]@) == q);
                    }
                    if self.contains_spec(q) {
                        let k = choose|k: int|
                            0 <= k < self.dirs@.len() && path_view(self.dirs@[k]@) == q;
                        if k < before.len() {
                            assert(path_view(before[k]@) == q);
                        }
                    }
                }
            }
        }
    }
}

/// The walk's decision for one directory entry: descend into it, watch
/// it, and record it, exactly when it is a directory that lies outside
/// the version-control metadata directory, is not ignored, and is not
/// already under observation.
pub fn should_descend(
    ws: &WatchSet,
    vcs_dir: &Vec<Vec<u8>>,
    entry: &Vec<Vec<u8>>,
    is_dir: bool,
    c: IgnoreCheck,
) -> (r: bool)
    ensures
        r == (is_dir && !is_prefix_of(path_view(vcs_dir@), path_view(entry@)) && !ignored_spec(c)
            && !ws.contains_spec(path_view(entry@))),
{
    if !is_dir {
        return false;
    }
    if crate::paths::starts_with(entry, vcs_dir) {
        return false;
    }
    if crate::filter::is_ignored(c) {
        return false;
    }
    !ws.contains(entry)
}

} // verus!
