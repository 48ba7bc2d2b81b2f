//! Paths as component lists. A path is held as the sequence of its
//! components, each component as its bytes, so that the prefix test the
//! filter needs is component-wise, as a path prefix is: `/a/b` is a
//! prefix of `/a/b/c` but not of `/a/bc`.

use vstd::prelude::*;

verus! {

/// The mathematical value of a component list: the sequence of the
/// components' byte sequences.
pub open spec fn path_view(p: Seq<Vec<u8>>) -> Seq<Seq<u8>> {
    Seq::new(p.len(), |i: int| p[i]@)
}

/// Whether `prefix` is a component-wise prefix of `path`.
pub open spec fn is_prefix_of(prefix: Seq<Seq<u8>>, path: Seq<Seq<u8>>) -> bool {
    prefix.len() <= path.len() && forall|k: int|
        0 <= k < prefix.len() ==> path[k] == prefix[k]
}

/// Byte-wise equality of two components.
fn comp_eq(a: &Vec<u8>, b: &Vec<u8>) -> (r: bool)
    ensures
        r == (a@ == b@),
{
    if a.len() != b.len() {
        return false;
    }
    let mut i: usize = 0;
    while i < a.len()
        invariant
            i <= a.len(),
            a.len() == b.len(),
            forall|k: int| 0 <= k < i ==> a@[k] == b@[k],
        decreases a.len() - i,
    {
        if a[i] != b[i] {
            return false;
        }
        i = i + 1;
    }
    proof {
        assert(a@ =~= b@);
    }
    true
}

/// Component-wise equality of two paths.
pub fn path_eq(a: &Vec<Vec<u8>>, b: &Vec<Vec<u8>>) -> (r: bool)
    ensures
        r == (path_view(a@) == path_view(b@)),
{
    if a.len() != b.len() {
        proof {
            assert(path_view(a@).len() != path_view(b@).len());
        }
        return false;
    }
    let mut i: usize = 0;
    while i < a.len()
        invariant
            i <= a.len(),
            a.len() == b.len(),
            forall|k: int| 0 <= k < i ==> a@[k]@ == b@[k]@,
        decreases a.len() - i,
    {
        if !comp_eq(&a[i], &b[i]) {
            proof {
                assert(path_view(a@)[i as int] != path_view(b@)[i as int]);
            }
            return false;
        }
        i = i + 1;
    }
    proof {
        assert(path_view(a@) =~= path_view(b@));
    }
    true
}

/// Whether `path` starts with `prefix`, component-wise. This is the test
/// that keeps the version-control metadata directory from triggering
/// runs.
pub fn starts_with(path: &Vec<Vec<u8>>, prefix: &Vec<Vec<u8>>) -> (r: bool)
    ensures
        r == is_prefix_of(path_view(prefix@), path_view(path@)),
{
    if prefix.len() > path.len() {
        return false;
    }
    let mut i: usize = 0;
    while i < prefix.len()
        invariant
            i <= prefix.len(),
            prefix.len() <= path.len(),
            forall|k: int| 0 <= k < i ==> path@[k]@ == prefix@[k]@,
        decreases prefix.len() - i,
    {
        if !comp_eq(&path[i], &prefix[i]) {
            proof {
                assert(path_view(path@)[i as int] != path_view(prefix@)[i as int]);
            }
            return false;
        }
        i = i + 1;
    }
    true
}

} // verus!
