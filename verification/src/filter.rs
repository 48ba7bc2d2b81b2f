//! The path filter: decides whether a raw change notification is
//! delivered to the scheduler. A change inside the version-control
//! metadata directory is always discarded, by a direct path-prefix
//! comparison; otherwise the external ignore check decides, and if that
//! check itself failed to execute the filter fails open and treats the
//! path as not ignored.

use vstd::prelude::*;

use crate::paths::is_prefix_of;
use crate::scheduler::Msg;
use crate::scheduler::SchedulerState;

verus! {

/// What the external ignore check said about a path.
#[derive(Clone, Copy, PartialEq, Eq, Structural, Debug)]
pub enum IgnoreCheck {
    /// The check ran and reported the path ignored.
    Ignored,
    /// The check ran and reported the path not ignored; also used where
    /// the check was never run because the path cannot be handed to it.
    NotIgnored,
    /// The check itself failed to execute (missing binary, indeterminate
    /// error).
    Failed,
}

/// Whether a path with this check outcome counts as ignored: only a
/// positive answer does; a failed check fails open.
pub open spec fn ignored_spec(c: IgnoreCheck) -> bool {
    c is Ignored
}

/// The fail-open interpretation of the ignore check's outcome.
pub fn is_ignored(c: IgnoreCheck) -> (r: bool)
    ensures
        r == ignored_spec(c),
{
    match c {
        IgnoreCheck::Ignored => true,
        IgnoreCheck::NotIgnored => false,
        IgnoreCheck::Failed => false,
    }
}

/// Whether a change at `path` is delivered to the scheduler: it must lie
/// outside the metadata directory `vcs_dir` and not count as ignored.
pub open spec fn delivers_spec(vcs_dir: Seq<Seq<u8>>, path: Seq<Seq<u8>>, c: IgnoreCheck) -> bool {
    !is_prefix_of(vcs_dir, path) && !ignored_spec(c)
}

/// The delivery decision for one raw change notification.
pub fn should_deliver(vcs_dir: &Vec<Vec<u8>>, path: &Vec<Vec<u8>>, c: IgnoreCheck) -> (r: bool)
    ensures
        r == delivers_spec(
            crate::paths::path_view(vcs_dir@),
            crate::paths::path_view(path@),
            c,
        ),
{
    if crate::paths::starts_with(path, vcs_dir) {
        return false;
    }
    !is_ignored(c)
}

/// A change strictly inside the version-control metadata directory is
/// never delivered, whatever the ignore check said, so it never produces
/// an invocation: an undelivered change contributes no message to the
/// scheduler.
pub proof fn lemma_metadata_never_delivers(
    vcs_dir: Seq<Seq<u8>>,
    path: Seq<Seq<u8>>,
    c: IgnoreCheck,
)
    requires
        is_prefix_of(vcs_dir, path),
    ensures
        !delivers_spec(vcs_dir, path, c),
{
}

/// A change whose ignore check reported it ignored is never delivered,
/// so it never produces an invocation.
pub proof fn lemma_ignored_never_delivers(vcs_dir: Seq<Seq<u8>>, path: Seq<Seq<u8>>)
    ensures
        !delivers_spec(vcs_dir, path, IgnoreCheck::Ignored),
{
}

/// Fail-open: where the ignore check failed to execute, a change outside
/// the metadata directory is delivered all the same, and while no run is
/// in progress the delivered change triggers a run at once.
pub proof fn lemma_fail_open_delivers(
    vcs_dir: Seq<Seq<u8>>,
    path: Seq<Seq<u8>>,
    s: SchedulerState,
)
    requires
        !is_prefix_of(vcs_dir, path),
        !s.running,
    ensures
        delivers_spec(vcs_dir, path, IgnoreCheck::Failed),
        s.fires_spec(Msg::PathChanged),
{
}

} // verus!
