//! Startup sequencer: the two checkpoints that must both complete before
//! the session opens. The dataset checkpoint runs only on operator request;
//! the index checkpoint builds the index exactly once, only where none
//! exists. The filesystem probe and the build itself happen outside this
//! crate and report back as plain values.

use vstd::prelude::*;

verus! {

/// What the sequencer has decided to run before the session opens.
#[derive(Debug, PartialEq, Eq, Structural)]
pub struct StartupPlan {
    pub download: bool,
    pub build_index: bool,
}

/// Whether the index checkpoint performs a build, given whether the index
/// already exists on disk.
pub open spec fn checkpoint_builds(index_exists: bool) -> bool {
    !index_exists
}

/// Whether the index exists once the checkpoint has completed: always, for
/// it either found one or built one.
pub open spec fn exists_after_checkpoint(index_exists: bool) -> bool {
    true
}

/// Decides the whole startup sequence: the dataset is refreshed exactly when
/// the operator flag asks for it, and the index is built exactly when none
/// exists yet. Both decisions are fixed before any work runs.
pub fn startup_plan(download_requested: bool, index_exists: bool) -> (p: StartupPlan)
    ensures
        p.download == download_requested,
        p.build_index == checkpoint_builds(index_exists),
{
    StartupPlan { download: download_requested, build_index: !index_exists }
}

/// Runs the index checkpoint over its model state: returns whether the index
/// exists afterwards and whether a build was performed.
pub fn index_checkpoint(index_exists: bool) -> (r: (bool, bool))
    ensures
        r.0 == exists_after_checkpoint(index_exists),
        r.1 == checkpoint_builds(index_exists),
{
    (true, !index_exists)
}

/// The index checkpoint is idempotent: a run on an already-built index does
/// no rebuild work, and after any first run the second run never rebuilds.
pub proof fn lemma_index_checkpoint_idempotent(index_exists: bool)
    ensures
        index_exists ==> !checkpoint_builds(index_exists),
        !checkpoint_builds(exists_after_checkpoint(index_exists)),
{
}

} // verus!
