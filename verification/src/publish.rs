//! The publisher's per-tick logic: turn one round of readings into a
//! snapshot and commit it, or keep the previous snapshot when the
//! round failed.

use crate::snapshot::Snapshot;
use crate::store::SharedState;
use vstd::prelude::*;

verus! {

/// What one tick leaves as the current snapshot: a successful round of
/// readings replaces it wholesale, a failed round keeps it.
pub fn next_snapshot(current: Snapshot, sampled: Option<Snapshot>) -> (next: Snapshot)
    ensures
        sampled is Some ==> next == sampled->Some_0,
        sampled is None ==> next == current,
{
    match sampled {
        Option::Some(s) => s,
        Option::None => current,
    }
}

/// One tick of the publisher against the store. A successful round of
/// readings (one usage in tenths of a percent per core, in core order)
/// is committed wholesale; a failed round commits nothing, so readers
/// keep the previous complete snapshot. Returns whether a commit
/// happened, which it does exactly when the round succeeded.
pub fn publish_tick(store: &SharedState, readings: Option<Vec<u32>>) -> (committed: bool)
    ensures
        committed == readings is Some,
{
    match readings {
        Option::Some(u) => {
            let snap = Snapshot::from_usage_tenths(&u);
            store.write(snap);
            true
        },
        Option::None => false,
    }
}

} // verus!
