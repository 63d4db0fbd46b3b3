//! The shared state store: the single current snapshot, written by the
//! publisher and read by any number of concurrent delivery channels.

use crate::snapshot::Snapshot;
use vstd::prelude::*;
use vstd::rwlock::{RwLock, RwLockPredicate};

verus! {

/// The lock's invariant: only well-formed snapshots are ever stored,
/// so a completed read can never observe a torn or inconsistent one.
pub struct WfSnapshot {}

impl RwLockPredicate<Snapshot> for WfSnapshot {
    open spec fn inv(self, s: Snapshot) -> bool {
        s.wf()
    }
}

/// Holds the latest snapshot. Writes are serialized by the lock;
/// concurrent reads proceed without serializing against each other,
/// and every read hands back its own complete copy, never a
/// live-mutable reference.
pub struct SharedState {
    lock: RwLock<Snapshot, WfSnapshot>,
}

impl SharedState {
    /// All access goes through vstd's verified reader-writer lock,
    /// with `WfSnapshot` pinned as its invariant.
    #[verifier::type_invariant]
    pub closed spec fn wf(&self) -> bool {
        self.lock.pred() == (WfSnapshot {  })
    }

    /// The store starts out holding the zero snapshot.
    pub fn new() -> (st: SharedState) {
        SharedState { lock: RwLock::new(Snapshot::empty(), Ghost(WfSnapshot {  })) }
    }

    /// Returns the reader's own copy of a snapshot that some completed
    /// write (or the initial empty state) put there: always a complete,
    /// well-formed snapshot, never a mix of two writes.
    pub fn read(&self) -> (s: Snapshot)
        ensures
            s.wf(),
    {
        proof {
            use_type_invariant(self);
        }
        let handle = self.lock.acquire_read();
        let s = handle.borrow().duplicate();
        handle.release_read();
        s
    }

    /// Atomically replaces the stored snapshot with `s`.
    pub fn write(&self, s: Snapshot)
        requires
            s.wf(),
    {
        proof {
            use_type_invariant(self);
        }
        let (_prev, handle) = self.lock.acquire_write();
        handle.release_write(s);
    }
}

} // verus!
