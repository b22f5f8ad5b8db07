//! Workspace identities: one uniquely named working directory per job.
//!
//! The manager here decides only the identity of each workspace — a serial
//! number that never repeats, bound to the job it was made for.  Creating
//! and removing the directory itself is the driver's task.

use vstd::prelude::*;

verus! {

/// The identity of one job's isolated working directory: the job it was
/// made for and a serial no other workspace of the same namer carries.
#[derive(Clone, Copy, Debug, PartialEq, Eq, Structural)]
pub struct WorkspaceTag {
    pub job_id: u64,
    pub serial: u64,
}

/// Hands out workspace identities, never the same serial twice.
pub struct WorkspaceNamer {
    next_serial: u64,
    issued: Ghost<Set<u64>>,
}

impl WorkspaceNamer {
    /// The serials handed out so far.
    pub closed spec fn issued(&self) -> Set<u64> {
        self.issued@
    }

    /// The serial the next identity will carry.
    pub closed spec fn next(&self) -> u64 {
        self.next_serial
    }

    /// Every issued serial lies below the next one, so the next is fresh.
    pub closed spec fn wf(&self) -> bool {
        forall|s: u64| #[trigger] self.issued@.contains(s) ==> s < self.next_serial
    }

    /// A namer that has issued nothing.
    pub fn new() -> (r: Self)
        ensures
            r.wf(),
            r.issued() == Set::<u64>::empty(),
            r.next() == 0,
    {
        WorkspaceNamer { next_serial: 0, issued: Ghost(Set::empty()) }
    }

    /// A fresh workspace identity for `job_id`: its serial collides with no
    /// identity this namer handed out before, however many jobs run at once.
    pub fn fresh(&mut self, job_id: u64) -> (t: WorkspaceTag)
        requires
            old(self).wf(),
            old(self).next() < u64::MAX,
        ensures
            final(self).wf(),
            t.job_id == job_id,
            t.serial == old(self).next(),
            !old(self).issued().contains(t.serial),
            final(self).issued() == old(self).issued().insert(t.serial),
            final(self).next() == old(self).next() + 1,
    {
        let serial = self.next_serial;
        self.next_serial = self.next_serial + 1;
        self.issued = Ghost(self.issued@.insert(serial));
        WorkspaceTag { job_id, serial }
    }
}

} // verus!
