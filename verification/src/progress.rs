//! Aggregate progress accounting shared by all workers of one download.
use vstd::prelude::*;

verus! {

/// Progress of one download invocation: bytes transferred so far against the
/// number expected. `bytes_done` only ever grows, so every consumer observes
/// a monotonically non-decreasing value; sharing and locking live outside the
/// library, which only ever hands out whole states.
#[derive(Debug, Clone, Copy, PartialEq, Eq, Structural)]
pub struct ProgressState {
    pub bytes_done: u64,
    pub total: u64,
}

impl ProgressState {
    /// Progress never runs past the expected total.
    pub open spec fn wf(self) -> bool {
        self.bytes_done <= self.total
    }

    /// Fresh progress for a download expected to transfer `total` bytes.
    pub fn new(total: u64) -> (r: Self)
        ensures
            r.bytes_done == 0,
            r.total == total,
            r.wf(),
    {
        ProgressState { bytes_done: 0, total }
    }

    /// Record `n` more transferred bytes.
    pub fn record(&mut self, n: u64)
        requires
            old(self).bytes_done + n <= old(self).total,
        ensures
            final(self).bytes_done == old(self).bytes_done + n,
            final(self).total == old(self).total,
    {
        self.bytes_done = self.bytes_done + n;
    }

    /// True exactly when every expected byte has been transferred.
    pub fn is_complete(&self) -> (r: bool)
        ensures
            r == (self.bytes_done == self.total),
    {
        self.bytes_done == self.total
    }
}

} // verus!
