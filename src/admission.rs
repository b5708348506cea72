//! A bound on the number of sandboxes open at once.
use vstd::prelude::*;

verus! {

/// Default bound on concurrently open sandboxes.
pub const MAX_OPEN_SANDBOXES: u64 = 4;

/// Counts the evaluations admitted and not yet released, and refuses one that
/// would exceed the bound.
pub struct Admission {
    open: u64,
    limit: u64,
}

impl Admission {
    pub closed spec fn open_count(&self) -> nat {
        self.open as nat
    }

    pub closed spec fn limit(&self) -> nat {
        self.limit as nat
    }

    pub open spec fn wf(&self) -> bool {
        self.open_count() <= self.limit()
    }

    pub fn new(limit: u64) -> (r: Admission)
        ensures
            r.wf(),
            r.open_count() == 0,
            r.limit() == limit,
    {
        Admission { open: 0, limit }
    }

    /// Admits one more evaluation if the bound allows it.
    pub fn try_admit(&mut self) -> (admitted: bool)
        requires
            old(self).wf(),
        ensures
            final(self).wf(),
            admitted == (old(self).open_count() < old(self).limit()),
            final(self).open_count() == old(self).open_count() + if admitted {
                1nat
            } else {
                0nat
            },
            final(self).limit() == old(self).limit(),
    {
        if self.open < self.limit {
            self.open = self.open + 1;
            true
        } else {
            false
        }
    }

    /// Releases one admitted evaluation; with none admitted, nothing changes.
    pub fn release(&mut self)
        requires
            old(self).wf(),
        ensures
            final(self).wf(),
            final(self).open_count() == if old(self).open_count() > 0 {
                (old(self).open_count() - 1) as nat
            } else {
                0nat
            },
            final(self).limit() == old(self).limit(),
    {
        if self.open > 0 {
            self.open = self.open - 1;
        }
    }

    pub fn open_sandboxes(&self) -> (r: u64)
        ensures
            r == self.open_count(),
    {
        self.open
    }
}

} // verus!
