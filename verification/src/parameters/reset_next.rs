use vstd::prelude::*;

verus! {

/// A latched request to restart the arpeggio, consumed once read.
pub struct ResetNext {
    high: bool,
}

impl ResetNext {
    pub closed spec fn pending(&self) -> bool {
        self.high
    }

    pub fn new() -> (r: Self)
        ensures
            !r.pending(),
    {
        Self { high: false }
    }

    /// Reads and clears the request.
    pub fn pop(&mut self) -> (r: bool)
        ensures
            r == old(self).pending(),
            !final(self).pending(),
    {
        let value = self.high;
        self.high = false;
        value
    }

    /// Latches a request from a button push or a CV trigger.
    pub fn reconcile(&mut self, button_pushed: bool, cv_triggered: bool)
        ensures
            final(self).pending() == (old(self).pending() || button_pushed || cv_triggered),
    {
        self.high = self.high || button_pushed || cv_triggered;
    }
}

} // verus!
