use vstd::prelude::*;

verus! {

/// A trigger input, reporting its rising edges.
pub struct Gate {
    active: bool,
    triggered: bool,
}

impl Gate {
    pub closed spec fn is_active(&self) -> bool {
        self.active
    }

    pub closed spec fn is_triggered(&self) -> bool {
        self.triggered
    }

    pub fn new() -> (g: Self)
        ensures
            !g.is_active(),
            !g.is_triggered(),
    {
        Self { active: false, triggered: false }
    }

    /// Feeds the current level of the input.
    pub fn reconcile(&mut self, active: bool)
        ensures
            final(self).is_triggered() == (!old(self).is_active() && active),
            final(self).is_active() == active,
    {
        self.triggered = !self.active && active;
        self.active = active;
    }

    /// Whether the input rose in the last reconciliation.
    pub fn triggered(&self) -> (r: bool)
        ensures
            r == self.is_triggered(),
    {
        self.triggered
    }
}

} // verus!
