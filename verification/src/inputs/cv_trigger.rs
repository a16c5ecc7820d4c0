use vstd::prelude::*;

verus! {

/// A CV used as a trigger, reporting its rising edges.
pub struct CvTrigger {
    pub active: bool,
    pub triggered: bool,
}

impl CvTrigger {
    pub open spec fn is_active(&self) -> bool {
        self.active
    }

    pub open spec fn is_triggered(&self) -> bool {
        self.triggered
    }

    pub fn new() -> (t: Self)
        ensures
            !t.is_active(),
            !t.is_triggered(),
    {
        Self { active: false, triggered: false }
    }

    /// Feeds the current level of the CV.
    pub fn reconcile(&mut self, active: bool)
        ensures
            final(self).is_triggered() == (!old(self).is_active() && active),
            final(self).is_active() == active,
    {
        self.triggered = !self.active && active;
        self.active = active;
    }
}

} // verus!
