//! The buttons and trigger inputs of the panel, fed from one snapshot of
//! their levels per control tick.
use vstd::prelude::*;

use super::button::{reconciled, Button};
use super::gate::Gate;

verus! {

/// The buttons of the panel.
pub struct Buttons {
    pub group: Button,
    pub scale: Button,
    pub arp: Button,
    pub trigger: Button,
    pub rsnx: Button,
    pub stereo: Button,
    pub cv_assignment: Button,
}

/// The trigger inputs of the panel.
pub struct Gates {
    pub rsnx: Gate,
    pub trigger: Gate,
}

impl Buttons {
    /// Buttons that have never been pressed.
    pub fn new() -> (r: Self)
        ensures
            r.group@ == Button::new_view(),
            r.scale@ == Button::new_view(),
            r.arp@ == Button::new_view(),
            r.trigger@ == Button::new_view(),
            r.rsnx@ == Button::new_view(),
            r.stereo@ == Button::new_view(),
            r.cv_assignment@ == Button::new_view(),
    {
        Buttons {
            group: Button::new(),
            scale: Button::new(),
            arp: Button::new(),
            trigger: Button::new(),
            rsnx: Button::new(),
            stereo: Button::new(),
            cv_assignment: Button::new(),
        }
    }

    /// Feeds the levels of the snapshot, in the order trigger, reset-next,
    /// arpeggiator, group, stereo, CV assignment, scale.
    pub fn apply(&mut self, pressed: [bool; 7])
        requires
            pressed[0] ==> old(self).trigger@.held_for < usize::MAX,
            pressed[1] ==> old(self).rsnx@.held_for < usize::MAX,
            pressed[2] ==> old(self).arp@.held_for < usize::MAX,
            pressed[3] ==> old(self).group@.held_for < usize::MAX,
            pressed[4] ==> old(self).stereo@.held_for < usize::MAX,
            pressed[5] ==> old(self).cv_assignment@.held_for < usize::MAX,
            pressed[6] ==> old(self).scale@.held_for < usize::MAX,
        ensures
            final(self).trigger@ == reconciled(old(self).trigger@, pressed[0]),
            final(self).rsnx@ == reconciled(old(self).rsnx@, pressed[1]),
            final(self).arp@ == reconciled(old(self).arp@, pressed[2]),
            final(self).group@ == reconciled(old(self).group@, pressed[3]),
            final(self).stereo@ == reconciled(old(self).stereo@, pressed[4]),
            final(self).cv_assignment@ == reconciled(old(self).cv_assignment@, pressed[5]),
            final(self).scale@ == reconciled(old(self).scale@, pressed[6]),
    {
        self.trigger.reconcile(pressed[0]);
        self.rsnx.reconcile(pressed[1]);
        self.arp.reconcile(pressed[2]);
        self.group.reconcile(pressed[3]);
        self.stereo.reconcile(pressed[4]);
        self.cv_assignment.reconcile(pressed[5]);
        self.scale.reconcile(pressed[6]);
    }
}

impl Gates {
    /// Inputs that have never been high.
    pub fn new() -> (r: Self)
        ensures
            !r.rsnx.is_active() && !r.rsnx.is_triggered(),
            !r.trigger.is_active() && !r.trigger.is_triggered(),
    {
        Gates { rsnx: Gate::new(), trigger: Gate::new() }
    }

    /// Feeds the levels of the snapshot: reset-next first, then trigger.
    pub fn apply(&mut self, levels: [bool; 2])
        ensures
            final(self).rsnx.is_active() == levels[0],
            final(self).rsnx.is_triggered() == (!old(self).rsnx.is_active() && levels[0]),
            final(self).trigger.is_active() == levels[1],
            final(self).trigger.is_triggered() == (!old(self).trigger.is_active() && levels[1]),
    {
        self.rsnx.reconcile(levels[0]);
        self.trigger.reconcile(levels[1]);
    }
}

} // verus!
