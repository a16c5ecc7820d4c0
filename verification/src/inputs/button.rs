use vstd::prelude::*;

verus! {

/// State of a push button, reconciled once per control tick.
pub struct Button {
    pressed: bool,
    clicked: bool,
    released: bool,
    held_for: usize,
    released_after: usize,
}

/// What a [`Button`] reports between two reconciliations.
pub struct ButtonView {
    pub pressed: bool,
    pub clicked: bool,
    pub released: bool,
    pub held_for: nat,
    pub released_after: nat,
}

/// What a button reports after it was fed `pressed` in the state `v`.
pub open spec fn reconciled(v: ButtonView, pressed: bool) -> ButtonView {
    ButtonView {
        pressed,
        clicked: !v.pressed && pressed,
        released: v.pressed && !pressed,
        held_for: if pressed { v.held_for + 1 } else { 0 },
        released_after: if v.pressed && !pressed { v.held_for } else { v.released_after },
    }
}

impl View for Button {
    type V = ButtonView;

    closed spec fn view(&self) -> ButtonView {
        ButtonView {
            pressed: self.pressed,
            clicked: self.clicked,
            released: self.released,
            held_for: self.held_for as nat,
            released_after: self.released_after as nat,
        }
    }
}

impl Button {
    /// What a button that has never been pressed reports.
    pub open spec fn new_view() -> ButtonView {
        ButtonView { pressed: false, clicked: false, released: false, held_for: 0, released_after: 0 }
    }

    /// A button that has never been pressed.
    pub fn new() -> (b: Self)
        ensures
            !b@.pressed,
            !b@.clicked,
            !b@.released,
            b@.held_for == 0,
            b@.released_after == 0,
    {
        Self { pressed: false, clicked: false, released: false, held_for: 0, released_after: 0 }
    }

    /// Feeds the current physical state of the button.
    ///
    /// A click is a transition from released to pressed, a release the
    /// opposite. While pressed, the hold counter grows by one per tick;
    /// on release it restarts from zero and the length of the finished
    /// hold is remembered.
    pub fn reconcile(&mut self, pressed: bool)
        requires
            pressed ==> old(self)@.held_for < usize::MAX,
        ensures
            final(self)@ == reconciled(old(self)@, pressed),
            final(self)@.clicked == (!old(self)@.pressed && pressed),
            final(self)@.released == (old(self)@.pressed && !pressed),
            final(self)@.pressed == pressed,
            final(self)@.held_for == (if pressed { old(self)@.held_for + 1 } else { 0 }),
            final(self)@.released_after == (if old(self)@.pressed && !pressed {
                old(self)@.held_for
            } else {
                old(self)@.released_after
            }),
    {
        self.clicked = !self.pressed && pressed;
        self.released = self.pressed && !pressed;
        if self.released {
            self.released_after = self.held_for;
        }
        self.pressed = pressed;
        if pressed {
            self.held_for = self.held_for + 1;
        } else {
            self.held_for = 0;
        }
    }

    /// Whether the button went down in the last reconciliation.
    pub fn clicked(&self) -> (r: bool)
        ensures
            r == self@.clicked,
    {
        self.clicked
    }

    /// Whether the button went up in the last reconciliation.
    pub fn released(&self) -> (r: bool)
        ensures
            r == self@.released,
    {
        self.released
    }

    /// Number of consecutive reconciliations the button has been down.
    pub fn held_for(&self) -> (r: usize)
        ensures
            r == self@.held_for,
    {
        self.held_for
    }

    /// Length of the last finished hold.
    pub fn released_after(&self) -> (r: usize)
        ensures
            r == self@.released_after,
    {
        self.released_after
    }

    /// Whether the button is currently down.
    pub fn pressed(&self) -> (r: bool)
        ensures
            r == self@.pressed,
    {
        self.pressed
    }
}

/// What every button reached from [`Button::new`] reports: never a click
/// and a release at once, pressed exactly while the hold counter runs, a
/// click starting a hold of one tick, and a release ending a hold of at
/// least one.
pub open spec fn consistent(v: ButtonView) -> bool {
    &&& !(v.clicked && v.released)
    &&& v.pressed <==> v.held_for > 0
    &&& v.clicked ==> v.held_for == 1
    &&& v.released ==> v.released_after >= 1
}

/// A new button is consistent, and feeding a consistent button any level
/// keeps it consistent: every button reached by reconciliations is.
pub proof fn lemma_reachable_buttons_are_consistent(v: ButtonView, pressed: bool)
    ensures
        consistent(Button::new_view()),
        consistent(v) ==> consistent(reconciled(v, pressed)),
        reconciled(v, pressed).pressed == pressed,
{
}

} // verus!
