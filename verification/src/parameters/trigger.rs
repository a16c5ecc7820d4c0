use vstd::prelude::*;

verus! {

/// Trigger requests, delayed by four control ticks.
pub struct Trigger {
    triggered: bool,
    triggered_n1: bool,
    triggered_n2: bool,
    triggered_n3: bool,
    triggered_n4: bool,
}

/// The requests of the last five ticks after one more request came in.
pub open spec fn after_request(history: Seq<bool>, request: bool) -> Seq<bool> {
    seq![request].add(history.take(4))
}

impl Trigger {
    /// The requests of the last five ticks, the newest first.
    pub closed spec fn history(&self) -> Seq<bool> {
        seq![self.triggered, self.triggered_n1, self.triggered_n2, self.triggered_n3, self.triggered_n4]
    }

    pub fn new() -> (t: Self)
        ensures
            t.history() == seq![false, false, false, false, false],
    {
        Self {
            triggered: false,
            triggered_n1: false,
            triggered_n2: false,
            triggered_n3: false,
            triggered_n4: false,
        }
    }

    /// Whether a trigger was requested four ticks ago.
    pub fn triggered_n4(&self) -> (r: bool)
        ensures
            r == self.history()[4],
    {
        self.triggered_n4
    }

    /// Records this tick's request: a button push or a CV trigger.
    pub fn reconcile(&mut self, button_pushed: bool, cv_triggered: bool)
        ensures
            final(self).history() == after_request(old(self).history(), button_pushed || cv_triggered),
    {
        self.triggered_n4 = self.triggered_n3;
        self.triggered_n3 = self.triggered_n2;
        self.triggered_n2 = self.triggered_n1;
        self.triggered_n1 = self.triggered;
        self.triggered = button_pushed || cv_triggered;
        assert(self.history() =~= seq![button_pushed || cv_triggered].add(old(self).history().take(4)));
    }
}

/// A request is seen by [`Trigger::triggered_n4`] after four more
/// reconciliations, whatever they bring.
pub proof fn lemma_trigger_delay(trigger: Trigger, request: bool, b: bool, c: bool, d: bool, e: bool)
    ensures
        after_request(
            after_request(
                after_request(after_request(after_request(trigger.history(), request), b), c),
                d,
            ),
            e,
        )[4] == request,
{
}

} // verus!
