use vstd::prelude::*;

verus! {

/// A value cycled through a fixed number of options by button presses.
pub struct Toggle {
    values: usize,
    selected_value: usize,
}

#[derive(Default, PartialEq, Eq, Debug, Clone, Copy, Structural)]
pub struct PersistentConfig {
    pub selected_value: usize,
}

impl Toggle {
    /// Number of options.
    pub closed spec fn spec_values(&self) -> nat {
        self.values as nat
    }

    /// The stored position, which may lie past the options after their
    /// number shrank.
    pub closed spec fn stored(&self) -> nat {
        self.selected_value as nat
    }

    /// The option that reads as selected.
    pub open spec fn spec_selected(&self) -> nat {
        if self.stored() < self.spec_values() {
            self.stored()
        } else {
            (self.spec_values() - 1) as nat
        }
    }

    pub fn new(config: PersistentConfig, values: usize) -> (t: Self)
        ensures
            t.spec_values() == values,
            t.stored() == config.selected_value,
    {
        Self { values, selected_value: config.selected_value }
    }

    pub fn copy_config(&self) -> (r: PersistentConfig)
        ensures
            r.selected_value == self.stored(),
    {
        PersistentConfig { selected_value: self.selected_value }
    }

    /// Moves to the next option, wrapping around, when `toggle` is set;
    /// tells whether it moved.
    pub fn reconcile(&mut self, toggle: bool) -> (changed: bool)
        requires
            toggle ==> old(self).spec_values() > 0 && old(self).stored() < usize::MAX,
        ensures
            changed == toggle,
            final(self).spec_values() == old(self).spec_values(),
            final(self).stored() == if toggle {
                (old(self).stored() + 1) % old(self).spec_values()
            } else {
                old(self).stored()
            },
    {
        if toggle {
            self.selected_value = (self.selected_value + 1) % self.values;
            true
        } else {
            false
        }
    }

    /// The selected option.
    ///
    /// After the number of options shrank, a stored position past them
    /// reads as the last option; it is kept, so growing the number back
    /// recovers it. The position is only lost on toggle.
    pub fn selected_value(&self) -> (r: usize)
        requires
            self.spec_values() > 0,
        ensures
            r == self.spec_selected(),
            r < self.spec_values(),
    {
        if self.selected_value < self.values - 1 {
            self.selected_value
        } else {
            self.values - 1
        }
    }

    /// Number of options.
    pub fn output_values(&self) -> (r: usize)
        ensures
            r == self.spec_values(),
    {
        self.values
    }

    pub fn set_output_values(&mut self, output_values: usize)
        ensures
            final(self).spec_values() == output_values,
            final(self).stored() == old(self).stored(),
    {
        if self.values == output_values {
            return;
        }
        self.values = output_values;
    }

    pub fn set_value(&mut self, value: usize)
        ensures
            final(self).spec_values() == old(self).spec_values(),
            final(self).stored() == value,
    {
        self.selected_value = value;
    }
}

/// Shrinking the number of options and growing it back selects the option
/// selected before: the stored position is kept, and only a toggle loses it.
pub proof fn lemma_selection_survives_shrinking(before: Toggle, shrunk: Toggle, restored: Toggle)
    requires
        before.stored() < before.spec_values(),
        shrunk.stored() == before.stored(),
        restored.stored() == shrunk.stored(),
        restored.spec_values() == before.spec_values(),
    ensures
        restored.spec_selected() == before.spec_selected(),
        restored.spec_selected() == before.stored(),
{
}

/// The stored position after `taps` taps on a toggle of `values` options.
pub open spec fn after_taps(stored: nat, values: nat, taps: nat) -> nat
    decreases taps,
{
    if taps == 0 {
        stored
    } else {
        (after_taps(stored, values, (taps - 1) as nat) + 1) % values
    }
}

/// Taps move a position within the options on by one each, around the
/// options: `n` taps from `stored` reach `(stored + n) % values`, so as many
/// taps as there are options bring the toggle back to where it started.
pub proof fn lemma_taps_cycle(stored: nat, values: nat, taps: nat)
    requires
        values > 0,
        stored < values,
    ensures
        after_taps(stored, values, taps) == ((stored + taps) as int) % (values as int),
        after_taps(stored, values, values) == stored,
{
    lemma_taps_reach(stored, values, taps);
    lemma_taps_cycle_whole(stored, values);
}

proof fn lemma_taps_cycle_whole(stored: nat, values: nat)
    requires
        values > 0,
        stored < values,
    ensures
        after_taps(stored, values, values) == stored,
{
    lemma_taps_reach(stored, values, values);
    vstd::arithmetic::div_mod::lemma_mod_add_multiples_vanish(stored as int, values as int);
    vstd::arithmetic::div_mod::lemma_small_mod(stored, values);
}

proof fn lemma_taps_reach(stored: nat, values: nat, taps: nat)
    requires
        values > 0,
        stored < values,
    ensures
        after_taps(stored, values, taps) == ((stored + taps) as int) % (values as int),
    decreases taps,
{
    if taps == 0 {
        vstd::arithmetic::div_mod::lemma_small_mod(stored, values);
    } else {
        lemma_taps_reach(stored, values, (taps - 1) as nat);
        let a = (stored + taps - 1) as int;
        crate::scales::scale::lemma_mod_succ(a, values as int);
        vstd::arithmetic::div_mod::lemma_mod_bound(a, values as int);
        let r = a % (values as int);
        if r + 1 < values {
            vstd::arithmetic::div_mod::lemma_small_mod((r + 1) as nat, values);
        } else {
            vstd::arithmetic::div_mod::lemma_mod_self_0(values as int);
        }
    }
}

} // verus!
