use vstd::prelude::*;

use super::toggle::{PersistentConfig as TogglePersistentConfig, Toggle};

verus! {

/// The attribute the assignable CV input controls.
#[derive(Clone, Copy, PartialEq, Eq, Debug, Structural)]
pub enum CvAssignment {
    Tonic,
    Size,
    Arp,
    Group,
    Scale,
    Pluck,
    Strings,
    Width,
}

/// Index of the last attribute, [`CvAssignment::Width`].
pub const LAST_ATTRIBUTE_INDEX: usize = 7;

impl Default for CvAssignment {
    fn default() -> (r: Self)
        ensures
            r == CvAssignment::Tonic,
    {
        CvAssignment::Tonic
    }
}

impl CvAssignment {
    pub fn index(self) -> (r: usize)
        ensures
            r == self as usize,
            r <= LAST_ATTRIBUTE_INDEX,
    {
        self as usize
    }

    pub fn try_from_index(index: usize) -> (r: Option<Self>)
        ensures
            r is Some <==> index <= LAST_ATTRIBUTE_INDEX,
            r matches Some(a) ==> a as usize == index,
    {
        match index {
            0 => Some(CvAssignment::Tonic),
            1 => Some(CvAssignment::Size),
            2 => Some(CvAssignment::Arp),
            3 => Some(CvAssignment::Group),
            4 => Some(CvAssignment::Scale),
            5 => Some(CvAssignment::Pluck),
            6 => Some(CvAssignment::Strings),
            7 => Some(CvAssignment::Width),
            _ => None,
        }
    }
}

/// The attribute assigned to the assignable CV, cycled by its button.
pub struct CvAssignmentHandler {
    toggle: Toggle,
    just_changed: bool,
}

#[derive(Clone, Copy, PartialEq, Eq, Default, Debug, Structural)]
pub struct PersistentConfig {
    pub toggle: TogglePersistentConfig,
}

impl CvAssignmentHandler {
    pub closed spec fn stored(&self) -> nat {
        self.toggle.stored()
    }

    pub closed spec fn spec_just_changed(&self) -> bool {
        self.just_changed
    }

    pub closed spec fn wf(&self) -> bool {
        self.toggle.spec_values() == LAST_ATTRIBUTE_INDEX + 1
    }

    pub fn new(config: PersistentConfig) -> (r: Self)
        ensures
            r.wf(),
            r.stored() == config.toggle.selected_value,
            !r.spec_just_changed(),
    {
        Self {
            toggle: Toggle::new(config.toggle, LAST_ATTRIBUTE_INDEX + 1),
            just_changed: false,
        }
    }

    pub fn copy_config(&self) -> (r: PersistentConfig)
        ensures
            r.toggle.selected_value == self.stored(),
    {
        PersistentConfig { toggle: self.toggle.copy_config() }
    }

    /// Moves to the next attribute on a tap; tells whether it moved, and
    /// remembers that until the next reconciliation.
    pub fn reconcile_button(&mut self, toggle: bool) -> (changed: bool)
        requires
            old(self).wf(),
            toggle ==> old(self).stored() < usize::MAX,
        ensures
            final(self).wf(),
            changed == toggle,
            final(self).spec_just_changed() == toggle,
            final(self).stored() == if toggle {
                (old(self).stored() + 1) % (LAST_ATTRIBUTE_INDEX + 1) as nat
            } else {
                old(self).stored()
            },
    {
        let changed = self.toggle.reconcile(toggle);
        self.just_changed = changed;
        changed
    }

    /// The assigned attribute; a stored position past the attributes reads
    /// as the last one.
    pub fn selected(&self) -> (r: CvAssignment)
        requires
            self.wf(),
        ensures
            r as nat == if self.stored() <= LAST_ATTRIBUTE_INDEX {
                self.stored()
            } else {
                LAST_ATTRIBUTE_INDEX as nat
            },
    {
        let selected_value = self.toggle.selected_value();
        match CvAssignment::try_from_index(selected_value) {
            Some(assignment) => assignment,
            None => CvAssignment::default(),
        }
    }

    /// Whether the last reconciliation moved the assignment.
    pub fn just_changed(&self) -> (r: bool)
        ensures
            r == self.spec_just_changed(),
    {
        self.just_changed
    }
}

} // verus!
