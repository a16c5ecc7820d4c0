use vstd::prelude::*;

use super::toggle::{after_taps, lemma_taps_cycle, PersistentConfig as TogglePersistentConfig, Toggle};
use crate::dsp;

verus! {

/// How the strings are spread between the two outputs.
#[derive(Clone, Copy, PartialEq, Eq, Debug, Structural)]
pub enum StereoMode {
    PingPong,
    RootRest,
    Haas,
}

/// Index of the last stereo mode, [`StereoMode::Haas`].
pub const LAST_MODE_INDEX: usize = 2;

impl Default for StereoMode {
    fn default() -> (r: Self)
        ensures
            r == StereoMode::RootRest,
    {
        StereoMode::RootRest
    }
}

impl StereoMode {
    pub fn index(self) -> (r: usize)
        ensures
            r == self as usize,
            r <= LAST_MODE_INDEX,
    {
        self as usize
    }

    pub fn try_from_index(index: usize) -> (r: Option<Self>)
        ensures
            r is Some <==> index <= LAST_MODE_INDEX,
            r matches Some(m) ==> m as usize == index,
    {
        match index {
            0 => Some(StereoMode::PingPong),
            1 => Some(StereoMode::RootRest),
            2 => Some(StereoMode::Haas),
            _ => None,
        }
    }
}

/// The stereo mode the signal processing uses for a selected one.
pub open spec fn dsp_stereo_mode(mode: StereoMode) -> dsp::StereoMode {
    match mode {
        StereoMode::PingPong => dsp::StereoMode::PingPong,
        StereoMode::RootRest => dsp::StereoMode::RootRest,
        StereoMode::Haas => dsp::StereoMode::Haas,
    }
}

impl From<StereoMode> for dsp::StereoMode {
    fn from(value: StereoMode) -> (r: Self)
        ensures
            r == dsp_stereo_mode(value),
    {
        match value {
            StereoMode::PingPong => dsp::StereoMode::PingPong,
            StereoMode::RootRest => dsp::StereoMode::RootRest,
            StereoMode::Haas => dsp::StereoMode::Haas,
        }
    }
}

impl vstd::std_specs::convert::FromSpecImpl<StereoMode> for dsp::StereoMode {
    open spec fn obeys_from_spec() -> bool {
        true
    }

    open spec fn from_spec(value: StereoMode) -> Self {
        dsp_stereo_mode(value)
    }
}

/// The stereo mode selected by its button.
pub struct StereoModeHandler {
    toggle: Toggle,
}

#[derive(Default, PartialEq, Eq, Debug, Clone, Copy, Structural)]
pub struct PersistentConfig {
    pub toggle: TogglePersistentConfig,
}

impl StereoModeHandler {
    /// The stored position of the toggle.
    pub closed spec fn stored(&self) -> nat {
        self.toggle.stored()
    }

    pub closed spec fn wf(&self) -> bool {
        self.toggle.spec_values() == LAST_MODE_INDEX + 1
    }

    pub fn new(config: PersistentConfig) -> (r: Self)
        ensures
            r.wf(),
            r.stored() == config.toggle.selected_value,
    {
        Self { toggle: Toggle::new(config.toggle, LAST_MODE_INDEX + 1) }
    }

    pub fn copy_config(&self) -> (r: PersistentConfig)
        ensures
            r.toggle.selected_value == self.stored(),
    {
        PersistentConfig { toggle: self.toggle.copy_config() }
    }

    /// Moves to the next mode on a tap; tells whether it moved.
    pub fn reconcile_button(&mut self, toggle: bool) -> (changed: bool)
        requires
            old(self).wf(),
            toggle ==> old(self).stored() < usize::MAX,
        ensures
            final(self).wf(),
            changed == toggle,
            final(self).stored() == if toggle {
                (old(self).stored() + 1) % (LAST_MODE_INDEX + 1) as nat
            } else {
                old(self).stored()
            },
    {
        self.toggle.reconcile(toggle)
    }

    /// The selected mode; a stored position past the modes reads as the last one.
    pub fn selected(&self) -> (r: StereoMode)
        requires
            self.wf(),
        ensures
            r as nat == if self.stored() <= LAST_MODE_INDEX {
                self.stored()
            } else {
                LAST_MODE_INDEX as nat
            },
    {
        let selected_value = self.toggle.selected_value();
        match StereoMode::try_from_index(selected_value) {
            Some(mode) => mode,
            None => StereoMode::default(),
        }
    }
}

/// Three taps cycle the stereo mode through all modes back to where it
/// started: from ping-pong to root/rest, to Haas and to ping-pong again,
/// and the stored position, which [`StereoModeHandler::copy_config`]
/// saves, returns to its start.
pub proof fn lemma_stereo_taps_cycle(stored: nat)
    requires
        stored <= LAST_MODE_INDEX,
    ensures
        after_taps(stored, (LAST_MODE_INDEX + 1) as nat, 3) == stored,
        after_taps(StereoMode::PingPong as nat, 3, 1) == StereoMode::RootRest as nat,
        after_taps(StereoMode::PingPong as nat, 3, 2) == StereoMode::Haas as nat,
        after_taps(StereoMode::PingPong as nat, 3, 3) == StereoMode::PingPong as nat,
{
    lemma_taps_cycle(stored, 3, 3);
    lemma_taps_cycle(0, 3, 1);
    lemma_taps_cycle(0, 3, 2);
}

} // verus!
