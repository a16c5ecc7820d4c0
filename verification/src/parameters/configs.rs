use vstd::prelude::*;

use super::discrete::PersistentConfig as DiscretePersistentConfig;
use super::cv_assignment::PersistentConfig as CvAssignmentPersistentConfig;
use super::scale_offsets::PersistentConfig as ScaleOffsetsPersistentConfig;
use super::stereo_mode::PersistentConfig as StereoModePersistentConfig;
use super::toggle::PersistentConfig as TogglePersistentConfig;

verus! {

/// Saved state of the arpeggiator mode: its button toggle and its CV position.
#[derive(Default, PartialEq, Eq, Debug, Clone, Copy, Structural)]
pub struct ArpModePersistentConfig {
    pub toggle: TogglePersistentConfig,
    pub discrete: DiscretePersistentConfig,
}

/// Saved state of the chord parameter: the group and the chord within it.
#[derive(Default, PartialEq, Eq, Debug, Clone, Copy, Structural)]
pub struct ChordPersistentConfig {
    pub group: DiscretePersistentConfig,
    pub chord: DiscretePersistentConfig,
}

/// Saved state of the scale parameter.
#[derive(Default, PartialEq, Eq, Debug, Clone, Copy, Structural)]
pub struct ScalePersistentConfig {
    pub note: DiscretePersistentConfig,
    pub octave: DiscretePersistentConfig,
    pub pot_tonic: DiscretePersistentConfig,
    pub cv_tonic: DiscretePersistentConfig,
    pub button_group: TogglePersistentConfig,
    pub cv_group: DiscretePersistentConfig,
    pub button_scale: TogglePersistentConfig,
    pub cv_scale: DiscretePersistentConfig,
}

/// Saved state of all parameters.
#[derive(Default, PartialEq, Debug, Clone, Copy)]
pub struct PersistentConfig {
    pub chord: ChordPersistentConfig,
    pub scale: ScalePersistentConfig,
    pub arp_mode: ArpModePersistentConfig,
    pub stereo_mode: StereoModePersistentConfig,
    pub cv_mapping: CvAssignmentPersistentConfig,
    pub scale_offsets: ScaleOffsetsPersistentConfig,
}

} // verus!
