use vstd::prelude::*;

use crate::calibration::Calibration;

verus! {

/// Saved state of a CV input: its calibration.
#[derive(Default, PartialEq, Eq, Debug, Clone, Copy, Structural)]
pub struct CvPersistentConfig {
    pub calibration: Calibration,
}

/// Saved state of the inputs: the calibration of the tone CV.
#[derive(Default, PartialEq, Eq, Debug, Clone, Copy, Structural)]
pub struct PersistentConfig {
    pub tone_cv_calibration: CvPersistentConfig,
}

/// Saved state of the quantized output: its calibration.
#[derive(Default, PartialEq, Eq, Debug, Clone, Copy, Structural)]
pub struct QuantizedOutputPersistentConfig {
    pub calibration: Calibration,
}

} // verus!
