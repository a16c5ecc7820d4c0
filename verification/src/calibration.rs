use vstd::prelude::*;

verus! {

/// Bit pattern of the single-precision float 1.0.
pub const ONE_BITS: u32 = 0x3f80_0000;

/// Linear correction of a V/oct signal.
///
/// The two coefficients are single-precision floats; the library keeps and
/// saves them as their IEEE 754 bit patterns and leaves the arithmetic on
/// them to the signal side.
#[derive(PartialEq, Eq, Debug, Clone, Copy, Structural)]
pub struct Calibration {
    pub offset_bits: u32,
    pub multiplier_bits: u32,
}

impl Default for Calibration {
    /// The identity correction: no offset, unit multiplier.
    fn default() -> (r: Self)
        ensures
            r.offset_bits == 0,
            r.multiplier_bits == ONE_BITS,
    {
        Calibration { offset_bits: 0, multiplier_bits: ONE_BITS }
    }
}

} // verus!
