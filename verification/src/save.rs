//! The persisted state of the module, and the framed store it is written in.
use vstd::prelude::*;

use crate::calibration::Calibration;
use crate::inputs::configs::{
    CvPersistentConfig, PersistentConfig as InputsPersistentConfig, QuantizedOutputPersistentConfig,
};
use crate::parameters::configs::{
    ArpModePersistentConfig, ChordPersistentConfig, PersistentConfig as ParametersPersistentConfig,
    ScalePersistentConfig,
};
use crate::parameters::cv_assignment::PersistentConfig as CvAssignmentPersistentConfig;
use crate::parameters::discrete::PersistentConfig as DiscretePersistentConfig;
use crate::parameters::scale_offsets::{
    in_table, offset_at, Offsets, PersistentConfig as ScaleOffsetsPersistentConfig, MAX_GROUPS,
    MAX_SCALES, MAX_STEPS,
};
use crate::parameters::stereo_mode::PersistentConfig as StereoModePersistentConfig;
use crate::parameters::toggle::PersistentConfig as TogglePersistentConfig;

verus! {

/// Subset of control structures needed for recovery after restart.
#[derive(Debug, Default, Clone, Copy, PartialEq)]
pub struct Save {
    pub parameters: ParametersPersistentConfig,
    pub inputs: InputsPersistentConfig,
    pub quantized_output: QuantizedOutputPersistentConfig,
}

/// Number of positions the save holds, each written in eight bytes.
pub const POSITIONS: usize = 14;

/// Number of scale offsets the save holds, each written in one byte.
pub const OFFSETS: usize = 280;

/// Number of calibration coefficients the save holds, each in four bytes.
pub const COEFFICIENTS: usize = 4;

/// Where the scale offsets start in a written save.
pub const OFFSETS_START: usize = 112;

/// Where the calibration coefficients start in a written save.
pub const COEFFICIENTS_START: usize = 392;

/// Size of a written save in bytes.
pub const SAVE_SIZE: usize = 408;

/// The positions of the save, in the order they are written.
pub open spec fn save_position(s: Save, j: int) -> usize {
    let p = s.parameters;
    if j == 0 {
        p.chord.group.selected_value
    } else if j == 1 {
        p.chord.chord.selected_value
    } else if j == 2 {
        p.scale.note.selected_value
    } else if j == 3 {
        p.scale.octave.selected_value
    } else if j == 4 {
        p.scale.pot_tonic.selected_value
    } else if j == 5 {
        p.scale.cv_tonic.selected_value
    } else if j == 6 {
        p.scale.button_group.selected_value
    } else if j == 7 {
        p.scale.cv_group.selected_value
    } else if j == 8 {
        p.scale.button_scale.selected_value
    } else if j == 9 {
        p.scale.cv_scale.selected_value
    } else if j == 10 {
        p.arp_mode.toggle.selected_value
    } else if j == 11 {
        p.arp_mode.discrete.selected_value
    } else if j == 12 {
        p.stereo_mode.toggle.selected_value
    } else {
        p.cv_mapping.toggle.selected_value
    }
}

/// The calibration coefficients of the save, in the order they are written.
pub open spec fn save_coefficient(s: Save, j: int) -> u32 {
    if j == 0 {
        s.inputs.tone_cv_calibration.calibration.offset_bits
    } else if j == 1 {
        s.inputs.tone_cv_calibration.calibration.multiplier_bits
    } else if j == 2 {
        s.quantized_output.calibration.offset_bits
    } else {
        s.quantized_output.calibration.multiplier_bits
    }
}

/// The scale offset at a position of the flattened table.
pub open spec fn offset_flat(offsets: Offsets, i: int) -> i8 {
    offsets[i / 56][(i % 56) / 7][i % 7]
}

/// Byte `k` of `w`, least significant first.
pub open spec fn byte_of_u64(w: u64, k: int) -> u8 {
    if k == 0 {
        (w & 0xff) as u8
    } else if k == 1 {
        ((w >> 8u64) & 0xff) as u8
    } else if k == 2 {
        ((w >> 16u64) & 0xff) as u8
    } else if k == 3 {
        ((w >> 24u64) & 0xff) as u8
    } else if k == 4 {
        ((w >> 32u64) & 0xff) as u8
    } else if k == 5 {
        ((w >> 40u64) & 0xff) as u8
    } else if k == 6 {
        ((w >> 48u64) & 0xff) as u8
    } else {
        ((w >> 56u64) & 0xff) as u8
    }
}

/// Byte `k` of `w`, least significant first.
pub open spec fn byte_of_u32(w: u32, k: int) -> u8 {
    if k == 0 {
        (w & 0xff) as u8
    } else if k == 1 {
        ((w >> 8u32) & 0xff) as u8
    } else if k == 2 {
        ((w >> 16u32) & 0xff) as u8
    } else {
        ((w >> 24u32) & 0xff) as u8
    }
}

/// Byte `k` of `w`, least significant first.
pub open spec fn byte_of_u16(w: u16, k: int) -> u8 {
    if k == 0 {
        (w & 0xff) as u8
    } else {
        ((w >> 8u16) & 0xff) as u8
    }
}

/// The little-endian `u64` starting at `off`.
pub open spec fn u64_at(b: Seq<u8>, off: int) -> u64 {
    (b[off] as u64) | (b[off + 1] as u64) << 8u64 | (b[off + 2] as u64) << 16u64 | (b[off + 3] as u64)
        << 24u64 | (b[off + 4] as u64) << 32u64 | (b[off + 5] as u64) << 40u64 | (b[off + 6] as u64)
        << 48u64 | (b[off + 7] as u64) << 56u64
}

/// The little-endian `u32` starting at `off`.
pub open spec fn u32_at(b: Seq<u8>, off: int) -> u32 {
    (b[off] as u32) | (b[off + 1] as u32) << 8u32 | (b[off + 2] as u32) << 16u32 | (b[off + 3] as u32)
        << 24u32
}

/// The little-endian `u16` starting at `off`.
pub open spec fn u16_at(b: Seq<u8>, off: int) -> u16 {
    (b[off] as u16) | (b[off + 1] as u16) << 8u16
}

/// Byte `i` of a written save.
///
/// The fourteen positions come first, as little-endian `u64`; then the
/// scale offsets, by group, scale and note, one byte each; then the four
/// calibration coefficients, as little-endian `u32`.
pub open spec fn save_byte(s: Save, i: int) -> u8 {
    if i < OFFSETS_START {
        byte_of_u64(save_position(s, i / 8) as u64, i % 8)
    } else if i < COEFFICIENTS_START {
        offset_flat(s.parameters.scale_offsets.offsets, i - OFFSETS_START) as u8
    } else {
        byte_of_u32(save_coefficient(s, (i - COEFFICIENTS_START) / 4), (i - COEFFICIENTS_START) % 4)
    }
}

/// A save as it is written.
pub open spec fn encode_save(s: Save) -> Seq<u8> {
    Seq::new(SAVE_SIZE as nat, |i: int| save_byte(s, i))
}

/// Whether `s` is what reading the written bytes `b` gives.
pub open spec fn decodes_to(b: Seq<u8>, s: Save) -> bool {
    &&& forall|j: int| 0 <= j < POSITIONS ==> #[trigger] save_position(s, j) == u64_at(b, 8 * j) as usize
    &&& forall|g: int, sc: int, st: int|
        in_table(g, sc, st) ==> #[trigger] offset_at(s.parameters.scale_offsets.offsets, g, sc, st) == b[OFFSETS_START
            + 56 * g + 7 * sc + st] as i8
    &&& forall|j: int|
        0 <= j < COEFFICIENTS ==> #[trigger] save_coefficient(s, j) == u32_at(b, COEFFICIENTS_START + 4 * j)
}

proof fn lemma_u64_bytes(w: u64)
    ensures
        ((w & 0xff) as u8 as u64) | (((w >> 8u64) & 0xff) as u8 as u64) << 8u64 | (((w >> 16u64) & 0xff) as u8
            as u64) << 16u64 | (((w >> 24u64) & 0xff) as u8 as u64) << 24u64 | (((w >> 32u64) & 0xff) as u8
            as u64) << 32u64 | (((w >> 40u64) & 0xff) as u8 as u64) << 40u64 | (((w >> 48u64) & 0xff) as u8
            as u64) << 48u64 | (((w >> 56u64) & 0xff) as u8 as u64) << 56u64 == w,
{
    assert(((w & 0xff) as u8 as u64) | (((w >> 8u64) & 0xff) as u8 as u64) << 8u64 | (((w >> 16u64) & 0xff)
        as u8 as u64) << 16u64 | (((w >> 24u64) & 0xff) as u8 as u64) << 24u64 | (((w >> 32u64) & 0xff)
        as u8 as u64) << 32u64 | (((w >> 40u64) & 0xff) as u8 as u64) << 40u64 | (((w >> 48u64) & 0xff)
        as u8 as u64) << 48u64 | (((w >> 56u64) & 0xff) as u8 as u64) << 56u64 == w) by (bit_vector);
}

proof fn lemma_u32_bytes(w: u32)
    ensures
        ((w & 0xff) as u8 as u32) | (((w >> 8u32) & 0xff) as u8 as u32) << 8u32 | (((w >> 16u32) & 0xff) as u8
            as u32) << 16u32 | (((w >> 24u32) & 0xff) as u8 as u32) << 24u32 == w,
{
    assert(((w & 0xff) as u8 as u32) | (((w >> 8u32) & 0xff) as u8 as u32) << 8u32 | (((w >> 16u32) & 0xff)
        as u8 as u32) << 16u32 | (((w >> 24u32) & 0xff) as u8 as u32) << 24u32 == w) by (bit_vector);
}

proof fn lemma_u16_bytes(w: u16)
    ensures
        ((w & 0xff) as u8 as u16) | (((w >> 8u16) & 0xff) as u8 as u16) << 8u16 == w,
{
    assert(((w & 0xff) as u8 as u16) | (((w >> 8u16) & 0xff) as u8 as u16) << 8u16 == w) by (bit_vector);
}

proof fn lemma_i8_byte(x: i8)
    ensures
        (x as u8) as i8 == x,
{
    assert((x as u8) as i8 == x) by (bit_vector);
}

proof fn lemma_flat_index(g: int, sc: int, st: int)
    requires
        in_table(g, sc, st),
    ensures
        (56 * g + 7 * sc + st) / 56 == g,
        ((56 * g + 7 * sc + st) % 56) / 7 == sc,
        (56 * g + 7 * sc + st) % 7 == st,
{
    vstd::arithmetic::div_mod::lemma_fundamental_div_mod_converse(56 * g + 7 * sc + st, 56, g, 7 * sc + st);
    vstd::arithmetic::div_mod::lemma_fundamental_div_mod_converse(7 * sc + st, 7, sc, st);
    vstd::arithmetic::div_mod::lemma_fundamental_div_mod_converse(56 * g + 7 * sc + st, 7, 8 * g + sc, st);
}

/// Reading a written save gives back the save: what decodes from
/// [`encode_save`] of `s` is `s`.
pub proof fn lemma_save_round_trip(s: Save, t: Save)
    requires
        decodes_to(encode_save(s), t),
    ensures
        t == s,
{
    let b = encode_save(s);
    assert forall|j: int| 0 <= j < POSITIONS implies #[trigger] save_position(t, j) == save_position(s, j) by {
        let w = save_position(s, j) as u64;
        assert(b[8 * j] == byte_of_u64(w, 0));
        assert(b[8 * j + 1] == byte_of_u64(w, 1));
        assert(b[8 * j + 2] == byte_of_u64(w, 2));
        assert(b[8 * j + 3] == byte_of_u64(w, 3));
        assert(b[8 * j + 4] == byte_of_u64(w, 4));
        assert(b[8 * j + 5] == byte_of_u64(w, 5));
        assert(b[8 * j + 6] == byte_of_u64(w, 6));
        assert(b[8 * j + 7] == byte_of_u64(w, 7));
        lemma_u64_bytes(w);
        assert(u64_at(b, 8 * j) == w);
    }
    assert forall|j: int| 0 <= j < COEFFICIENTS implies #[trigger] save_coefficient(t, j) == save_coefficient(s, j) by {
        let w = save_coefficient(s, j);
        let off = COEFFICIENTS_START + 4 * j;
        assert(b[off] == byte_of_u32(w, 0));
        assert(b[off + 1] == byte_of_u32(w, 1));
        assert(b[off + 2] == byte_of_u32(w, 2));
        assert(b[off + 3] == byte_of_u32(w, 3));
        lemma_u32_bytes(w);
    }
    let so = s.parameters.scale_offsets.offsets;
    let to = t.parameters.scale_offsets.offsets;
    assert forall|g: int, sc: int, st: int| in_table(g, sc, st) implies to[g][sc][st] == so[g][sc][st] by {
        lemma_flat_index(g, sc, st);
        let i = OFFSETS_START + 56 * g + 7 * sc + st;
        assert(b[i] == offset_flat(so, i - OFFSETS_START) as u8);
        assert(offset_at(to, g, sc, st) == b[i] as i8);
        lemma_i8_byte(so[g][sc][st]);
    }
    assert forall|g: int| 0 <= g < MAX_GROUPS implies to[g] =~= so[g] by {
        assert forall|sc: int| 0 <= sc < MAX_SCALES implies to[g][sc] =~= so[g][sc] by {
            assert forall|st: int| 0 <= st < MAX_STEPS implies to[g][sc][st] == so[g][sc][st] by {
                assert(in_table(g, sc, st));
            }
        }
    }
    assert(to =~= so);
    assert(save_position(t, 0) == save_position(s, 0));
    assert(save_position(t, 1) == save_position(s, 1));
    assert(save_position(t, 2) == save_position(s, 2));
    assert(save_position(t, 3) == save_position(s, 3));
    assert(save_position(t, 4) == save_position(s, 4));
    assert(save_position(t, 5) == save_position(s, 5));
    assert(save_position(t, 6) == save_position(s, 6));
    assert(save_position(t, 7) == save_position(s, 7));
    assert(save_position(t, 8) == save_position(s, 8));
    assert(save_position(t, 9) == save_position(s, 9));
    assert(save_position(t, 10) == save_position(s, 10));
    assert(save_position(t, 11) == save_position(s, 11));
    assert(save_position(t, 12) == save_position(s, 12));
    assert(save_position(t, 13) == save_position(s, 13));
    assert(save_coefficient(t, 0) == save_coefficient(s, 0));
    assert(save_coefficient(t, 1) == save_coefficient(s, 1));
    assert(save_coefficient(t, 2) == save_coefficient(s, 2));
    assert(save_coefficient(t, 3) == save_coefficient(s, 3));
}

fn read_u64(b: &[u8; 408], off: usize) -> (r: u64)
    requires
        off + 8 <= SAVE_SIZE,
    ensures
        r == u64_at(b@, off as int),
{
    (b[off] as u64) | (b[off + 1] as u64) << 8u64 | (b[off + 2] as u64) << 16u64 | (b[off + 3] as u64)
        << 24u64 | (b[off + 4] as u64) << 32u64 | (b[off + 5] as u64) << 40u64 | (b[off + 6] as u64)
        << 48u64 | (b[off + 7] as u64) << 56u64
}

fn read_u32(b: &[u8; 408], off: usize) -> (r: u32)
    requires
        off + 4 <= SAVE_SIZE,
    ensures
        r == u32_at(b@, off as int),
{
    (b[off] as u32) | (b[off + 1] as u32) << 8u32 | (b[off + 2] as u32) << 16u32 | (b[off + 3] as u32)
        << 24u32
}

fn discrete_at(b: &[u8; 408], j: usize) -> (r: DiscretePersistentConfig)
    requires
        j < POSITIONS,
    ensures
        r.selected_value == u64_at(b@, 8 * j) as usize,
{
    DiscretePersistentConfig { selected_value: read_u64(b, 8 * j) as usize }
}

fn toggle_at(b: &[u8; 408], j: usize) -> (r: TogglePersistentConfig)
    requires
        j < POSITIONS,
    ensures
        r.selected_value == u64_at(b@, 8 * j) as usize,
{
    TogglePersistentConfig { selected_value: read_u64(b, 8 * j) as usize }
}

fn calibration_at(b: &[u8; 408], j: usize) -> (r: Calibration)
    requires
        j + 1 < COEFFICIENTS,
    ensures
        r.offset_bits == u32_at(b@, COEFFICIENTS_START + 4 * j),
        r.multiplier_bits == u32_at(b@, COEFFICIENTS_START + 4 * (j + 1)),
{
    Calibration {
        offset_bits: read_u32(b, COEFFICIENTS_START + 4 * j),
        multiplier_bits: read_u32(b, COEFFICIENTS_START + 4 * (j + 1)),
    }
}

fn offsets_at(b: &[u8; 408]) -> (r: Offsets)
    ensures
        forall|g: int, sc: int, st: int|
            in_table(g, sc, st) ==> #[trigger] offset_at(r, g, sc, st) == b@[OFFSETS_START + 56 * g + 7 * sc
                + st] as i8,
{
    let mut offsets: Offsets = [[[0i8; 7]; 8]; 5];
    let mut g: usize = 0;
    while g < MAX_GROUPS
        invariant
            g <= MAX_GROUPS,
            forall|gg: int, sc: int, st: int|
                in_table(gg, sc, st) && gg < g ==> #[trigger] offset_at(offsets, gg, sc, st)
                    == b@[OFFSETS_START + 56 * gg + 7 * sc + st] as i8,
        decreases MAX_GROUPS - g,
    {
        let mut rows: [[i8; 7]; 8] = [[0i8; 7]; 8];
        let mut sc: usize = 0;
        while sc < MAX_SCALES
            invariant
                g < MAX_GROUPS,
                sc <= MAX_SCALES,
                forall|s2: int, st: int|
                    0 <= s2 < sc && 0 <= st < MAX_STEPS ==> #[trigger] rows[s2][st] == b@[OFFSETS_START
                        + 56 * g + 7 * s2 + st] as i8,
            decreases MAX_SCALES - sc,
        {
            let mut row: [i8; 7] = [0i8; 7];
            let mut st: usize = 0;
            while st < MAX_STEPS
                invariant
                    g < MAX_GROUPS,
                    sc < MAX_SCALES,
                    st <= MAX_STEPS,
                    forall|s3: int| 0 <= s3 < st ==> #[trigger] row[s3] == b@[OFFSETS_START + 56 * g + 7 * sc + s3] as i8,
                decreases MAX_STEPS - st,
            {
                row[st] = b[OFFSETS_START + 56 * g + 7 * sc + st] as i8;
                st = st + 1;
            }
            rows[sc] = row;
            sc = sc + 1;
        }
        let ghost previous = offsets;
        offsets[g] = rows;
        assert forall|gg: int, sc: int, st: int|
            in_table(gg, sc, st) && gg < g + 1 implies #[trigger] offset_at(offsets, gg, sc, st)
                == b@[OFFSETS_START + 56 * gg + 7 * sc + st] as i8 by {
            if gg == g {
                assert(offsets[gg] == rows);
                assert(rows[sc][st] == b@[OFFSETS_START + 56 * g + 7 * sc + st] as i8);
            } else {
                assert(offsets[gg] == previous[gg]);
                assert(offset_at(previous, gg, sc, st) == b@[OFFSETS_START + 56 * gg + 7 * sc + st] as i8);
            }
        }
        g = g + 1;
    }
    offsets
}

impl Save {
    fn position(&self, j: usize) -> (r: usize)
        requires
            j < POSITIONS,
        ensures
            r == save_position(*self, j as int),
    {
        let p = &self.parameters;
        if j == 0 {
            p.chord.group.selected_value
        } else if j == 1 {
            p.chord.chord.selected_value
        } else if j == 2 {
            p.scale.note.selected_value
        } else if j == 3 {
            p.scale.octave.selected_value
        } else if j == 4 {
            p.scale.pot_tonic.selected_value
        } else if j == 5 {
            p.scale.cv_tonic.selected_value
        } else if j == 6 {
            p.scale.button_group.selected_value
        } else if j == 7 {
            p.scale.cv_group.selected_value
        } else if j == 8 {
            p.scale.button_scale.selected_value
        } else if j == 9 {
            p.scale.cv_scale.selected_value
        } else if j == 10 {
            p.arp_mode.toggle.selected_value
        } else if j == 11 {
            p.arp_mode.discrete.selected_value
        } else if j == 12 {
            p.stereo_mode.toggle.selected_value
        } else {
            p.cv_mapping.toggle.selected_value
        }
    }

    fn coefficient(&self, j: usize) -> (r: u32)
        requires
            j < COEFFICIENTS,
        ensures
            r == save_coefficient(*self, j as int),
    {
        if j == 0 {
            self.inputs.tone_cv_calibration.calibration.offset_bits
        } else if j == 1 {
            self.inputs.tone_cv_calibration.calibration.multiplier_bits
        } else if j == 2 {
            self.quantized_output.calibration.offset_bits
        } else {
            self.quantized_output.calibration.multiplier_bits
        }
    }

    /// The save written as bytes, laid out as [`save_byte`] describes.
    pub fn to_bytes(self) -> (r: [u8; 408])
        ensures
            r@ == encode_save(self),
    {
        let mut b: [u8; 408] = [0u8; 408];
        let mut j: usize = 0;
        while j < POSITIONS
            invariant
                j <= POSITIONS,
                forall|i: int| 0 <= i < 8 * j ==> #[trigger] b@[i] == save_byte(self, i),
            decreases POSITIONS - j,
        {
            let w = self.position(j) as u64;
            let off = 8 * j;
            b[off] = (w & 0xff) as u8;
            b[off + 1] = ((w >> 8u64) & 0xff) as u8;
            b[off + 2] = ((w >> 16u64) & 0xff) as u8;
            b[off + 3] = ((w >> 24u64) & 0xff) as u8;
            b[off + 4] = ((w >> 32u64) & 0xff) as u8;
            b[off + 5] = ((w >> 40u64) & 0xff) as u8;
            b[off + 6] = ((w >> 48u64) & 0xff) as u8;
            b[off + 7] = ((w >> 56u64) & 0xff) as u8;
            assert forall|i: int| 0 <= i < 8 * (j + 1) implies #[trigger] b@[i] == save_byte(self, i) by {
                if i >= 8 * j {
                    assert(i / 8 == j);
                }
            }
            j = j + 1;
        }
        let mut i: usize = 0;
        while i < OFFSETS
            invariant
                i <= OFFSETS,
                forall|k: int| 0 <= k < OFFSETS_START + i ==> #[trigger] b@[k] == save_byte(self, k),
            decreases OFFSETS - i,
        {
            let g = i / 56;
            let sc = (i % 56) / 7;
            let st = i % 7;
            b[OFFSETS_START + i] = self.parameters.scale_offsets.offsets[g][sc][st] as u8;
            i = i + 1;
        }
        let mut j: usize = 0;
        while j < COEFFICIENTS
            invariant
                j <= COEFFICIENTS,
                forall|i: int| 0 <= i < COEFFICIENTS_START + 4 * j ==> #[trigger] b@[i] == save_byte(self, i),
            decreases COEFFICIENTS - j,
        {
            let w = self.coefficient(j);
            let off = COEFFICIENTS_START + 4 * j;
            b[off] = (w & 0xff) as u8;
            b[off + 1] = ((w >> 8u32) & 0xff) as u8;
            b[off + 2] = ((w >> 16u32) & 0xff) as u8;
            b[off + 3] = ((w >> 24u32) & 0xff) as u8;
            assert forall|i: int| 0 <= i < COEFFICIENTS_START + 4 * (j + 1) implies #[trigger] b@[i] == save_byte(
                self,
                i,
            ) by {
                if i >= COEFFICIENTS_START + 4 * j {
                    assert((i - COEFFICIENTS_START) / 4 == j);
                }
            }
            j = j + 1;
        }
        assert(b@ =~= encode_save(self));
        b
    }

    /// The save read back from its bytes.
    pub fn from_bytes(bytes: [u8; 408]) -> (r: Self)
        ensures
            decodes_to(bytes@, r),
    {
        let parameters = ParametersPersistentConfig {
            chord: ChordPersistentConfig { group: discrete_at(&bytes, 0), chord: discrete_at(&bytes, 1) },
            scale: ScalePersistentConfig {
                note: discrete_at(&bytes, 2),
                octave: discrete_at(&bytes, 3),
                pot_tonic: discrete_at(&bytes, 4),
                cv_tonic: discrete_at(&bytes, 5),
                button_group: toggle_at(&bytes, 6),
                cv_group: discrete_at(&bytes, 7),
                button_scale: toggle_at(&bytes, 8),
                cv_scale: discrete_at(&bytes, 9),
            },
            arp_mode: ArpModePersistentConfig { toggle: toggle_at(&bytes, 10), discrete: discrete_at(&bytes, 11) },
            stereo_mode: StereoModePersistentConfig { toggle: toggle_at(&bytes, 12) },
            cv_mapping: CvAssignmentPersistentConfig { toggle: toggle_at(&bytes, 13) },
            scale_offsets: ScaleOffsetsPersistentConfig { offsets: offsets_at(&bytes) },
        };
        let save = Save {
            parameters,
            inputs: InputsPersistentConfig {
                tone_cv_calibration: CvPersistentConfig { calibration: calibration_at(&bytes, 0) },
            },
            quantized_output: QuantizedOutputPersistentConfig { calibration: calibration_at(&bytes, 2) },
        };
        assert forall|j: int| 0 <= j < POSITIONS implies #[trigger] save_position(save, j) == u64_at(bytes@, 8 * j) as usize by {}
        assert forall|j: int| 0 <= j < COEFFICIENTS implies #[trigger] save_coefficient(save, j) == u32_at(
            bytes@,
            COEFFICIENTS_START + 4 * j,
        ) by {}
        save
    }
}

/// Version of the save layout; stores written with another are rejected.
pub const TOKEN: u16 = 1;

/// Size of a written store in bytes.
pub const WRAPPED_SIZE: usize = 416;

/// The CRC-16/USB checksum of the bytes.
pub uninterp spec fn crc16_usb_of(data: Seq<u8>) -> u16;

/// `crc::Crc::<u16>::new(&crc::CRC_16_USB).checksum`: the CRC-16/USB
/// checksum of the bytes, a function of the bytes alone.
#[verifier::external_body]
fn crc16_usb(data: &[u8]) -> (r: u16)
    ensures
        r == crc16_usb_of(data@),
{
    crc::Crc::<u16>::new(&crc::CRC_16_USB).checksum(data)
}

/// A store that did not pass its checks.
#[derive(Debug)]
pub struct InvalidData;

/// A written save, framed with its firmware version, the layout token
/// and a checksum.
#[derive(Clone, Copy)]
pub struct WrappedSave {
    version: u32,
    token: u16,
    save_raw: [u8; 408],
    crc: u16,
}

/// Byte `i` of a written store: version, token, save and checksum, the
/// numbers little-endian.
pub open spec fn store_byte(version: u32, token: u16, raw: Seq<u8>, crc: u16, i: int) -> u8 {
    if i < 4 {
        byte_of_u32(version, i)
    } else if i < 6 {
        byte_of_u16(token, i - 4)
    } else if i < 6 + SAVE_SIZE {
        raw[i - 6]
    } else {
        byte_of_u16(crc, i - (6 + SAVE_SIZE))
    }
}

/// The raw save within the bytes of a store.
pub open spec fn raw_of(b: Seq<u8>) -> Seq<u8> {
    b.subrange(6, 6 + SAVE_SIZE)
}

/// Whether the bytes hold a store of the current layout whose checksum
/// matches its save.
pub open spec fn store_accepts(b: Seq<u8>) -> bool {
    u16_at(b, 4) == TOKEN && crc16_usb_of(raw_of(b)) == u16_at(b, 6 + SAVE_SIZE)
}

impl WrappedSave {
    pub closed spec fn spec_version(&self) -> u32 {
        self.version
    }

    pub closed spec fn spec_token(&self) -> u16 {
        self.token
    }

    /// The written save the store holds.
    pub closed spec fn raw(&self) -> Seq<u8> {
        self.save_raw@
    }

    pub closed spec fn spec_crc(&self) -> u16 {
        self.crc
    }

    /// The bytes the store is written as.
    pub open spec fn bytes(&self) -> Seq<u8> {
        Seq::new(
            WRAPPED_SIZE as nat,
            |i: int| store_byte(self.spec_version(), self.spec_token(), self.raw(), self.spec_crc(), i),
        )
    }

    /// Whether the store is of the current layout and its checksum matches.
    pub open spec fn is_valid(&self) -> bool {
        self.spec_token() == TOKEN && self.spec_crc() == crc16_usb_of(self.raw())
    }

    /// Whether the store is what reading the bytes gives.
    pub open spec fn read_from(&self, b: Seq<u8>) -> bool {
        &&& self.spec_version() == u32_at(b, 0)
        &&& self.spec_token() == u16_at(b, 4)
        &&& self.raw() == raw_of(b)
        &&& self.spec_crc() == u16_at(b, 6 + SAVE_SIZE)
    }

    /// Frames the save, tagging it with the firmware version.
    pub fn new(save: Save, version: u32) -> (r: Self)
        ensures
            r.is_valid(),
            r.spec_version() == version,
            r.raw() == encode_save(save),
    {
        let save_raw = save.to_bytes();
        let crc = crc16_usb(save_raw.as_slice());
        Self { version, save_raw, crc, token: TOKEN }
    }

    /// The store the bytes hold, unchecked.
    fn read_store(bytes: &[u8; 416]) -> (r: Self)
        ensures
            r.read_from(bytes@),
    {
        let version = (bytes[0] as u32) | (bytes[1] as u32) << 8u32 | (bytes[2] as u32) << 16u32
            | (bytes[3] as u32) << 24u32;
        let token = (bytes[4] as u16) | (bytes[5] as u16) << 8u16;
        let crc = (bytes[6 + SAVE_SIZE] as u16) | (bytes[7 + SAVE_SIZE] as u16) << 8u16;
        let mut save_raw: [u8; 408] = [0u8; 408];
        let mut i: usize = 0;
        while i < SAVE_SIZE
            invariant
                i <= SAVE_SIZE,
                forall|k: int| 0 <= k < i ==> #[trigger] save_raw@[k] == bytes@[6 + k],
            decreases SAVE_SIZE - i,
        {
            save_raw[i] = bytes[6 + i];
            i = i + 1;
        }
        assert(save_raw@ =~= raw_of(bytes@));
        Self { version, token, save_raw, crc }
    }

    /// Reads a store back from its bytes, given the checksum of the save
    /// they hold; fails unless the store is of the current layout and the
    /// checksum is the one it was written with.
    pub fn from_bytes_with_checksum(bytes: [u8; 416], checksum: u16) -> (r: Result<Self, InvalidData>)
        ensures
            r is Ok <==> u16_at(bytes@, 4) == TOKEN && checksum == u16_at(bytes@, 6 + SAVE_SIZE),
            r matches Ok(w) ==> w.read_from(bytes@),
    {
        let store = Self::read_store(&bytes);
        if store.token != TOKEN {
            return Err(InvalidData);
        }
        if checksum == store.crc {
            Ok(store)
        } else {
            Err(InvalidData)
        }
    }

    /// Reads a store back from its bytes; fails unless it is of the
    /// current layout and its checksum matches.
    pub fn from_bytes(bytes: [u8; 416]) -> (r: Result<Self, InvalidData>)
        ensures
            r is Ok <==> store_accepts(bytes@),
            r matches Ok(w) ==> w.read_from(bytes@),
    {
        let store = Self::read_store(&bytes);
        if store.token != TOKEN {
            return Err(InvalidData);
        }
        let checksum = crc16_usb(store.save_raw.as_slice());
        Self::from_bytes_with_checksum(bytes, checksum)
    }

    /// The store written as bytes.
    pub fn to_bytes(self) -> (r: [u8; 416])
        ensures
            r@ == self.bytes(),
    {
        let mut b: [u8; 416] = [0u8; 416];
        b[0] = (self.version & 0xff) as u8;
        b[1] = ((self.version >> 8u32) & 0xff) as u8;
        b[2] = ((self.version >> 16u32) & 0xff) as u8;
        b[3] = ((self.version >> 24u32) & 0xff) as u8;
        b[4] = (self.token & 0xff) as u8;
        b[5] = ((self.token >> 8u16) & 0xff) as u8;
        let mut i: usize = 0;
        while i < SAVE_SIZE
            invariant
                i <= SAVE_SIZE,
                forall|k: int| 0 <= k < 6 + i ==> #[trigger] b@[k] == store_byte(
                    self.version,
                    self.token,
                    self.save_raw@,
                    self.crc,
                    k,
                ),
            decreases SAVE_SIZE - i,
        {
            b[6 + i] = self.save_raw[i];
            i = i + 1;
        }
        b[6 + SAVE_SIZE] = (self.crc & 0xff) as u8;
        b[7 + SAVE_SIZE] = ((self.crc >> 8u16) & 0xff) as u8;
        assert(b@ =~= self.bytes());
        b
    }

    /// The save the store holds.
    pub fn save(&self) -> (r: Save)
        ensures
            decodes_to(self.raw(), r),
    {
        Save::from_bytes(self.save_raw)
    }

    pub fn version(&self) -> (r: u32)
        ensures
            r == self.spec_version(),
    {
        self.version
    }
}

/// A store keeps the save it was made from: the save read out of it is the
/// one it was made from.
pub proof fn lemma_store_keeps_save(save: Save, store: WrappedSave, read: Save)
    requires
        store.raw() == encode_save(save),
        decodes_to(store.raw(), read),
    ensures
        read == save,
{
    lemma_save_round_trip(save, read);
}

/// The bytes of a valid store pass the checks of [`WrappedSave::from_bytes`],
/// so reading them back succeeds.
pub proof fn lemma_valid_store_is_accepted(store: WrappedSave)
    requires
        store.is_valid(),
    ensures
        store_accepts(store.bytes()),
{
    let b = store.bytes();
    lemma_u16_bytes(store.token);
    lemma_u16_bytes(store.crc);
    assert(b[4] == byte_of_u16(store.token, 0));
    assert(b[5] == byte_of_u16(store.token, 1));
    assert(b[6 + SAVE_SIZE] == byte_of_u16(store.crc, 0));
    assert(b[7 + SAVE_SIZE] == byte_of_u16(store.crc, 1));
    assert(raw_of(b) =~= store.save_raw@);
}

/// Writing a valid store out and reading it back gives the same store, and
/// the bytes pass the checks.
pub proof fn lemma_store_bytes_round_trip(store: WrappedSave, read: WrappedSave)
    requires
        store.is_valid(),
        read.read_from(store.bytes()),
    ensures
        store_accepts(store.bytes()),
        read == store,
{
    let b = store.bytes();
    lemma_u32_bytes(store.version);
    lemma_u16_bytes(store.token);
    lemma_u16_bytes(store.crc);
    assert(b[0] == byte_of_u32(store.version, 0));
    assert(b[1] == byte_of_u32(store.version, 1));
    assert(b[2] == byte_of_u32(store.version, 2));
    assert(b[3] == byte_of_u32(store.version, 3));
    assert(b[4] == byte_of_u16(store.token, 0));
    assert(b[5] == byte_of_u16(store.token, 1));
    assert(b[6 + SAVE_SIZE] == byte_of_u16(store.crc, 0));
    assert(b[7 + SAVE_SIZE] == byte_of_u16(store.crc, 1));
    assert(raw_of(b) =~= store.save_raw@);
    assert(read.save_raw =~= store.save_raw);
}

} // verus!
