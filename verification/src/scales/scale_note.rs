use vstd::prelude::*;

use super::quarter_tones::{QuarterTone, HIGHEST_NOTE_INDEX};

verus! {

/// A note of a scale: its pitch and its position within the scale's octave.
#[derive(Clone, Copy, Debug, PartialEq, Eq, Structural)]
pub struct ScaleNote {
    pub tone: QuarterTone,
    pub index: u8,
}

impl ScaleNote {
    pub fn new(tone: QuarterTone, index: u8) -> (n: Self)
        ensures
            n.tone == tone,
            n.index == index,
    {
        Self { tone, index }
    }

    pub fn tone(&self) -> (r: QuarterTone)
        ensures
            r == self.tone,
    {
        self.tone
    }

    /// Moves the pitch by the given number of quarter tones, staying within
    /// the range from the lowest tone up to [`QuarterTone::HIGHEST_NOTE`].
    pub fn offset_tone(&mut self, offset: i8)
        ensures
            final(self).index == old(self).index,
            final(self).tone as int == clamp_tone(old(self).tone as int + offset),
    {
        let shifted: i16 = self.tone as i16 + offset as i16;
        let clamped: i16 = if shifted < 0 {
            0
        } else if shifted > HIGHEST_NOTE_INDEX as i16 {
            HIGHEST_NOTE_INDEX as i16
        } else {
            shifted
        };
        if let Some(quarter_tone) = QuarterTone::try_from_u8(clamped as u8) {
            self.tone = quarter_tone;
        }
    }

    pub fn index(&self) -> (r: u8)
        ensures
            r == self.index,
    {
        self.index
    }
}

/// The tone position brought into the range of playable tones.
pub open spec fn clamp_tone(position: int) -> int {
    if position < 0 {
        0
    } else if position > HIGHEST_NOTE_INDEX {
        HIGHEST_NOTE_INDEX as int
    } else {
        position
    }
}

} // verus!
