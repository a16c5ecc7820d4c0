//! From positions to what they select.
//!
//! The pots, buttons and CVs of the chord and scale parameters settle on
//! positions; these turn the positions into chords, scales, tonics and
//! notes. A position recovered from an older save may not fit what it
//! indexes, and then the first entry of the group is taken.
use vstd::prelude::*;

use crate::bounded::chord_degrees;
use crate::chords::{chord_table, group_from_index as chord_group_from_index, Chord, Chords, GroupId as ChordGroupId};
use crate::scales::library::scale_table;
use crate::scales::scale::note_by_index;
use crate::scales::tonic::{tonic_from_index, LAST_TONIC_INDEX};
use crate::scales::{GroupId as ScaleGroupId, ProjectedScale, QuarterTone, ScaleNote, Scales, Tonic};

verus! {

/// Octaves above the lowest one where the note positions start.
pub const BOTTOM_OCTAVE_OFFSET: usize = 1;

/// Position of the tonic CV that leaves the pot's tonic unmoved.
pub const TONIC_CV_CENTER: usize = 12;

/// The position itself when it indexes a sequence of `len` entries, the
/// first entry otherwise.
pub open spec fn fitted(position: int, len: nat) -> int {
    if position < len {
        position
    } else {
        0
    }
}

/// The value kept within `[low, high]`.
pub open spec fn clamped(value: int, low: int, high: int) -> int {
    if value < low {
        low
    } else if value > high {
        high
    } else {
        value
    }
}

/// The chord group at the position; a position past the groups reads as
/// the group of single notes.
pub fn chord_group_at(position: usize) -> (r: ChordGroupId)
    ensures
        r == match chord_group_from_index(position) {
            Ok(g) => g,
            Err(_) => ChordGroupId::Size1,
        },
{
    match ChordGroupId::try_from(position) {
        Ok(group) => group,
        Err(_) => ChordGroupId::Size1,
    }
}

/// The chord at the position of the group, or the group's first chord
/// when the position lies past its end.
pub fn chord_at(library: &Chords, group: ChordGroupId, position: usize) -> (r: Chord)
    requires
        library.wf(),
    ensures
        chord_degrees(r) == chord_table(group)[fitted(position as int, chord_table(group).len())],
{
    match library.chord(group, position) {
        Ok(chord) => chord,
        Err(()) => {
            assert(chord_table(group).len() > 0);
            library.chord(group, 0).unwrap()
        },
    }
}

/// The tonic the pot picks, moved by the CV, kept within the octave.
pub fn tonic_at(pot_position: usize, cv_position: usize) -> (r: Tonic)
    requires
        pot_position <= i32::MAX,
        cv_position <= i32::MAX,
        pot_position + cv_position - TONIC_CV_CENTER <= i32::MAX,
    ensures
        r as int == clamped(
            pot_position + cv_position - TONIC_CV_CENTER,
            0,
            LAST_TONIC_INDEX as int,
        ),
{
    let pot = pot_position as i32;
    let cv_offset = cv_position as i32 - TONIC_CV_CENTER as i32;
    let sum = pot + cv_offset;
    let index: usize = if sum < 0 {
        0
    } else if sum > LAST_TONIC_INDEX as i32 {
        LAST_TONIC_INDEX
    } else {
        sum as usize
    };
    let r = Tonic::try_from(index);
    assert(tonic_from_index(index) is Ok);
    r.unwrap()
}

/// The scale at the position of the group, projected onto the tonic, or
/// the group's first scale when the position lies past its end.
pub fn scale_at(library: &Scales, group: ScaleGroupId, position: usize, tonic: Tonic) -> (r:
    ProjectedScale)
    requires
        library.wf(),
    ensures
        r.steps() == scale_table(group)[fitted(position as int, scale_table(group).len())],
        r.spec_tonic() == tonic,
{
    let scale = match library.scale(group, position) {
        Ok(scale) => scale,
        Err(()) => {
            assert(scale_table(group).len() > 0);
            library.scale(group, 0).unwrap()
        },
    };
    scale.with_tonic(tonic)
}

/// The note the note pot picks: positions count up from the tonic an
/// octave above the lowest. Past the playable range it is the lowest note.
pub fn note_at(scale: &ProjectedScale, pot_position: usize) -> (r: ScaleNote)
    requires
        pot_position + BOTTOM_OCTAVE_OFFSET * scale.steps().len() <= usize::MAX,
    ensures
        match note_by_index(
            scale.steps(),
            scale.spec_tonic(),
            pot_position + BOTTOM_OCTAVE_OFFSET * scale.steps().len(),
        ) {
            Some((tone, index)) => r.tone as int == tone && r.index as int == index,
            None => r.tone == QuarterTone::CMinus1 && r.index == 0,
        },
{
    let size = scale.steps_in_octave() as usize;
    match scale.get_note_by_index_ascending(pot_position + BOTTOM_OCTAVE_OFFSET * size) {
        Some(note) => note,
        None => ScaleNote::new(QuarterTone::CMinus1, 0),
    }
}

} // verus!
