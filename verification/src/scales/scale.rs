use vstd::prelude::*;

use super::quarter_tones::{QuarterTone, HIGHEST_NOTE_INDEX};
use super::scale_note::ScaleNote;
use super::tonic::Tonic;
use crate::bounded::{scale_steps, steps_clone, steps_from_slice, steps_get, steps_len, MAX_SCALE_STEPS};

verus! {

/// Distance between two neighbouring notes of a scale, in quarter tones.
pub type Step = u8;

/// A quarter tone.
pub const Q: Step = 1;

/// A semitone.
pub const S: Step = 2;

/// A whole tone.
pub const T: Step = 4;

/// Number of quarter tones in an octave.
pub const OCTAVE: u8 = 24;

/// A scale projected onto a tonic: the ascending steps of one octave,
/// starting from the tonic.
#[derive(Debug)]
pub struct Scale {
    tonic: Tonic,
    ascending: heapless::Vec<Step, 12>,
}

/// Sum of `n` consecutive steps going up from the given position, wrapping
/// around the octave.
pub open spec fn walk_up(steps: Seq<u8>, start: int, n: nat) -> int
    decreases n,
{
    if n == 0 {
        0
    } else {
        walk_up(steps, start, (n - 1) as nat) + steps[(start + n - 1) % (steps.len() as int)]
    }
}

/// Sum of the `n` steps right below the given position, going down and
/// wrapping around the octave.
pub open spec fn walk_down(steps: Seq<u8>, start: int, n: nat) -> int
    decreases n,
{
    if n == 0 {
        0
    } else {
        walk_down(steps, start, (n - 1) as nat) + steps[(start - n) % (steps.len() as int)]
    }
}

/// The note `interval` scale degrees away from `root`, as the position of its
/// tone and its position within the octave; `None` where the scale is empty
/// or the tone would leave the playable range.
pub open spec fn note_in_interval(steps: Seq<u8>, root: ScaleNote, interval: int) -> Option<(int, int)> {
    if steps.len() == 0 {
        None
    } else {
        let len = steps.len() as int;
        let start = root.index as int % len;
        let tone = if interval >= 0 {
            root.tone as int + walk_up(steps, start, interval as nat)
        } else {
            root.tone as int - walk_down(steps, start, (-interval) as nat)
        };
        if 0 <= tone <= HIGHEST_NOTE_INDEX {
            Some((tone, (start + interval) % len))
        } else {
            None
        }
    }
}

/// The note at the given position counted from the lowest tonic of the
/// scale, as the position of its tone and its position within the octave.
pub open spec fn note_by_index(steps: Seq<u8>, tonic: Tonic, index: int) -> Option<(int, int)> {
    if steps.len() == 0 {
        None
    } else {
        let len = steps.len() as int;
        let tone = 2 * (tonic as int) + 24 * (index / len) + walk_up(steps, 0, (index % len) as nat);
        if tone <= HIGHEST_NOTE_INDEX {
            Some((tone, index % len))
        } else {
            None
        }
    }
}

proof fn lemma_walk_up_bounds(steps: Seq<u8>, start: int, n: nat)
    requires
        steps.len() > 0,
    ensures
        0 <= walk_up(steps, start, n) <= 255 * n,
    decreases n,
{
    if n > 0 {
        lemma_walk_up_bounds(steps, start, (n - 1) as nat);
    }
}

proof fn lemma_walk_down_bounds(steps: Seq<u8>, start: int, n: nat)
    requires
        steps.len() > 0,
    ensures
        0 <= walk_down(steps, start, n) <= 255 * n,
    decreases n,
{
    if n > 0 {
        lemma_walk_down_bounds(steps, start, (n - 1) as nat);
    }
}

/// Counting one further moves the remainder on by one, wrapping at `m`.
pub(crate) proof fn lemma_mod_succ(a: int, m: int)
    requires
        m > 0,
    ensures
        (a + 1) % m == if a % m + 1 == m { 0 } else { a % m + 1 },
{
    vstd::arithmetic::div_mod::lemma_add_mod_noop(a, 1, m);
    vstd::arithmetic::div_mod::lemma_mod_bound(a, m);
    if m == 1 {
        vstd::arithmetic::div_mod::lemma_mod_self_0(1);
        assert(a % m == 0);
    } else {
        vstd::arithmetic::div_mod::lemma_small_mod(1, m as nat);
        if a % m + 1 == m {
            vstd::arithmetic::div_mod::lemma_mod_self_0(m);
        } else {
            vstd::arithmetic::div_mod::lemma_small_mod((a % m + 1) as nat, m as nat);
        }
    }
}

proof fn lemma_mod_pred(a: int, m: int)
    requires
        m > 0,
    ensures
        (a - 1) % m == if a % m == 0 { m - 1 } else { a % m - 1 },
{
    lemma_mod_succ(a - 1, m);
    vstd::arithmetic::div_mod::lemma_mod_bound(a - 1, m);
}

impl Clone for Scale {
    /// A scale with the same tonic and steps.
    fn clone(&self) -> (r: Self)
        ensures
            r.steps() == self.steps(),
            r.spec_tonic() == self.spec_tonic(),
    {
        Self { tonic: self.tonic, ascending: steps_clone(&self.ascending) }
    }
}

impl Scale {
    /// The ascending steps of the scale.
    pub closed spec fn steps(&self) -> Seq<u8> {
        scale_steps(self.ascending)
    }

    /// The tonic the scale is projected onto.
    pub closed spec fn spec_tonic(&self) -> Tonic {
        self.tonic
    }

    /// Projects the given ascending steps onto the tonic; fails when there
    /// are more steps than a scale can hold.
    pub fn new(tonic: Tonic, ascending: &[Step]) -> (r: Result<Self, ()>)
        ensures
            r is Ok <==> ascending@.len() <= MAX_SCALE_STEPS,
            r matches Ok(s) ==> s.steps() == ascending@ && s.spec_tonic() == tonic,
    {
        match steps_from_slice(ascending) {
            Ok(ascending) => Ok(Self { tonic, ascending }),
            Err(()) => Err(()),
        }
    }

    /// Projects steps already held in a vector onto the tonic.
    pub(crate) fn from_steps(tonic: Tonic, ascending: heapless::Vec<Step, 12>) -> (r: Self)
        ensures
            r.steps() == scale_steps(ascending),
            r.spec_tonic() == tonic,
    {
        Self { tonic, ascending }
    }

    pub fn tonic(&self) -> (r: Tonic)
        ensures
            r == self.spec_tonic(),
    {
        self.tonic
    }

    /// Number of notes in one octave of the scale.
    pub fn steps_in_octave(&self) -> (r: u8)
        ensures
            r == self.steps().len(),
    {
        steps_len(&self.ascending) as u8
    }

    /// The step going up from the given position of the octave.
    pub fn step(&self, position: usize) -> (r: Step)
        requires
            position < self.steps().len(),
        ensures
            r == self.steps()[position as int],
    {
        steps_get(&self.ascending, position)
    }

    /// The tonic in the lowest octave.
    pub fn lowest_tonic(&self) -> (r: QuarterTone)
        ensures
            r as int == 2 * (self.spec_tonic() as int),
    {
        let index = 2 * self.tonic.index();
        QuarterTone::try_from_u8(index).unwrap()
    }

    /// The note `interval` degrees of the scale above (or, for a negative
    /// interval, below) the root note; `None` when the scale is empty or the
    /// note would leave the playable range.
    pub fn get_note_in_interval_ascending(&self, root: ScaleNote, interval: i16) -> (r: Option<ScaleNote>)
        ensures
            r is Some <==> note_in_interval(self.steps(), root, interval as int) is Some,
            r matches Some(n) ==> note_in_interval(self.steps(), root, interval as int) == Some(
                (n.tone as int, n.index as int),
            ),
    {
        let len = steps_len(&self.ascending);
        if len == 0 {
            return None;
        }
        let ghost steps = self.steps();
        let start: usize = root.index as usize % len;
        let mut position: usize = start;
        let mut tone: i32 = root.tone as i32;
        let mut k: u32 = 0;
        proof {
            vstd::arithmetic::div_mod::lemma_small_mod(start as nat, len as nat);
        }
        if interval >= 0 {
            let n: u32 = interval as u32;
            while k < n
                invariant
                    len == steps.len(),
                    steps == self.steps(),
                    len > 0,
                    start < len,
                    k <= n,
                    n <= 32767,
                    position == (start + k) % (len as int),
                    tone == root.tone as int + walk_up(steps, start as int, k as nat),
                decreases n - k,
            {
                proof {
                    lemma_walk_up_bounds(steps, start as int, k as nat);
                    lemma_walk_up_bounds(steps, start as int, (k + 1) as nat);
                }
                tone = tone + steps_get(&self.ascending, position) as i32;
                position = if position + 1 == len { 0 } else { position + 1 };
                k = k + 1;
                proof {
                    lemma_mod_succ(start as int + k - 1, len as int);
                }
            }
        } else {
            let n: u32 = (-(interval as i32)) as u32;
            while k < n
                invariant
                    len == steps.len(),
                    steps == self.steps(),
                    len > 0,
                    start < len,
                    k <= n,
                    n <= 32768,
                    position == (start - k) % (len as int),
                    tone == root.tone as int - walk_down(steps, start as int, k as nat),
                decreases n - k,
            {
                proof {
                    lemma_walk_down_bounds(steps, start as int, k as nat);
                    lemma_walk_down_bounds(steps, start as int, (k + 1) as nat);
                }
                position = if position == 0 { len - 1 } else { position - 1 };
                tone = tone - steps_get(&self.ascending, position) as i32;
                k = k + 1;
                proof {
                    lemma_mod_pred(start as int - k + 1, len as int);
                }
            }
        }
        if tone < 0 || tone > HIGHEST_NOTE_INDEX as i32 {
            return None;
        }
        let t = QuarterTone::try_from_u8(tone as u8).unwrap();
        Some(ScaleNote::new(t, position as u8))
    }

    /// The note at the given position counted from the lowest tonic of the
    /// scale; `None` when the scale is empty or the note is above the
    /// playable range.
    pub fn get_note_by_index_ascending(&self, index: usize) -> (r: Option<ScaleNote>)
        ensures
            r is Some <==> note_by_index(self.steps(), self.spec_tonic(), index as int) is Some,
            r matches Some(n) ==> note_by_index(self.steps(), self.spec_tonic(), index as int)
                == Some((n.tone as int, n.index as int)),
    {
        let len = steps_len(&self.ascending);
        if len == 0 {
            return None;
        }
        let ghost steps = self.steps();
        let octave = index / len;
        let position = index % len;
        if octave > 10 {
            proof {
                lemma_walk_up_bounds(steps, 0, position as nat);
            }
            return None;
        }
        let mut tone: u32 = 2 * self.tonic.index() as u32 + 24 * octave as u32;
        let mut k: usize = 0;
        while k < position
            invariant
                len == steps.len(),
                steps == self.steps(),
                position < len,
                len <= MAX_SCALE_STEPS,
                k <= position,
                octave <= 10,
                tone == 2 * (self.spec_tonic() as int) + 24 * octave + walk_up(steps, 0, k as nat),
            decreases position - k,
        {
            proof {
                lemma_walk_up_bounds(steps, 0, k as nat);
            }
            tone = tone + steps_get(&self.ascending, k) as u32;
            k = k + 1;
            proof {
                vstd::arithmetic::div_mod::lemma_small_mod((k - 1) as nat, len as nat);
            }
        }
        if tone > HIGHEST_NOTE_INDEX as u32 {
            return None;
        }
        let t = QuarterTone::try_from_u8(tone as u8).unwrap();
        Some(ScaleNote::new(t, position as u8))
    }
}

} // verus!
