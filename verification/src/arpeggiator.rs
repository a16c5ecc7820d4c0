use vstd::prelude::*;

use crate::bounded::{
    chord_degrees, degrees_clone, degrees_equal, degrees_get, degrees_len, degrees_set, degrees_swap,
    scale_steps,
};
use crate::chords::Chord;
use crate::random::Random;
use crate::scales::scale::note_in_interval;
use crate::scales::{ProjectedScale, QuarterTone, ScaleNote};

verus! {

/// Order in which the arpeggiator walks through the degrees of a chord.
#[derive(Clone, Copy, PartialEq, Eq, Debug, Structural)]
pub enum Mode {
    UpWithReset,
    UpDownNoRepeatsWithReset,
    UpDownRepeatsWithReset,
    RandomWithReset,
    MovingWithReset,
    RandomWithNext,
    MovingWithNext,
}

/// Index of the last mode, [`Mode::MovingWithNext`].
pub const LAST_MODE_INDEX: usize = 6;

impl Default for Mode {
    fn default() -> (r: Self)
        ensures
            r == Mode::UpWithReset,
    {
        Mode::UpWithReset
    }
}

impl Mode {
    /// Whether the mode walks a copy of the chord reordered by swaps.
    pub open spec fn is_moving(self) -> bool {
        self == Mode::MovingWithReset || self == Mode::MovingWithNext
    }

    /// Whether the mode walks the chord in order (up, or up and down), as
    /// opposed to playing a shuffled copy of it.
    pub open spec fn is_ordered(self) -> bool {
        self == Mode::UpWithReset || self == Mode::UpDownNoRepeatsWithReset || self
            == Mode::UpDownRepeatsWithReset
    }

    pub fn index(self) -> (r: usize)
        ensures
            r == self as usize,
            r <= LAST_MODE_INDEX,
    {
        self as usize
    }

    /// The mode at the given position, if there is one.
    pub fn try_from_index(index: usize) -> (r: Option<Self>)
        ensures
            r is Some <==> index <= LAST_MODE_INDEX,
            r matches Some(m) ==> m as usize == index,
    {
        match index {
            0 => Some(Mode::UpWithReset),
            1 => Some(Mode::UpDownNoRepeatsWithReset),
            2 => Some(Mode::UpDownRepeatsWithReset),
            3 => Some(Mode::RandomWithReset),
            4 => Some(Mode::MovingWithReset),
            5 => Some(Mode::RandomWithNext),
            6 => Some(Mode::MovingWithNext),
            _ => None,
        }
    }
}

/// Where the arpeggiator stands within the chord.
#[derive(Debug)]
pub enum State {
    /// Walking up; the position of the next degree.
    Up(usize),
    /// Walking down; the position of the next degree.
    Down(usize),
    /// Playing a shuffled copy of the chord; the next position in it.
    Shuffled(usize, Chord),
}

/// [`State`] as proofs see it.
pub enum Progress {
    Up(nat),
    Down(nat),
    Shuffled(nat, Seq<i16>),
}

/// What the arpeggiator plays.
pub struct Configuration {
    pub scale: ProjectedScale,
    pub root: ScaleNote,
    pub chord: Chord,
    pub mode: Mode,
    pub reset_next: bool,
}

impl Clone for Configuration {
    fn clone(&self) -> (r: Self)
        ensures
            r.scale.steps() == self.scale.steps(),
            r.scale.spec_tonic() == self.scale.spec_tonic(),
            r.root == self.root,
            chord_degrees(r.chord) == chord_degrees(self.chord),
            r.mode == self.mode,
            r.reset_next == self.reset_next,
    {
        Configuration {
            scale: self.scale.clone(),
            root: self.root,
            chord: degrees_clone(&self.chord),
            mode: self.mode,
            reset_next: self.reset_next,
        }
    }
}

/// Plays the notes of a chord one after another.
pub struct Arpeggiator {
    scale: ProjectedScale,
    root: ScaleNote,
    chord: Chord,
    mode: Mode,
    state: State,
    last_tone: QuarterTone,
}

impl Clone for Arpeggiator {
    /// An arpeggiator at the same place of the same chord, mode, root and
    /// scale.
    fn clone(&self) -> (r: Self)
        ensures
            r.wf() == self.wf(),
            r.degrees() == self.degrees(),
            r.progress() == self.progress(),
            r.spec_mode() == self.spec_mode(),
            r.spec_root() == self.spec_root(),
            r.scale_steps() == self.scale_steps(),
            r.spec_last_tone() == self.spec_last_tone(),
    {
        let state = match &self.state {
            State::Up(i) => State::Up(*i),
            State::Down(i) => State::Down(*i),
            State::Shuffled(i, shuffled) => State::Shuffled(*i, degrees_clone(shuffled)),
        };
        Arpeggiator {
            scale: self.scale.clone(),
            root: self.root,
            chord: degrees_clone(&self.chord),
            mode: self.mode,
            state,
            last_tone: self.last_tone,
        }
    }
}

/// `s` with the elements at `a` and `b` exchanged.
pub open spec fn swapped(s: Seq<i16>, a: int, b: int) -> Seq<i16> {
    s.update(a, s[b]).update(b, s[a])
}

/// Whether every element of `s` is a degree of `chord`.
pub open spec fn drawn_from(s: Seq<i16>, chord: Seq<i16>) -> bool {
    forall|k: int| 0 <= k < s.len() ==> chord.contains(#[trigger] s[k])
}

/// The progress a fresh arpeggiator starts from.
pub open spec fn initial_progress(mode: Mode, chord: Seq<i16>) -> Progress {
    if mode.is_ordered() {
        Progress::Up(0)
    } else {
        Progress::Shuffled(0, chord)
    }
}

/// The degree [`Arpeggiator::pop`] plays from the given progress.
pub open spec fn pop_degree(mode: Mode, chord: Seq<i16>, before: Progress) -> i16 {
    let last = chord.len() - 1;
    match before {
        Progress::Up(i) => if last == 0 {
            chord[0]
        } else if i < last {
            chord[i as int]
        } else if i == last {
            chord[last]
        } else if mode == Mode::UpWithReset {
            chord[0]
        } else {
            chord[last]
        },
        Progress::Down(i) => if last == 0 || i == 0 {
            chord[0]
        } else if i < last {
            chord[i as int]
        } else {
            chord[last]
        },
        Progress::Shuffled(i, shuffled) => if last == 0 {
            chord[0]
        } else if i >= last {
            shuffled[last]
        } else {
            shuffled[i as int]
        },
    }
}

/// Where an ordered walk goes after playing one degree.
pub open spec fn ordered_next(mode: Mode, chord_len: nat, before: Progress) -> Progress {
    let last = chord_len - 1;
    match before {
        Progress::Up(i) => if last == 0 {
            before
        } else if i < last {
            Progress::Up(i + 1)
        } else if i == last {
            if mode == Mode::UpWithReset {
                Progress::Up(0)
            } else if mode == Mode::UpDownRepeatsWithReset {
                Progress::Down(last as nat)
            } else {
                Progress::Down((last - 1) as nat)
            }
        } else {
            if mode == Mode::UpWithReset {
                Progress::Up(1)
            } else if mode == Mode::UpDownRepeatsWithReset {
                Progress::Down(last as nat)
            } else {
                Progress::Down((last - 1) as nat)
            }
        },
        Progress::Down(i) => if last == 0 {
            before
        } else if i == 0 {
            if mode == Mode::UpDownRepeatsWithReset {
                Progress::Up(0)
            } else {
                Progress::Up(1)
            }
        } else if i < last {
            Progress::Down((i - 1) as nat)
        } else {
            Progress::Down((last - 1) as nat)
        },
        _ => before,
    }
}

/// The values of the draws made after the first `before.len()`.
pub open spec fn new_draws(before: Seq<(u8, u8)>, after: Seq<(u8, u8)>) -> Seq<u8> {
    Seq::new((after.len() - before.len()) as nat, |k: int| after[before.len() + k].1)
}

/// Whether `after` extends the draws `before` by `count` draws, each asked
/// with the given modulo.
pub open spec fn drew(before: Seq<(u8, u8)>, after: Seq<(u8, u8)>, count: nat, modulo: int) -> bool {
    &&& after.len() == before.len() + count
    &&& after.subrange(0, before.len() as int) == before
    &&& forall|k: int| before.len() <= k < after.len() ==> (#[trigger] after[k]).0 == modulo
}

/// A copy of `chord` redrawn from the draws: position `k` takes the degree
/// at `draws[k]`.
pub open spec fn redrawn(chord: Seq<i16>, draws: Seq<u8>) -> Seq<i16> {
    Seq::new(draws.len(), |k: int| chord[draws[k] as int])
}

/// The two positions up to `max` made of two draws: the second moves one
/// further, wrapping around, when it equals the first.
pub open spec fn distinct_pair(max: int, a: int, b: int) -> (int, int) {
    if b == a {
        if a + 1 > max {
            (a, a + 1 - (max + 1))
        } else {
            (a, a + 1)
        }
    } else {
        (a, b)
    }
}

/// The shuffled copy the mode makes of `before` once it played it through,
/// from the draws made for it.
pub open spec fn reshuffled(mode: Mode, chord: Seq<i16>, before: Seq<i16>, draws: Seq<u8>) -> Seq<i16> {
    if mode == Mode::RandomWithReset {
        redrawn(chord, draws)
    } else if mode == Mode::MovingWithReset {
        let (a, b) = distinct_pair(chord.len() - 1, draws[0] as int, draws[1] as int);
        swapped(before, a, b)
    } else {
        before
    }
}

/// Whether the pop finishes a pass through a shuffled copy.
pub open spec fn finishes_pass(chord_len: nat, before: Progress) -> bool {
    before matches Progress::Shuffled(i, _) && chord_len >= 2 && i >= chord_len - 1
}

/// Number of draws [`Arpeggiator::pop`] makes from the given progress: a
/// pass finished in a reshuffling mode draws once per degree, or twice for
/// a swap; any other pop draws nothing.
pub open spec fn pop_draws(mode: Mode, chord_len: nat, before: Progress) -> nat {
    if finishes_pass(chord_len, before) {
        if mode == Mode::RandomWithReset {
            chord_len
        } else if mode == Mode::MovingWithReset {
            2
        } else {
            0
        }
    } else {
        0
    }
}

/// The progress [`Arpeggiator::pop`] leaves behind, given the draws it made.
pub open spec fn pop_next(mode: Mode, chord: Seq<i16>, before: Progress, draws: Seq<u8>) -> Progress {
    let last = chord.len() - 1;
    match before {
        Progress::Shuffled(i, shuffled) => if last == 0 {
            before
        } else if i < last {
            Progress::Shuffled(i + 1, shuffled)
        } else {
            Progress::Shuffled(0, reshuffled(mode, chord, shuffled, draws))
        },
        _ => ordered_next(mode, chord.len(), before),
    }
}

/// The progress right after the mode was (possibly) switched.
pub open spec fn progress_after_mode(old_mode: Mode, new_mode: Mode, old_chord: Seq<i16>, before: Progress) -> Progress {
    if old_mode == new_mode {
        before
    } else if new_mode.is_ordered() {
        if before is Up {
            before
        } else {
            Progress::Up(0)
        }
    } else {
        Progress::Shuffled(0, old_chord)
    }
}

/// Number of draws a reset request makes in the mode: once per degree of
/// the shuffled copy when redrawing it, twice for a swap, none otherwise.
pub open spec fn reset_draws(mode: Mode, before: Progress) -> nat {
    match before {
        Progress::Shuffled(_, shuffled) => if mode == Mode::RandomWithNext {
            shuffled.len()
        } else if mode == Mode::MovingWithNext {
            2
        } else {
            0
        },
        _ => 0,
    }
}

/// What a reset request makes of `before` in the given mode, from the
/// draws it made.
pub open spec fn reset_progress(
    mode: Mode,
    old_chord: Seq<i16>,
    new_chord: Seq<i16>,
    before: Progress,
    draws: Seq<u8>,
) -> Progress {
    if mode.is_ordered() {
        Progress::Up(0)
    } else if mode == Mode::RandomWithReset || mode == Mode::MovingWithReset {
        Progress::Shuffled(0, new_chord)
    } else {
        match before {
            Progress::Shuffled(_, shuffled) => if mode == Mode::RandomWithNext {
                Progress::Shuffled(0, redrawn(old_chord, draws))
            } else {
                let (a, b) = distinct_pair(old_chord.len() - 1, draws[0] as int, draws[1] as int);
                Progress::Shuffled(0, swapped(shuffled, a, b))
            },
            _ => before,
        }
    }
}

/// Number of draws taking a configuration makes: those of a reset
/// request, after the mode was switched.
pub open spec fn configure_draws(
    old_mode: Mode,
    old_chord: Seq<i16>,
    before: Progress,
    new_mode: Mode,
    reset: bool,
) -> nat {
    if reset {
        reset_draws(new_mode, progress_after_mode(old_mode, new_mode, old_chord, before))
    } else {
        0
    }
}

/// The progress after taking a configuration, given the draws made: the
/// mode switched, then the reset request carried out, then the chord
/// changed.
pub open spec fn configured_progress(
    old_mode: Mode,
    old_chord: Seq<i16>,
    before: Progress,
    new_mode: Mode,
    new_chord: Seq<i16>,
    reset: bool,
    draws: Seq<u8>,
) -> Progress {
    let p1 = progress_after_mode(old_mode, new_mode, old_chord, before);
    let p2 = if reset {
        reset_progress(new_mode, old_chord, new_chord, p1, draws)
    } else {
        p1
    };
    progress_after_chord(old_chord, new_chord, p2)
}

/// The progress after a chord change: a shuffled walk restarts from a
/// fresh copy of the new chord, keeping its position.
pub open spec fn progress_after_chord(old_chord: Seq<i16>, new_chord: Seq<i16>, before: Progress) -> Progress {
    if old_chord != new_chord {
        match before {
            Progress::Shuffled(i, _) => Progress::Shuffled(i, new_chord),
            _ => before,
        }
    } else {
        before
    }
}

/// The two positions up to `max` made of two draws `a` and `b`: `b` moves
/// one further, wrapping around, when it equals `a`, so the two differ
/// whenever `max` allows it.
pub fn two_distinct_from(max: usize, a: usize, b: usize) -> (r: (usize, usize))
    requires
        max < 255,
        a <= max,
        b <= max,
    ensures
        r == (distinct_pair(max as int, a as int, b as int).0 as usize, distinct_pair(
            max as int,
            a as int,
            b as int,
        ).1 as usize),
        r.0 <= max,
        r.1 <= max,
        max >= 1 ==> r.0 != r.1,
{
    let mut b = b;
    if b == a {
        b = b + 1;
        if b > max {
            b = b - (max + 1);
        }
    }
    (a, b)
}

/// Two positions up to `max` drawn at random, distinct whenever `max`
/// allows it; it draws twice, both times modulo `max + 1`.
fn two_distinct_random_values<R: Random>(max: usize, random: &mut R) -> (r: (usize, usize))
    requires
        max < 255,
    ensures
        drew(old(random).draws(), final(random).draws(), 2, max + 1),
        ({
            let d = new_draws(old(random).draws(), final(random).draws());
            let pair = distinct_pair(max as int, d[0] as int, d[1] as int);
            r.0 == pair.0 && r.1 == pair.1
        }),
        r.0 <= max,
        r.1 <= max,
        max >= 1 ==> r.0 != r.1,
{
    let ghost start = random.draws();
    let a = random.u8_mod(max as u8 + 1) as usize;
    let b = random.u8_mod(max as u8 + 1) as usize;
    proof {
        let d = new_draws(start, random.draws());
        assert(d[0] == a && d[1] == b);
        assert(random.draws().subrange(0, start.len() as int) =~= start);
    }
    two_distinct_from(max, a, b)
}

/// Draws `count` values modulo `modulo`.
fn draw_values<R: Random>(random: &mut R, modulo: u8, count: usize) -> (r: Vec<u8>)
    requires
        modulo > 0,
    ensures
        drew(old(random).draws(), final(random).draws(), count as nat, modulo as int),
        r@ == new_draws(old(random).draws(), final(random).draws()),
        forall|k: int| 0 <= k < r@.len() ==> #[trigger] r@[k] < modulo,
{
    let ghost start = random.draws();
    let mut values: Vec<u8> = Vec::new();
    let mut i: usize = 0;
    while i < count
        invariant
            modulo > 0,
            i <= count,
            values@.len() == i,
            random.draws().len() == start.len() + i,
            random.draws().subrange(0, start.len() as int) == start,
            forall|k: int| start.len() <= k < random.draws().len() ==> (#[trigger] random.draws()[k]).0 == modulo,
            forall|k: int| 0 <= k < i ==> #[trigger] values@[k] == random.draws()[start.len() + k].1,
            forall|k: int| 0 <= k < i ==> #[trigger] values@[k] < modulo,
        decreases count - i,
    {
        let ghost before = random.draws();
        let v = random.u8_mod(modulo);
        proof {
            assert(random.draws().subrange(0, start.len() as int) =~= before.subrange(0, start.len() as int));
            assert forall|k: int| 0 <= k < i implies #[trigger] values@[k] == random.draws()[start.len() + k].1 by {
                assert(random.draws()[start.len() + k] == before[start.len() + k]);
            }
        }
        values.push(v);
        i = i + 1;
    }
    assert(values@ =~= new_draws(start, random.draws()));
    values
}

/// Redraws the shuffled copy from the draws: position `k` takes the degree
/// of `chord` at `draws[k]`.
pub fn redraw_from(shuffled: &mut Chord, chord: &Chord, draws: &[u8])
    requires
        draws@.len() == chord_degrees(*old(shuffled)).len(),
        forall|k: int| 0 <= k < draws@.len() ==> (#[trigger] draws@[k]) < chord_degrees(*chord).len(),
    ensures
        chord_degrees(*final(shuffled)) == redrawn(chord_degrees(*chord), draws@),
{
    let len = degrees_len(shuffled);
    let mut i: usize = 0;
    while i < len
        invariant
            len == chord_degrees(*shuffled).len(),
            draws@.len() == len,
            forall|k: int| 0 <= k < draws@.len() ==> (#[trigger] draws@[k]) < chord_degrees(*chord).len(),
            i <= len,
            forall|k: int|
                0 <= k < i ==> #[trigger] chord_degrees(*shuffled)[k] == chord_degrees(*chord)[draws@[k] as int],
        decreases len - i,
    {
        let degree = degrees_get(chord, draws[i] as usize);
        degrees_set(shuffled, i, degree);
        i = i + 1;
    }
    assert(chord_degrees(*shuffled) =~= redrawn(chord_degrees(*chord), draws@));
}

/// Replaces every degree of `shuffled` with a degree of `chord` drawn at
/// random: one draw per degree, modulo the size of the chord.
fn redraw<R: Random>(shuffled: &mut Chord, chord: &Chord, random: &mut R)
    requires
        0 < chord_degrees(*chord).len(),
    ensures
        drew(
            old(random).draws(),
            final(random).draws(),
            chord_degrees(*old(shuffled)).len(),
            chord_degrees(*chord).len() as int,
        ),
        chord_degrees(*final(shuffled)) == redrawn(
            chord_degrees(*chord),
            new_draws(old(random).draws(), final(random).draws()),
        ),
        forall|k: int|
            0 <= k < new_draws(old(random).draws(), final(random).draws()).len() ==> (#[trigger] new_draws(
                old(random).draws(),
                final(random).draws(),
            )[k]) < chord_degrees(*chord).len(),
{
    let len = degrees_len(shuffled);
    let chord_len = degrees_len(chord);
    let draws = draw_values(random, chord_len as u8, len);
    redraw_from(shuffled, chord, draws.as_slice());
}

/// Every degree of a redrawn copy is a degree of the chord.
proof fn lemma_redrawn_from_chord(chord: Seq<i16>, draws: Seq<u8>)
    requires
        forall|k: int| 0 <= k < draws.len() ==> (#[trigger] draws[k]) < chord.len(),
    ensures
        drawn_from(redrawn(chord, draws), chord),
{
    assert forall|k: int| 0 <= k < redrawn(chord, draws).len() implies chord.contains(
        #[trigger] redrawn(chord, draws)[k],
    ) by {
        assert(redrawn(chord, draws)[k] == chord[draws[k] as int]);
    }
}

impl Arpeggiator {
    /// The degrees of the chord being played.
    pub closed spec fn degrees(&self) -> Seq<i16> {
        chord_degrees(self.chord)
    }

    /// The position within the chord.
    pub closed spec fn progress(&self) -> Progress {
        match self.state {
            State::Up(i) => Progress::Up(i as nat),
            State::Down(i) => Progress::Down(i as nat),
            State::Shuffled(i, shuffled) => Progress::Shuffled(i as nat, chord_degrees(shuffled)),
        }
    }

    pub closed spec fn spec_mode(&self) -> Mode {
        self.mode
    }

    pub closed spec fn spec_root(&self) -> ScaleNote {
        self.root
    }

    /// The steps of the scale the chord is projected onto.
    pub closed spec fn scale_steps(&self) -> Seq<u8> {
        self.scale.steps()
    }

    pub closed spec fn spec_last_tone(&self) -> QuarterTone {
        self.last_tone
    }

    /// The walk matches the mode, and a shuffled copy of the chord is as
    /// long as the chord and made of its degrees.
    pub closed spec fn wf(&self) -> bool {
        match self.progress() {
            Progress::Shuffled(_, shuffled) => {
                &&& !self.mode.is_ordered()
                &&& shuffled.len() == self.degrees().len()
                &&& drawn_from(shuffled, self.degrees())
                &&& self.mode.is_moving() ==> shuffled.to_multiset() == self.degrees().to_multiset()
            },
            _ => self.mode.is_ordered(),
        }
    }

    /// An arpeggiator at the start of the configured chord.
    pub fn with_config(config: Configuration) -> (arp: Self)
        ensures
            arp.wf(),
            arp.degrees() == chord_degrees(config.chord),
            arp.progress() == initial_progress(config.mode, chord_degrees(config.chord)),
            arp.spec_mode() == config.mode,
            arp.spec_root() == config.root,
            arp.scale_steps() == config.scale.steps(),
            arp.spec_last_tone() == QuarterTone::CMinus1,
    {
        let state = match config.mode {
            Mode::UpWithReset | Mode::UpDownNoRepeatsWithReset | Mode::UpDownRepeatsWithReset => State::Up(0),
            Mode::RandomWithReset | Mode::RandomWithNext | Mode::MovingWithReset | Mode::MovingWithNext => {
                State::Shuffled(0, degrees_clone(&config.chord))
            },
        };
        let arp = Self {
            scale: config.scale,
            root: config.root,
            mode: config.mode,
            state,
            chord: config.chord,
            last_tone: QuarterTone::CMinus1,
        };
        proof {
            if !config.mode.is_ordered() {
                assert forall|k: int| 0 <= k < arp.degrees().len() implies arp.degrees().contains(
                    #[trigger] arp.degrees()[k],
                ) by {}
            }
        }
        arp
    }

    /// Takes a new configuration.
    ///
    /// Switching the mode restarts the walk unless it stays an up-walk; a
    /// reset request restarts it (reshuffling in the modes that keep their
    /// shuffle across resets); a new chord replaces the shuffled copy.
    pub fn apply_config<R: Random>(&mut self, config: Configuration, random: &mut R)
        requires
            old(self).wf(),
            config.reset_next && (config.mode == Mode::RandomWithNext || config.mode
                == Mode::MovingWithNext) ==> old(self).degrees().len() > 0,
        ensures
            final(self).wf(),
            final(self).degrees() == chord_degrees(config.chord),
            final(self).spec_mode() == config.mode,
            final(self).spec_root() == config.root,
            final(self).scale_steps() == config.scale.steps(),
            final(self).spec_last_tone() == old(self).spec_last_tone(),
            ({
                let count = configure_draws(
                    old(self).spec_mode(),
                    old(self).degrees(),
                    old(self).progress(),
                    config.mode,
                    config.reset_next,
                );
                &&& drew(
                    old(random).draws(),
                    final(random).draws(),
                    count,
                    old(self).degrees().len() as int,
                )
                &&& count == 0 ==> *final(random) == *old(random)
                &&& final(self).progress() == configured_progress(
                    old(self).spec_mode(),
                    old(self).degrees(),
                    old(self).progress(),
                    config.mode,
                    chord_degrees(config.chord),
                    config.reset_next,
                    new_draws(old(random).draws(), final(random).draws()),
                )
            }),
    {
        let ghost old_chord = self.degrees();
        let ghost p1 = progress_after_mode(self.mode, config.mode, old_chord, self.progress());
        if self.mode != config.mode {
            self.mode = config.mode;
            match self.mode {
                Mode::UpWithReset | Mode::UpDownRepeatsWithReset | Mode::UpDownNoRepeatsWithReset => {
                    if !matches!(self.state, State::Up(_)) {
                        self.state = State::Up(0);
                    }
                },
                Mode::RandomWithReset | Mode::RandomWithNext | Mode::MovingWithReset | Mode::MovingWithNext => {
                    self.state = State::Shuffled(0, degrees_clone(&self.chord));
                },
            }
        }
        assert(self.progress() == p1);
        assert(self.wf()) by {
            if !self.mode.is_ordered() {
                if let Progress::Shuffled(_, sh) = self.progress() {
                    assert forall|k: int| 0 <= k < sh.len() implies self.degrees().contains(
                        #[trigger] sh[k],
                    ) by {
                        if old(self).spec_mode() != config.mode {
                            assert(sh[k] == self.degrees()[k]);
                        }
                    }
                }
            }
        }
        let ghost start = random.draws();
        if config.reset_next {
            match config.mode {
                Mode::UpWithReset | Mode::UpDownNoRepeatsWithReset | Mode::UpDownRepeatsWithReset => {
                    self.state = State::Up(0);
                },
                Mode::RandomWithReset | Mode::MovingWithReset => {
                    self.state = State::Shuffled(0, degrees_clone(&config.chord));
                },
                Mode::RandomWithNext => {
                    let mut state = State::Up(0);
                    core::mem::swap(&mut state, &mut self.state);
                    if let State::Shuffled(_, mut shuffled) = state {
                        redraw(&mut shuffled, &self.chord, random);
                        proof {
                            lemma_redrawn_from_chord(old_chord, new_draws(start, random.draws()));
                        }
                        self.state = State::Shuffled(0, shuffled);
                    }
                },
                Mode::MovingWithNext => {
                    let mut state = State::Up(0);
                    core::mem::swap(&mut state, &mut self.state);
                    if let State::Shuffled(_, mut shuffled) = state {
                        let last_index = degrees_len(&self.chord) - 1;
                        let (random_a, random_b) = two_distinct_random_values(last_index, random);
                        let ghost before = chord_degrees(shuffled);
                        degrees_swap(&mut shuffled, random_a, random_b);
                        assert(chord_degrees(shuffled) == swapped(before, random_a as int, random_b as int));
                        proof {
                            lemma_swap_keeps_degrees(before, random_a as int, random_b as int);
                            assert forall|k: int| 0 <= k < before.len() implies old_chord.contains(
                                #[trigger] chord_degrees(shuffled)[k],
                            ) by {
                                if k == random_a as int {
                                    assert(old_chord.contains(before[random_b as int]));
                                } else if k == random_b as int {
                                    assert(old_chord.contains(before[random_a as int]));
                                } else {
                                    assert(old_chord.contains(before[k]));
                                }
                            }
                        }
                        self.state = State::Shuffled(0, shuffled);
                    }
                },
            }
        }
        let ghost p2 = self.progress();
        assert(start.subrange(0, start.len() as int) =~= start);
        assert(p2 == if config.reset_next {
            reset_progress(config.mode, old_chord, chord_degrees(config.chord), p1, new_draws(start, random.draws()))
        } else {
            p1
        });
        let ghost wf_reset = match p2 {
            Progress::Shuffled(_, sh) => (sh.len() == old_chord.len() && drawn_from(sh, old_chord)
                && (config.mode.is_moving() ==> sh.to_multiset() == old_chord.to_multiset()))
                || sh == chord_degrees(config.chord),
            _ => true,
        };
        assert(wf_reset);
        if !degrees_equal(&self.chord, &config.chord) {
            let mut state = State::Up(0);
            core::mem::swap(&mut state, &mut self.state);
            self.state = match state {
                State::Shuffled(index, _) => State::Shuffled(index, degrees_clone(&config.chord)),
                other => other,
            };
        }
        self.chord = config.chord;
        self.scale = config.scale;
        self.root = config.root;
        proof {
            if let Progress::Shuffled(_, sh) = self.progress() {
                assert forall|k: int| 0 <= k < sh.len() implies self.degrees().contains(#[trigger] sh[k]) by {
                    if sh == self.degrees() {
                        assert(sh[k] == self.degrees()[k]);
                    }
                }
            }
        }
        assert(progress_after_chord(old_chord, chord_degrees(config.chord), p2) == self.progress());
    }

    /// Plays the next degree of the chord, returning the note it gives on
    /// the scale together with the degree.
    pub fn pop<R: Random>(&mut self, random: &mut R) -> (r: Option<(ScaleNote, i16)>)
        requires
            old(self).wf(),
            old(self).degrees().len() > 0,
        ensures
            final(self).wf(),
            final(self).degrees() == old(self).degrees(),
            final(self).spec_mode() == old(self).spec_mode(),
            final(self).spec_root() == old(self).spec_root(),
            final(self).scale_steps() == old(self).scale_steps(),
            drew(
                old(random).draws(),
                final(random).draws(),
                pop_draws(old(self).spec_mode(), old(self).degrees().len(), old(self).progress()),
                old(self).degrees().len() as int,
            ),
            pop_draws(old(self).spec_mode(), old(self).degrees().len(), old(self).progress()) == 0
                ==> *final(random) == *old(random),
            final(self).progress() == pop_next(
                old(self).spec_mode(),
                old(self).degrees(),
                old(self).progress(),
                new_draws(old(random).draws(), final(random).draws()),
            ),
            ({
                let degree = pop_degree(old(self).spec_mode(), old(self).degrees(), old(self).progress());
                let note = note_in_interval(old(self).scale_steps(), old(self).spec_root(), degree as int);
                &&& old(self).degrees().contains(degree)
                &&& (r is Some <==> note is Some)
                &&& (r matches Some((n, d)) ==> {
                    &&& d == degree
                    &&& note == Some((n.tone as int, n.index as int))
                    &&& final(self).spec_last_tone() == n.tone
                })
                &&& (r is None ==> final(self).spec_last_tone() == old(self).spec_last_tone())
            }),
    {
        let ghost chord = self.degrees();
        let len = degrees_len(&self.chord);
        let last_index = len - 1;
        let mut state = State::Up(0);
        core::mem::swap(&mut state, &mut self.state);
        let (new_state, chord_degree) = match state {
            State::Up(index) => {
                if last_index == 0 {
                    (State::Up(index), degrees_get(&self.chord, 0))
                } else if index < last_index {
                    (State::Up(index + 1), degrees_get(&self.chord, index))
                } else {
                    match self.mode {
                        Mode::UpWithReset => if index == last_index {
                            (State::Up(0), degrees_get(&self.chord, last_index))
                        } else {
                            (State::Up(1), degrees_get(&self.chord, 0))
                        },
                        Mode::UpDownRepeatsWithReset => (
                            State::Down(last_index),
                            degrees_get(&self.chord, last_index),
                        ),
                        _ => (State::Down(last_index - 1), degrees_get(&self.chord, last_index)),
                    }
                }
            },
            State::Down(index) => {
                if last_index == 0 {
                    (State::Down(index), degrees_get(&self.chord, 0))
                } else if index == 0 {
                    match self.mode {
                        Mode::UpDownRepeatsWithReset => (State::Up(index), degrees_get(&self.chord, index)),
                        _ => (State::Up(index + 1), degrees_get(&self.chord, index)),
                    }
                } else {
                    let new_index = if index < last_index { index } else { last_index };
                    (State::Down(new_index - 1), degrees_get(&self.chord, new_index))
                }
            },
            State::Shuffled(index, mut shuffled) => {
                if last_index == 0 {
                    (State::Shuffled(index, shuffled), degrees_get(&self.chord, last_index))
                } else if index >= last_index {
                    let degree = degrees_get(&shuffled, last_index);
                    let ghost before = chord_degrees(shuffled);
                    let ghost start = random.draws();
                    match self.mode {
                        Mode::RandomWithReset => {
                            redraw(&mut shuffled, &self.chord, random);
                            proof {
                                lemma_redrawn_from_chord(chord, new_draws(start, random.draws()));
                            }
                        },
                        Mode::MovingWithReset => {
                            let (random_a, random_b) = two_distinct_random_values(last_index, random);
                            degrees_swap(&mut shuffled, random_a, random_b);
                            assert(chord_degrees(shuffled) == swapped(before, random_a as int, random_b as int));
                            proof {
                                lemma_swap_keeps_degrees(before, random_a as int, random_b as int);
                            }
                            assert forall|k: int| 0 <= k < chord_degrees(shuffled).len() implies chord.contains(
                                #[trigger] chord_degrees(shuffled)[k],
                            ) by {
                                if k == random_a as int {
                                    assert(chord.contains(before[random_b as int]));
                                } else if k == random_b as int {
                                    assert(chord.contains(before[random_a as int]));
                                } else {
                                    assert(chord.contains(before[k]));
                                }
                            }
                        },
                        _ => {},
                    }
                    assert(chord_degrees(shuffled) == reshuffled(self.mode, chord, before, new_draws(start, random.draws())));
                    (State::Shuffled(0, shuffled), degree)
                } else {
                    let degree = degrees_get(&shuffled, index);
                    (State::Shuffled(index + 1, shuffled), degree)
                }
            },
        };
        self.state = new_state;
        proof {
            assert(chord.contains(chord[0]));
            assert(chord.contains(chord[last_index as int]));
        }
        proof {
            assert(old(random).draws().subrange(0, old(random).draws().len() as int) =~= old(random).draws());
        }
        match self.scale.get_note_in_interval_ascending(self.root, chord_degree) {
            Some(note) => {
                self.last_tone = note.tone;
                Some((note, chord_degree))
            },
            None => None,
        }
    }

    /// Number of degrees of the chord being played.
    pub fn chord_size(&self) -> (r: usize)
        ensures
            r == self.degrees().len(),
    {
        degrees_len(&self.chord)
    }

    /// The tone of the last note played.
    pub fn last_tone(&self) -> (r: QuarterTone)
        ensures
            r == self.spec_last_tone(),
    {
        self.last_tone
    }
}


/// The progress of an ordered walk after `steps` pops.
pub open spec fn walked(mode: Mode, chord_len: nat, start: Progress, steps: nat) -> Progress
    decreases steps,
{
    if steps == 0 {
        start
    } else {
        ordered_next(mode, chord_len, walked(mode, chord_len, start, (steps - 1) as nat))
    }
}

/// The position played at step `k` of a walk up and down the positions
/// `0..=last` that does not repeat the ends.
pub open spec fn bounce(k: nat, last: nat) -> nat {
    let j = k % (2 * last);
    if j <= last {
        j
    } else {
        (2 * last - j) as nat
    }
}

/// The position played at step `k` of a walk up and down the positions
/// `0..=last` that plays each end twice in a row.
pub open spec fn bounce_repeating(k: nat, last: nat) -> nat {
    let n = last + 1;
    let j = k % (2 * n);
    if j < n {
        j
    } else {
        (2 * n - 1 - j) as nat
    }
}

/// The up walk plays the degrees of the chord in order, starting over
/// after the last: at step `k` it plays degree `k` modulo the chord's size.
pub proof fn lemma_up_walk(chord: Seq<i16>, k: nat)
    requires
        chord.len() >= 1,
    ensures
        walked(Mode::UpWithReset, chord.len(), Progress::Up(0), k) == Progress::Up(k % chord.len()),
        pop_degree(Mode::UpWithReset, chord, walked(Mode::UpWithReset, chord.len(), Progress::Up(0), k))
            == chord[(k % chord.len()) as int],
    decreases k,
{
    let n = chord.len();
    if k == 0 {
        vstd::arithmetic::div_mod::lemma_small_mod(0, n);
    } else {
        lemma_up_walk(chord, (k - 1) as nat);
        crate::scales::scale::lemma_mod_succ(k - 1, n as int);
    }
    vstd::arithmetic::div_mod::lemma_mod_bound(k as int, n as int);
}

/// Where the walk up and down without repeated ends stands after `k` pops.
spec fn bounce_progress(k: nat, last: nat) -> Progress {
    let j = k % (2 * last);
    if j == 0 {
        if k == 0 {
            Progress::Up(0)
        } else {
            Progress::Down(0)
        }
    } else if j <= last {
        Progress::Up(j)
    } else {
        Progress::Down((2 * last - j) as nat)
    }
}

/// The walk up and down that does not repeat the ends goes from the first
/// degree to the last and back, so at step `k` it plays degree
/// [`bounce`]`(k, last)`, turning every `2 * last` steps.
pub proof fn lemma_up_down_walk(chord: Seq<i16>, k: nat)
    requires
        chord.len() >= 2,
    ensures
        pop_degree(
            Mode::UpDownNoRepeatsWithReset,
            chord,
            walked(Mode::UpDownNoRepeatsWithReset, chord.len(), Progress::Up(0), k),
        ) == chord[bounce(k, (chord.len() - 1) as nat) as int],
{
    let last = (chord.len() - 1) as nat;
    lemma_bounce_progress(chord.len(), k);
    vstd::arithmetic::div_mod::lemma_mod_bound(k as int, (2 * last) as int);
}

proof fn lemma_bounce_progress(n: nat, k: nat)
    requires
        n >= 2,
    ensures
        walked(Mode::UpDownNoRepeatsWithReset, n, Progress::Up(0), k) == bounce_progress(
            k,
            (n - 1) as nat,
        ),
    decreases k,
{
    let last = (n - 1) as nat;
    let p = 2 * last;
    if k == 0 {
        vstd::arithmetic::div_mod::lemma_small_mod(0, p);
    } else {
        lemma_bounce_progress(n, (k - 1) as nat);
        crate::scales::scale::lemma_mod_succ(k - 1, p as int);
        vstd::arithmetic::div_mod::lemma_mod_bound((k - 1) as int, p as int);
    }
}

/// Where the walk up and down with repeated ends stands after `k` pops.
spec fn bounce_repeating_progress(k: nat, last: nat) -> Progress {
    let n = last + 1;
    let j = k % (2 * n);
    if j < n {
        Progress::Up(j)
    } else {
        Progress::Down((2 * n - 1 - j) as nat)
    }
}

/// The walk up and down that repeats the ends goes from the first degree
/// to the last, plays it again and goes back, so at step `k` it plays
/// degree [`bounce_repeating`]`(k, last)`, starting over every `2 * size`
/// steps.
pub proof fn lemma_up_down_repeating_walk(chord: Seq<i16>, k: nat)
    requires
        chord.len() >= 2,
    ensures
        pop_degree(
            Mode::UpDownRepeatsWithReset,
            chord,
            walked(Mode::UpDownRepeatsWithReset, chord.len(), Progress::Up(0), k),
        ) == chord[bounce_repeating(k, (chord.len() - 1) as nat) as int],
{
    lemma_bounce_repeating_progress(chord.len(), k);
    vstd::arithmetic::div_mod::lemma_mod_bound(k as int, (2 * chord.len()) as int);
}

proof fn lemma_bounce_repeating_progress(n: nat, k: nat)
    requires
        n >= 2,
    ensures
        walked(Mode::UpDownRepeatsWithReset, n, Progress::Up(0), k) == bounce_repeating_progress(
            k,
            (n - 1) as nat,
        ),
    decreases k,
{
    let p = 2 * n;
    if k == 0 {
        vstd::arithmetic::div_mod::lemma_small_mod(0, p);
    } else {
        lemma_bounce_repeating_progress(n, (k - 1) as nat);
        crate::scales::scale::lemma_mod_succ(k - 1, p as int);
        vstd::arithmetic::div_mod::lemma_mod_bound((k - 1) as int, p as int);
    }
}

/// Exchanging two degrees keeps every degree, each as often as before.
pub proof fn lemma_swap_keeps_degrees(s: Seq<i16>, a: int, b: int)
    requires
        0 <= a < s.len(),
        0 <= b < s.len(),
    ensures
        swapped(s, a, b).to_multiset() == s.to_multiset(),
{
    broadcast use vstd::multiset::group_multiset_axioms;

    let t = s.update(a, s[b]);
    vstd::seq_lib::to_multiset_update(s, a, s[b]);
    vstd::seq_lib::to_multiset_update(t, b, s[a]);
    if a == b {
        assert(swapped(s, a, b) =~= s);
    } else {
        let m = s.to_multiset();
        vstd::seq_lib::to_multiset_contains(s, s[a]);
        vstd::seq_lib::to_multiset_contains(s, s[b]);
        assert(s.contains(s[a]));
        assert(s.contains(s[b]));
        assert(t[b] == s[b]);
        assert(t.to_multiset() =~= m.insert(s[b]).remove(s[a]));
        assert(swapped(s, a, b).to_multiset() =~= t.to_multiset().insert(s[a]).remove(s[b]));
        assert forall|v: i16| #[trigger] swapped(s, a, b).to_multiset().count(v) == m.count(v) by {
            assert(m.count(s[a]) > 0);
            assert(m.count(s[b]) > 0);
        }
        assert(swapped(s, a, b).to_multiset() =~= m);
    }
}

/// The moving modes reorder the shuffled copy without losing or repeating
/// a degree: the reshuffle made from two draws below the chord's size holds
/// the same degrees, each as often.
pub proof fn lemma_moving_reshuffle_keeps_degrees(chord: Seq<i16>, before: Seq<i16>, draws: Seq<u8>)
    requires
        chord.len() >= 1,
        before.len() == chord.len(),
        draws.len() >= 2,
        draws[0] < chord.len(),
        draws[1] < chord.len(),
    ensures
        reshuffled(Mode::MovingWithReset, chord, before, draws).to_multiset() == before.to_multiset(),
{
    let (a, b) = distinct_pair(chord.len() - 1, draws[0] as int, draws[1] as int);
    lemma_swap_keeps_degrees(before, a, b);
}

/// A well-formed arpeggiator walking a shuffled copy holds a copy exactly
/// as long as its chord, made of the chord's degrees: a reset in the
/// random-with-next mode, which redraws every element of the copy, draws
/// once per degree of the chord.
pub proof fn lemma_shuffled_copy_fits_chord(arp: Arpeggiator)
    requires
        arp.wf(),
    ensures
        arp.progress() matches Progress::Shuffled(_, shuffled) ==> {
            &&& shuffled.len() == arp.degrees().len()
            &&& drawn_from(shuffled, arp.degrees())
            &&& reset_draws(Mode::RandomWithNext, arp.progress()) == arp.degrees().len()
        },
        arp.progress() is Shuffled <==> !arp.spec_mode().is_ordered(),
{
}

/// Taking a configuration draws from the random source only on a reset
/// request in a with-next mode: once per degree of the current chord in
/// the random-with-next mode, twice in the moving-with-next mode, whatever
/// mode the arpeggiator was in before.
pub proof fn lemma_configure_draw_count(arp: Arpeggiator, new_mode: Mode, reset: bool)
    requires
        arp.wf(),
    ensures
        configure_draws(arp.spec_mode(), arp.degrees(), arp.progress(), new_mode, reset) == if reset
            && new_mode == Mode::RandomWithNext {
            arp.degrees().len()
        } else if reset && new_mode == Mode::MovingWithNext {
            2
        } else {
            0
        },
{
}

/// Taking a new chord without a reset and without a mode switch keeps the
/// walk where it is: a shuffled walk goes on from the same position in a
/// fresh copy of the new chord, an ordered walk is left as it was; the
/// same chord changes nothing.
pub proof fn lemma_chord_change_keeps_position(
    mode: Mode,
    old_chord: Seq<i16>,
    new_chord: Seq<i16>,
    before: Progress,
    draws: Seq<u8>,
)
    ensures
        before matches Progress::Shuffled(i, _) ==> old_chord != new_chord ==> configured_progress(
            mode,
            old_chord,
            before,
            mode,
            new_chord,
            false,
            draws,
        ) == Progress::Shuffled(i, new_chord),
        !(before is Shuffled) || old_chord == new_chord ==> configured_progress(
            mode,
            old_chord,
            before,
            mode,
            new_chord,
            false,
            draws,
        ) == before,
{
}

/// In the moving modes the copy of the chord being walked is a reordering
/// of the chord: every pass through it plays each degree exactly as often
/// as the chord holds it.
pub proof fn lemma_moving_walk_keeps_degrees(arp: Arpeggiator)
    requires
        arp.wf(),
        arp.spec_mode().is_moving(),
    ensures
        arp.progress() matches Progress::Shuffled(_, shuffled) && shuffled.to_multiset()
            == arp.degrees().to_multiset(),
{
}

} // verus!
