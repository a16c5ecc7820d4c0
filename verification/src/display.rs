//! What the eight LEDs show: screens, and the pages that hold them by priority.
use vstd::prelude::*;

use crate::arpeggiator::Mode as ArpMode;
use crate::bounded::{chord_degrees, degrees_equal, degrees_get, degrees_len};
use crate::chords::Chord;
use crate::parameters::CvMappingSocket;
use crate::scales::{GroupId, Tonic};

verus! {

/// The LED pattern where every LED is set to `on`.
pub open spec fn all_leds(on: bool) -> Seq<bool> {
    Seq::new(8, |i: int| on)
}

/// The LED pattern lighting the LEDs for which `lit` holds.
pub open spec fn leds_where(lit: spec_fn(int) -> bool) -> Seq<bool> {
    Seq::new(8, |i: int| lit(i))
}

/// Display slots, from the most to the least important.
#[derive(Debug, Clone, Copy, PartialEq, Eq, Structural)]
pub enum Priority {
    Failure,
    Dialog,
    Queried,
    Fallback,
}

/// Number of page slots.
pub const SLOTS: usize = 5;

/// Clock ticks after which a failure or a queried page is dropped.
pub const PAGE_TIMEOUT: usize = 2000;

/// Clock ticks per phase of a blinking screen.
pub const BLINK_PERIOD: usize = 400;

/// The pages shown, by priority.
pub struct Display {
    pub prioritized: [Option<Page>; 5],
}

/// A screen and the ticks it has been shown for.
#[derive(Debug)]
pub struct Page {
    pub clock: usize,
    pub screen: Screen,
}

#[derive(Debug)]
pub enum Screen {
    Failure(FailureScreen),
    Step(StepScreen),
    ArpMode(ArpModeScreen),
    Scale(ScaleScreen),
    Group(GroupScreen),
    Size(SizeScreen),
    Note(NoteScreen),
    Chord(ChordScreen),
    ToneCalibration(ToneCalibrationScreen),
    Octave(OctaveScreen),
    Tonic(TonicScreen),
    Configuration(ConfigurationScreen),
    Gain(GainScreen),
    CvMapping(CvMappingScreen),
}

#[derive(Debug, PartialEq, Eq, Structural)]
pub struct StepScreen {
    step: usize,
}

#[derive(Debug, PartialEq, Eq, Structural)]
pub struct ArpModeScreen {
    mode: ArpMode,
}

#[derive(Debug, PartialEq, Eq, Structural)]
pub struct ScaleScreen {
    scale: usize,
}

#[derive(Debug, PartialEq, Eq, Structural)]
pub struct GroupScreen {
    group: GroupId,
}

#[derive(Debug, PartialEq, Eq, Structural)]
pub struct SizeScreen {
    size: usize,
}

#[derive(Debug, PartialEq, Eq, Structural)]
pub struct NoteScreen {
    index: usize,
}

#[derive(Debug)]
pub struct ChordScreen {
    chord: Chord,
    scale_size: usize,
}

#[derive(Debug, PartialEq, Eq, Structural)]
pub struct OctaveScreen {
    index: usize,
}

#[derive(Debug, PartialEq, Eq, Structural)]
pub struct TonicScreen {
    tonic: Tonic,
}

#[derive(Debug, PartialEq, Eq, Structural)]
pub struct GainScreen {
    index: usize,
}

#[derive(Debug, PartialEq, Eq, Structural)]
pub struct CvMappingScreen {
    socket: CvMappingSocket,
}

#[derive(Debug, PartialEq, Eq, Structural)]
pub struct ConfigurationScreen;

#[derive(Debug, PartialEq, Eq, Structural)]
pub struct FailureScreen;

#[derive(Debug, Clone, Copy, PartialEq, Eq, Structural)]
pub enum ToneCalibrationScreen {
    Octave1,
    Octave2,
    Failure,
    Success,
}

/// Whether two screens show the same thing; chord screens compare the
/// degrees of their chords.
pub open spec fn same_screen(a: Screen, b: Screen) -> bool {
    match (a, b) {
        (Screen::Chord(x), Screen::Chord(y)) => x.degrees() == y.degrees() && x.spec_scale_size()
            == y.spec_scale_size(),
        (Screen::Chord(_), _) => false,
        (_, Screen::Chord(_)) => false,
        _ => a == b,
    }
}

/// Whether the screen can be drawn: a chord screen needs a scale size
/// unless its chord is empty, and a gain screen an index whose LED count
/// fits a `usize`.
pub open spec fn drawable(screen: Screen) -> bool {
    match screen {
        Screen::Chord(s) => s.spec_scale_size() > 0 || s.degrees().len() == 0,
        Screen::Gain(s) => s.spec_index() < usize::MAX / 2,
        _ => true,
    }
}

/// A position shown on eight LEDs: its LED lit, and the last LED as well
/// past the first eight.
pub open spec fn position_leds(position: nat) -> Seq<bool> {
    leds_where(|i: int| i == position % 8 || (position >= 8 && i == 7))
}

/// An option shown from the right: the option's LED counted from the last one.
pub open spec fn from_right_leds(option: nat) -> Seq<bool> {
    leds_where(|i: int| option <= 7 && i == 7 - option)
}

/// A size: as many LEDs lit from the left, or every other LED when too big.
pub open spec fn size_leds(size: nat) -> Seq<bool> {
    leds_where(|i: int| if size <= 8 { i < size } else { i % 2 == 0 })
}

/// A chord: the LED of each degree, wrapped by the scale size (at most eight).
pub open spec fn chord_leds(degrees: Seq<i16>, scale_size: nat) -> Seq<bool> {
    let wrap = if scale_size < 8 { scale_size as int } else { 8 };
    leds_where(|i: int| exists|k: int| 0 <= k < degrees.len() && ((degrees[k] as usize) as int) % wrap == i)
}

/// An octave: the lower half, the upper half, or everything.
pub open spec fn octave_leds(index: nat) -> Seq<bool> {
    leds_where(|i: int| if index == 0 { i < 4 } else if index == 1 { i >= 4 } else { true })
}

/// A tonic: the LED of its natural note, with the last LED marking a sharp.
pub open spec fn tonic_leds(tonic: Tonic) -> Seq<bool> {
    let (natural, sharp) = match tonic {
        Tonic::C => (0int, false),
        Tonic::CSharp => (0, true),
        Tonic::D => (1, false),
        Tonic::DSharp => (1, true),
        Tonic::E => (2, false),
        Tonic::F => (3, false),
        Tonic::FSharp => (3, true),
        Tonic::G => (4, false),
        Tonic::GSharp => (4, true),
        Tonic::A => (5, false),
        Tonic::ASharp => (5, true),
        Tonic::B => (6, false),
    };
    leds_where(|i: int| i == natural || (sharp && i == 7))
}

/// Whether the tonic is a sharp, a black key of the octave.
pub open spec fn is_sharp(tonic: Tonic) -> bool {
    tonic == Tonic::CSharp || tonic == Tonic::DSharp || tonic == Tonic::FSharp || tonic == Tonic::GSharp
        || tonic == Tonic::ASharp
}

/// Whether, of the first seven LEDs, exactly LED `i` is lit.
pub open spec fn lights_only(leds: Seq<bool>, i: int) -> bool {
    &&& 0 <= i < 7
    &&& forall|j: int| 0 <= j < 7 ==> #[trigger] leds[j] == (j == i)
}

/// A gain: two LEDs per step, from the left.
pub open spec fn gain_leds(index: nat) -> Seq<bool> {
    leds_where(|i: int| i < (index + 1) * 2)
}

/// A socket: its LED, none for the unmapped socket.
pub open spec fn socket_leds(socket: CvMappingSocket) -> Seq<bool> {
    leds_where(|i: int| !(socket is Unmapped) && i == socket as int - 1)
}

/// Blinking phase of a screen shown for `clock` ticks.
pub open spec fn phase(clock: nat, phases: nat) -> nat {
    (clock / BLINK_PERIOD as nat) % phases
}

/// The failure screen: all LEDs blinking.
pub open spec fn failure_leds(clock: nat) -> Seq<bool> {
    all_leds(phase(clock, 2) == 0)
}

/// The configuration screen: odd and even LEDs alternating.
pub open spec fn configuration_leds(clock: nat) -> Seq<bool> {
    leds_where(|i: int| (i % 2 == 0) == (phase(clock, 2) == 0))
}

/// The tone calibration screens: a half of the LEDs blinking twice in a
/// row for each octave, nothing on failure, everything on success.
pub open spec fn tone_calibration_leds(screen: ToneCalibrationScreen, clock: nat) -> Seq<bool> {
    let blink = phase(clock, 6) == 0 || phase(clock, 6) == 2;
    match screen {
        ToneCalibrationScreen::Octave1 => leds_where(|i: int| blink && i < 4),
        ToneCalibrationScreen::Octave2 => leds_where(|i: int| blink && i >= 4),
        ToneCalibrationScreen::Failure => all_leds(false),
        ToneCalibrationScreen::Success => all_leds(true),
    }
}

/// What the screen shows after `clock` ticks.
pub open spec fn screen_leds(screen: Screen, clock: nat) -> Seq<bool> {
    match screen {
        Screen::Step(s) => position_leds(s.spec_step()),
        Screen::ArpMode(s) => from_right_leds(s.spec_mode() as nat),
        Screen::Scale(s) => from_right_leds(s.spec_scale()),
        Screen::Group(s) => from_right_leds(s.spec_group() as nat),
        Screen::Size(s) => size_leds(s.spec_size()),
        Screen::Note(s) => position_leds(s.spec_index()),
        Screen::Chord(s) => chord_leds(s.degrees(), s.spec_scale_size()),
        Screen::Octave(s) => octave_leds(s.spec_index()),
        Screen::Tonic(s) => tonic_leds(s.spec_tonic()),
        Screen::Gain(s) => gain_leds(s.spec_index()),
        Screen::CvMapping(s) => socket_leds(s.spec_socket()),
        Screen::Failure(_) => failure_leds(clock),
        Screen::ToneCalibration(s) => tone_calibration_leds(s, clock),
        Screen::Configuration(_) => configuration_leds(clock),
    }
}

fn blank() -> (r: [bool; 8])
    ensures
        r@ == all_leds(false),
{
    let r = [false; 8];
    assert(r@ =~= all_leds(false));
    r
}

fn position_pattern(position: usize) -> (r: [bool; 8])
    ensures
        r@ == position_leds(position as nat),
{
    let mut leds = [false; 8];
    if position >= 8 {
        leds[7] = true;
    }
    leds[position % 8] = true;
    assert(leds@ =~= position_leds(position as nat));
    leds
}

fn from_right_pattern(option: usize) -> (r: [bool; 8])
    ensures
        r@ == from_right_leds(option as nat),
{
    let mut leds = [false; 8];
    if option <= 7 {
        leds[7 - option] = true;
    }
    assert(leds@ =~= from_right_leds(option as nat));
    leds
}

fn phase_of(clock: usize, phases: usize) -> (r: usize)
    requires
        phases > 0,
    ensures
        r == phase(clock as nat, phases as nat),
        r < phases,
{
    (clock / BLINK_PERIOD) % phases
}

impl StepScreen {
    pub closed spec fn spec_step(&self) -> nat {
        self.step as nat
    }

    pub fn with_step(step: usize) -> (r: Self)
        ensures
            r.spec_step() == step,
    {
        Self { step }
    }

    fn leds(&self) -> (r: [bool; 8])
        ensures
            r@ == position_leds(self.spec_step()),
    {
        position_pattern(self.step)
    }
}

impl ArpModeScreen {
    pub closed spec fn spec_mode(&self) -> ArpMode {
        self.mode
    }

    pub fn with_selected(mode: ArpMode) -> (r: Self)
        ensures
            r.spec_mode() == mode,
    {
        Self { mode }
    }

    fn leds(&self) -> (r: [bool; 8])
        ensures
            r@ == from_right_leds(self.spec_mode() as nat),
    {
        from_right_pattern(self.mode.index())
    }
}

impl ScaleScreen {
    pub closed spec fn spec_scale(&self) -> nat {
        self.scale as nat
    }

    pub fn with_index(scale: usize) -> (r: Self)
        ensures
            r.spec_scale() == scale,
    {
        Self { scale }
    }

    fn leds(&self) -> (r: [bool; 8])
        ensures
            r@ == from_right_leds(self.spec_scale()),
    {
        from_right_pattern(self.scale)
    }
}

impl GroupScreen {
    pub closed spec fn spec_group(&self) -> GroupId {
        self.group
    }

    pub fn with_selected(group: GroupId) -> (r: Self)
        ensures
            r.spec_group() == group,
    {
        Self { group }
    }

    fn leds(&self) -> (r: [bool; 8])
        ensures
            r@ == from_right_leds(self.spec_group() as nat),
    {
        let index: usize = match self.group {
            GroupId::Diatonic => 0,
            GroupId::Maqam => 1,
            GroupId::Melakarta => 2,
            GroupId::Chromatic => 3,
        };
        from_right_pattern(index)
    }
}

impl SizeScreen {
    pub closed spec fn spec_size(&self) -> nat {
        self.size as nat
    }

    pub fn with_size(size: usize) -> (r: Self)
        ensures
            r.spec_size() == size,
    {
        Self { size }
    }

    fn leds(&self) -> (r: [bool; 8])
        ensures
            r@ == size_leds(self.spec_size()),
    {
        let mut leds = [false; 8];
        let mut i: usize = 0;
        while i < 8
            invariant
                i <= 8,
                forall|k: int|
                    0 <= k < 8 ==> #[trigger] leds[k] == (k < i && if self.size <= 8 {
                        k < self.size
                    } else {
                        k % 2 == 0
                    }),
            decreases 8 - i,
        {
            if self.size <= 8 {
                if i < self.size {
                    leds[i] = true;
                }
            } else if i % 2 == 0 {
                leds[i] = true;
            }
            i = i + 1;
        }
        assert(leds@ =~= size_leds(self.spec_size()));
        leds
    }
}

impl NoteScreen {
    pub closed spec fn spec_index(&self) -> nat {
        self.index as nat
    }

    pub fn with_index(index: usize) -> (r: Self)
        ensures
            r.spec_index() == index,
    {
        Self { index }
    }

    fn leds(&self) -> (r: [bool; 8])
        ensures
            r@ == position_leds(self.spec_index()),
    {
        position_pattern(self.index)
    }
}

impl ChordScreen {
    pub closed spec fn degrees(&self) -> Seq<i16> {
        chord_degrees(self.chord)
    }

    pub closed spec fn spec_scale_size(&self) -> nat {
        self.scale_size as nat
    }

    pub fn with_selected(chord: Chord, scale_size: usize) -> (r: Self)
        ensures
            r.degrees() == chord_degrees(chord),
            r.spec_scale_size() == scale_size,
    {
        Self { chord, scale_size }
    }

    fn leds(&self) -> (r: [bool; 8])
        requires
            self.spec_scale_size() > 0 || self.degrees().len() == 0,
        ensures
            r@ == chord_leds(self.degrees(), self.spec_scale_size()),
    {
        let mut leds = [false; 8];
        let wrap = if self.scale_size < 8 { self.scale_size } else { 8 };
        let len = degrees_len(&self.chord);
        let ghost degrees = self.degrees();
        let mut k: usize = 0;
        while k < len
            invariant
                len == degrees.len(),
                degrees == self.degrees(),
                k <= len,
                wrap == if self.scale_size < 8 { self.scale_size as int } else { 8 },
                len > 0 ==> wrap > 0,
                forall|i: int|
                    0 <= i < 8 ==> #[trigger] leds[i] == exists|j: int|
                        0 <= j < k && ((degrees[j] as usize) as int) % (wrap as int) == i,
            decreases len - k,
        {
            let step = degrees_get(&self.chord, k);
            let position = (step as usize) % wrap;
            let ghost before = leds;
            leds[position] = true;
            assert forall|i: int| 0 <= i < 8 implies #[trigger] leds[i] == exists|j: int|
                0 <= j < k + 1 && ((degrees[j] as usize) as int) % (wrap as int) == i by {
                if i == position {
                    assert(((degrees[k as int] as usize) as int) % (wrap as int) == i);
                } else {
                    assert(leds[i] == before[i]);
                    if exists|j: int| 0 <= j < k + 1 && ((degrees[j] as usize) as int) % (wrap as int) == i {
                        let j = choose|j: int| 0 <= j < k + 1 && ((degrees[j] as usize) as int) % (wrap as int) == i;
                        assert(j != k);
                    }
                }
            }
            k = k + 1;
        }
        assert(leds@ =~= chord_leds(self.degrees(), self.spec_scale_size()));
        leds
    }
}

impl OctaveScreen {
    pub closed spec fn spec_index(&self) -> nat {
        self.index as nat
    }

    pub fn with_index(index: usize) -> (r: Self)
        ensures
            r.spec_index() == index,
    {
        Self { index }
    }

    fn leds(&self) -> (r: [bool; 8])
        ensures
            r@ == octave_leds(self.spec_index()),
    {
        let leds = match self.index {
            0 => [true, true, true, true, false, false, false, false],
            1 => [false, false, false, false, true, true, true, true],
            _ => [true; 8],
        };
        assert(leds@ =~= octave_leds(self.spec_index()));
        leds
    }
}

impl TonicScreen {
    pub closed spec fn spec_tonic(&self) -> Tonic {
        self.tonic
    }

    pub fn with_tonic(tonic: Tonic) -> (r: Self)
        ensures
            r.spec_tonic() == tonic,
    {
        Self { tonic }
    }

    fn leds(&self) -> (r: [bool; 8])
        ensures
            r@ == tonic_leds(self.spec_tonic()),
    {
        let mut leds = [false; 8];
        match self.tonic {
            Tonic::C => leds[0] = true,
            Tonic::CSharp => {
                leds[0] = true;
                leds[7] = true;
            },
            Tonic::D => leds[1] = true,
            Tonic::DSharp => {
                leds[1] = true;
                leds[7] = true;
            },
            Tonic::E => leds[2] = true,
            Tonic::F => leds[3] = true,
            Tonic::FSharp => {
                leds[3] = true;
                leds[7] = true;
            },
            Tonic::G => leds[4] = true,
            Tonic::GSharp => {
                leds[4] = true;
                leds[7] = true;
            },
            Tonic::A => leds[5] = true,
            Tonic::ASharp => {
                leds[5] = true;
                leds[7] = true;
            },
            Tonic::B => leds[6] = true,
        }
        assert(leds@ =~= tonic_leds(self.spec_tonic()));
        leds
    }
}

impl GainScreen {
    pub closed spec fn spec_index(&self) -> nat {
        self.index as nat
    }

    pub fn with_index(index: usize) -> (r: Self)
        ensures
            r.spec_index() == index,
    {
        Self { index }
    }

    fn leds(&self) -> (r: [bool; 8])
        requires
            self.spec_index() < usize::MAX / 2,
        ensures
            r@ == gain_leds(self.spec_index()),
    {
        let mut leds = [false; 8];
        let lit = if (self.index + 1) * 2 < 8 { (self.index + 1) * 2 } else { 8 };
        let mut i: usize = 0;
        while i < lit
            invariant
                lit <= 8,
                i <= lit,
                lit == if (self.index + 1) * 2 < 8 { (self.index + 1) * 2 } else { 8 },
                forall|k: int| 0 <= k < 8 ==> #[trigger] leds[k] == (k < i),
            decreases lit - i,
        {
            leds[i] = true;
            i = i + 1;
        }
        assert(leds@ =~= gain_leds(self.spec_index()));
        leds
    }
}

impl CvMappingScreen {
    pub closed spec fn spec_socket(&self) -> CvMappingSocket {
        self.socket
    }

    pub fn with_socket(socket: CvMappingSocket) -> (r: Self)
        ensures
            r.spec_socket() == socket,
    {
        Self { socket }
    }

    fn leds(&self) -> (r: [bool; 8])
        ensures
            r@ == socket_leds(self.spec_socket()),
    {
        let mut leds = [false; 8];
        if self.socket.is_none() {
            assert(leds@ =~= socket_leds(self.spec_socket()));
            return leds;
        }
        let index: usize = match self.socket {
            CvMappingSocket::Tone => 0,
            CvMappingSocket::Chord => 1,
            CvMappingSocket::Resonance => 2,
            CvMappingSocket::Cutoff => 3,
            _ => 4,
        };
        leds[index] = true;
        assert(leds@ =~= socket_leds(self.spec_socket()));
        leds
    }
}

impl FailureScreen {
    fn leds(&self, clock: usize) -> (r: [bool; 8])
        ensures
            r@ == failure_leds(clock as nat),
    {
        let leds = if phase_of(clock, 2) == 0 { [true; 8] } else { [false; 8] };
        assert(leds@ =~= failure_leds(clock as nat));
        leds
    }
}

impl ConfigurationScreen {
    fn leds(&self, clock: usize) -> (r: [bool; 8])
        ensures
            r@ == configuration_leds(clock as nat),
    {
        let leds = if phase_of(clock, 2) == 0 {
            [true, false, true, false, true, false, true, false]
        } else {
            [false, true, false, true, false, true, false, true]
        };
        assert(leds@ =~= configuration_leds(clock as nat));
        leds
    }
}

impl ToneCalibrationScreen {
    fn leds(&self, clock: usize) -> (r: [bool; 8])
        ensures
            r@ == tone_calibration_leds(*self, clock as nat),
    {
        let leds = match self {
            ToneCalibrationScreen::Octave1 => {
                let phase = phase_of(clock, 6);
                if phase == 0 || phase == 2 {
                    [true, true, true, true, false, false, false, false]
                } else {
                    [false, false, false, false, false, false, false, false]
                }
            },
            ToneCalibrationScreen::Octave2 => {
                let phase = phase_of(clock, 6);
                if phase == 0 || phase == 2 {
                    [false, false, false, false, true, true, true, true]
                } else {
                    [false, false, false, false, false, false, false, false]
                }
            },
            ToneCalibrationScreen::Failure => [false, false, false, false, false, false, false, false],
            ToneCalibrationScreen::Success => [true, true, true, true, true, true, true, true],
        };
        assert(leds@ =~= tone_calibration_leds(*self, clock as nat));
        leds
    }
}

impl Screen {
    pub fn arp_mode(arp_mode: ArpMode) -> (r: Self)
        ensures
            r matches Screen::ArpMode(s) && s.spec_mode() == arp_mode,
    {
        Screen::ArpMode(ArpModeScreen::with_selected(arp_mode))
    }

    pub fn group(group: GroupId) -> (r: Self)
        ensures
            r matches Screen::Group(s) && s.spec_group() == group,
    {
        Screen::Group(GroupScreen::with_selected(group))
    }

    pub fn scale(scale_index: usize) -> (r: Self)
        ensures
            r matches Screen::Scale(s) && s.spec_scale() == scale_index,
    {
        Screen::Scale(ScaleScreen::with_index(scale_index))
    }

    pub fn size(size: usize) -> (r: Self)
        ensures
            r matches Screen::Size(s) && s.spec_size() == size,
    {
        Screen::Size(SizeScreen::with_size(size))
    }

    pub fn note(note_index: usize) -> (r: Self)
        ensures
            r matches Screen::Note(s) && s.spec_index() == note_index,
    {
        Screen::Note(NoteScreen::with_index(note_index))
    }

    pub fn step(step_index: usize) -> (r: Self)
        ensures
            r matches Screen::Step(s) && s.spec_step() == step_index,
    {
        Screen::Step(StepScreen::with_step(step_index))
    }

    pub fn chord(chord: Chord, scale_size: usize) -> (r: Self)
        ensures
            r matches Screen::Chord(s) && s.degrees() == chord_degrees(chord) && s.spec_scale_size()
                == scale_size,
    {
        Screen::Chord(ChordScreen::with_selected(chord, scale_size))
    }

    pub fn octave(index: usize) -> (r: Self)
        ensures
            r matches Screen::Octave(s) && s.spec_index() == index,
    {
        Screen::Octave(OctaveScreen::with_index(index))
    }

    pub fn tonic(tonic: Tonic) -> (r: Self)
        ensures
            r matches Screen::Tonic(s) && s.spec_tonic() == tonic,
    {
        Screen::Tonic(TonicScreen::with_tonic(tonic))
    }

    pub fn configuration() -> (r: Self)
        ensures
            r is Configuration,
    {
        Screen::Configuration(ConfigurationScreen)
    }

    pub fn gain(index: usize) -> (r: Screen)
        ensures
            r matches Screen::Gain(s) && s.spec_index() == index,
    {
        Screen::Gain(GainScreen::with_index(index))
    }

    pub fn cv_mapping(socket: CvMappingSocket) -> (r: Screen)
        ensures
            r matches Screen::CvMapping(s) && s.spec_socket() == socket,
    {
        Screen::CvMapping(CvMappingScreen::with_socket(socket))
    }

    pub fn failure() -> (r: Self)
        ensures
            r is Failure,
    {
        Screen::Failure(FailureScreen)
    }

    pub fn tone_calibration_octave_1() -> (r: Self)
        ensures
            r == Screen::ToneCalibration(ToneCalibrationScreen::Octave1),
    {
        Screen::ToneCalibration(ToneCalibrationScreen::Octave1)
    }

    pub fn tone_calibration_octave_2() -> (r: Self)
        ensures
            r == Screen::ToneCalibration(ToneCalibrationScreen::Octave2),
    {
        Screen::ToneCalibration(ToneCalibrationScreen::Octave2)
    }

    pub fn calibration_success() -> (r: Self)
        ensures
            r == Screen::ToneCalibration(ToneCalibrationScreen::Success),
    {
        Screen::ToneCalibration(ToneCalibrationScreen::Success)
    }

    pub fn calibration_failure() -> (r: Self)
        ensures
            r == Screen::ToneCalibration(ToneCalibrationScreen::Failure),
    {
        Screen::ToneCalibration(ToneCalibrationScreen::Failure)
    }

    /// The LEDs the screen lights after being shown for `clock` ticks.
    pub fn leds(&self, clock: usize) -> (r: [bool; 8])
        requires
            drawable(*self),
        ensures
            r@ == screen_leds(*self, clock as nat),
    {
        match self {
            Screen::Step(s) => s.leds(),
            Screen::ArpMode(s) => s.leds(),
            Screen::Scale(s) => s.leds(),
            Screen::Group(s) => s.leds(),
            Screen::Size(s) => s.leds(),
            Screen::Note(s) => s.leds(),
            Screen::Chord(s) => s.leds(),
            Screen::Octave(s) => s.leds(),
            Screen::Tonic(s) => s.leds(),
            Screen::Gain(s) => s.leds(),
            Screen::CvMapping(s) => s.leds(),
            Screen::Failure(s) => s.leds(clock),
            Screen::ToneCalibration(s) => s.leds(clock),
            Screen::Configuration(s) => s.leds(clock),
        }
    }

    /// Whether the two screens show the same thing.
    pub fn same_as(&self, other: &Screen) -> (r: bool)
        ensures
            r == same_screen(*self, *other),
    {
        match (self, other) {
            (Screen::Chord(a), Screen::Chord(b)) => degrees_equal(&a.chord, &b.chord) && a.scale_size
                == b.scale_size,
            (Screen::Failure(_), Screen::Failure(_)) => true,
            (Screen::Step(a), Screen::Step(b)) => a.step == b.step,
            (Screen::ArpMode(a), Screen::ArpMode(b)) => a.mode == b.mode,
            (Screen::Scale(a), Screen::Scale(b)) => a.scale == b.scale,
            (Screen::Group(a), Screen::Group(b)) => a.group == b.group,
            (Screen::Size(a), Screen::Size(b)) => a.size == b.size,
            (Screen::Note(a), Screen::Note(b)) => a.index == b.index,
            (Screen::ToneCalibration(a), Screen::ToneCalibration(b)) => *a == *b,
            (Screen::Octave(a), Screen::Octave(b)) => a.index == b.index,
            (Screen::Tonic(a), Screen::Tonic(b)) => a.tonic == b.tonic,
            (Screen::Configuration(_), Screen::Configuration(_)) => true,
            (Screen::Gain(a), Screen::Gain(b)) => a.index == b.index,
            (Screen::CvMapping(a), Screen::CvMapping(b)) => a.socket == b.socket,
            _ => false,
        }
    }
}

/// The page one tick later: its clock advanced, wrapping around.
pub open spec fn ticked(page: Option<Page>) -> Option<Page> {
    match page {
        Some(p) => Some(
            Page { clock: if p.clock == usize::MAX { 0 } else { (p.clock + 1) as usize }, screen: p.screen },
        ),
        None => None,
    }
}

/// A ticked page of a slot that expires: dropped once shown for longer
/// than [`PAGE_TIMEOUT`].
pub open spec fn expired(page: Option<Page>) -> Option<Page> {
    match page {
        Some(p) => if p.clock > PAGE_TIMEOUT {
            None
        } else {
            page
        },
        None => None,
    }
}

/// Whether the slot drops its page after [`PAGE_TIMEOUT`] ticks.
pub open spec fn expires(slot: int) -> bool {
    slot == Priority::Failure as int || slot == Priority::Queried as int
}

/// A slot's page one tick later: ticked, then dropped when the slot
/// expires and the page was shown too long.
pub open spec fn after_tick(slot: int, page: Option<Page>) -> Option<Page> {
    if expires(slot) {
        expired(ticked(page))
    } else {
        ticked(page)
    }
}

/// A slot's page after `k` ticks.
pub open spec fn after_ticks(slot: int, page: Option<Page>, k: nat) -> Option<Page>
    decreases k,
{
    if k == 0 {
        page
    } else {
        after_tick(slot, after_ticks(slot, page, (k - 1) as nat))
    }
}

/// Position of the tonic's natural note among C D E F G A B.
spec fn natural_position(t: Tonic) -> int {
    match t {
        Tonic::C | Tonic::CSharp => 0,
        Tonic::D | Tonic::DSharp => 1,
        Tonic::E => 2,
        Tonic::F | Tonic::FSharp => 3,
        Tonic::G | Tonic::GSharp => 4,
        Tonic::A | Tonic::ASharp => 5,
        Tonic::B => 6,
    }
}

/// The one LED of the first seven a tonic screen lights.
proof fn tonic_natural_led(t: Tonic) -> (i: int)
    ensures
        lights_only(tonic_leds(t), i),
        i == natural_position(t),
{
    let i = natural_position(t);
    assert(lights_only(tonic_leds(t), i));
    i
}

/// The LED lit of the first seven is the only one.
proof fn lemma_lights_only_unique(leds: Seq<bool>, i: int, k: int)
    requires
        lights_only(leds, i),
        lights_only(leds, k),
    ensures
        i == k,
{
    assert(leds[i] == (i == k));
}

/// A tonic screen lights, of the first seven LEDs, the one of its natural
/// note, the naturals C D E F G A B from left to right, a sharp sharing
/// the LED of the natural it raises; the last LED marks a sharp. So
/// distinct tonics show distinct patterns.
pub proof fn lemma_tonic_screen(t: Tonic, u: Tonic)
    ensures
        tonic_leds(t).len() == 8,
        tonic_leds(t)[7] == is_sharp(t),
        exists|i: int| lights_only(tonic_leds(t), i),
        is_sharp(t) && u as int == t as int - 1 ==> forall|j: int|
            0 <= j < 7 ==> tonic_leds(t)[j] == tonic_leds(u)[j],
        !is_sharp(t) && !is_sharp(u) && (t as int) < (u as int) ==> forall|i: int, k: int|
            lights_only(tonic_leds(t), i) && lights_only(tonic_leds(u), k) ==> i < k,
        t != u ==> tonic_leds(t) != tonic_leds(u),
{
    let i = tonic_natural_led(t);
    let k = tonic_natural_led(u);
    assert forall|a: int, b: int|
        lights_only(tonic_leds(t), a) && lights_only(tonic_leds(u), b) implies a == i && b == k by {
        lemma_lights_only_unique(tonic_leds(t), a, i);
        lemma_lights_only_unique(tonic_leds(u), b, k);
    }
    if !is_sharp(t) && !is_sharp(u) && (t as int) < (u as int) {
        assert(i < k);
    }
    if t != u {
        assert(tonic_leds(t)[i] && tonic_leds(t)[7] == is_sharp(t));
        if tonic_leds(t) == tonic_leds(u) {
            assert(tonic_leds(u)[i]);
            lemma_lights_only_unique(tonic_leds(u), i, k);
        }
    }
}

/// A page just set stays, its clock counting the ticks, for
/// [`PAGE_TIMEOUT`] ticks; a failure or queried page is gone from the next
/// tick on, while a dialog or fallback page stays.
pub proof fn lemma_page_timeout(slot: int, screen: Screen, k: nat)
    requires
        0 <= slot < SLOTS,
        k <= usize::MAX,
    ensures
        after_ticks(slot, Some(Page { clock: 0, screen }), k) == if expires(slot) && k > PAGE_TIMEOUT {
            None
        } else {
            Some(Page { clock: k as usize, screen })
        },
    decreases k,
{
    if k > 0 {
        lemma_page_timeout(slot, screen, (k - 1) as nat);
    }
}

/// The first page in priority order, if any.
pub open spec fn first_page(pages: Seq<Option<Page>>, from: int) -> Option<Page>
    decreases pages.len() - from,
{
    if from >= pages.len() {
        None
    } else if pages[from] is Some {
        pages[from]
    } else {
        first_page(pages, from + 1)
    }
}

impl Page {
    fn with_screen(screen: Screen) -> (r: Self)
        ensures
            r.clock == 0,
            r.screen == screen,
    {
        Self { clock: 0, screen }
    }

    fn tick(&mut self)
        ensures
            Some(*final(self)) == ticked(Some(*old(self))),
    {
        self.clock = if self.clock == usize::MAX { 0 } else { self.clock + 1 };
    }
}

impl Display {
    /// A display with no page.
    pub fn new() -> (r: Self)
        ensures
            forall|i: int| 0 <= i < SLOTS ==> #[trigger] r.prioritized[i] is None,
    {
        Self { prioritized: [None, None, None, None, None] }
    }

    /// Shows the screen at the priority, restarting its clock, unless the
    /// same screen is shown there already.
    pub fn set(&mut self, priority: Priority, screen: Screen)
        ensures
            forall|i: int|
                0 <= i < SLOTS && i != priority as int ==> #[trigger] final(self).prioritized[i]
                    == old(self).prioritized[i],
            ({
                let current = old(self).prioritized[priority as int];
                if current matches Some(p) && same_screen(p.screen, screen) {
                    final(self).prioritized[priority as int] == current
                } else {
                    final(self).prioritized[priority as int] == Some(Page { clock: 0, screen })
                }
            }),
    {
        let index: usize = match priority {
            Priority::Failure => 0,
            Priority::Dialog => 1,
            Priority::Queried => 2,
            Priority::Fallback => 3,
        };
        if let Some(page) = &self.prioritized[index] {
            if page.screen.same_as(&screen) {
                return;
            }
        }
        self.prioritized[index] = Some(Page::with_screen(screen));
    }

    /// Removes the page of the priority.
    pub fn reset(&mut self, priority: Priority)
        ensures
            forall|i: int|
                0 <= i < SLOTS && i != priority as int ==> #[trigger] final(self).prioritized[i]
                    == old(self).prioritized[i],
            final(self).prioritized[priority as int] is None,
    {
        let index: usize = match priority {
            Priority::Failure => 0,
            Priority::Dialog => 1,
            Priority::Queried => 2,
            Priority::Fallback => 3,
        };
        self.prioritized[index] = None;
    }

    /// Advances the clock of every page, then drops a failure or queried
    /// page shown for too long.
    pub fn tick(&mut self)
        ensures
            forall|i: int|
                0 <= i < SLOTS ==> #[trigger] final(self).prioritized[i] == after_tick(
                    i,
                    old(self).prioritized[i],
                ),
    {
        let mut i: usize = 0;
        while i < SLOTS
            invariant
                i <= SLOTS,
                forall|k: int|
                    0 <= k < SLOTS ==> #[trigger] self.prioritized[k] == if k < i {
                        ticked(old(self).prioritized[k])
                    } else {
                        old(self).prioritized[k]
                    },
            decreases SLOTS - i,
        {
            let mut slot: Option<Page> = None;
            core::mem::swap(&mut slot, &mut self.prioritized[i]);
            if let Some(mut page) = slot {
                page.tick();
                self.prioritized[i] = Some(page);
            }
            i = i + 1;
        }
        let failure_expired = match &self.prioritized[0] {
            Some(page) => page.clock > PAGE_TIMEOUT,
            None => false,
        };
        if failure_expired {
            self.reset(Priority::Failure);
        }
        let queried_expired = match &self.prioritized[2] {
            Some(page) => page.clock > PAGE_TIMEOUT,
            None => false,
        };
        if queried_expired {
            self.reset(Priority::Queried);
        }
    }

    /// The screen of the most important page, with its clock.
    pub fn active_screen_and_clock(&self) -> (r: Option<(&Screen, usize)>)
        ensures
            first_page(self.prioritized@, 0) matches Some(p) ==> r == Some((&p.screen, p.clock)),
            first_page(self.prioritized@, 0) is None ==> r is None,
    {
        let mut i: usize = 0;
        while i < SLOTS
            invariant
                i <= SLOTS,
                self.prioritized@.len() == SLOTS,
                first_page(self.prioritized@, 0) == first_page(self.prioritized@, i as int),
            decreases SLOTS - i,
        {
            if let Some(page) = &self.prioritized[i] {
                return Some((&page.screen, page.clock));
            }
            i = i + 1;
        }
        None
    }
}

} // verus!
