use arplus::arpeggiator::{redraw_from, two_distinct_from, Arpeggiator, Configuration, Mode};
use arplus::chords::Chord;
use arplus::random::Random;
use arplus::scales::{GroupId, QuarterTone, Scale, ScaleNote, Scales, Tonic};

struct TestRandom {
    values: [u8; 3],
    index: usize,
}

impl TestRandom {
    fn new() -> Self {
        Self {
            values: [0; 3],
            index: 0,
        }
    }

    fn new_with_values(values: [u8; 3]) -> Self {
        Self { values, index: 0 }
    }
}

impl Random for TestRandom {
    fn u8_mod(&mut self, _mod: u8) -> u8 {
        let value = self.values[self.index];
        self.index += 1;
        self.index %= self.values.len();
        value
    }
}

pub fn ionian() -> Scale {
    let scales = Scales::new();
    scales.scale(GroupId::Diatonic, 0).unwrap()
}

pub fn dorian() -> Scale {
    let scales = Scales::new();
    scales.scale(GroupId::Diatonic, 1).unwrap()
}

#[test]
fn initialize() {
    let configuration = Configuration {
        scale: ionian().with_tonic(Tonic::C),
        root: ScaleNote::new(QuarterTone::C1, 0),
        chord: Chord::from_slice(&[0, 1]).unwrap(),
        mode: Mode::UpWithReset,
        reset_next: false,
    };
    let _arp = Arpeggiator::with_config(configuration);
}

#[test]
fn up_arp() {
    let mut r = TestRandom::new();
    let configuration = Configuration {
        scale: ionian().with_tonic(Tonic::C),
        root: ScaleNote::new(QuarterTone::D1, 1),
        chord: Chord::from_slice(&[0, 1, 2]).unwrap(),
        mode: Mode::UpWithReset,
        reset_next: false,
    };
    let mut arp = Arpeggiator::with_config(configuration);
    assert_eq!(
        arp.pop(&mut r),
        Some((ScaleNote::new(QuarterTone::D1, 1), 0))
    );
    assert_eq!(
        arp.pop(&mut r),
        Some((ScaleNote::new(QuarterTone::E1, 2), 1))
    );
    assert_eq!(
        arp.pop(&mut r),
        Some((ScaleNote::new(QuarterTone::F1, 3), 2))
    );
    assert_eq!(
        arp.pop(&mut r),
        Some((ScaleNote::new(QuarterTone::D1, 1), 0))
    );
}

#[test]
fn up_down_no_repeat_arp() {
    let mut r = TestRandom::new();
    let configuration = Configuration {
        scale: ionian().with_tonic(Tonic::C),
        chord: Chord::from_slice(&[0, 1, 2]).unwrap(),
        mode: Mode::UpDownNoRepeatsWithReset,
        root: ScaleNote::new(QuarterTone::D1, 1),
        reset_next: false,
    };
    let mut arp = Arpeggiator::with_config(configuration.clone());
    assert_eq!(
        arp.pop(&mut r),
        Some((ScaleNote::new(QuarterTone::D1, 1), 0))
    );
    assert_eq!(
        arp.pop(&mut r),
        Some((ScaleNote::new(QuarterTone::E1, 2), 1))
    );
    assert_eq!(
        arp.pop(&mut r),
        Some((ScaleNote::new(QuarterTone::F1, 3), 2))
    );
    assert_eq!(
        arp.pop(&mut r),
        Some((ScaleNote::new(QuarterTone::E1, 2), 1))
    );
    assert_eq!(
        arp.pop(&mut r),
        Some((ScaleNote::new(QuarterTone::D1, 1), 0))
    );
    assert_eq!(
        arp.pop(&mut r),
        Some((ScaleNote::new(QuarterTone::E1, 2), 1))
    );
}

#[test]
fn up_down_repeat_arp() {
    let mut r = TestRandom::new();
    let configuration = Configuration {
        scale: ionian().with_tonic(Tonic::C),
        chord: Chord::from_slice(&[0, 1, 2]).unwrap(),
        mode: Mode::UpDownRepeatsWithReset,
        root: ScaleNote::new(QuarterTone::D1, 1),
        reset_next: false,
    };
    let mut arp = Arpeggiator::with_config(configuration.clone());
    assert_eq!(
        arp.pop(&mut r),
        Some((ScaleNote::new(QuarterTone::D1, 1), 0))
    );
    assert_eq!(
        arp.pop(&mut r),
        Some((ScaleNote::new(QuarterTone::E1, 2), 1))
    );
    assert_eq!(
        arp.pop(&mut r),
        Some((ScaleNote::new(QuarterTone::F1, 3), 2))
    );
    assert_eq!(
        arp.pop(&mut r),
        Some((ScaleNote::new(QuarterTone::F1, 3), 2))
    );
    assert_eq!(
        arp.pop(&mut r),
        Some((ScaleNote::new(QuarterTone::E1, 2), 1))
    );
    assert_eq!(
        arp.pop(&mut r),
        Some((ScaleNote::new(QuarterTone::D1, 1), 0))
    );
    assert_eq!(
        arp.pop(&mut r),
        Some((ScaleNote::new(QuarterTone::D1, 1), 0))
    );
    assert_eq!(
        arp.pop(&mut r),
        Some((ScaleNote::new(QuarterTone::E1, 2), 1))
    );
}

#[test]
fn random_arp() {
    let mut r = TestRandom::new_with_values([0, 2, 1]);
    let configuration = Configuration {
        scale: ionian().with_tonic(Tonic::C),
        chord: Chord::from_slice(&[0, 1, 2]).unwrap(),
        mode: Mode::RandomWithReset,
        root: ScaleNote::new(QuarterTone::D1, 1),
        reset_next: false,
    };
    let mut arp = Arpeggiator::with_config(configuration.clone());
    assert_eq!(
        arp.pop(&mut r),
        Some((ScaleNote::new(QuarterTone::D1, 1), 0))
    );
    assert_eq!(
        arp.pop(&mut r),
        Some((ScaleNote::new(QuarterTone::E1, 2), 1))
    );
    assert_eq!(
        arp.pop(&mut r),
        Some((ScaleNote::new(QuarterTone::F1, 3), 2))
    );
    assert_eq!(
        arp.pop(&mut r),
        Some((ScaleNote::new(QuarterTone::D1, 1), 0))
    );
    assert_eq!(
        arp.pop(&mut r),
        Some((ScaleNote::new(QuarterTone::F1, 3), 2))
    );
    assert_eq!(
        arp.pop(&mut r),
        Some((ScaleNote::new(QuarterTone::E1, 2), 1))
    );
}

#[test]
fn moving_arp() {
    let mut r = TestRandom::new_with_values([0, 2, 1]);
    let configuration = Configuration {
        scale: ionian().with_tonic(Tonic::C),
        chord: Chord::from_slice(&[0, 1, 2]).unwrap(),
        mode: Mode::MovingWithReset,
        root: ScaleNote::new(QuarterTone::D1, 1),
        reset_next: false,
    };
    let mut arp = Arpeggiator::with_config(configuration.clone());
    assert_eq!(
        arp.pop(&mut r),
        Some((ScaleNote::new(QuarterTone::D1, 1), 0))
    );
    assert_eq!(
        arp.pop(&mut r),
        Some((ScaleNote::new(QuarterTone::E1, 2), 1))
    );
    assert_eq!(
        arp.pop(&mut r),
        Some((ScaleNote::new(QuarterTone::F1, 3), 2))
    );
    assert_eq!(
        arp.pop(&mut r),
        Some((ScaleNote::new(QuarterTone::F1, 3), 2))
    );
    assert_eq!(
        arp.pop(&mut r),
        Some((ScaleNote::new(QuarterTone::E1, 2), 1))
    );
    assert_eq!(
        arp.pop(&mut r),
        Some((ScaleNote::new(QuarterTone::D1, 1), 0))
    );
    assert_eq!(
        arp.pop(&mut r),
        Some((ScaleNote::new(QuarterTone::E1, 2), 1))
    );
    assert_eq!(
        arp.pop(&mut r),
        Some((ScaleNote::new(QuarterTone::F1, 3), 2))
    );
    assert_eq!(
        arp.pop(&mut r),
        Some((ScaleNote::new(QuarterTone::D1, 1), 0))
    );
}

#[test]
fn change_chord_but_keep_size() {
    let mut r = TestRandom::new();
    let configuration = Configuration {
        scale: ionian().with_tonic(Tonic::C),
        root: ScaleNote::new(QuarterTone::D1, 1),
        mode: Mode::UpWithReset,
        chord: Chord::from_slice(&[0, 1, 2]).unwrap(),
        reset_next: false,
    };
    let mut arp = Arpeggiator::with_config(configuration.clone());
    assert_eq!(
        arp.pop(&mut r),
        Some((ScaleNote::new(QuarterTone::D1, 1), 0))
    );
    assert_eq!(
        arp.pop(&mut r),
        Some((ScaleNote::new(QuarterTone::E1, 2), 1))
    );
    arp.apply_config(
        Configuration {
            chord: Chord::from_slice(&[0, 1, 3]).unwrap(),
            ..configuration.clone()
        },
        &mut r,
    );
    assert_eq!(
        arp.pop(&mut r),
        Some((ScaleNote::new(QuarterTone::G1, 4), 3))
    );
    assert_eq!(
        arp.pop(&mut r),
        Some((ScaleNote::new(QuarterTone::D1, 1), 0))
    );
}

#[test]
fn change_chord_and_reduce_size_with_up() {
    let mut r = TestRandom::new();
    let configuration = Configuration {
        scale: ionian().with_tonic(Tonic::C),
        root: ScaleNote::new(QuarterTone::D1, 1),
        mode: Mode::UpWithReset,
        chord: Chord::from_slice(&[0, 1, 2, 3]).unwrap(),
        reset_next: false,
    };
    let mut arp = Arpeggiator::with_config(configuration.clone());
    assert_eq!(
        arp.pop(&mut r),
        Some((ScaleNote::new(QuarterTone::D1, 1), 0))
    );
    assert_eq!(
        arp.pop(&mut r),
        Some((ScaleNote::new(QuarterTone::E1, 2), 1))
    );
    assert_eq!(
        arp.pop(&mut r),
        Some((ScaleNote::new(QuarterTone::F1, 3), 2))
    );
    arp.apply_config(
        Configuration {
            chord: Chord::from_slice(&[0, 1]).unwrap(),
            ..configuration.clone()
        },
        &mut r,
    );
    assert_eq!(
        arp.pop(&mut r),
        Some((ScaleNote::new(QuarterTone::D1, 1), 0))
    );
    assert_eq!(
        arp.pop(&mut r),
        Some((ScaleNote::new(QuarterTone::E1, 2), 1))
    );
}

#[test]
fn change_chord_and_reduce_size_with_up_down_no_repeat_when_going_up() {
    let mut r = TestRandom::new();
    let configuration = Configuration {
        scale: ionian().with_tonic(Tonic::C),
        root: ScaleNote::new(QuarterTone::D1, 1),
        mode: Mode::UpDownNoRepeatsWithReset,
        chord: Chord::from_slice(&[0, 1, 2, 3]).unwrap(),
        reset_next: false,
    };
    let mut arp = Arpeggiator::with_config(configuration.clone());
    assert_eq!(
        arp.pop(&mut r),
        Some((ScaleNote::new(QuarterTone::D1, 1), 0))
    );
    assert_eq!(
        arp.pop(&mut r),
        Some((ScaleNote::new(QuarterTone::E1, 2), 1))
    );
    assert_eq!(
        arp.pop(&mut r),
        Some((ScaleNote::new(QuarterTone::F1, 3), 2))
    );
    arp.apply_config(
        Configuration {
            chord: Chord::from_slice(&[0, 1]).unwrap(),
            ..configuration.clone()
        },
        &mut r,
    );
    assert_eq!(
        arp.pop(&mut r),
        Some((ScaleNote::new(QuarterTone::E1, 2), 1))
    );
    assert_eq!(
        arp.pop(&mut r),
        Some((ScaleNote::new(QuarterTone::D1, 1), 0))
    );
}

#[test]
fn change_chord_and_reduce_size_with_up_down_no_repeat_when_going_down() {
    let mut r = TestRandom::new();
    let configuration = Configuration {
        scale: ionian().with_tonic(Tonic::C),
        root: ScaleNote::new(QuarterTone::D1, 1),
        mode: Mode::UpDownNoRepeatsWithReset,
        chord: Chord::from_slice(&[0, 1, 2, 3, 4]).unwrap(),
        reset_next: false,
    };
    let mut arp = Arpeggiator::with_config(configuration.clone());
    assert_eq!(
        arp.pop(&mut r),
        Some((ScaleNote::new(QuarterTone::D1, 1), 0))
    );
    assert_eq!(
        arp.pop(&mut r),
        Some((ScaleNote::new(QuarterTone::E1, 2), 1))
    );
    assert_eq!(
        arp.pop(&mut r),
        Some((ScaleNote::new(QuarterTone::F1, 3), 2))
    );
    assert_eq!(
        arp.pop(&mut r),
        Some((ScaleNote::new(QuarterTone::G1, 4), 3))
    );
    assert_eq!(
        arp.pop(&mut r),
        Some((ScaleNote::new(QuarterTone::A1, 5), 4))
    );
    assert_eq!(
        arp.pop(&mut r),
        Some((ScaleNote::new(QuarterTone::G1, 4), 3))
    );
    arp.apply_config(
        Configuration {
            chord: Chord::from_slice(&[0, 1]).unwrap(),
            ..configuration.clone()
        },
        &mut r,
    );
    assert_eq!(
        arp.pop(&mut r),
        Some((ScaleNote::new(QuarterTone::E1, 2), 1))
    );
    assert_eq!(
        arp.pop(&mut r),
        Some((ScaleNote::new(QuarterTone::D1, 1), 0))
    );
}

#[test]
fn change_chord_and_reduce_size_with_up_down_repeat_when_going_up() {
    let mut r = TestRandom::new();
    let configuration = Configuration {
        scale: ionian().with_tonic(Tonic::C),
        root: ScaleNote::new(QuarterTone::D1, 1),
        mode: Mode::UpDownRepeatsWithReset,
        chord: Chord::from_slice(&[0, 1, 2, 3]).unwrap(),
        reset_next: false,
    };
    let mut arp = Arpeggiator::with_config(configuration.clone());
    assert_eq!(
        arp.pop(&mut r),
        Some((ScaleNote::new(QuarterTone::D1, 1), 0))
    );
    assert_eq!(
        arp.pop(&mut r),
        Some((ScaleNote::new(QuarterTone::E1, 2), 1))
    );
    assert_eq!(
        arp.pop(&mut r),
        Some((ScaleNote::new(QuarterTone::F1, 3), 2))
    );
    arp.apply_config(
        Configuration {
            chord: Chord::from_slice(&[0, 1]).unwrap(),
            ..configuration.clone()
        },
        &mut r,
    );
    assert_eq!(
        arp.pop(&mut r),
        Some((ScaleNote::new(QuarterTone::E1, 2), 1))
    );
    assert_eq!(
        arp.pop(&mut r),
        Some((ScaleNote::new(QuarterTone::E1, 2), 1))
    );
    assert_eq!(
        arp.pop(&mut r),
        Some((ScaleNote::new(QuarterTone::D1, 1), 0))
    );
}

#[test]
fn change_chord_and_reduce_size_with_up_down_repeat_when_going_down() {
    let mut r = TestRandom::new();
    let configuration = Configuration {
        scale: ionian().with_tonic(Tonic::C),
        root: ScaleNote::new(QuarterTone::D1, 1),
        mode: Mode::UpDownRepeatsWithReset,
        chord: Chord::from_slice(&[0, 1, 2, 3, 4]).unwrap(),
        reset_next: false,
    };
    let mut arp = Arpeggiator::with_config(configuration.clone());
    assert_eq!(
        arp.pop(&mut r),
        Some((ScaleNote::new(QuarterTone::D1, 1), 0))
    );
    assert_eq!(
        arp.pop(&mut r),
        Some((ScaleNote::new(QuarterTone::E1, 2), 1))
    );
    assert_eq!(
        arp.pop(&mut r),
        Some((ScaleNote::new(QuarterTone::F1, 3), 2))
    );
    assert_eq!(
        arp.pop(&mut r),
        Some((ScaleNote::new(QuarterTone::G1, 4), 3))
    );
    assert_eq!(
        arp.pop(&mut r),
        Some((ScaleNote::new(QuarterTone::A1, 5), 4))
    );
    assert_eq!(
        arp.pop(&mut r),
        Some((ScaleNote::new(QuarterTone::A1, 5), 4))
    );
    assert_eq!(
        arp.pop(&mut r),
        Some((ScaleNote::new(QuarterTone::G1, 4), 3))
    );
    arp.apply_config(
        Configuration {
            chord: Chord::from_slice(&[0, 1]).unwrap(),
            ..configuration.clone()
        },
        &mut r,
    );
    assert_eq!(
        arp.pop(&mut r),
        Some((ScaleNote::new(QuarterTone::E1, 2), 1))
    );
    assert_eq!(
        arp.pop(&mut r),
        Some((ScaleNote::new(QuarterTone::D1, 1), 0))
    );
}

#[test]
fn change_scale() {
    let mut r = TestRandom::new();
    let configuration = Configuration {
        root: ScaleNote::new(QuarterTone::D1, 1),
        chord: Chord::from_slice(&[0, 1, 2]).unwrap(),
        mode: Mode::UpWithReset,
        scale: ionian().with_tonic(Tonic::C),
        reset_next: false,
    };
    let mut arp = Arpeggiator::with_config(configuration.clone());
    assert_eq!(
        arp.pop(&mut r),
        Some((ScaleNote::new(QuarterTone::D1, 1), 0))
    );
    assert_eq!(
        arp.pop(&mut r),
        Some((ScaleNote::new(QuarterTone::E1, 2), 1))
    );
    arp.apply_config(
        Configuration {
            scale: dorian().with_tonic(Tonic::C),
            ..configuration.clone()
        },
        &mut r,
    );
    assert_eq!(
        arp.pop(&mut r),
        Some((ScaleNote::new(QuarterTone::F1, 3), 2))
    );
}

#[test]
fn change_root() {
    let mut r = TestRandom::new();
    let configuration = Configuration {
        scale: ionian().with_tonic(Tonic::C),
        chord: Chord::from_slice(&[0, 1, 2]).unwrap(),
        mode: Mode::UpWithReset,
        root: ScaleNote::new(QuarterTone::D1, 1),
        reset_next: false,
    };
    let mut arp = Arpeggiator::with_config(configuration.clone());
    assert_eq!(
        arp.pop(&mut r),
        Some((ScaleNote::new(QuarterTone::D1, 1), 0))
    );
    assert_eq!(
        arp.pop(&mut r),
        Some((ScaleNote::new(QuarterTone::E1, 2), 1))
    );
    arp.apply_config(
        Configuration {
            root: ScaleNote::new(QuarterTone::C1, 0),
            ..configuration.clone()
        },
        &mut r,
    );
    assert_eq!(
        arp.pop(&mut r),
        Some((ScaleNote::new(QuarterTone::E1, 2), 2))
    );
}

#[test]
fn change_mode() {
    let mut r = TestRandom::new();
    let configuration = Configuration {
        scale: ionian().with_tonic(Tonic::C),
        chord: Chord::from_slice(&[0, 1, 2]).unwrap(),
        mode: Mode::UpWithReset,
        root: ScaleNote::new(QuarterTone::D1, 1),
        reset_next: false,
    };
    let mut arp = Arpeggiator::with_config(configuration.clone());
    assert_eq!(
        arp.pop(&mut r),
        Some((ScaleNote::new(QuarterTone::D1, 1), 0))
    );
    assert_eq!(
        arp.pop(&mut r),
        Some((ScaleNote::new(QuarterTone::E1, 2), 1))
    );
    arp.apply_config(
        Configuration {
            mode: Mode::UpDownNoRepeatsWithReset,
            ..configuration.clone()
        },
        &mut r,
    );
    assert_eq!(
        arp.pop(&mut r),
        Some((ScaleNote::new(QuarterTone::F1, 3), 2))
    );
    assert_eq!(
        arp.pop(&mut r),
        Some((ScaleNote::new(QuarterTone::E1, 2), 1))
    );
}

#[test]
fn modes_round_trip_through_their_index() {
    for index in 0..7usize {
        assert_eq!(Mode::try_from_index(index).unwrap().index(), index);
    }
    assert_eq!(Mode::try_from_index(7), None);
    assert_eq!(Mode::default(), Mode::UpWithReset);
}

fn config(mode: Mode) -> Configuration {
    Configuration {
        scale: ionian().with_tonic(Tonic::C),
        root: ScaleNote::new(QuarterTone::D1, 1),
        chord: Chord::from_slice(&[0, 1, 2]).unwrap(),
        mode,
        reset_next: false,
    }
}

fn degrees(arp: &mut Arpeggiator, random: &mut TestRandom, count: usize) -> Vec<i16> {
    (0..count).map(|_| arp.pop(random).unwrap().1).collect()
}

#[test]
fn reset_next_restarts_the_up_walk() {
    let mut r = TestRandom::new();
    let mut arp = Arpeggiator::with_config(config(Mode::UpWithReset));
    assert_eq!(degrees(&mut arp, &mut r, 2), vec![0, 1]);
    arp.apply_config(Configuration { reset_next: true, ..config(Mode::UpWithReset) }, &mut r);
    assert_eq!(degrees(&mut arp, &mut r, 4), vec![0, 1, 2, 0]);
}

#[test]
fn random_with_next_keeps_its_draw_until_reset() {
    let mut r = TestRandom::new_with_values([0, 2, 1]);
    let mut arp = Arpeggiator::with_config(config(Mode::RandomWithNext));
    assert_eq!(degrees(&mut arp, &mut r, 6), vec![0, 1, 2, 0, 1, 2]);
    arp.apply_config(Configuration { reset_next: true, ..config(Mode::RandomWithNext) }, &mut r);
    assert_eq!(degrees(&mut arp, &mut r, 3), vec![0, 2, 1]);
}

#[test]
fn moving_with_next_swaps_two_degrees_on_reset() {
    let mut r = TestRandom::new_with_values([0, 2, 1]);
    let mut arp = Arpeggiator::with_config(config(Mode::MovingWithNext));
    assert_eq!(degrees(&mut arp, &mut r, 3), vec![0, 1, 2]);
    arp.apply_config(Configuration { reset_next: true, ..config(Mode::MovingWithNext) }, &mut r);
    assert_eq!(degrees(&mut arp, &mut r, 3), vec![2, 1, 0]);
}

#[test]
fn a_single_degree_chord_repeats() {
    let mut r = TestRandom::new();
    for index in 0..7usize {
        let mode = Mode::try_from_index(index).unwrap();
        let mut arp = Arpeggiator::with_config(Configuration {
            chord: Chord::from_slice(&[3]).unwrap(),
            ..config(mode)
        });
        assert_eq!(degrees(&mut arp, &mut r, 3), vec![3, 3, 3]);
    }
}

#[test]
fn notes_above_the_range_are_skipped_but_walked() {
    let mut r = TestRandom::new();
    let mut arp = Arpeggiator::with_config(Configuration {
        root: ScaleNote::new(QuarterTone::B8, 6),
        ..config(Mode::UpWithReset)
    });
    assert_eq!(arp.pop(&mut r), Some((ScaleNote::new(QuarterTone::B8, 6), 0)));
    assert_eq!(arp.last_tone(), QuarterTone::B8);
    assert_eq!(arp.pop(&mut r), None);
    assert_eq!(arp.last_tone(), QuarterTone::B8);
    assert_eq!(arp.pop(&mut r), None);
    assert_eq!(arp.pop(&mut r), Some((ScaleNote::new(QuarterTone::B8, 6), 0)));
}

#[test]
fn redrawing_takes_the_degree_of_each_draw() {
    let chord = Chord::from_slice(&[0, 3, 5]).unwrap();
    let mut shuffled = Chord::from_slice(&[0, 3, 5]).unwrap();
    redraw_from(&mut shuffled, &chord, &[2, 2, 0]);
    assert_eq!(&shuffled, &[5, 5, 0]);
}

#[test]
fn two_equal_draws_become_neighbours() {
    assert_eq!(two_distinct_from(2, 0, 2), (0, 2));
    assert_eq!(two_distinct_from(2, 1, 1), (1, 2));
    assert_eq!(two_distinct_from(2, 2, 2), (2, 0));
    assert_eq!(two_distinct_from(0, 0, 0), (0, 0));
}

struct CountingRandom {
    calls: Vec<u8>,
}

impl Random for CountingRandom {
    fn u8_mod(&mut self, modulo: u8) -> u8 {
        self.calls.push(modulo);
        0
    }
}

#[test]
fn only_finished_passes_of_reshuffling_modes_draw() {
    let mut r = CountingRandom { calls: vec![] };
    let mut arp = Arpeggiator::with_config(config(Mode::RandomWithReset));
    arp.pop(&mut r);
    arp.pop(&mut r);
    assert!(r.calls.is_empty());
    arp.pop(&mut r);
    assert_eq!(r.calls, vec![3, 3, 3]);

    let mut r = CountingRandom { calls: vec![] };
    let mut arp = Arpeggiator::with_config(config(Mode::MovingWithNext));
    for _ in 0..6 {
        arp.pop(&mut r);
    }
    assert!(r.calls.is_empty());
    arp.apply_config(config(Mode::MovingWithNext), &mut r);
    assert!(r.calls.is_empty());
    arp.apply_config(Configuration { reset_next: true, ..config(Mode::MovingWithNext) }, &mut r);
    assert_eq!(r.calls, vec![3, 3]);
}

#[test]
fn a_clone_walks_on_from_the_same_place() {
    let mut r = TestRandom::new();
    let mut arp = Arpeggiator::with_config(config(Mode::UpDownNoRepeatsWithReset));
    assert_eq!(degrees(&mut arp, &mut r, 2), vec![0, 1]);
    let mut copy = arp.clone();
    assert_eq!(degrees(&mut arp, &mut r, 4), vec![2, 1, 0, 1]);
    assert_eq!(degrees(&mut copy, &mut r, 4), vec![2, 1, 0, 1]);
}
