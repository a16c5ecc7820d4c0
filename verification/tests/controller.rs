use arplus::arpeggiator::{Arpeggiator, Configuration, Mode};
use arplus::chords::{Chord, Chords, GroupId as ChordGroupId};
use arplus::controller::{checked_trigger_step, generate_trigger_event, next_note, trigger_step, NoteEvent};
use arplus::scales::{QuarterTone, ScaleNote, Scales};
use arplus::controller::{
    arp_mode_input, assignable_cv, chord_feedback, is_button_held, reconcile_cv_assignment,
    reconcile_quant_calibration, reconcile_reset_next, reconcile_scale_offsets,
    reconcile_stereo_mode, reconcile_tone_calibration, reconcile_trigger, report_calibration,
    scale_button_taps, scale_feedback, tick_display, was_button_tapped, CalibrationPhase,
    ChordAttribute, ChordChanges, OffsetButtons, OffsetTarget, OffsetsFeedback, QuantAction,
    ScaleAttribute, ScaleChanges, ScaleControls, ScaleCvs, ScaleSelection, State, ToneCv,
};
use arplus::display::{Display, Priority, Screen};
use arplus::display_request::{DisplayRequest, ScreenRequest};
use arplus::inputs::{Button, Gate};
use arplus::parameters::cv_assignment::PersistentConfig as CvAssignmentConfig;
use arplus::parameters::scale_offsets::PersistentConfig as OffsetsConfig;
use arplus::parameters::stereo_mode::PersistentConfig as StereoConfig;
use arplus::parameters::toggle::PersistentConfig as ToggleConfig;
use arplus::parameters::{
    CvAssignment, CvAssignmentHandler, ResetNext, ScaleOffsets, StereoMode, StereoModeHandler,
    Trigger,
};
use arplus::scales::{GroupId as ScaleGroupId, Tonic};

fn idle() -> Button {
    Button::new()
}

fn pressed() -> Button {
    let mut b = Button::new();
    b.reconcile(true);
    b
}

fn tapped() -> Button {
    let mut b = Button::new();
    b.reconcile(true);
    b.reconcile(false);
    b
}

fn held() -> Button {
    let mut b = Button::new();
    for _ in 0..401 {
        b.reconcile(true);
    }
    b
}

fn shows(request: &ScreenRequest, screen: Screen) -> bool {
    match request {
        ScreenRequest::Show(s) => s.same_as(&screen),
        _ => false,
    }
}

#[test]
fn a_short_press_is_a_tap_and_a_long_one_a_hold() {
    assert!(was_button_tapped(&tapped()));
    assert!(!was_button_tapped(&pressed()));
    assert!(is_button_held(&held()));
    assert!(!is_button_held(&pressed()));

    let mut long = held();
    long.reconcile(false);
    assert!(!was_button_tapped(&long));
}

#[test]
fn tone_calibration_walks_through_both_octaves() {
    let mut state = State::Normal;
    let mut request = DisplayRequest::new();
    let plugged = ToneCv { just_plugged: true, raw_value: Some(100), value: Some(100) };

    assert_eq!(reconcile_tone_calibration(&mut state, true, true, plugged, &mut request), None);
    assert_eq!(state, State::CalibratingTone(CalibrationPhase::Octave1));
    assert!(shows(&request.calibration_phase, Screen::tone_calibration_octave_1()));

    let reading = ToneCv { just_plugged: false, raw_value: Some(100), value: Some(100) };
    assert_eq!(reconcile_tone_calibration(&mut state, true, false, reading, &mut request), None);
    assert_eq!(state, State::CalibratingTone(CalibrationPhase::Octave1));
    assert_eq!(reconcile_tone_calibration(&mut state, true, true, reading, &mut request), None);
    assert_eq!(state, State::CalibratingTone(CalibrationPhase::Octave2(100)));
    assert!(shows(&request.calibration_phase, Screen::tone_calibration_octave_2()));

    let second = ToneCv { just_plugged: false, raw_value: Some(200), value: Some(200) };
    assert_eq!(
        reconcile_tone_calibration(&mut state, true, true, second, &mut request),
        Some((100, 200))
    );
    assert_eq!(state, State::Normal);
    assert!(matches!(request.calibration_phase, ScreenRequest::Reset));
}

#[test]
fn tone_calibration_fails_when_the_cable_is_pulled() {
    let mut state = State::CalibratingTone(CalibrationPhase::Octave1);
    let mut request = DisplayRequest::new();
    let unplugged = ToneCv { just_plugged: false, raw_value: None, value: None };
    assert_eq!(reconcile_tone_calibration(&mut state, false, false, unplugged, &mut request), None);
    assert_eq!(state, State::Normal);
    assert!(shows(&request.calibration_result, Screen::calibration_failure()));
    assert!(matches!(request.calibration_phase, ScreenRequest::Reset));
}

#[test]
fn quant_calibration_counts_down_between_octaves() {
    let mut state = State::Normal;
    let mut request = DisplayRequest::new();
    let plugged = ToneCv { just_plugged: true, raw_value: Some(1), value: Some(5) };
    assert_eq!(
        reconcile_quant_calibration(&mut state, true, plugged, &mut request),
        QuantAction::ForceOctave1
    );
    assert_eq!(state, State::CalibratingQuant(CalibrationPhase::Octave1));

    let reading = ToneCv { just_plugged: false, raw_value: Some(1), value: Some(5) };
    assert_eq!(
        reconcile_quant_calibration(&mut state, true, reading, &mut request),
        QuantAction::Nothing
    );
    assert_eq!(
        reconcile_quant_calibration(&mut state, false, reading, &mut request),
        QuantAction::ForceOctave2
    );
    assert_eq!(state, State::CalibratingQuant(CalibrationPhase::CountdownToOctave2(5, 10)));
    for _ in 0..10 {
        assert_eq!(
            reconcile_quant_calibration(&mut state, false, reading, &mut request),
            QuantAction::Nothing
        );
    }
    assert_eq!(state, State::CalibratingQuant(CalibrationPhase::CountdownToOctave2(5, 0)));
    reconcile_quant_calibration(&mut state, false, reading, &mut request);
    assert_eq!(state, State::CalibratingQuant(CalibrationPhase::Octave2(5)));

    let second = ToneCv { just_plugged: false, raw_value: Some(1), value: Some(7) };
    assert_eq!(
        reconcile_quant_calibration(&mut state, false, second, &mut request),
        QuantAction::RemoveForceAndCalibrate(5, 7)
    );
    assert_eq!(state, State::Normal);
    assert!(matches!(request.calibration_result, ScreenRequest::Keep));
}

#[test]
fn quant_calibration_fails_without_a_reading() {
    let mut state = State::CalibratingQuant(CalibrationPhase::Octave1);
    let mut request = DisplayRequest::new();
    let unplugged = ToneCv { just_plugged: false, raw_value: None, value: None };
    assert_eq!(
        reconcile_quant_calibration(&mut state, false, unplugged, &mut request),
        QuantAction::Nothing
    );
    assert_eq!(state, State::Normal);
    assert!(shows(&request.calibration_result, Screen::calibration_failure()));
}

#[test]
fn calibrations_wait_for_each_other() {
    let mut state = State::CalibratingQuant(CalibrationPhase::Octave2(3));
    let mut request = DisplayRequest::new();
    let plugged = ToneCv { just_plugged: true, raw_value: Some(1), value: Some(2) };
    assert_eq!(reconcile_tone_calibration(&mut state, true, true, plugged, &mut request), None);
    assert_eq!(state, State::CalibratingQuant(CalibrationPhase::Octave2(3)));
}

#[test]
fn reported_calibrations_are_saved_only_on_success() {
    let mut request = DisplayRequest::new();
    let mut needs_save = false;
    report_calibration(false, &mut request, &mut needs_save);
    assert!(!needs_save);
    assert!(shows(&request.calibration_result, Screen::calibration_failure()));
    report_calibration(true, &mut request, &mut needs_save);
    assert!(needs_save);
    assert!(shows(&request.calibration_result, Screen::calibration_success()));
}

fn unlocked_offsets() -> ScaleOffsets {
    let mut offsets = ScaleOffsets::new(OffsetsConfig { offsets: [[[0; 7]; 8]; 5] });
    offsets.toggle_lock();
    offsets
}

#[test]
fn offsets_are_raised_with_reset_next_and_group() {
    let mut offsets = unlocked_offsets();
    let (rsnx, group, scale, stereo, cv) = (pressed(), pressed(), idle(), idle(), idle());
    let buttons = OffsetButtons { rsnx: &rsnx, group: &group, scale: &scale, stereo: &stereo, cv_assignment: &cv };
    let target = OffsetTarget { group: 0, scale: 1, note: 2, scale_size: 7 };
    let mut needs_save = false;
    let mut replay = false;
    let feedback = reconcile_scale_offsets(&mut offsets, buttons, target, &mut needs_save, &mut replay);
    assert_eq!(feedback, OffsetsFeedback::Query(1));
    assert!(needs_save);
    assert!(replay);
    assert_eq!(offsets.offset(0, 1, 2), 1);
}

#[test]
fn locked_offsets_are_only_shown() {
    let mut offsets = ScaleOffsets::new(OffsetsConfig { offsets: [[[2; 7]; 8]; 5] });
    let (rsnx, group, scale, stereo, cv) = (pressed(), idle(), pressed(), idle(), idle());
    let buttons = OffsetButtons { rsnx: &rsnx, group: &group, scale: &scale, stereo: &stereo, cv_assignment: &cv };
    let target = OffsetTarget { group: 0, scale: 0, note: 0, scale_size: 7 };
    let mut needs_save = false;
    let mut replay = false;
    let feedback = reconcile_scale_offsets(&mut offsets, buttons, target, &mut needs_save, &mut replay);
    assert_eq!(feedback, OffsetsFeedback::Query(2));
    assert!(!needs_save);
    assert!(!replay);
}

#[test]
fn offsets_of_large_scales_are_not_edited() {
    let mut offsets = unlocked_offsets();
    let (rsnx, group, scale, stereo, cv) = (pressed(), pressed(), idle(), idle(), idle());
    let buttons = OffsetButtons { rsnx: &rsnx, group: &group, scale: &scale, stereo: &stereo, cv_assignment: &cv };
    let target = OffsetTarget { group: 3, scale: 0, note: 0, scale_size: 12 };
    let mut needs_save = false;
    let mut replay = false;
    let feedback = reconcile_scale_offsets(&mut offsets, buttons, target, &mut needs_save, &mut replay);
    assert_eq!(feedback, OffsetsFeedback::Query(0));
    assert!(!needs_save);
    assert!(!replay);
}

#[test]
fn offsets_lock_toggles_and_reset_clears_the_scale() {
    let mut offsets = ScaleOffsets::new(OffsetsConfig { offsets: [[[1; 7]; 8]; 5] });
    let (rsnx, group, scale, stereo, cv) = (pressed(), idle(), idle(), idle(), pressed());
    let buttons = OffsetButtons { rsnx: &rsnx, group: &group, scale: &scale, stereo: &stereo, cv_assignment: &cv };
    let target = OffsetTarget { group: 1, scale: 2, note: 0, scale_size: 7 };
    let mut needs_save = false;
    let mut replay = false;
    let feedback = reconcile_scale_offsets(&mut offsets, buttons, target, &mut needs_save, &mut replay);
    assert_eq!(feedback, OffsetsFeedback::Unlock);
    assert!(!offsets.locked());

    let mut long_stereo = Button::new();
    for _ in 0..1001 {
        long_stereo.reconcile(true);
    }
    let cv_idle = idle();
    let buttons = OffsetButtons { rsnx: &rsnx, group: &group, scale: &scale, stereo: &long_stereo, cv_assignment: &cv_idle };
    let feedback = reconcile_scale_offsets(&mut offsets, buttons, target, &mut needs_save, &mut replay);
    assert_eq!(feedback, OffsetsFeedback::Reset);
    assert!(needs_save);
    assert_eq!(offsets.offset(1, 2, 4), 0);
    assert_eq!(offsets.offset(1, 3, 4), 1);
}

#[test]
fn holding_reset_next_alone_queries_the_offset() {
    let mut offsets = ScaleOffsets::new(OffsetsConfig { offsets: [[[3; 7]; 8]; 5] });
    let (rsnx, group, scale, stereo, cv) = (held(), idle(), idle(), idle(), idle());
    let buttons = OffsetButtons { rsnx: &rsnx, group: &group, scale: &scale, stereo: &stereo, cv_assignment: &cv };
    let target = OffsetTarget { group: 0, scale: 0, note: 6, scale_size: 7 };
    let mut needs_save = false;
    let mut replay = false;
    assert_eq!(
        reconcile_scale_offsets(&mut offsets, buttons, target, &mut needs_save, &mut replay),
        OffsetsFeedback::Query(3)
    );
    let nothing = idle();
    let buttons = OffsetButtons { rsnx: &nothing, group: &group, scale: &scale, stereo: &stereo, cv_assignment: &cv };
    assert_eq!(
        reconcile_scale_offsets(&mut offsets, buttons, target, &mut needs_save, &mut replay),
        OffsetsFeedback::Nothing
    );
}

#[test]
fn trigger_clicks_drop_the_queried_attribute() {
    let mut trigger = Trigger::new();
    let mut request = DisplayRequest::new();
    let button = pressed();
    let input = Gate::new();
    reconcile_trigger(&button, &input, &mut trigger, &mut request);
    assert!(matches!(request.queried_attribute, ScreenRequest::Reset));
    let quiet = idle();
    for _ in 0..3 {
        reconcile_trigger(&quiet, &input, &mut trigger, &mut request);
        assert!(!trigger.triggered_n4());
    }
    reconcile_trigger(&quiet, &input, &mut trigger, &mut request);
    assert!(trigger.triggered_n4());
}

#[test]
fn reset_next_latches_until_popped() {
    let mut reset_next = ResetNext::new();
    let mut input = Gate::new();
    input.reconcile(true);
    reconcile_reset_next(&idle(), &input, &mut reset_next);
    input.reconcile(true);
    reconcile_reset_next(&idle(), &input, &mut reset_next);
    assert!(reset_next.pop());
    assert!(!reset_next.pop());
}

#[test]
fn stereo_mode_cycles_on_taps() {
    let mut parameter = StereoModeHandler::new(StereoConfig { toggle: ToggleConfig { selected_value: 2 } });
    let mut needs_save = false;
    assert_eq!(
        reconcile_stereo_mode(&idle(), &tapped(), &mut parameter, &mut needs_save),
        Some(StereoMode::PingPong)
    );
    assert!(needs_save);
    let mut needs_save = false;
    assert_eq!(reconcile_stereo_mode(&pressed(), &tapped(), &mut parameter, &mut needs_save), None);
    assert!(!needs_save);
    assert_eq!(parameter.selected(), StereoMode::PingPong);
    assert_eq!(
        reconcile_stereo_mode(&idle(), &held(), &mut parameter, &mut needs_save),
        Some(StereoMode::PingPong)
    );
    assert!(!needs_save);
}

#[test]
fn cv_assignment_cycles_on_taps() {
    let mut parameter = CvAssignmentHandler::new(CvAssignmentConfig { toggle: ToggleConfig { selected_value: 7 } });
    let mut needs_save = false;
    assert_eq!(
        reconcile_cv_assignment(&idle(), &tapped(), &mut parameter, &mut needs_save),
        Some(CvAssignment::Tonic)
    );
    assert!(needs_save);
    assert!(parameter.just_changed());
    assert_eq!(reconcile_cv_assignment(&idle(), &idle(), &mut parameter, &mut needs_save), None);
    assert!(!parameter.just_changed());
}

#[test]
fn arp_mode_button_is_ignored_under_cv_control() {
    assert_eq!(arp_mode_input(&tapped(), &idle(), false), (true, true));
    assert_eq!(arp_mode_input(&tapped(), &idle(), true), (false, true));
    assert_eq!(arp_mode_input(&tapped(), &pressed(), false), (false, true));
    assert_eq!(arp_mode_input(&held(), &idle(), false), (false, true));
    assert_eq!(arp_mode_input(&idle(), &idle(), false), (false, false));
}

#[test]
fn assignable_cv_reaches_only_the_assigned_attribute() {
    let assignment = CvAssignmentHandler::new(CvAssignmentConfig { toggle: ToggleConfig { selected_value: 2 } });
    assert_eq!(assignable_cv(&assignment, CvAssignment::Arp, Some(0.5f32)), Some(0.5));
    assert_eq!(assignable_cv(&assignment, CvAssignment::Tonic, Some(0.5f32)), None);
}

#[test]
fn ticking_the_display_reads_its_leds() {
    let mut display = Display::new();
    assert_eq!(tick_display(&mut display), [false; 8]);
    display.set(Priority::Fallback, Screen::step(2));
    display.set(Priority::Queried, Screen::octave(0));
    assert_eq!(tick_display(&mut display), [true, true, true, true, false, false, false, false]);
    display.reset(Priority::Queried);
    assert_eq!(tick_display(&mut display), [false, false, true, false, false, false, false, false]);
}

fn scale_selection() -> ScaleSelection {
    ScaleSelection { group: ScaleGroupId::Maqam, scale: 3, note: 5, octave: 1, tonic: Tonic::E }
}

const NO_CHANGES: ScaleChanges = ScaleChanges { note: false, octave: false, group: false, scale: false, tonic: false };
const NO_CVS: ScaleCvs = ScaleCvs { tone: false, group: false, scale: false, tonic: false };

#[test]
fn a_tapped_group_button_shows_the_group() {
    let (group, scale, rsnx) = (tapped(), idle(), idle());
    let controls = ScaleControls { group: &group, scale: &scale, rsnx: &rsnx, tone_pot_moved: false, tonic_pot_moved: false };
    assert_eq!(scale_button_taps(&controls), (true, false));
    let mut request = DisplayRequest::new();
    let mut needs_save = false;
    let shown = scale_feedback(&controls, NO_CHANGES, NO_CVS, false, scale_selection(), &mut request, &mut needs_save);
    assert_eq!(shown, Some(ScaleAttribute::Group));
    assert!(shows(&request.queried_attribute, Screen::group(ScaleGroupId::Maqam)));
    assert!(!needs_save);
}

#[test]
fn taps_while_editing_offsets_do_not_count() {
    let (group, scale, rsnx) = (tapped(), tapped(), pressed());
    let controls = ScaleControls { group: &group, scale: &scale, rsnx: &rsnx, tone_pot_moved: false, tonic_pot_moved: false };
    assert_eq!(scale_button_taps(&controls), (false, false));
}

#[test]
fn a_changed_note_is_shown_and_saved() {
    let (group, scale, rsnx) = (idle(), idle(), idle());
    let controls = ScaleControls { group: &group, scale: &scale, rsnx: &rsnx, tone_pot_moved: false, tonic_pot_moved: false };
    let changes = ScaleChanges { note: true, ..NO_CHANGES };
    let mut request = DisplayRequest::new();
    let mut needs_save = false;
    let shown = scale_feedback(&controls, changes, NO_CVS, false, scale_selection(), &mut request, &mut needs_save);
    assert_eq!(shown, Some(ScaleAttribute::Note));
    assert!(shows(&request.queried_attribute, Screen::note(5)));
    assert!(needs_save);
}

#[test]
fn a_note_followed_from_the_cv_is_not_saved() {
    let (group, scale, rsnx) = (idle(), idle(), idle());
    let controls = ScaleControls { group: &group, scale: &scale, rsnx: &rsnx, tone_pot_moved: true, tonic_pot_moved: false };
    let changes = ScaleChanges { note: true, ..NO_CHANGES };
    let cvs = ScaleCvs { tone: true, ..NO_CVS };
    let mut request = DisplayRequest::new();
    let mut needs_save = false;
    let shown = scale_feedback(&controls, changes, cvs, false, scale_selection(), &mut request, &mut needs_save);
    assert_eq!(shown, Some(ScaleAttribute::Octave));
    assert!(shows(&request.queried_attribute, Screen::octave(1)));
    assert!(!needs_save);
}

#[test]
fn a_moved_tonic_pot_shows_the_tonic() {
    let (group, scale, rsnx) = (idle(), idle(), idle());
    let controls = ScaleControls { group: &group, scale: &scale, rsnx: &rsnx, tone_pot_moved: false, tonic_pot_moved: true };
    let cvs = ScaleCvs { tonic: true, ..NO_CVS };
    let changes = ScaleChanges { tonic: true, ..NO_CHANGES };
    let mut request = DisplayRequest::new();
    let mut needs_save = false;
    let shown = scale_feedback(&controls, changes, cvs, false, scale_selection(), &mut request, &mut needs_save);
    assert_eq!(shown, Some(ScaleAttribute::Tonic));
    assert!(shows(&request.queried_attribute, Screen::tonic(Tonic::E)));
    assert!(!needs_save);

    let quiet = ScaleControls { tonic_pot_moved: false, ..controls };
    let mut request = DisplayRequest::new();
    let shown = scale_feedback(&quiet, NO_CHANGES, NO_CVS, false, scale_selection(), &mut request, &mut needs_save);
    assert_eq!(shown, None);
    assert!(matches!(request.queried_attribute, ScreenRequest::Keep));
}

#[test]
fn a_changed_scale_is_shown_unless_the_assignment_just_moved() {
    let (group, scale, rsnx) = (idle(), idle(), idle());
    let controls = ScaleControls { group: &group, scale: &scale, rsnx: &rsnx, tone_pot_moved: false, tonic_pot_moved: false };
    let changes = ScaleChanges { scale: true, note: true, ..NO_CHANGES };
    let mut request = DisplayRequest::new();
    let mut needs_save = false;
    let shown = scale_feedback(&controls, changes, NO_CVS, true, scale_selection(), &mut request, &mut needs_save);
    assert_eq!(shown, Some(ScaleAttribute::Scale));
    assert!(shows(&request.queried_attribute, Screen::scale(3)));
    assert!(needs_save);
}

#[test]
fn chord_size_is_shown_before_the_chord() {
    let chords = Chords::new();
    let chord = chords.chord(ChordGroupId::Size3, 1).unwrap();
    let changes = ChordChanges { size: true, chord: true, size_cv: false, chord_cv: false, size_pot_moved: false, chord_pot_moved: false };
    let mut request = DisplayRequest::new();
    let mut needs_save = false;
    let shown = chord_feedback(changes, false, 3, &chord, 7, &mut request, &mut needs_save);
    assert_eq!(shown, Some(ChordAttribute::Size));
    assert!(shows(&request.queried_attribute, Screen::size(3)));
    assert!(needs_save);

    let changes = ChordChanges { size: false, ..changes };
    let mut request = DisplayRequest::new();
    let shown = chord_feedback(changes, false, 3, &chord, 7, &mut request, &mut needs_save);
    assert_eq!(shown, Some(ChordAttribute::Chord));
    let expected = chords.chord(ChordGroupId::Size3, 1).unwrap();
    assert!(shows(&request.queried_attribute, Screen::chord(expected, 7)));
}

#[test]
fn chord_changes_under_cv_are_neither_saved_nor_shown() {
    let chords = Chords::new();
    let chord = chords.chord(ChordGroupId::Size2, 0).unwrap();
    let changes = ChordChanges { size: true, chord: true, size_cv: true, chord_cv: true, size_pot_moved: false, chord_pot_moved: false };
    let mut request = DisplayRequest::new();
    let mut needs_save = false;
    assert_eq!(chord_feedback(changes, false, 2, &chord, 7, &mut request, &mut needs_save), None);
    assert!(!needs_save);
    assert!(matches!(request.queried_attribute, ScreenRequest::Keep));
}

struct Fixed;

impl arplus::random::Random for Fixed {
    fn u8_mod(&mut self, _modulo: u8) -> u8 {
        0
    }
}

#[test]
fn next_note_shows_its_step_and_tells_the_root() {
    let scales = Scales::new();
    let scale = scales.scale(ScaleGroupId::Diatonic, 0).unwrap().with_tonic(Tonic::C);
    let mut arp = Arpeggiator::with_config(Configuration {
        scale,
        root: ScaleNote::new(QuarterTone::D1, 1),
        chord: Chord::from_slice(&[0, 2]).unwrap(),
        mode: Mode::UpWithReset,
        reset_next: false,
    });
    let mut request = DisplayRequest::new();
    assert_eq!(
        next_note(&mut arp, &mut Fixed, &mut request),
        Some((ScaleNote::new(QuarterTone::D1, 1), true))
    );
    assert!(shows(&request.fallback_attribute, Screen::step(1)));
    assert_eq!(
        next_note(&mut arp, &mut Fixed, &mut request),
        Some((ScaleNote::new(QuarterTone::F1, 3), false))
    );
    assert!(shows(&request.fallback_attribute, Screen::step(3)));
}

fn up_config(reset_next: bool) -> Configuration {
    let scales = Scales::new();
    Configuration {
        scale: scales.scale(ScaleGroupId::Diatonic, 0).unwrap().with_tonic(Tonic::C),
        root: ScaleNote::new(QuarterTone::D1, 1),
        chord: Chord::from_slice(&[0, 2]).unwrap(),
        mode: Mode::UpWithReset,
        reset_next,
    }
}

#[test]
fn a_pending_replay_comes_before_the_trigger() {
    let mut arp = Arpeggiator::with_config(up_config(false));
    let mut trigger = Trigger::new();
    trigger.reconcile(true, false);
    for _ in 0..4 {
        trigger.reconcile(false, false);
    }
    let mut pending = true;
    let mut request = DisplayRequest::new();
    assert!(matches!(
        trigger_step(&mut arp, up_config(false), &trigger, &mut pending, &mut Fixed, &mut request),
        NoteEvent::Replay
    ));
    assert!(!pending);
    assert!(matches!(request.fallback_attribute, ScreenRequest::Keep));
}

#[test]
fn a_delayed_trigger_plays_the_next_note() {
    let mut arp = Arpeggiator::with_config(up_config(false));
    let mut trigger = Trigger::new();
    let mut pending = false;
    let mut request = DisplayRequest::new();
    assert!(matches!(
        trigger_step(&mut arp, up_config(false), &trigger, &mut pending, &mut Fixed, &mut request),
        NoteEvent::Silent
    ));
    trigger.reconcile(true, false);
    for _ in 0..4 {
        trigger.reconcile(false, false);
    }
    match trigger_step(&mut arp, up_config(false), &trigger, &mut pending, &mut Fixed, &mut request) {
        NoteEvent::Played(Some((note, is_root))) => {
            assert_eq!(note, ScaleNote::new(QuarterTone::D1, 1));
            assert!(is_root);
        }
        _ => panic!("expected a note"),
    }
    assert!(shows(&request.fallback_attribute, Screen::step(1)));
}

#[test]
fn an_empty_chord_is_not_played() {
    let mut arp = Arpeggiator::with_config(up_config(false));
    let trigger = Trigger::new();
    let mut pending = false;
    let mut request = DisplayRequest::new();
    let empty = Configuration { chord: Chord::new(), ..up_config(false) };
    assert!(checked_trigger_step(&mut arp, empty, &trigger, &mut pending, &mut Fixed, &mut request).is_none());
    assert!(matches!(
        checked_trigger_step(&mut arp, up_config(false), &trigger, &mut pending, &mut Fixed, &mut request),
        Some(NoteEvent::Silent)
    ));
}

#[test]
fn the_reset_latch_waits_for_a_trigger() {
    let config = up_config(false);
    let mut arp = Arpeggiator::with_config(up_config(false));
    let mut trigger = Trigger::new();
    let mut reset_next = ResetNext::new();
    reset_next.reconcile(true, false);
    let mut pending = false;
    let mut request = DisplayRequest::new();
    let event = generate_trigger_event(
        &mut arp,
        config.scale,
        config.root,
        config.chord,
        config.mode,
        &trigger,
        &mut reset_next,
        &mut pending,
        &mut Fixed,
        &mut request,
    );
    assert!(matches!(event, Some(NoteEvent::Silent)));
    trigger.reconcile(true, false);
    for _ in 0..4 {
        trigger.reconcile(false, false);
    }
    let config = up_config(false);
    let event = generate_trigger_event(
        &mut arp,
        config.scale,
        config.root,
        config.chord,
        config.mode,
        &trigger,
        &mut reset_next,
        &mut pending,
        &mut Fixed,
        &mut request,
    );
    match event {
        Some(NoteEvent::Played(Some((note, is_root)))) => {
            assert_eq!(note, ScaleNote::new(QuarterTone::D1, 1));
            assert!(is_root);
        }
        _ => panic!("expected a note"),
    }
    assert!(!reset_next.pop());
}

#[test]
fn a_replay_leaves_the_reset_latch_set() {
    let config = up_config(false);
    let mut arp = Arpeggiator::with_config(up_config(false));
    let mut trigger = Trigger::new();
    trigger.reconcile(true, false);
    for _ in 0..4 {
        trigger.reconcile(false, false);
    }
    let mut reset_next = ResetNext::new();
    reset_next.reconcile(false, true);
    let mut pending = true;
    let mut request = DisplayRequest::new();
    let event = generate_trigger_event(
        &mut arp,
        config.scale,
        config.root,
        config.chord,
        config.mode,
        &trigger,
        &mut reset_next,
        &mut pending,
        &mut Fixed,
        &mut request,
    );
    assert!(matches!(event, Some(NoteEvent::Replay)));
    assert!(!pending);
    assert!(reset_next.pop());
}
