//! Decisions the controller takes on each reconciliation of the inputs.
//!
//! The signal-side values (CV readings, calibration coefficients) are
//! carried here as the bit patterns of their floats; computing with them
//! is left to the caller, which reports the outcome back.
use vstd::prelude::*;

use crate::arpeggiator::{
    configure_draws, configured_progress, drew, new_draws, pop_degree, pop_draws, pop_next, Arpeggiator,
    Configuration, Mode,
};
use crate::bounded::{chord_degrees, degrees_clone, degrees_len};
use crate::chords::Chord;
use crate::display::{
    drawable, expired, expires, first_page, screen_leds, ticked, Display, Page, Screen,
    ToneCalibrationScreen, SLOTS,
};
use crate::display_request::{DisplayRequest, ScreenRequest};
use crate::inputs::{Button, Gate};
use crate::parameters::cv_assignment::LAST_ATTRIBUTE_INDEX;
use crate::parameters::stereo_mode::LAST_MODE_INDEX;
use crate::parameters::{
    CvAssignment, CvAssignmentHandler, ResetNext, StereoMode, StereoModeHandler, Trigger,
};
use crate::random::Random;
use crate::scales::scale::note_in_interval;
use crate::scales::{GroupId as ScaleGroupId, ProjectedScale, ScaleNote, Tonic};
use crate::parameters::scale_offsets::{in_table, offset_at, ScaleOffsets, MAX_STEPS};

verus! {

/// Ticks a button must be held for to query its attribute; a shorter
/// press is a tap.
pub const HOLD_TO_QUERY: usize = 400;

/// Ticks the quantizer calibration waits between its two octaves.
pub const OCTAVE_2_COUNTDOWN: u8 = 10;

/// Ticks the offset reset button must be held for.
pub const HOLD_TO_RESET: usize = 1000;

/// Whether the button was just released after a press shorter than
/// [`HOLD_TO_QUERY`].
pub fn was_button_tapped(button: &Button) -> (r: bool)
    ensures
        r == (button@.released && button@.released_after <= HOLD_TO_QUERY),
{
    button.released() && button.released_after() <= HOLD_TO_QUERY
}

/// Whether the button has been held longer than [`HOLD_TO_QUERY`].
pub fn is_button_held(button: &Button) -> (r: bool)
    ensures
        r == (button@.held_for > HOLD_TO_QUERY),
{
    button.held_for() > HOLD_TO_QUERY
}

/// Where a calibration stands; readings are float bit patterns.
#[derive(Clone, Copy, PartialEq, Eq, Debug, Structural)]
pub enum CalibrationPhase {
    Octave1,
    CountdownToOctave2(u32, u8),
    Octave2(u32),
}

/// What the controller is doing.
#[derive(Clone, Copy, PartialEq, Eq, Debug, Structural)]
pub enum State {
    CalibratingTone(CalibrationPhase),
    CalibratingQuant(CalibrationPhase),
    Normal,
}

/// The tone CV as the calibrations see it.
#[derive(Clone, Copy, PartialEq, Eq, Debug, Structural)]
pub struct ToneCv {
    /// Whether a cable was plugged in since the last reconciliation.
    pub just_plugged: bool,
    /// The uncorrected reading, if a cable is plugged in.
    pub raw_value: Option<u32>,
    /// The corrected reading, if a cable is plugged in.
    pub value: Option<u32>,
}

/// What the quantized output has to do for its calibration.
#[derive(Clone, Copy, PartialEq, Eq, Debug, Structural)]
pub enum QuantAction {
    Nothing,
    ForceOctave1,
    ForceOctave2,
    /// Stop forcing, and calibrate from the readings of the two octaves.
    RemoveForceAndCalibrate(u32, u32),
}

/// The tone calibration one reconciliation later, with the calibration
/// to attempt, if any.
pub open spec fn tone_calibration_next(
    state: State,
    button_pressed: bool,
    button_clicked: bool,
    tone_cv: ToneCv,
) -> (State, Option<(u32, u32)>) {
    match state {
        State::Normal => if button_pressed && tone_cv.just_plugged {
            (State::CalibratingTone(CalibrationPhase::Octave1), None)
        } else {
            (state, None)
        },
        State::CalibratingTone(CalibrationPhase::Octave1) => match tone_cv.raw_value {
            Some(value) => if button_clicked {
                (State::CalibratingTone(CalibrationPhase::Octave2(value)), None)
            } else {
                (state, None)
            },
            None => (State::Normal, None),
        },
        State::CalibratingTone(CalibrationPhase::Octave2(octave_1)) => match tone_cv.raw_value {
            Some(value) => if button_clicked {
                (State::Normal, Some((octave_1, value)))
            } else {
                (state, None)
            },
            None => (State::Normal, None),
        },
        _ => (state, None),
    }
}

/// The display requests the tone calibration step makes.
pub open spec fn tone_calibration_request(
    state: State,
    button_pressed: bool,
    button_clicked: bool,
    tone_cv: ToneCv,
    request: DisplayRequest,
) -> DisplayRequest {
    match state {
        State::Normal => if button_pressed && tone_cv.just_plugged {
            DisplayRequest { calibration_phase: ScreenRequest::Show(Screen::ToneCalibration(ToneCalibrationScreen::Octave1)), ..request }
        } else {
            request
        },
        State::CalibratingTone(CalibrationPhase::Octave1) => match tone_cv.raw_value {
            Some(_) => if button_clicked {
                DisplayRequest {
                    calibration_phase: ScreenRequest::Show(Screen::ToneCalibration(ToneCalibrationScreen::Octave2)),
                    ..request
                }
            } else {
                request
            },
            None => DisplayRequest {
                calibration_result: ScreenRequest::Show(Screen::ToneCalibration(ToneCalibrationScreen::Failure)),
                calibration_phase: ScreenRequest::Reset,
                ..request
            },
        },
        State::CalibratingTone(CalibrationPhase::Octave2(_)) => match tone_cv.raw_value {
            Some(_) => if button_clicked {
                DisplayRequest { calibration_phase: ScreenRequest::Reset, ..request }
            } else {
                request
            },
            None => DisplayRequest {
                calibration_result: ScreenRequest::Show(Screen::ToneCalibration(ToneCalibrationScreen::Failure)),
                calibration_phase: ScreenRequest::Reset,
                ..request
            },
        },
        _ => request,
    }
}

/// The quantizer calibration one reconciliation later, with what the
/// output has to do.
pub open spec fn quant_calibration_next(state: State, button_pressed: bool, tone_cv: ToneCv) -> (State, QuantAction) {
    match state {
        State::Normal => if button_pressed && tone_cv.just_plugged {
            (State::CalibratingQuant(CalibrationPhase::Octave1), QuantAction::ForceOctave1)
        } else {
            (state, QuantAction::Nothing)
        },
        State::CalibratingQuant(CalibrationPhase::Octave1) => if button_pressed {
            (state, QuantAction::Nothing)
        } else {
            match tone_cv.value {
                Some(value) => (
                    State::CalibratingQuant(CalibrationPhase::CountdownToOctave2(value, OCTAVE_2_COUNTDOWN)),
                    QuantAction::ForceOctave2,
                ),
                None => (State::Normal, QuantAction::Nothing),
            }
        },
        State::CalibratingQuant(CalibrationPhase::CountdownToOctave2(octave_1, countdown)) => if countdown
            == 0 {
            (State::CalibratingQuant(CalibrationPhase::Octave2(octave_1)), QuantAction::Nothing)
        } else {
            (
                State::CalibratingQuant(CalibrationPhase::CountdownToOctave2(octave_1, (countdown - 1) as u8)),
                QuantAction::Nothing,
            )
        },
        State::CalibratingQuant(CalibrationPhase::Octave2(octave_1)) => match tone_cv.value {
            Some(value) => (State::Normal, QuantAction::RemoveForceAndCalibrate(octave_1, value)),
            None => (state, QuantAction::Nothing),
        },
        _ => (state, QuantAction::Nothing),
    }
}

/// Steps the tone calibration, driven by the reset-next button and the
/// tone CV. Returns the two octave readings to calibrate from once both
/// were taken; the outcome is to be handed to [`report_calibration`].
pub fn reconcile_tone_calibration(
    state: &mut State,
    button_pressed: bool,
    button_clicked: bool,
    tone_cv: ToneCv,
    display_request: &mut DisplayRequest,
) -> (r: Option<(u32, u32)>)
    ensures
        (*final(state), r) == tone_calibration_next(*old(state), button_pressed, button_clicked, tone_cv),
        *final(display_request) == tone_calibration_request(
            *old(state),
            button_pressed,
            button_clicked,
            tone_cv,
            *old(display_request),
        ),
{
    match *state {
        State::Normal => {
            if button_pressed && tone_cv.just_plugged {
                display_request.set_calibration_phase(Screen::tone_calibration_octave_1());
                *state = State::CalibratingTone(CalibrationPhase::Octave1);
            }
            None
        },
        State::CalibratingQuant(_) => None,
        State::CalibratingTone(CalibrationPhase::Octave1) => {
            if let Some(value) = tone_cv.raw_value {
                if button_clicked {
                    display_request.set_calibration_phase(Screen::tone_calibration_octave_2());
                    *state = State::CalibratingTone(CalibrationPhase::Octave2(value));
                }
            } else {
                display_request.set_calibration_result(Screen::calibration_failure());
                display_request.reset_calibration_phase();
                *state = State::Normal;
            }
            None
        },
        State::CalibratingTone(CalibrationPhase::CountdownToOctave2(_, _)) => None,
        State::CalibratingTone(CalibrationPhase::Octave2(octave_1)) => {
            if let Some(value) = tone_cv.raw_value {
                if button_clicked {
                    display_request.reset_calibration_phase();
                    *state = State::Normal;
                    return Some((octave_1, value));
                }
                None
            } else {
                display_request.set_calibration_result(Screen::calibration_failure());
                display_request.reset_calibration_phase();
                *state = State::Normal;
                None
            }
        },
    }
}

/// Steps the quantizer calibration, driven by the arpeggiator button and
/// the tone CV. The returned action is for the quantized output; a
/// calibration it asks for reports its outcome to [`report_calibration`].
pub fn reconcile_quant_calibration(
    state: &mut State,
    button_pressed: bool,
    tone_cv: ToneCv,
    display_request: &mut DisplayRequest,
) -> (r: QuantAction)
    ensures
        (*final(state), r) == quant_calibration_next(*old(state), button_pressed, tone_cv),
        *final(display_request) == if *old(state) == State::CalibratingQuant(CalibrationPhase::Octave1)
            && !button_pressed && tone_cv.value is None {
            DisplayRequest {
                calibration_result: ScreenRequest::Show(Screen::ToneCalibration(ToneCalibrationScreen::Failure)),
                ..*old(display_request)
            }
        } else {
            *old(display_request)
        },
{
    match *state {
        State::Normal => {
            if button_pressed && tone_cv.just_plugged {
                *state = State::CalibratingQuant(CalibrationPhase::Octave1);
                return QuantAction::ForceOctave1;
            }
            QuantAction::Nothing
        },
        State::CalibratingTone(_) => QuantAction::Nothing,
        State::CalibratingQuant(CalibrationPhase::Octave1) => {
            if button_pressed {
                return QuantAction::Nothing;
            }
            if let Some(value) = tone_cv.value {
                *state = State::CalibratingQuant(
                    CalibrationPhase::CountdownToOctave2(value, OCTAVE_2_COUNTDOWN),
                );
                QuantAction::ForceOctave2
            } else {
                display_request.set_calibration_result(Screen::calibration_failure());
                *state = State::Normal;
                QuantAction::Nothing
            }
        },
        State::CalibratingQuant(CalibrationPhase::CountdownToOctave2(octave_1, countdown)) => {
            if countdown == 0 {
                *state = State::CalibratingQuant(CalibrationPhase::Octave2(octave_1));
            } else {
                *state = State::CalibratingQuant(
                    CalibrationPhase::CountdownToOctave2(octave_1, countdown - 1),
                );
            }
            QuantAction::Nothing
        },
        State::CalibratingQuant(CalibrationPhase::Octave2(octave_1)) => {
            if let Some(value) = tone_cv.value {
                *state = State::Normal;
                return QuantAction::RemoveForceAndCalibrate(octave_1, value);
            }
            QuantAction::Nothing
        },
    }
}

/// Reports the outcome of a calibration: a success is saved and both
/// outcomes are shown.
pub fn report_calibration(succeeded: bool, display_request: &mut DisplayRequest, needs_save: &mut bool)
    ensures
        *final(needs_save) == (*old(needs_save) || succeeded),
        *final(display_request) == (DisplayRequest {
            calibration_result: ScreenRequest::Show(
                if succeeded {
                    Screen::ToneCalibration(ToneCalibrationScreen::Success)
                } else {
                    Screen::ToneCalibration(ToneCalibrationScreen::Failure)
                },
            ),
            ..*old(display_request)
        }),
{
    if succeeded {
        *needs_save = true;
        display_request.set_calibration_result(Screen::calibration_success());
    } else {
        display_request.set_calibration_result(Screen::calibration_failure());
    }
}

/// What the LEDs show after the scale offsets were reconciled.
#[derive(Clone, Copy, PartialEq, Eq, Debug, Structural)]
pub enum OffsetsFeedback {
    Nothing,
    /// The offset of the note just played.
    Query(i8),
    Lock,
    Unlock,
    Reset,
}

/// The buttons that edit scale offsets while reset-next is pressed.
pub struct OffsetButtons<'a> {
    pub rsnx: &'a Button,
    pub group: &'a Button,
    pub scale: &'a Button,
    pub stereo: &'a Button,
    pub cv_assignment: &'a Button,
}

/// The note whose offset is edited: group and scale of the selected
/// scale, position of the last note played, and the scale's size.
#[derive(Clone, Copy, PartialEq, Eq, Debug, Structural)]
pub struct OffsetTarget {
    pub group: usize,
    pub scale: usize,
    pub note: usize,
    pub scale_size: usize,
}

/// Reset-next together with group raises the offset.
pub open spec fn requested_increase(b: OffsetButtons) -> bool {
    b.rsnx@.pressed && b.group@.clicked
}

/// Reset-next together with scale lowers the offset.
pub open spec fn requested_decrease(b: OffsetButtons) -> bool {
    b.rsnx@.pressed && b.scale@.clicked
}

/// Reset-next together with the CV assignment button toggles the lock.
pub open spec fn requested_lock(b: OffsetButtons) -> bool {
    b.rsnx@.pressed && b.cv_assignment@.clicked
}

/// Reset-next together with a long hold of stereo clears the scale.
pub open spec fn requested_reset(b: OffsetButtons) -> bool {
    b.rsnx@.pressed && b.stereo@.held_for > HOLD_TO_RESET
}

/// Holding reset-next alone shows the offset.
pub open spec fn queried(b: OffsetButtons) -> bool {
    b.rsnx@.held_for > HOLD_TO_QUERY && !(b.group@.pressed || b.scale@.pressed || b.stereo@.pressed
        || b.cv_assignment@.pressed)
}

/// Whether an offset edit goes through: the offsets are unlocked and the
/// scale small enough to have offsets.
pub open spec fn editable(offsets: ScaleOffsets, target: OffsetTarget) -> bool {
    !offsets.is_locked() && target.scale_size <= MAX_STEPS
}

/// Edits the scale offsets from the buttons, and tells what to show.
///
/// Raising, lowering or querying shows the offset of the note; raising and
/// lowering (when the offsets are unlocked and the scale small enough)
/// also ask for the last note to be replayed. Otherwise the lock can be
/// toggled, or the offsets of the scale cleared when unlocked.
pub fn reconcile_scale_offsets(
    offsets: &mut ScaleOffsets,
    buttons: OffsetButtons,
    target: OffsetTarget,
    needs_save: &mut bool,
    pending_replay_trigger: &mut bool,
) -> (r: OffsetsFeedback)
    ensures
        final(offsets).is_locked() == if !(queried(buttons) || requested_increase(buttons)
            || requested_decrease(buttons)) && requested_lock(buttons) {
            !old(offsets).is_locked()
        } else {
            old(offsets).is_locked()
        },
        ({
            let edit = editable(*old(offsets), target) && (requested_increase(buttons) || requested_decrease(
                buttons,
            ));
            let g = target.group as int;
            let s = target.scale as int;
            let n = target.note as int;
            let old_offset = offset_at(old(offsets).table(), g, s, n);
            if queried(buttons) || requested_increase(buttons) || requested_decrease(buttons) {
                let raised = edit && requested_increase(buttons) && in_table(g, s, n) && old_offset
                    < crate::parameters::scale_offsets::MAX_OFFSET;
                let lowered = edit && !requested_increase(buttons) && in_table(g, s, n) && old_offset
                    > -crate::parameters::scale_offsets::MAX_OFFSET;
                &&& *final(pending_replay_trigger) == (*old(pending_replay_trigger) || edit)
                &&& *final(needs_save) == (*old(needs_save) || raised || lowered)
                &&& forall|gg: int, ss: int, nn: int|
                    in_table(gg, ss, nn) ==> #[trigger] offset_at(final(offsets).table(), gg, ss, nn)
                        == if gg == g && ss == s && nn == n && raised {
                        (old_offset + 1) as i8
                    } else if gg == g && ss == s && nn == n && lowered {
                        (old_offset - 1) as i8
                    } else {
                        offset_at(old(offsets).table(), gg, ss, nn)
                    }
                &&& r == OffsetsFeedback::Query(
                    if in_table(g, s, n) {
                        offset_at(final(offsets).table(), g, s, n)
                    } else {
                        0
                    },
                )
            } else {
                let cleared = requested_reset(buttons) && !requested_lock(buttons) && !old(offsets).is_locked();
                let was_set = 0 <= g < crate::parameters::scale_offsets::MAX_GROUPS && 0 <= s
                    < crate::parameters::scale_offsets::MAX_SCALES && exists|st: int|
                    0 <= st < MAX_STEPS && #[trigger] offset_at(old(offsets).table(), g, s, st) != 0;
                &&& *final(pending_replay_trigger) == *old(pending_replay_trigger)
                &&& *final(needs_save) == (*old(needs_save) || (cleared && was_set))
                &&& forall|gg: int, ss: int, nn: int|
                    in_table(gg, ss, nn) ==> #[trigger] offset_at(final(offsets).table(), gg, ss, nn)
                        == if cleared && gg == g && ss == s {
                        0
                    } else {
                        offset_at(old(offsets).table(), gg, ss, nn)
                    }
                &&& r == if requested_lock(buttons) {
                    if !old(offsets).is_locked() {
                        OffsetsFeedback::Lock
                    } else {
                        OffsetsFeedback::Unlock
                    }
                } else if cleared {
                    OffsetsFeedback::Reset
                } else {
                    OffsetsFeedback::Nothing
                }
            }
        }),
{
    let rsnx_pressed = buttons.rsnx.pressed();
    let requested_increase = rsnx_pressed && buttons.group.clicked();
    let requested_decrease = rsnx_pressed && buttons.scale.clicked();
    let requested_lock = rsnx_pressed && buttons.cv_assignment.clicked();
    let requested_reset = rsnx_pressed && buttons.stereo.held_for() > HOLD_TO_RESET;
    let queried = is_button_held(buttons.rsnx) && !(buttons.group.pressed() || buttons.scale.pressed()
        || buttons.stereo.pressed() || buttons.cv_assignment.pressed());

    if queried || requested_increase || requested_decrease {
        if !offsets.locked() && target.scale_size <= MAX_STEPS {
            if requested_increase {
                let changed = offsets.request_increase(target.group, target.scale, target.note);
                *needs_save = *needs_save || changed;
                *pending_replay_trigger = true;
            } else if requested_decrease {
                let changed = offsets.request_decrease(target.group, target.scale, target.note);
                *needs_save = *needs_save || changed;
                *pending_replay_trigger = true;
            }
        }
        OffsetsFeedback::Query(offsets.offset(target.group, target.scale, target.note))
    } else if requested_lock {
        if offsets.toggle_lock() {
            OffsetsFeedback::Lock
        } else {
            OffsetsFeedback::Unlock
        }
    } else if requested_reset {
        if !offsets.locked() {
            let changed = offsets.reset_scale(target.group, target.scale);
            *needs_save = *needs_save || changed;
            OffsetsFeedback::Reset
        } else {
            OffsetsFeedback::Nothing
        }
    } else {
        OffsetsFeedback::Nothing
    }
}


/// Records the trigger button and input on the trigger parameter; a click
/// of the button also drops the queried attribute from the display.
pub fn reconcile_trigger(
    button: &Button,
    input: &Gate,
    trigger: &mut Trigger,
    display_request: &mut DisplayRequest,
)
    ensures
        final(trigger).history() == seq![button@.clicked || input.is_triggered()].add(
            old(trigger).history().take(4),
        ),
        *final(display_request) == if button@.clicked {
            DisplayRequest { queried_attribute: ScreenRequest::Reset, ..*old(display_request) }
        } else {
            *old(display_request)
        },
{
    trigger.reconcile(button.clicked(), input.triggered());
    if button.clicked() {
        display_request.reset_queried_attribute();
    }
}

/// Latches a restart of the arpeggio from the reset-next button or input.
pub fn reconcile_reset_next(button: &Button, input: &Gate, reset_next: &mut ResetNext)
    ensures
        final(reset_next).pending() == (old(reset_next).pending() || button@.clicked
            || input.is_triggered()),
{
    reset_next.reconcile(button.clicked(), input.triggered());
}

/// Cycles the stereo mode on a tap of its button, unless reset-next is
/// pressed; tells the mode to show while its button is held or was tapped.
pub fn reconcile_stereo_mode(
    rsnx: &Button,
    button: &Button,
    parameter: &mut StereoModeHandler,
    needs_save: &mut bool,
) -> (r: Option<StereoMode>)
    requires
        old(parameter).wf(),
        !rsnx@.pressed && button@.released && button@.released_after <= HOLD_TO_QUERY ==> old(
            parameter,
        ).stored() < usize::MAX,
    ensures
        final(parameter).wf(),
        ({
            let tapped = button@.released && button@.released_after <= HOLD_TO_QUERY;
            if rsnx@.pressed {
                &&& *final(parameter) == *old(parameter)
                &&& *final(needs_save) == *old(needs_save)
                &&& r is None
            } else {
                &&& final(parameter).stored() == if tapped {
                    (old(parameter).stored() + 1) % (LAST_MODE_INDEX + 1) as nat
                } else {
                    old(parameter).stored()
                }
                &&& *final(needs_save) == (*old(needs_save) || tapped)
                &&& (r is Some) == (button@.held_for > HOLD_TO_QUERY || tapped)
                &&& r matches Some(m) ==> m as nat == if final(parameter).stored() <= LAST_MODE_INDEX {
                    final(parameter).stored()
                } else {
                    LAST_MODE_INDEX as nat
                }
            }
        }),
{
    if rsnx.pressed() {
        return None;
    }
    let tapped = was_button_tapped(button);
    let changed = parameter.reconcile_button(tapped);
    *needs_save = *needs_save || changed;
    if is_button_held(button) || tapped {
        Some(parameter.selected())
    } else {
        None
    }
}

/// Cycles the attribute of the assignable CV on a tap of its button,
/// unless reset-next is pressed; tells the attribute to show while its
/// button is held or was tapped.
pub fn reconcile_cv_assignment(
    rsnx: &Button,
    button: &Button,
    parameter: &mut CvAssignmentHandler,
    needs_save: &mut bool,
) -> (r: Option<CvAssignment>)
    requires
        old(parameter).wf(),
        !rsnx@.pressed && button@.released && button@.released_after <= HOLD_TO_QUERY ==> old(
            parameter,
        ).stored() < usize::MAX,
    ensures
        final(parameter).wf(),
        ({
            let tapped = button@.released && button@.released_after <= HOLD_TO_QUERY;
            if rsnx@.pressed {
                &&& *final(parameter) == *old(parameter)
                &&& *final(needs_save) == *old(needs_save)
                &&& r is None
            } else {
                &&& final(parameter).stored() == if tapped {
                    (old(parameter).stored() + 1) % (LAST_ATTRIBUTE_INDEX + 1) as nat
                } else {
                    old(parameter).stored()
                }
                &&& final(parameter).spec_just_changed() == tapped
                &&& *final(needs_save) == (*old(needs_save) || tapped)
                &&& (r is Some) == (button@.held_for > HOLD_TO_QUERY || tapped)
                &&& r matches Some(a) ==> a as nat == if final(parameter).stored() <= LAST_ATTRIBUTE_INDEX {
                    final(parameter).stored()
                } else {
                    LAST_ATTRIBUTE_INDEX as nat
                }
            }
        }),
{
    if rsnx.pressed() {
        return None;
    }
    let tapped = was_button_tapped(button);
    let changed = parameter.reconcile_button(tapped);
    *needs_save = *needs_save || changed;
    if is_button_held(button) || tapped {
        Some(parameter.selected())
    } else {
        None
    }
}

/// What the arpeggiator mode does with its button: whether a tap moves
/// the button-selected mode (only when no CV controls the mode and
/// reset-next is not pressed), and whether the mode is to be shown.
pub fn arp_mode_input(button: &Button, rsnx: &Button, cv_controls: bool) -> (r: (bool, bool))
    ensures
        ({
            let tapped = button@.released && button@.released_after <= HOLD_TO_QUERY;
            &&& r.0 == (tapped && !cv_controls && !rsnx@.pressed)
            &&& r.1 == (button@.held_for > HOLD_TO_QUERY || tapped)
        }),
{
    let tapped = was_button_tapped(button);
    (tapped && !cv_controls && !rsnx.pressed(), is_button_held(button) || tapped)
}

/// The value of the assignable CV when it is assigned to `sought`.
pub fn assignable_cv<T>(
    assignment: &CvAssignmentHandler,
    sought: CvAssignment,
    value: Option<T>,
) -> (r: Option<T>)
    requires
        assignment.wf(),
    ensures
        r == if sought as nat == (if assignment.stored() <= LAST_ATTRIBUTE_INDEX {
            assignment.stored()
        } else {
            LAST_ATTRIBUTE_INDEX as nat
        }) {
            value
        } else {
            None
        },
{
    if assignment.selected() == sought {
        value
    } else {
        None
    }
}

/// Advances the display by a tick and reads the LEDs of its most
/// important page; all dark when nothing is shown.
pub fn tick_display(display: &mut Display) -> (r: [bool; 8])
    requires
        forall|i: int|
            0 <= i < SLOTS ==> ((#[trigger] old(display).prioritized[i]) matches Some(p) ==> drawable(
                p.screen,
            )),
    ensures
        forall|i: int|
            0 <= i < SLOTS ==> #[trigger] final(display).prioritized[i] == if expires(i) {
                expired(ticked(old(display).prioritized[i]))
            } else {
                ticked(old(display).prioritized[i])
            },
        r@ == match first_page(final(display).prioritized@, 0) {
            Some(p) => screen_leds(p.screen, p.clock as nat),
            None => seq![false, false, false, false, false, false, false, false],
        },
{
    display.tick();
    proof {
        lemma_first_page_in(display.prioritized@, 0);
    }
    match display.active_screen_and_clock() {
        Some((screen, clock)) => screen.leds(clock),
        None => [false, false, false, false, false, false, false, false],
    }
}

/// Which scale attribute the LEDs show.
#[derive(Clone, Copy, PartialEq, Eq, Debug, Structural)]
pub enum ScaleAttribute {
    Group,
    Scale,
    Note,
    Octave,
    Tonic,
}

/// What the scale parameter reported as changed in one reconciliation.
#[derive(Clone, Copy, PartialEq, Eq, Debug, Structural)]
pub struct ScaleChanges {
    pub note: bool,
    pub octave: bool,
    pub group: bool,
    pub scale: bool,
    pub tonic: bool,
}

/// Which of the CVs steering the scale are plugged or assigned.
#[derive(Clone, Copy, PartialEq, Eq, Debug, Structural)]
pub struct ScaleCvs {
    pub tone: bool,
    pub group: bool,
    pub scale: bool,
    pub tonic: bool,
}

/// What the scale parameter has selected.
#[derive(Clone, Copy, PartialEq, Eq, Debug, Structural)]
pub struct ScaleSelection {
    pub group: ScaleGroupId,
    pub scale: usize,
    pub note: usize,
    pub octave: usize,
    pub tonic: Tonic,
}

/// The buttons and pots around the scale parameter.
pub struct ScaleControls<'a> {
    pub group: &'a Button,
    pub scale: &'a Button,
    pub rsnx: &'a Button,
    /// Whether the tone pot was just moved enough to show its value.
    pub tone_pot_moved: bool,
    /// Whether the tonic pot was just moved enough to show its value.
    pub tonic_pot_moved: bool,
}

/// A tap of the group or scale button, while reset-next is not pressed.
pub open spec fn scale_taps(c: ScaleControls) -> (bool, bool) {
    let not_editing = !c.rsnx@.pressed;
    (
        c.group@.released && c.group@.released_after <= HOLD_TO_QUERY && not_editing,
        c.scale@.released && c.scale@.released_after <= HOLD_TO_QUERY && not_editing,
    )
}

/// Whether the changes are to be saved: a change made by hand, not
/// followed from a CV.
pub open spec fn scale_save_needed(ch: ScaleChanges, cvs: ScaleCvs) -> bool {
    ||| ch.group && !cvs.group
    ||| ch.scale && !cvs.scale
    ||| ch.tonic && !cvs.tonic
    ||| ch.octave
    ||| ch.note && !cvs.tone && !cvs.group && !cvs.scale && !cvs.tonic
}

/// The scale attribute to show, by precedence: group, scale, note (or
/// octave while the tone CV is plugged), tonic.
pub open spec fn scale_attribute_shown(
    c: ScaleControls,
    ch: ScaleChanges,
    cvs: ScaleCvs,
    cv_assignment_just_changed: bool,
) -> Option<ScaleAttribute> {
    let (group_tapped, scale_tapped) = scale_taps(c);
    if c.group@.held_for > HOLD_TO_QUERY || group_tapped || (ch.group && !cvs.group) {
        Some(ScaleAttribute::Group)
    } else if c.scale@.held_for > HOLD_TO_QUERY || scale_tapped || (ch.scale && !cvs.scale) {
        Some(ScaleAttribute::Scale)
    } else if !cvs.tone && (c.tone_pot_moved || (ch.note && !ch.group && !ch.scale
        && !cv_assignment_just_changed)) {
        Some(ScaleAttribute::Note)
    } else if cvs.tone && (c.tone_pot_moved || ch.octave) {
        Some(ScaleAttribute::Octave)
    } else if (!cvs.tonic && ch.tonic && !cv_assignment_just_changed) || c.tonic_pot_moved {
        Some(ScaleAttribute::Tonic)
    } else {
        None
    }
}

/// Whether the screen shows the attribute with the selected value.
pub open spec fn shows_scale_attribute(
    screen: Screen,
    attribute: ScaleAttribute,
    selection: ScaleSelection,
) -> bool {
    match attribute {
        ScaleAttribute::Group => screen matches Screen::Group(s) && s.spec_group() == selection.group,
        ScaleAttribute::Scale => screen matches Screen::Scale(s) && s.spec_scale() == selection.scale,
        ScaleAttribute::Note => screen matches Screen::Note(s) && s.spec_index() == selection.note,
        ScaleAttribute::Octave => screen matches Screen::Octave(s) && s.spec_index()
            == selection.octave,
        ScaleAttribute::Tonic => screen matches Screen::Tonic(s) && s.spec_tonic() == selection.tonic,
    }
}

/// Taps of the group and scale buttons that the scale parameter toggles on.
pub fn scale_button_taps(controls: &ScaleControls) -> (r: (bool, bool))
    ensures
        r == scale_taps(*controls),
{
    let not_editing = !controls.rsnx.pressed();
    (
        was_button_tapped(controls.group) && not_editing,
        was_button_tapped(controls.scale) && not_editing,
    )
}

/// After the scale parameter was reconciled, marks what is to be saved
/// and asks the display to show the attribute that was touched.
pub fn scale_feedback(
    controls: &ScaleControls,
    changes: ScaleChanges,
    cvs: ScaleCvs,
    cv_assignment_just_changed: bool,
    selection: ScaleSelection,
    display_request: &mut DisplayRequest,
    needs_save: &mut bool,
) -> (r: Option<ScaleAttribute>)
    ensures
        *final(needs_save) == (*old(needs_save) || scale_save_needed(changes, cvs)),
        r == scale_attribute_shown(*controls, changes, cvs, cv_assignment_just_changed),
        match r {
            None => *final(display_request) == *old(display_request),
            Some(a) => {
                &&& final(display_request).queried_attribute matches ScreenRequest::Show(s)
                    && shows_scale_attribute(s, a, selection)
                &&& *final(display_request) == (DisplayRequest {
                    queried_attribute: final(display_request).queried_attribute,
                    ..*old(display_request)
                })
            },
        },
{
    let save = (changes.group && !cvs.group) || (changes.scale && !cvs.scale) || (changes.tonic
        && !cvs.tonic) || changes.octave || (changes.note && !cvs.tone && !cvs.group && !cvs.scale
        && !cvs.tonic);
    *needs_save = *needs_save || save;

    let (group_tapped, scale_tapped) = scale_button_taps(controls);
    if is_button_held(controls.group) || group_tapped || (changes.group && !cvs.group) {
        display_request.set_queried_attribute(Screen::group(selection.group));
        Some(ScaleAttribute::Group)
    } else if is_button_held(controls.scale) || scale_tapped || (changes.scale && !cvs.scale) {
        display_request.set_queried_attribute(Screen::scale(selection.scale));
        Some(ScaleAttribute::Scale)
    } else if !cvs.tone && (controls.tone_pot_moved || (changes.note && !changes.group
        && !changes.scale && !cv_assignment_just_changed)) {
        display_request.set_queried_attribute(Screen::note(selection.note));
        Some(ScaleAttribute::Note)
    } else if cvs.tone && (controls.tone_pot_moved || changes.octave) {
        display_request.set_queried_attribute(Screen::octave(selection.octave));
        Some(ScaleAttribute::Octave)
    } else if (!cvs.tonic && changes.tonic && !cv_assignment_just_changed)
        || controls.tonic_pot_moved {
        display_request.set_queried_attribute(Screen::tonic(selection.tonic));
        Some(ScaleAttribute::Tonic)
    } else {
        None
    }
}

/// Which chord attribute the LEDs show.
#[derive(Clone, Copy, PartialEq, Eq, Debug, Structural)]
pub enum ChordAttribute {
    Size,
    Chord,
}

/// What the chord parameter reported and what steers it.
#[derive(Clone, Copy, PartialEq, Eq, Debug, Structural)]
pub struct ChordChanges {
    pub size: bool,
    pub chord: bool,
    /// Whether a CV steers the chord size.
    pub size_cv: bool,
    /// Whether a CV steers the chord.
    pub chord_cv: bool,
    /// Whether the size pot was just moved enough to show its value.
    pub size_pot_moved: bool,
    /// Whether the chord pot was just moved enough to show its value.
    pub chord_pot_moved: bool,
}

/// Whether the chord changes are to be saved: made by hand, not followed
/// from a CV.
pub open spec fn chord_save_needed(ch: ChordChanges) -> bool {
    (!ch.size_cv && ch.size) || (!ch.size_cv && !ch.chord_cv && ch.chord)
}

/// The chord attribute to show: the size before the chord.
pub open spec fn chord_attribute_shown(ch: ChordChanges, cv_assignment_just_changed: bool) -> Option<
    ChordAttribute,
> {
    if ch.size_pot_moved || (!ch.size_cv && ch.size && !cv_assignment_just_changed) {
        Some(ChordAttribute::Size)
    } else if ch.chord_pot_moved || (!ch.chord_cv && !ch.size && ch.chord) {
        Some(ChordAttribute::Chord)
    } else {
        None
    }
}

/// After the chord parameter was reconciled, marks what is to be saved
/// and asks the display to show the size or the chord that was touched.
pub fn chord_feedback(
    changes: ChordChanges,
    cv_assignment_just_changed: bool,
    size: usize,
    chord: &Chord,
    scale_size: usize,
    display_request: &mut DisplayRequest,
    needs_save: &mut bool,
) -> (r: Option<ChordAttribute>)
    ensures
        *final(needs_save) == (*old(needs_save) || chord_save_needed(changes)),
        r == chord_attribute_shown(changes, cv_assignment_just_changed),
        match r {
            None => *final(display_request) == *old(display_request),
            Some(a) => {
                &&& final(display_request).queried_attribute matches ScreenRequest::Show(s) && match a {
                    ChordAttribute::Size => s matches Screen::Size(z) && z.spec_size() == size,
                    ChordAttribute::Chord => s matches Screen::Chord(c) && c.degrees() == chord_degrees(
                        *chord,
                    ) && c.spec_scale_size() == scale_size,
                }
                &&& *final(display_request) == (DisplayRequest {
                    queried_attribute: final(display_request).queried_attribute,
                    ..*old(display_request)
                })
            },
        },
{
    let save = (!changes.size_cv && changes.size) || (!changes.size_cv && !changes.chord_cv
        && changes.chord);
    *needs_save = *needs_save || save;
    if changes.size_pot_moved || (!changes.size_cv && changes.size && !cv_assignment_just_changed) {
        display_request.set_queried_attribute(Screen::size(size));
        Some(ChordAttribute::Size)
    } else if changes.chord_pot_moved || (!changes.chord_cv && !changes.size && changes.chord) {
        let shown = degrees_clone(chord);
        display_request.set_queried_attribute(Screen::chord(shown, scale_size));
        Some(ChordAttribute::Chord)
    } else {
        None
    }
}

/// Plays the next note of the arpeggio. A note that sounds is shown as the
/// fallback step screen, at its position in the scale, and is a root note
/// when it is the chord's first degree.
pub fn next_note<R: Random>(
    arp: &mut Arpeggiator,
    random: &mut R,
    display_request: &mut DisplayRequest,
) -> (r: Option<(ScaleNote, bool)>)
    requires
        old(arp).wf(),
        old(arp).degrees().len() > 0,
    ensures
        final(arp).wf(),
        final(arp).degrees() == old(arp).degrees(),
        final(arp).spec_mode() == old(arp).spec_mode(),
        final(arp).spec_root() == old(arp).spec_root(),
        final(arp).scale_steps() == old(arp).scale_steps(),
        drew(
            old(random).draws(),
            final(random).draws(),
            pop_draws(old(arp).spec_mode(), old(arp).degrees().len(), old(arp).progress()),
            old(arp).degrees().len() as int,
        ),
        pop_draws(old(arp).spec_mode(), old(arp).degrees().len(), old(arp).progress()) == 0
            ==> *final(random) == *old(random),
        final(arp).progress() == pop_next(
            old(arp).spec_mode(),
            old(arp).degrees(),
            old(arp).progress(),
            new_draws(old(random).draws(), final(random).draws()),
        ),
        ({
            let degree = pop_degree(old(arp).spec_mode(), old(arp).degrees(), old(arp).progress());
            let note = note_in_interval(old(arp).scale_steps(), old(arp).spec_root(), degree as int);
            &&& (r is Some <==> note is Some)
            &&& match r {
                Some((n, is_root)) => {
                    &&& note == Some((n.tone as int, n.index as int))
                    &&& is_root == (degree == 0)
                    &&& final(display_request).fallback_attribute matches ScreenRequest::Show(
                        Screen::Step(s),
                    ) && s.spec_step() == n.index
                    &&& *final(display_request) == (DisplayRequest {
                        fallback_attribute: final(display_request).fallback_attribute,
                        ..*old(display_request)
                    })
                },
                None => *final(display_request) == *old(display_request),
            }
        }),
{
    match arp.pop(random) {
        Some((note, degree)) => {
            display_request.set_fallback_attribute(Screen::step(note.index() as usize));
            Some((note, degree == 0))
        },
        None => None,
    }
}

/// What [`trigger_step`] guarantees of its result and of how it left the
/// arpeggiator, the pending replay, the random source and the display
/// request.
pub open spec fn trigger_stepped<R: Random>(
    old_arp: Arpeggiator,
    new_arp: Arpeggiator,
    config: Configuration,
    trigger: Trigger,
    old_pending: bool,
    new_pending: bool,
    old_random: R,
    new_random: R,
    old_request: DisplayRequest,
    new_request: DisplayRequest,
    r: NoteEvent,
) -> bool {
    &&& !new_pending
    &&& new_arp.wf()
    &&& old_pending ==> {
        &&& r is Replay
        &&& new_arp == old_arp
        &&& new_random == old_random
        &&& new_request == old_request
    }
    &&& !old_pending && !trigger.history()[4] ==> {
        &&& r is Silent
        &&& new_arp == old_arp
        &&& new_random == old_random
        &&& new_request == old_request
    }
    &&& !old_pending && trigger.history()[4] ==> ({
        let chord = chord_degrees(config.chord);
        let all = new_draws(old_random.draws(), new_random.draws());
        let count = configure_draws(
            old_arp.spec_mode(),
            old_arp.degrees(),
            old_arp.progress(),
            config.mode,
            config.reset_next,
        );
        let mid = configured_progress(
            old_arp.spec_mode(),
            old_arp.degrees(),
            old_arp.progress(),
            config.mode,
            chord,
            config.reset_next,
            all.take(count as int),
        );
        let degree = pop_degree(config.mode, chord, mid);
        let note = note_in_interval(config.scale.steps(), config.root, degree as int);
        &&& new_random.draws().len() == old_random.draws().len() + count + pop_draws(
            config.mode,
            chord.len(),
            mid,
        )
        &&& new_arp.degrees() == chord
        &&& new_arp.spec_mode() == config.mode
        &&& new_arp.spec_root() == config.root
        &&& new_arp.scale_steps() == config.scale.steps()
        &&& new_arp.progress() == pop_next(config.mode, chord, mid, all.skip(count as int))
        &&& r matches NoteEvent::Played(played)
        &&& (played is Some <==> note is Some)
        &&& match played {
            Some((n, is_root)) => {
                &&& note == Some((n.tone as int, n.index as int))
                &&& is_root == (degree == 0)
                &&& new_request.fallback_attribute matches ScreenRequest::Show(
                    Screen::Step(s),
                ) && s.spec_step() == n.index
                &&& new_request == (DisplayRequest {
                    fallback_attribute: new_request.fallback_attribute,
                    ..old_request
                })
            },
            None => new_request == old_request,
        }
    })
}

/// What the trigger part of a reconciliation did.
pub enum NoteEvent {
    /// A replay of the last note was pending, and is now due.
    Replay,
    /// The arpeggiator took the configuration and moved on: the note that
    /// sounds, if any, and whether it is a root note.
    Played(Option<(ScaleNote, bool)>),
    /// Nothing was triggered.
    Silent,
}

/// The trigger part of a reconciliation. A pending replay comes first and
/// is consumed. Otherwise, when the trigger request of four ticks ago
/// fires, the arpeggiator takes the configuration of this tick and plays
/// its next note (see [`next_note`]); without a trigger nothing changes.
pub fn trigger_step<R: Random>(
    arp: &mut Arpeggiator,
    config: Configuration,
    trigger: &Trigger,
    pending_replay_trigger: &mut bool,
    random: &mut R,
    display_request: &mut DisplayRequest,
) -> (r: NoteEvent)
    requires
        old(arp).wf(),
        chord_degrees(config.chord).len() > 0,
        config.reset_next && (config.mode == Mode::RandomWithNext || config.mode
            == Mode::MovingWithNext) ==> old(arp).degrees().len() > 0,
    ensures
        trigger_stepped(
            *old(arp),
            *final(arp),
            config,
            *trigger,
            *old(pending_replay_trigger),
            *final(pending_replay_trigger),
            *old(random),
            *final(random),
            *old(display_request),
            *final(display_request),
            r,
        ),
{
    if *pending_replay_trigger {
        *pending_replay_trigger = false;
        return NoteEvent::Replay;
    }
    if !trigger.triggered_n4() {
        return NoteEvent::Silent;
    }
    let ghost start = random.draws();
    let ghost before = *arp;
    arp.apply_config(config, random);
    let ghost middle = random.draws();
    let played = next_note(arp, random, display_request);
    proof {
        let all = new_draws(start, random.draws());
        let count = (middle.len() - start.len()) as int;
        assert(random.draws().subrange(0, middle.len() as int) == middle);
        assert(all.take(count) =~= new_draws(start, middle)) by {
            assert forall|k: int| 0 <= k < count implies all.take(count)[k] == new_draws(start, middle)[k] by {
                assert(random.draws()[start.len() + k] == middle[start.len() + k]);
            }
        }
        assert(all.skip(count) =~= new_draws(middle, random.draws()));
    }
    NoteEvent::Played(played)
}

/// [`trigger_step`] where it can play: `None`, changing nothing, when the
/// configured chord is empty, or when a reset in a with-next mode would
/// redraw from an empty chord.
pub fn checked_trigger_step<R: Random>(
    arp: &mut Arpeggiator,
    config: Configuration,
    trigger: &Trigger,
    pending_replay_trigger: &mut bool,
    random: &mut R,
    display_request: &mut DisplayRequest,
) -> (r: Option<NoteEvent>)
    requires
        old(arp).wf(),
    ensures
        final(arp).wf(),
        ({
            let playable = chord_degrees(config.chord).len() > 0 && (config.reset_next && (config.mode
                == Mode::RandomWithNext || config.mode == Mode::MovingWithNext) ==> old(
                arp,
            ).degrees().len() > 0);
            &&& r is Some <==> playable
            &&& r matches Some(e) ==> trigger_stepped(
                *old(arp),
                *final(arp),
                config,
                *trigger,
                *old(pending_replay_trigger),
                *final(pending_replay_trigger),
                *old(random),
                *final(random),
                *old(display_request),
                *final(display_request),
                e,
            )
            &&& !playable ==> {
                &&& *final(arp) == *old(arp)
                &&& *final(random) == *old(random)
                &&& *final(display_request) == *old(display_request)
                &&& *final(pending_replay_trigger) == *old(pending_replay_trigger)
            }
        }),
{
    if degrees_len(&config.chord) == 0 {
        return None;
    }
    if config.reset_next && (config.mode == Mode::RandomWithNext || config.mode == Mode::MovingWithNext)
        && arp.chord_size() == 0 {
        return None;
    }
    Some(trigger_step(arp, config, trigger, pending_replay_trigger, random, display_request))
}

/// The note part of a reconciliation as the controller runs it on each
/// tick, from the selections of this tick. A pending replay comes first
/// and leaves the reset-next latch alone. Otherwise, when the trigger
/// request of four ticks ago fires, the latch is read and cleared into the
/// configuration the arpeggiator takes before it plays (see
/// [`trigger_step`]); without a trigger the latch stays set for a later
/// one. `None` where the configured chord cannot be played (see
/// [`checked_trigger_step`]).
pub fn generate_trigger_event<R: Random>(
    arp: &mut Arpeggiator,
    scale: ProjectedScale,
    root: ScaleNote,
    chord: Chord,
    mode: Mode,
    trigger: &Trigger,
    reset_next: &mut ResetNext,
    pending_replay_trigger: &mut bool,
    random: &mut R,
    display_request: &mut DisplayRequest,
) -> (r: Option<NoteEvent>)
    requires
        old(arp).wf(),
    ensures
        final(arp).wf(),
        ({
            let fires = !*old(pending_replay_trigger) && trigger.history()[4];
            let config = (Configuration {
                scale,
                root,
                chord,
                mode,
                reset_next: fires && old(reset_next).pending(),
            });
            let playable = chord_degrees(chord).len() > 0 && (config.reset_next && (mode
                == Mode::RandomWithNext || mode == Mode::MovingWithNext) ==> old(
                arp,
            ).degrees().len() > 0);
            &&& final(reset_next).pending() == (old(reset_next).pending() && !fires)
            &&& r is Some <==> playable
            &&& r matches Some(e) ==> trigger_stepped(
                *old(arp),
                *final(arp),
                config,
                *trigger,
                *old(pending_replay_trigger),
                *final(pending_replay_trigger),
                *old(random),
                *final(random),
                *old(display_request),
                *final(display_request),
                e,
            )
            &&& !playable ==> {
                &&& *final(arp) == *old(arp)
                &&& *final(random) == *old(random)
                &&& *final(display_request) == *old(display_request)
                &&& *final(pending_replay_trigger) == *old(pending_replay_trigger)
            }
        }),
{
    let fires = !*pending_replay_trigger && trigger.triggered_n4();
    let reset = if fires {
        reset_next.pop()
    } else {
        false
    };
    let config = Configuration { scale, root, chord, mode, reset_next: reset };
    checked_trigger_step(arp, config, trigger, pending_replay_trigger, random, display_request)
}

/// The first page in priority order is one of the pages.
proof fn lemma_first_page_in(pages: Seq<Option<Page>>, from: int)
    requires
        0 <= from,
    ensures
        first_page(pages, from) matches Some(p) ==> exists|i: int|
            from <= i < pages.len() && #[trigger] pages[i] == Some(p),
    decreases pages.len() - from,
{
    if from < pages.len() && pages[from] is None {
        lemma_first_page_in(pages, from + 1);
    }
}

} // verus!
