use arplus::dsp;
use arplus::parameters::cv_assignment::PersistentConfig as CvAssignmentConfig;
use arplus::parameters::scale_offsets::PersistentConfig as OffsetsConfig;
use arplus::parameters::stereo_mode::PersistentConfig as StereoConfig;
use arplus::parameters::toggle::PersistentConfig as ToggleConfig;
use arplus::parameters::{
    CvAssignment, CvAssignmentHandler, CvMappingSocket, ResetNext, ScaleOffsets, StereoMode,
    StereoModeHandler, Toggle, Trigger,
};

#[test]
fn toggle_wraps_around_its_options() {
    let mut toggle = Toggle::new(ToggleConfig { selected_value: 1 }, 3);
    assert!(toggle.reconcile(true));
    assert_eq!(toggle.selected_value(), 2);
    assert!(toggle.reconcile(true));
    assert_eq!(toggle.selected_value(), 0);
    assert!(!toggle.reconcile(false));
    assert_eq!(toggle.selected_value(), 0);
    assert_eq!(toggle.copy_config(), ToggleConfig { selected_value: 0 });
}

#[test]
fn toggle_keeps_its_position_while_the_options_shrink() {
    let mut toggle = Toggle::new(ToggleConfig { selected_value: 5 }, 8);
    toggle.set_output_values(3);
    assert_eq!(toggle.selected_value(), 2);
    toggle.set_output_values(8);
    assert_eq!(toggle.selected_value(), 5);
    toggle.set_value(1);
    assert_eq!(toggle.selected_value(), 1);
}

#[test]
fn trigger_requests_surface_four_ticks_later() {
    let mut trigger = Trigger::new();
    trigger.reconcile(false, true);
    for _ in 0..3 {
        trigger.reconcile(false, false);
        assert!(!trigger.triggered_n4());
    }
    trigger.reconcile(false, false);
    assert!(trigger.triggered_n4());
    trigger.reconcile(false, false);
    assert!(!trigger.triggered_n4());
}

#[test]
fn reset_next_is_consumed_once() {
    let mut reset_next = ResetNext::new();
    assert!(!reset_next.pop());
    reset_next.reconcile(true, false);
    reset_next.reconcile(false, false);
    assert!(reset_next.pop());
    assert!(!reset_next.pop());
}

#[test]
fn offsets_stay_within_four_quarter_tones() {
    let mut offsets = ScaleOffsets::new(OffsetsConfig { offsets: [[[0; 7]; 8]; 5] });
    assert!(offsets.locked());
    for _ in 0..4 {
        assert!(offsets.request_increase(4, 7, 6));
    }
    assert!(!offsets.request_increase(4, 7, 6));
    assert_eq!(offsets.offset(4, 7, 6), 4);
    for _ in 0..8 {
        assert!(offsets.request_decrease(4, 7, 6));
    }
    assert!(!offsets.request_decrease(4, 7, 6));
    assert_eq!(offsets.offset(4, 7, 6), -4);
}

#[test]
fn offsets_outside_the_table_are_zero_and_untouched() {
    let mut offsets = ScaleOffsets::new(OffsetsConfig { offsets: [[[1; 7]; 8]; 5] });
    assert!(!offsets.request_increase(5, 0, 0));
    assert!(!offsets.request_decrease(0, 8, 0));
    assert_eq!(offsets.offset(0, 0, 7), 0);
    assert_eq!(offsets.scale_offsets_ref(5, 0), &[0; 7]);
    assert_eq!(offsets.scale_offsets_ref(0, 0), &[1; 7]);
    assert!(!offsets.reset_scale(0, 8));
}

#[test]
fn raising_then_lowering_restores_the_offsets() {
    let mut offsets = ScaleOffsets::new(OffsetsConfig { offsets: [[[-2; 7]; 8]; 5] });
    let before = offsets.copy_config();
    assert!(offsets.request_increase(2, 3, 1));
    assert_eq!(offsets.offset(2, 3, 1), -1);
    assert!(offsets.request_decrease(2, 3, 1));
    assert_eq!(offsets.copy_config(), before);
}

#[test]
fn resetting_a_scale_tells_whether_anything_was_set() {
    let mut offsets = ScaleOffsets::new(OffsetsConfig { offsets: [[[0; 7]; 8]; 5] });
    assert!(!offsets.reset_scale(1, 1));
    offsets.request_increase(1, 1, 3);
    assert!(offsets.reset_scale(1, 1));
    assert_eq!(offsets.offset(1, 1, 3), 0);
    assert!(offsets.toggle_lock() == false);
    assert!(!offsets.locked());
}

#[test]
fn stereo_modes_map_onto_the_signal_side() {
    assert_eq!(dsp::StereoMode::from(StereoMode::PingPong), dsp::StereoMode::PingPong);
    assert_eq!(dsp::StereoMode::from(StereoMode::RootRest), dsp::StereoMode::RootRest);
    assert_eq!(dsp::StereoMode::from(StereoMode::Haas), dsp::StereoMode::Haas);
    assert_eq!(StereoMode::default(), StereoMode::RootRest);
    assert_eq!(StereoMode::try_from_index(3), None);
    assert_eq!(StereoMode::try_from_index(2), Some(StereoMode::Haas));
    assert_eq!(StereoMode::Haas.index(), 2);
}

#[test]
fn stereo_mode_handler_saves_its_position() {
    let mut handler = StereoModeHandler::new(StereoConfig { toggle: ToggleConfig { selected_value: 1 } });
    assert_eq!(handler.selected(), StereoMode::RootRest);
    assert!(handler.reconcile_button(true));
    assert_eq!(handler.selected(), StereoMode::Haas);
    assert_eq!(handler.copy_config(), StereoConfig { toggle: ToggleConfig { selected_value: 2 } });
}

#[test]
fn cv_assignment_positions_past_the_last_read_as_the_last() {
    let handler = CvAssignmentHandler::new(CvAssignmentConfig { toggle: ToggleConfig { selected_value: 12 } });
    assert_eq!(handler.selected(), CvAssignment::Width);
    assert_eq!(CvAssignment::try_from_index(8), None);
    assert_eq!(CvAssignment::try_from_index(1), Some(CvAssignment::Size));
    assert_eq!(CvAssignment::Strings.index(), 6);
    assert_eq!(CvAssignment::default(), CvAssignment::Tonic);
}

#[test]
fn sockets_are_six_with_one_unmapped() {
    assert_eq!(CvMappingSocket::try_from(0usize), Ok(CvMappingSocket::Unmapped));
    assert_eq!(CvMappingSocket::try_from(5usize), Ok(CvMappingSocket::Contour));
    assert!(CvMappingSocket::try_from(6usize).is_err());
    assert!(CvMappingSocket::Unmapped.is_none());
    assert!(CvMappingSocket::Tone.is_some());
}

#[test]
fn as_many_taps_as_options_come_back() {
    let mut toggle = Toggle::new(ToggleConfig { selected_value: 2 }, 5);
    for _ in 0..5 {
        toggle.reconcile(true);
    }
    assert_eq!(toggle.copy_config(), ToggleConfig { selected_value: 2 });
}

#[test]
fn three_taps_cycle_the_stereo_modes() {
    let mut handler = StereoModeHandler::new(StereoConfig::default());
    let start = handler.copy_config();
    assert_eq!(handler.selected(), StereoMode::PingPong);
    assert!(!handler.reconcile_button(false));
    assert_eq!(handler.copy_config(), start);
    assert!(handler.reconcile_button(true));
    assert_eq!(handler.selected(), StereoMode::RootRest);
    handler.reconcile_button(true);
    assert_eq!(handler.selected(), StereoMode::Haas);
    handler.reconcile_button(true);
    assert_eq!(handler.selected(), StereoMode::PingPong);
    assert_eq!(handler.copy_config(), start);
}
