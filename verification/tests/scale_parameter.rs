use arplus::parameters::configs::ScalePersistentConfig;
use arplus::parameters::scale::{NoteReading, Scale};
use arplus::scales::{GroupId, Scales, Tonic};

#[test]
fn a_fresh_selection_is_the_first_diatonic_scale() {
    let scales = Scales::new();
    let scale = Scale::new(ScalePersistentConfig::default(), &scales, Tonic::D);
    assert_eq!(scale.selected_group_id(), GroupId::Diatonic);
    assert_eq!(scale.selected_scale_index(), 0);
    assert_eq!(scale.scale_options(), 7);
    assert_eq!(scale.selected_scale_size(), 7);
    assert_eq!(scale.selected_scale().tonic(), Tonic::D);
    assert!(!scale.cv_note_control());
}

#[test]
fn tapping_the_group_moves_on_and_resizes_the_scales() {
    let scales = Scales::new();
    let mut scale = Scale::new(ScalePersistentConfig::default(), &scales, Tonic::C);
    let changes = scale.reconcile_scale_selection(
        &scales, true, false, None, None, false, Tonic::C, NoteReading::Pot { note_changed: true },
    );
    assert!(changes.group && !changes.scale && !changes.tonic);
    assert!(changes.note && !changes.octave);
    assert_eq!(scale.selected_group_id(), GroupId::Maqam);
    assert_eq!(scale.scale_options(), 8);
}

#[test]
fn a_group_cv_takes_over_from_the_buttons() {
    let scales = Scales::new();
    let mut scale = Scale::new(ScalePersistentConfig::default(), &scales, Tonic::C);
    let changes = scale.reconcile_scale_selection(
        &scales, true, false, Some((true, 3)), None, false, Tonic::A, NoteReading::Cv { octave_changed: true },
    );
    assert!(changes.group);
    assert!(!changes.note && changes.octave);
    assert!(scale.cv_note_control());
    assert_eq!(scale.selected_group_id(), GroupId::Chromatic);
    assert_eq!(scale.scale_options(), 1);
    assert_eq!(scale.selected_scale_size(), 12);
    assert_eq!(scale.selected_scale().tonic(), Tonic::A);

    let changes = scale.reconcile_scale_selection(
        &scales, false, false, None, None, false, Tonic::A, NoteReading::Pot { note_changed: false },
    );
    assert!(!changes.group);
    assert_eq!(scale.selected_group_id(), GroupId::Diatonic);
    assert_eq!(scale.scale_options(), 7);
}

#[test]
fn a_scale_cv_picks_the_scale_and_a_tonic_change_reprojects() {
    let scales = Scales::new();
    let mut scale = Scale::new(ScalePersistentConfig::default(), &scales, Tonic::C);
    let changes = scale.reconcile_scale_selection(
        &scales, false, false, None, Some((true, 5)), false, Tonic::C, NoteReading::Pot { note_changed: false },
    );
    assert!(changes.scale);
    assert_eq!(scale.selected_scale_index(), 5);
    let changes = scale.reconcile_scale_selection(
        &scales, false, false, None, Some((false, 5)), true, Tonic::E, NoteReading::Pot { note_changed: false },
    );
    assert!(changes.tonic && !changes.scale);
    assert_eq!(scale.selected_scale().tonic(), Tonic::E);
}

#[test]
fn the_scale_button_wraps_within_the_group() {
    let scales = Scales::new();
    let mut scale = Scale::new(ScalePersistentConfig::default(), &scales, Tonic::C);
    for _ in 0..7 {
        scale.reconcile_scale_selection(
            &scales, false, true, None, None, false, Tonic::C, NoteReading::Pot { note_changed: false },
        );
    }
    assert_eq!(scale.selected_scale_index(), 0);
}
