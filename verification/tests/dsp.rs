use arplus::dsp::{string_placement, Placement, StereoMode, StringRotation};

#[test]
fn root_notes_rotate_through_the_root_strings() {
    let mut rotation = StringRotation::new();
    assert_eq!(rotation.next_strings(StereoMode::Haas, true), (0, 1));
    assert_eq!(rotation.next_strings(StereoMode::Haas, true), (1, 2));
    assert_eq!(rotation.next_strings(StereoMode::Haas, true), (2, 3));
    assert_eq!(rotation.next_strings(StereoMode::Haas, true), (3, 0));
}

#[test]
fn other_notes_rotate_through_the_remaining_strings() {
    let mut rotation = StringRotation::new();
    rotation.configure(StereoMode::RootRest, 3);
    assert_eq!(rotation.root_string_index(), 0);
    assert_eq!(rotation.rest_string_index(), 3);
    assert_eq!(rotation.next_strings(StereoMode::RootRest, false), (3, 4));
    for _ in 0..3 {
        rotation.next_strings(StereoMode::RootRest, false);
    }
    assert_eq!(rotation.next_strings(StereoMode::RootRest, false), (7, 3));
}

#[test]
fn root_strings_depend_on_the_chord_size() {
    let mut rotation = StringRotation::new();
    rotation.set_root_strings_len(7);
    rotation.bump_root_string_index();
    rotation.bump_root_string_index();
    assert_eq!(rotation.root_string_index(), 0);
    rotation.set_root_strings_len(2);
    assert_eq!(rotation.rest_string_index(), 4);
    rotation.set_root_strings_len(1);
    assert_eq!(rotation.rest_string_index(), 4);
    rotation.bump_rest_string_index();
    rotation.bump_rest_string_index();
    rotation.bump_rest_string_index();
    rotation.bump_rest_string_index();
    assert_eq!(rotation.rest_string_index(), 4);
}

#[test]
fn ping_pong_plays_every_string_as_a_root_string() {
    let mut rotation = StringRotation::new();
    rotation.configure(StereoMode::PingPong, 3);
    for expected in 0..8 {
        assert_eq!(rotation.next_strings(StereoMode::PingPong, false).0, expected);
    }
    assert_eq!(rotation.root_string_index(), 0);
}

#[test]
fn strings_are_placed_by_the_stereo_mode() {

    assert_eq!(string_placement(StereoMode::Haas, 3, true), Placement::Haas);
    assert_eq!(string_placement(StereoMode::RootRest, 3, true), Placement::FocusLeft);
    assert_eq!(string_placement(StereoMode::RootRest, 2, false), Placement::FocusRight);
    assert_eq!(string_placement(StereoMode::PingPong, 2, false), Placement::FocusLeft);
    assert_eq!(string_placement(StereoMode::PingPong, 5, true), Placement::FocusRight);
}
