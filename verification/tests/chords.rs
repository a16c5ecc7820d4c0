use arplus::chords::{Chords, GroupId};

#[test]
fn initialize_chords() {
    let _chords = Chords::new();
}

#[test]
fn get_chord() {
    let chords = Chords::new();
    let chord = chords.chord(GroupId::Size3, 0).unwrap();
    assert_eq!(&chord, &[0, 2, 4]);
}

#[test]
fn try_getting_chord_out_of_range() {
    let chords = Chords::new();
    assert!(chords
        .chord(GroupId::Size3, chords.number_of_chords(GroupId::Size3))
        .is_err());
}

#[test]
fn every_chord_of_a_group_has_the_group_size() {
    let chords = Chords::new();
    for index in 0..8usize {
        let group = GroupId::try_from(index).unwrap();
        let size = chords.group_size(group);
        assert_eq!(size, index + 1);
        for position in 0..chords.number_of_chords(group) {
            assert_eq!(chords.chord(group, position).unwrap().len(), size);
        }
    }
}

#[test]
fn number_of_chords_per_group() {
    let chords = Chords::new();
    assert_eq!(chords.number_of_chords(GroupId::Size1), 8);
    assert_eq!(chords.number_of_chords(GroupId::Size3), 19);
    assert_eq!(chords.number_of_chords(GroupId::Size8), 9);
}

#[test]
fn group_ids_past_the_last_are_refused() {
    assert!(GroupId::try_from(8usize).is_err());
    assert_eq!(GroupId::try_from(7usize), Ok(GroupId::Size8));
}

#[test]
fn last_chord_of_the_seven_group() {
    let chords = Chords::new();
    let chord = chords.chord(GroupId::Size7, 6).unwrap();
    assert_eq!(&chord, &[0, 1, 3, 6, 7, 8, 10]);
}
