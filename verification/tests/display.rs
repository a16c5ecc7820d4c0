use arplus::arpeggiator::Mode;
use arplus::chords::{Chords, GroupId as ChordGroupId};
use arplus::display::{Display, Priority, Screen, PAGE_TIMEOUT};
use arplus::display_request::{DisplayRequest, ScreenRequest};
use arplus::parameters::CvMappingSocket;
use arplus::scales::{GroupId, Tonic};

#[test]
fn screens_light_their_leds() {
    assert_eq!(Screen::group(GroupId::Maqam).leds(0), [false, false, false, false, false, false, true, false]);
    assert_eq!(Screen::arp_mode(Mode::UpWithReset).leds(0), [false, false, false, false, false, false, false, true]);
    assert_eq!(Screen::scale(9).leds(0), [false; 8]);
    assert_eq!(Screen::tonic(Tonic::CSharp).leds(0), [true, false, false, false, false, false, false, true]);
    assert_eq!(Screen::tonic(Tonic::B).leds(0), [false, false, false, false, false, false, true, false]);
    assert_eq!(Screen::size(3).leds(0), [true, true, true, false, false, false, false, false]);
    assert_eq!(Screen::size(10).leds(0), [true, false, true, false, true, false, true, false]);
    assert_eq!(Screen::step(9).leds(0), [false, true, false, false, false, false, false, true]);
    assert_eq!(Screen::note(4).leds(0), [false, false, false, false, true, false, false, false]);
    assert_eq!(Screen::octave(1).leds(0), [false, false, false, false, true, true, true, true]);
    assert_eq!(Screen::octave(2).leds(0), [true; 8]);
    assert_eq!(Screen::gain(1).leds(0), [true, true, true, true, false, false, false, false]);
    assert_eq!(Screen::cv_mapping(CvMappingSocket::Tone).leds(0), [true, false, false, false, false, false, false, false]);
    assert_eq!(Screen::cv_mapping(CvMappingSocket::Unmapped).leds(0), [false; 8]);
}

#[test]
fn chord_screen_wraps_degrees_by_the_scale_size() {
    let chords = Chords::new();
    let chord = chords.chord(ChordGroupId::Size3, 9).unwrap();
    assert_eq!(&chord, &[0, 4, 8]);
    assert_eq!(Screen::chord(chord, 7).leds(0), [true, true, false, false, true, false, false, false]);
}

#[test]
fn animated_screens_follow_the_clock() {
    assert_eq!(Screen::failure().leds(0), [true; 8]);
    assert_eq!(Screen::failure().leds(400), [false; 8]);
    assert_eq!(Screen::configuration().leds(0), [true, false, true, false, true, false, true, false]);
    assert_eq!(Screen::tone_calibration_octave_1().leds(0), [true, true, true, true, false, false, false, false]);
    assert_eq!(Screen::tone_calibration_octave_1().leds(400), [false; 8]);
    assert_eq!(Screen::tone_calibration_octave_2().leds(800), [false, false, false, false, true, true, true, true]);
    assert_eq!(Screen::calibration_success().leds(0), [true; 8]);
    assert_eq!(Screen::calibration_failure().leds(0), [false; 8]);
}

#[test]
fn the_most_important_page_is_shown() {
    let mut display = Display::new();
    assert!(display.active_screen_and_clock().is_none());
    display.set(Priority::Fallback, Screen::step(1));
    display.set(Priority::Queried, Screen::note(2));
    let (screen, clock) = display.active_screen_and_clock().unwrap();
    assert!(screen.same_as(&Screen::note(2)));
    assert_eq!(clock, 0);
    display.set(Priority::Failure, Screen::failure());
    assert!(display.active_screen_and_clock().unwrap().0.same_as(&Screen::failure()));
    display.reset(Priority::Failure);
    display.reset(Priority::Queried);
    assert!(display.active_screen_and_clock().unwrap().0.same_as(&Screen::step(1)));
}

#[test]
fn setting_the_same_screen_keeps_its_clock() {
    let mut display = Display::new();
    display.set(Priority::Queried, Screen::note(2));
    display.tick();
    display.tick();
    display.set(Priority::Queried, Screen::note(2));
    assert_eq!(display.active_screen_and_clock().unwrap().1, 2);
    display.set(Priority::Queried, Screen::note(3));
    assert_eq!(display.active_screen_and_clock().unwrap().1, 0);
}

#[test]
fn queried_pages_time_out_and_fallback_pages_stay() {
    let mut display = Display::new();
    display.set(Priority::Queried, Screen::note(2));
    display.set(Priority::Fallback, Screen::step(5));
    for _ in 0..PAGE_TIMEOUT {
        display.tick();
    }
    assert!(display.active_screen_and_clock().unwrap().0.same_as(&Screen::note(2)));
    display.tick();
    let (screen, clock) = display.active_screen_and_clock().unwrap();
    assert!(screen.same_as(&Screen::step(5)));
    assert_eq!(clock, PAGE_TIMEOUT + 1);
}

#[test]
fn a_request_is_applied_once() {
    let mut display = Display::new();
    let mut request = DisplayRequest::new();
    request.set_queried_attribute(Screen::tonic(Tonic::G));
    request.set_calibration_phase(Screen::tone_calibration_octave_1());
    request.apply(&mut display);
    assert!(matches!(request.queried_attribute, ScreenRequest::Keep));
    assert!(matches!(request.calibration_phase, ScreenRequest::Keep));
    assert!(display.active_screen_and_clock().unwrap().0.same_as(&Screen::tone_calibration_octave_1()));

    let mut reset = DisplayRequest::new();
    reset.reset_calibration_phase();
    reset.apply(&mut display);
    assert!(display.active_screen_and_clock().unwrap().0.same_as(&Screen::tonic(Tonic::G)));
}

#[test]
fn a_failure_wins_over_a_calibration_result() {
    let mut display = Display::new();
    let mut request = DisplayRequest::new();
    request.set_calibration_result(Screen::calibration_success());
    request.set_failure(Screen::failure());
    request.set_fallback_attribute(Screen::step(0));
    request.apply(&mut display);
    assert!(display.active_screen_and_clock().unwrap().0.same_as(&Screen::failure()));
}

#[test]
fn an_empty_request_keeps_the_display() {
    let mut display = Display::new();
    display.set(Priority::Dialog, Screen::configuration());
    let mut request = DisplayRequest::new();
    request.apply(&mut display);
    assert!(display.active_screen_and_clock().unwrap().0.same_as(&Screen::configuration()));
}
