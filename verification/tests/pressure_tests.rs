use procmon::palette::{black, blue, green, orange, purple, red};
use procmon::pressure::{PressureClassifier, PressureFlag};
use rgb::RGB8;

#[test]
fn reading_below_twice_the_baseline_is_normal() {
    let mut c = PressureClassifier::new();
    assert_eq!(c.classify(100), PressureFlag::Normal);
    assert_eq!(c.baseline, Some(100));
    assert_eq!(c.classify(150), PressureFlag::Normal);
}

#[test]
fn reading_above_twice_the_baseline_is_elevated() {
    let mut c = PressureClassifier::new();
    c.classify(100);
    assert_eq!(c.classify(250), PressureFlag::Elevated);
    assert_eq!(c.current_flag, PressureFlag::Elevated);
}

#[test]
fn exactly_twice_the_baseline_is_normal() {
    let mut c = PressureClassifier::new();
    c.classify(100);
    assert_eq!(c.classify(200), PressureFlag::Normal);
    assert_eq!(c.classify(201), PressureFlag::Elevated);
}

#[test]
fn baseline_is_the_first_nonzero_reading() {
    let mut c = PressureClassifier::new();
    assert_eq!(c.classify(0), PressureFlag::Normal);
    assert_eq!(c.baseline, None);
    assert_eq!(c.classify(0), PressureFlag::Normal);
    assert_eq!(c.classify(40), PressureFlag::Normal);
    assert_eq!(c.baseline, Some(40));
}

#[test]
fn baseline_never_moves() {
    let mut c = PressureClassifier::new();
    c.classify(100);
    c.classify(1000);
    c.classify(10);
    c.classify(0);
    assert_eq!(c.baseline, Some(100));
    assert_eq!(c.classify(150), PressureFlag::Normal);
    assert_eq!(c.classify(250), PressureFlag::Elevated);
}

#[test]
fn flag_returns_to_normal() {
    let mut c = PressureClassifier::new();
    c.classify(100);
    assert_eq!(c.classify(500), PressureFlag::Elevated);
    assert_eq!(c.classify(120), PressureFlag::Normal);
    assert_eq!(c.current_flag, PressureFlag::Normal);
}

#[test]
fn largest_baseline_does_not_overflow() {
    let mut c = PressureClassifier::new();
    assert_eq!(c.classify(u64::MAX / 2 + 1), PressureFlag::Normal);
    assert_eq!(c.classify(u64::MAX), PressureFlag::Normal);
    let mut d = PressureClassifier::new();
    d.classify(u64::MAX / 2);
    assert_eq!(d.classify(u64::MAX), PressureFlag::Elevated);
}

#[test]
fn colours_are_fixed() {
    assert_eq!(red(), RGB8 { r: 255, g: 0, b: 0 });
    assert_eq!(green(), RGB8 { r: 0, g: 255, b: 0 });
    assert_eq!(purple(), RGB8 { r: 0xE0, g: 0x80, b: 0xFF });
    assert_eq!(blue(), RGB8 { r: 0, g: 0, b: 255 });
    assert_eq!(orange(), RGB8 { r: 0xFF, g: 0xA5, b: 0 });
    assert_eq!(black(), RGB8 { r: 0, g: 0, b: 0 });
    assert_eq!(PressureFlag::Normal.color(), green());
    assert_eq!(PressureFlag::Elevated.color(), red());
}
