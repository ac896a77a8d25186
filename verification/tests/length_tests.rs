use yew_google_material::length::{parse_number_and_unit, scaled, length_text};

#[test]
fn parse_simple_lengths() {
    let v = parse_number_and_unit("3.5em");
    assert!(!v.neg);
    assert_eq!(v.mag_micro, 3_500_000);
    assert_eq!(v.unit, "em");

    let v = parse_number_and_unit("42px");
    assert!(!v.neg);
    assert_eq!(v.mag_micro, 42_000_000);
    assert_eq!(v.unit, "px");
}

#[test]
fn parse_falls_back_on_garbage() {
    let v = parse_number_and_unit("garbage");
    assert!(!v.neg);
    assert_eq!(v.mag_micro, 3_500_000);
    assert_eq!(v.unit, "em");

    let v = parse_number_and_unit("");
    assert_eq!((v.mag_micro, v.unit.as_str()), (3_500_000, "em"));

    let v = parse_number_and_unit("1.2.3em");
    assert_eq!((v.mag_micro, v.unit.as_str()), (3_500_000, "em"));

    let v = parse_number_and_unit("3+5em");
    assert_eq!((v.mag_micro, v.unit.as_str()), (3_500_000, "em"));

    let v = parse_number_and_unit(".em");
    assert_eq!((v.mag_micro, v.unit.as_str()), (3_500_000, "em"));
}

#[test]
fn parse_sign_and_dot_forms() {
    let v = parse_number_and_unit("+42px");
    assert!(!v.neg);
    assert_eq!(v.mag_micro, 42_000_000);

    let v = parse_number_and_unit("-3.5em");
    assert!(v.neg);
    assert_eq!(v.mag_micro, 3_500_000);

    let v = parse_number_and_unit(".5em");
    assert_eq!(v.mag_micro, 500_000);

    let v = parse_number_and_unit("3.");
    assert_eq!(v.mag_micro, 3_000_000);
    assert_eq!(v.unit, "");
}

#[test]
fn parse_without_unit() {
    let v = parse_number_and_unit("42");
    assert_eq!(v.mag_micro, 42_000_000);
    assert_eq!(v.unit, "");
}

#[test]
fn scaled_divides_and_keeps_unit() {
    // 7em / 2.95 = 2.372881... em
    let v = parse_number_and_unit("7em");
    let s = scaled(&v, 295);
    assert_eq!(s.mag_micro, 2_372_881);
    assert_eq!(s.unit, "em");
    assert_eq!(length_text(&s), "2.372881em");

    // 7em / 3.5 = 2em exactly.
    let s = scaled(&v, 350);
    assert_eq!(s.mag_micro, 2_000_000);
    assert_eq!(length_text(&s), "2em");
}

#[test]
fn length_text_trims_zeros() {
    let v = parse_number_and_unit("1.250em");
    assert_eq!(length_text(&v), "1.25em");

    let v = parse_number_and_unit("0.5em");
    assert_eq!(length_text(&v), "0.5em");

    let v = parse_number_and_unit("-2px");
    assert_eq!(length_text(&v), "-2px");
}
