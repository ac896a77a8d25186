//! Holds the library's color model against the `color_art` crate on the
//! literals and derivations the synthesizers use.

use std::str::FromStr;

use color_art::Color;
use yew_google_material::color::parse_css_color;

const LITERALS: &[&str] = &[
    "#6750A4",
    "#79747E",
    "#ffffff",
    "#fff",
    "#6200ee",
    "whitesmoke",
    "white",
    "black",
    "grey",
    "teal",
    "orange",
    "coral",
    "deeppink",
    "salmon",
    "ivory",
    "skyblue",
    "tomato",
    "navajowhite",
    "maroon3",
    "rgb(255, 0, 0)",
    "rgb(12, 34, 56)",
    "rgb(127.5, 0, 0)",
    "rgb(10.4, 199.5, 54.9)",
];

#[test]
fn parse_agrees_with_color_art() {
    for lit in LITERALS {
        let ours = parse_css_color(lit).unwrap();
        let theirs = Color::from_str(lit).unwrap();
        assert_eq!(
            (ours.red, ours.green, ours.blue),
            (theirs.red(), theirs.green(), theirs.blue()),
            "channels differ for {lit}"
        );
    }
}

#[test]
fn rejection_agrees_with_color_art_on_junk() {
    for lit in ["", "garbage", "#12345", "rgb(300, 0, 0)", "rgb(1, 2)"] {
        assert!(parse_css_color(lit).is_err());
        assert!(Color::from_str(lit).is_err());
    }
}

#[test]
fn lightness_split_agrees_with_color_art() {
    // The integer model rounds fractional channels when parsing, color_art
    // keeps them exact until display; a fractional literal sitting right on
    // the lightness boundary could therefore split differently, so the
    // literals above stay clear of it.
    for lit in LITERALS {
        let ours = parse_css_color(lit).unwrap();
        let theirs = Color::from_str(lit).unwrap();
        assert_eq!(
            ours.is_light(),
            theirs.lightness() > 0.5,
            "lightness split differs for {lit}"
        );
    }
}

#[test]
fn hover_derivation_agrees_with_color_art() {
    for lit in LITERALS {
        let ours = parse_css_color(lit).unwrap();
        let theirs = Color::from_str(lit).unwrap();
        let our_hover = ours.hover_background();
        let their_hover = if theirs.lightness() > 0.5 {
            theirs.shade(0.9)
        } else {
            theirs.tint(0.9)
        };
        // The integer model rounds each channel to the nearest value, as
        // the crate's own display does; floating-point half-way cases may
        // land one step apart, so compare within one.
        for (a, b) in [
            (our_hover.red, their_hover.red()),
            (our_hover.green, their_hover.green()),
            (our_hover.blue, their_hover.blue()),
        ] {
            assert!((a as i32 - b as i32).abs() <= 1, "hover differs for {lit}: {a} vs {b}");
        }
    }
}
