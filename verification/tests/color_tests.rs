use yew_google_material::color::{parse_css_color, color_hex_text, ColorValue};

fn rgb(red: u8, green: u8, blue: u8) -> ColorValue {
    ColorValue { red, green, blue, alpha_milli: 1000 }
}

#[test]
fn parse_long_hex() {
    let c = parse_css_color("#6750A4").unwrap();
    assert_eq!((c.red, c.green, c.blue, c.alpha_milli), (0x67, 0x50, 0xA4, 1000));
}

#[test]
fn parse_short_hex() {
    let c = parse_css_color("#fff").unwrap();
    assert_eq!((c.red, c.green, c.blue, c.alpha_milli), (255, 255, 255, 1000));
}

#[test]
fn parse_hex_with_alpha() {
    let c = parse_css_color("#ffffff80").unwrap();
    assert_eq!((c.red, c.green, c.blue), (255, 255, 255));
    // 0x80 = 128, scaled to thousandths and rounded: 502.
    assert_eq!(c.alpha_milli, 502);
}

#[test]
fn parse_named_colors() {
    let c = parse_css_color("whitesmoke").unwrap();
    assert_eq!((c.red, c.green, c.blue), (245, 245, 245));
    let c = parse_css_color("grey").unwrap();
    assert_eq!((c.red, c.green, c.blue), (128, 128, 128));
    let c = parse_css_color("black").unwrap();
    assert_eq!((c.red, c.green, c.blue), (0, 0, 0));
    let c = parse_css_color("coral").unwrap();
    assert_eq!((c.red, c.green, c.blue), (255, 127, 80));
    let c = parse_css_color("deeppink").unwrap();
    assert_eq!((c.red, c.green, c.blue), (255, 20, 147));
    let c = parse_css_color("salmon").unwrap();
    assert_eq!((c.red, c.green, c.blue), (250, 128, 114));
    let c = parse_css_color("ivory").unwrap();
    assert_eq!((c.red, c.green, c.blue), (255, 255, 240));
    let c = parse_css_color("rebeccapurple").unwrap();
    assert_eq!((c.red, c.green, c.blue), (102, 51, 153));
    // The X11 numbered variants are in the table too.
    let c = parse_css_color("maroon2").unwrap();
    assert_eq!((c.red, c.green, c.blue), (127, 0, 0));
    assert!(parse_css_color("notacolor").is_err());
}

#[test]
fn parse_decimal_channels() {
    // Fractional channel components round to the nearest whole channel.
    let c = parse_css_color("rgb(127.5, 0, 0)").unwrap();
    assert_eq!((c.red, c.green, c.blue), (128, 0, 0));
    let c = parse_css_color("rgb(127.4, 0.6, 3.)").unwrap();
    assert_eq!((c.red, c.green, c.blue), (127, 1, 3));
    let c = parse_css_color("rgb(.5, 254.5, 255.0)").unwrap();
    assert_eq!((c.red, c.green, c.blue), (1, 255, 255));
    // The exact value must stay within the channel range.
    assert!(parse_css_color("rgb(255.2, 0, 0)").is_err());
    assert!(parse_css_color("rgb(0, 0, 255.5)").is_err());
    assert!(parse_css_color("rgb(1.2.3, 0, 0)").is_err());
}

#[test]
fn parse_trims_and_lowers() {
    let c = parse_css_color("  WHITE  ").unwrap();
    assert_eq!((c.red, c.green, c.blue), (255, 255, 255));
    let c = parse_css_color("#FFFFFF").unwrap();
    assert_eq!((c.red, c.green, c.blue), (255, 255, 255));
}

#[test]
fn parse_rgb_forms() {
    let c = parse_css_color("rgb(255, 0, 0)").unwrap();
    assert_eq!((c.red, c.green, c.blue, c.alpha_milli), (255, 0, 0, 1000));
    let c = parse_css_color("rgb(1,2,3)").unwrap();
    assert_eq!((c.red, c.green, c.blue), (1, 2, 3));
    let c = parse_css_color("rgba(0, 0, 255, 0.5)").unwrap();
    assert_eq!((c.red, c.green, c.blue, c.alpha_milli), (0, 0, 255, 500));
    let c = parse_css_color("rgba(10, 20, 30, 1)").unwrap();
    assert_eq!(c.alpha_milli, 1000);
    let c = parse_css_color("rgba(10, 20, 30, .25)").unwrap();
    assert_eq!(c.alpha_milli, 250);
}

#[test]
fn parse_rejects_bad_literals() {
    assert!(parse_css_color("garbage").is_err());
    assert!(parse_css_color("").is_err());
    assert!(parse_css_color("#12345").is_err());
    assert!(parse_css_color("#gggggg").is_err());
    assert!(parse_css_color("rgb(256, 0, 0)").is_err());
    assert!(parse_css_color("rgb(1, 2)").is_err());
    assert!(parse_css_color("rgb(1, 2, 3, 4)").is_err());
    assert!(parse_css_color("rgba(1, 2, 3, 1.5)").is_err());
    assert!(parse_css_color("rgba(1, 2, 3, -0.5)").is_err());
    assert!(parse_css_color("hsl(0, 0%, 100%)").is_err());
}

#[test]
fn hex_text_folds_when_possible() {
    assert_eq!(color_hex_text(&rgb(255, 255, 255)), "#fff");
    assert_eq!(color_hex_text(&rgb(0x67, 0x50, 0xA4)), "#6750a4");
    let faded_black = ColorValue { red: 0, green: 0, blue: 0, alpha_milli: 100 };
    assert_eq!(color_hex_text(&faded_black), "#0000001a");
    let faded_white = ColorValue { red: 255, green: 255, blue: 255, alpha_milli: 300 };
    assert_eq!(color_hex_text(&faded_white), "#ffffff4d");
}

#[test]
fn shade_and_tint_match_mixing() {
    // Mixing red half-way with black and with white.
    let red = rgb(255, 0, 0);
    let s = red.shade(500);
    assert_eq!((s.red, s.green, s.blue), (128, 0, 0));
    let t = red.tint(500);
    assert_eq!((t.red, t.green, t.blue), (255, 128, 128));
    // A zero ratio changes nothing.
    let u = red.shade(0);
    assert_eq!((u.red, u.green, u.blue), (255, 0, 0));
    // A full ratio reaches the endpoint.
    let v = red.tint(1000);
    assert_eq!((v.red, v.green, v.blue), (255, 255, 255));
}

#[test]
fn fade_replaces_alpha_only() {
    let c = rgb(10, 20, 30);
    let f = c.fade(250);
    assert_eq!((f.red, f.green, f.blue, f.alpha_milli), (10, 20, 30, 250));
    // Values above full opacity clamp.
    let g = c.fade(5000);
    assert_eq!(g.alpha_milli, 1000);
}

#[test]
fn hover_contrast_light_goes_darker() {
    // White is light; its hover color must be strictly darker.
    let white = rgb(255, 255, 255);
    assert!(white.is_light());
    let hover = white.hover_background();
    let sum = |c: &ColorValue| {
        let mx = c.red.max(c.green).max(c.blue) as u32;
        let mn = c.red.min(c.green).min(c.blue) as u32;
        mx + mn
    };
    assert!(sum(&hover) < sum(&white));
}

#[test]
fn hover_contrast_dark_goes_lighter() {
    let purple = parse_css_color("#6750A4").unwrap();
    assert!(!purple.is_light());
    let hover = purple.hover_background();
    // 0.1 of the base plus 0.9 of white, rounded to nearest.
    assert_eq!((hover.red, hover.green, hover.blue), (240, 238, 246));
    let sum = |c: &ColorValue| {
        let mx = c.red.max(c.green).max(c.blue) as u32;
        let mn = c.red.min(c.green).min(c.blue) as u32;
        mx + mn
    };
    assert!(sum(&hover) > sum(&purple));
}

#[test]
fn derivations_keep_channel_order() {
    let c = rgb(10, 100, 200);
    let d = c.shade(300).fade(100);
    assert!(d.red <= d.green && d.green <= d.blue);
    let e = c.tint(700).fade(900);
    assert!(e.red <= e.green && e.green <= e.blue);
}
