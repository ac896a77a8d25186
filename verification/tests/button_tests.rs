use yew_google_material::GButtonStyle;
use yew_google_material::buttons::{
    GButtonRequest, button_padding, input_style, only_icon_of, leading_icon_of,
};

fn request(style: GButtonStyle) -> GButtonRequest {
    GButtonRequest {
        style,
        id: String::from("btn1"),
        only_icon: false,
        font_size: String::from("14px"),
        height: String::from("2.85em"),
        width: None,
        background_color: String::from("#6750A4"),
        label_color: String::from("#FFFFFF"),
        outlined_border_color: None,
        border_radius: String::from("20px"),
        disabled: false,
        has_icon: false,
        trailing_icon: false,
        dark_theame: false,
    }
}

#[test]
fn padding_policy_trailing_icon() {
    assert_eq!(button_padding(true, false, true), ("1.71em", "3em", "1.14em"));
}

#[test]
fn padding_policy_leading_icon() {
    assert_eq!(button_padding(true, false, false), ("3em", "1.71em", "1.14em"));
}

#[test]
fn padding_policy_no_icon() {
    assert_eq!(button_padding(false, false, false), ("1.71em", "1.71em", "1.14em"));
}

#[test]
fn padding_policy_only_icon() {
    assert_eq!(button_padding(true, true, false), ("1.34em", "1.34em", "0.77em"));
    assert_eq!(button_padding(true, true, true), ("1.34em", "1.34em", "0.77em"));
}

#[test]
fn filled_button_resolves_colors() {
    let css = input_style(&request(GButtonStyle::Filled)).unwrap();
    assert!(css.contains("div#g_init_btn1 {"));
    assert!(css.contains("button#btn1 {"));
    assert!(css.contains("height: 2.85em;"));
    assert!(css.contains("padding: 0.7em 1.71em 0.7em 1.71em;"));
    assert!(css.contains("background-color: #6750a4;"));
    // The default purple is dark: the hover color is a strong tint.
    assert!(css.contains("background-color: #f0eef6;"));
    // The ripple animates a white base over a dark background.
    assert!(css.contains("background-color: #ffffff1a;"));
    assert!(css.contains("background-color: #ffffff4d;"));
    assert!(css.contains("color: #FFFFFF;"));
    assert!(css.contains("@keyframes ripple"));
}

#[test]
fn light_background_ripples_black() {
    let mut req = request(GButtonStyle::Elevated);
    req.background_color = String::from("white");
    let css = input_style(&req).unwrap();
    assert!(css.contains("background-color: #0000001a;"));
    assert!(css.contains("background-color: #0000004d;"));
    // White hovers strictly darker: 0.1 white + 0.9 black, rounded.
    assert!(css.contains("background-color: #1a1a1a;"));
}

#[test]
fn elevated_and_filled_swap_shadow_depth() {
    let css = input_style(&request(GButtonStyle::Elevated)).unwrap();
    assert!(css.contains(
        ":focus {\n                box-shadow: 0 3px 6px rgba(0,0,0,0.16), 0 3px 6px rgba(0,0,0,0.23);"
    ));
    assert!(css.contains(
        ":active {\n                box-shadow: 0 2px 4px rgba(0,0,0,0.12), 0 1px 3px rgba(0,0,0,0.24);"
    ));
    let css = input_style(&request(GButtonStyle::Filled)).unwrap();
    assert!(css.contains(
        ":focus {\n                box-shadow: 0 2px 4px rgba(0,0,0,0.12), 0 1px 3px rgba(0,0,0,0.24);"
    ));
    assert!(css.contains(":active {\n                box-shadow: 0 0 0 rgba(0,0,0,0.0);"));
}

#[test]
fn dark_theme_flips_shadow_base() {
    let mut req = request(GButtonStyle::Elevated);
    req.dark_theame = true;
    let css = input_style(&req).unwrap();
    assert!(css.contains("box-shadow: 0 3px 6px rgba(255,255,255,0.16)"));
    assert!(!css.contains("rgba(0,0,0,0.16)"));
    // The theme flag touches shadows only, not the fill.
    assert!(css.contains("background-color: #6750a4;"));
}

#[test]
fn outlined_button_draws_border() {
    let css = input_style(&request(GButtonStyle::Outlined)).unwrap();
    assert!(css.contains("background-color: unset;"));
    assert!(css.contains("border: 0.0714em solid #79747E;"));
    // The hover wash is the palette color at a tenth of opacity.
    assert!(css.contains("background-color: #6750a41a;"));
    assert!(css.contains("background-color: #6750a44d;"));
    assert!(!css.contains("box-shadow: 0"));

    let mut req = request(GButtonStyle::Outlined);
    req.outlined_border_color = Some(String::from("teal"));
    let css = input_style(&req).unwrap();
    assert!(css.contains("border: 0.0714em solid teal;"));
}

#[test]
fn text_button_has_no_border_or_shadow() {
    let css = input_style(&request(GButtonStyle::Text)).unwrap();
    assert!(css.contains("background-color: unset;"));
    assert!(!css.contains("border: 0.0714em"));
    assert!(!css.contains("box-shadow: 0"));
    assert!(css.contains("background-color: #6750a41a;"));
}

#[test]
fn disabled_button_is_neutral_for_every_variant() {
    for style in [
        GButtonStyle::Elevated,
        GButtonStyle::Filled,
        GButtonStyle::Outlined,
        GButtonStyle::Text,
    ] {
        let mut req = request(style.clone());
        req.disabled = true;
        let css = input_style(&req).unwrap();
        // The caller's palette is discarded entirely.
        assert!(!css.contains("#6750a4"), "palette leaked for {:?}", style);
        assert!(!css.contains("#FFFFFF"), "label color leaked for {:?}", style);
        assert!(css.contains("color: rgba(29, 27, 32, 0.38);"), "label not forced for {:?}", style);
        match style {
            GButtonStyle::Elevated | GButtonStyle::Filled => {
                assert!(css.contains("background-color: rgba(29, 27, 32, 0.12);"));
            }
            GButtonStyle::Outlined => {
                assert!(css.contains("border: 0.0714em solid rgba(29, 27, 32, 0.12);"));
                assert!(css.contains("background-color: unset;"));
            }
            GButtonStyle::Text => {
                assert!(css.contains("background-color: unset;"));
            }
        }
        assert!(!css.contains("box-shadow: 0"));
    }
}

#[test]
fn disabled_still_requires_valid_background() {
    let mut req = request(GButtonStyle::Text);
    req.disabled = true;
    req.background_color = String::from("not-a-color");
    assert!(input_style(&req).is_err());
}

#[test]
fn invalid_background_color_fails() {
    let mut req = request(GButtonStyle::Filled);
    req.background_color = String::from("blurple");
    assert!(input_style(&req).is_err());
}

#[test]
fn width_is_emitted_only_when_given() {
    let mut req = request(GButtonStyle::Filled);
    req.width = Some(String::from("10em"));
    let css = input_style(&req).unwrap();
    assert!(css.contains("width: 10em;"));
    let css = input_style(&request(GButtonStyle::Filled)).unwrap();
    assert!(!css.contains("width: 10em;"));
}

#[test]
fn icon_overlay_sides() {
    let mut req = request(GButtonStyle::Filled);
    req.has_icon = true;
    req.trailing_icon = true;
    let css = input_style(&req).unwrap();
    assert!(css.contains("gicon.g_has_trailing_icon"));
    assert!(css.contains("right: 1.14em;"));

    req.trailing_icon = false;
    let css = input_style(&req).unwrap();
    assert!(css.contains("gicon.g_has_leading_icon"));
    assert!(css.contains("left: 1.14em;"));

    req.only_icon = true;
    let css = input_style(&req).unwrap();
    assert!(css.contains("left: 0.77em;"));
    assert!(css.contains("padding: 0.7em 1.34em 0.7em 1.34em;"));
}

#[test]
fn button_synthesis_is_idempotent() {
    let mut req = request(GButtonStyle::Elevated);
    req.has_icon = true;
    req.dark_theame = true;
    let a = input_style(&req).unwrap();
    let b = input_style(&req).unwrap();
    assert_eq!(a, b);
}

#[test]
fn create_time_derivations() {
    assert!(only_icon_of(""));
    assert!(!only_icon_of("Sign In"));
    assert!(leading_icon_of(true, false));
    assert!(!leading_icon_of(true, true));
    assert!(!leading_icon_of(false, false));
}
