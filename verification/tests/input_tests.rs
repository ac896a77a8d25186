use yew_google_material::GInputStyle;
use yew_google_material::input_text::{GTextInputRequest, input_style};
use yew_google_material::{g_init_id, g_container_id};

fn request(style: GInputStyle) -> GTextInputRequest {
    GTextInputRequest {
        style,
        id: String::from("field1"),
        width: String::from("100%"),
        height: None,
        font_size: String::from("16px"),
        border_radius: String::from("4px"),
        border_color: String::from("grey"),
        border_color_hover: String::from("black"),
        border_focus_color: String::from("#6200ee"),
        label_background_color: String::from("white"),
        label_text_color: String::from("#aaa"),
        align_supporting_text: String::from("left"),
        supporting_text_color: None,
        no_asterisk: false,
        has_leading_icon: false,
        has_trailing_icon: false,
        no_spinner: None,
    }
}

#[test]
fn selector_naming() {
    assert_eq!(g_init_id("field1"), "g_init_field1");
    assert_eq!(g_container_id("field1"), "g_container_field1");
    let css = input_style(&request(GInputStyle::Outlined));
    assert!(css.contains("#g_init_field1 {"));
    assert!(css.contains("#g_container_field1 {"));
    assert!(css.contains("input#field1 {"));
    assert!(css.contains(".g_supporting_text_below_input_text_field {"));
}

#[test]
fn outlined_variant_keeps_label_background() {
    let css = input_style(&request(GInputStyle::Outlined));
    assert!(css.contains("border: 0.0625em solid;"));
    assert!(css.contains("border: 0.1875em solid;"));
    assert!(css.contains("background-color: unset;"));
    assert!(css.contains("background-color: white; "));
    assert!(css.contains("border-radius: 4px;"));
    assert!(css.contains("top: -0.55em;"));
    assert!(css.contains("left: 0.75em;"));
    assert!(!css.contains("#eeeeee"));
}

#[test]
fn filled_variant_forces_transparent_label() {
    let mut req = request(GInputStyle::Filled);
    req.label_background_color = String::from("yellow");
    let css = input_style(&req);
    // The caller-supplied label background never appears.
    assert!(!css.contains("yellow"));
    assert!(css.contains("background-color: transparent; "));
    assert!(css.contains("background-color: whitesmoke;"));
    assert!(css.contains("background-color: #eeeeee;"));
    assert!(css.contains("border: 0 none;"));
    assert!(css.contains("border-radius: 0;"));
    assert!(css.contains("top: 0.5em;"));
    assert!(css.contains("left: 1.125em;"));
    // The filled variant splits its padding unevenly for the shrunken label.
    assert!(css.contains("padding: 1.25em 0 0.5em 1em;"));
}

#[test]
fn default_height_offsets() {
    let css = input_style(&request(GInputStyle::Outlined));
    assert!(css.contains("height: 3.5em;"));
    assert!(css.contains("top: 1.1875em;"));
}

#[test]
fn explicit_height_scales_offsets() {
    let mut req = request(GInputStyle::Outlined);
    req.height = Some(String::from("7em"));
    req.has_leading_icon = true;
    let css = input_style(&req);
    assert!(css.contains("height: 7em;"));
    // 7 / 2.95 for the label, 7 / 3.5 for the icon, unit kept.
    assert!(css.contains("top: 2.372881em;"));
    assert!(css.contains("top: 2em;"));
}

#[test]
fn malformed_height_falls_back() {
    let mut req = request(GInputStyle::Outlined);
    req.height = Some(String::from("tall"));
    let css = input_style(&req);
    assert!(css.contains("height: tall;"));
    // The fallback 3.5em drives the offsets: 3.5 / 2.95 and 3.5 / 3.5.
    assert!(css.contains("top: 1.18644em;"));
}

#[test]
fn icon_flags_reserve_padding() {
    let mut req = request(GInputStyle::Outlined);
    req.has_leading_icon = true;
    req.has_trailing_icon = true;
    let css = input_style(&req);
    assert!(css.contains("padding: 1.1875em 2.75em 1.1875em 2.75em;"));
    assert!(css.contains("gicon.g_has_leading_icon"));
    assert!(css.contains("gicon.g_has_trailing_icon"));
    assert!(css.contains("left: 0.5625em;"));
    assert!(css.contains("right: 0.5625em;"));

    let css = input_style(&request(GInputStyle::Outlined));
    assert!(css.contains("padding: 1.1875em 0 1.1875em 1em;"));
    assert!(!css.contains("gicon"));
}

#[test]
fn no_asterisk_hides_floating_label() {
    let mut req = request(GInputStyle::Outlined);
    req.no_asterisk = true;
    let css = input_style(&req);
    assert!(css.contains("display: none;"));
    assert!(!css.contains("padding: 0 0.25em;"));

    let css = input_style(&request(GInputStyle::Outlined));
    assert!(css.contains("padding: 0 0.25em;"));
    assert!(!css.contains("display: none;"));
}

#[test]
fn spinner_suppression_is_opt_in() {
    let mut req = request(GInputStyle::Outlined);
    req.no_spinner = Some(true);
    let css = input_style(&req);
    assert!(css.contains("-webkit-appearance: none;"));
    assert!(css.contains("-moz-appearance:textfield;"));

    req.no_spinner = Some(false);
    assert!(!input_style(&req).contains("-webkit-appearance"));
    req.no_spinner = None;
    assert!(!input_style(&req).contains("-webkit-appearance"));
}

#[test]
fn supporting_text_color_is_optional() {
    let mut req = request(GInputStyle::Outlined);
    req.supporting_text_color = Some(String::from("red"));
    let css = input_style(&req);
    assert!(css.contains("color: red;"));
    assert!(css.contains("text-align: left;"));
}

#[test]
fn input_synthesis_is_idempotent() {
    let mut req = request(GInputStyle::Filled);
    req.height = Some(String::from("2.6em"));
    req.has_leading_icon = true;
    req.no_spinner = Some(true);
    let a = input_style(&req);
    let b = input_style(&req);
    assert_eq!(a, b);
}
