use yew_google_material::GIconStyle;
use yew_google_material::icons::{GIconRequest, GIconError, icon_style_text};

fn request() -> GIconRequest {
    GIconRequest {
        icon_style: GIconStyle::Outlined,
        fill: false,
        wght: String::from("300"),
        grade: String::from("100"),
        opsz: String::from("24"),
        color: String::from("inherit"),
        size: String::from("24px"),
        transition: String::from("unset"),
    }
}

#[test]
fn weight_bounds_are_inclusive() {
    let mut req = request();
    req.wght = String::from("99");
    assert_eq!(icon_style_text(&req).unwrap_err(), GIconError::Wght);
    req.wght = String::from("100");
    assert!(icon_style_text(&req).is_ok());
    req.wght = String::from("700");
    assert!(icon_style_text(&req).is_ok());
    req.wght = String::from("701");
    assert_eq!(icon_style_text(&req).unwrap_err(), GIconError::Wght);
    req.wght = String::from("bold");
    assert_eq!(icon_style_text(&req).unwrap_err(), GIconError::Wght);
}

#[test]
fn grade_bounds_are_inclusive() {
    let mut req = request();
    req.grade = String::from("-51");
    assert_eq!(icon_style_text(&req).unwrap_err(), GIconError::Grade);
    req.grade = String::from("-50");
    assert!(icon_style_text(&req).is_ok());
    req.grade = String::from("200");
    assert!(icon_style_text(&req).is_ok());
    req.grade = String::from("201");
    assert_eq!(icon_style_text(&req).unwrap_err(), GIconError::Grade);
}

#[test]
fn optical_size_bounds_are_inclusive() {
    let mut req = request();
    req.opsz = String::from("49");
    assert_eq!(icon_style_text(&req).unwrap_err(), GIconError::Opsz);
    req.opsz = String::from("48");
    assert!(icon_style_text(&req).is_ok());
    req.opsz = String::from("20");
    assert!(icon_style_text(&req).is_ok());
    req.opsz = String::from("19");
    assert_eq!(icon_style_text(&req).unwrap_err(), GIconError::Opsz);
}

#[test]
fn first_failing_axis_wins() {
    let mut req = request();
    req.wght = String::from("0");
    req.grade = String::from("999");
    req.opsz = String::from("0");
    assert_eq!(icon_style_text(&req).unwrap_err(), GIconError::Wght);
    req.wght = String::from("400");
    assert_eq!(icon_style_text(&req).unwrap_err(), GIconError::Grade);
    req.grade = String::from("0");
    assert_eq!(icon_style_text(&req).unwrap_err(), GIconError::Opsz);
}

#[test]
fn error_messages_match() {
    assert_eq!(GIconError::Wght.message(), "Wrong Google Material Icon wght setting");
    assert_eq!(GIconError::Grade.message(), "Wrong Google Material Icon grade setting");
    assert_eq!(GIconError::Opsz.message(), "Wrong Google Material Icon opsz setting");
}

#[test]
fn style_selects_font_class() {
    let mut req = request();
    let css = icon_style_text(&req).unwrap();
    assert!(css.contains(".material-symbols-outlined {"));
    req.icon_style = GIconStyle::Rounded;
    assert!(icon_style_text(&req).unwrap().contains(".material-symbols-rounded {"));
    req.icon_style = GIconStyle::Sharp;
    assert!(icon_style_text(&req).unwrap().contains(".material-symbols-sharp {"));
}

#[test]
fn axes_render_as_parsed_values() {
    let mut req = request();
    req.fill = true;
    req.wght = String::from("+0400");
    req.grade = String::from("-50");
    req.opsz = String::from("048");
    let css = icon_style_text(&req).unwrap();
    assert!(css.contains("'FILL' 1,"));
    assert!(css.contains("'wght' 400,"));
    assert!(css.contains("'GRAD' -50,"));
    assert!(css.contains("'opsz' 48"));
}

#[test]
fn whole_icon_rule_text() {
    let css = icon_style_text(&request()).unwrap();
    let expected = "\n            .material-symbols-outlined {\
                    \n                display: block;\
                    \n                transition: unset;\
                    \n                color: inherit;\
                    \n                font-size: 24px;\
                    \n                font-variation-settings:\
                    \n                'FILL' 0,\
                    \n                'wght' 300,\
                    \n                'GRAD' 100,\
                    \n                'opsz' 24\
                    \n                }\n        ";
    assert_eq!(css, expected);
}
