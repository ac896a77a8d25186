//! Stylesheet synthesis for text fields.
//!
//! From a text field's appearance request — variant, palette, dimensions
//! and flags — this produces the full instance-scoped CSS text: container
//! and wrapper rules, the input rule with its hover and focus states, the
//! floating label, the supporting text, optional icon overlays, the
//! floating-label transition (or its suppression), and an optional rule
//! that hides native numeric spinners.  Nothing here can fail: a malformed
//! height falls back to the documented default size.

use vstd::prelude::*;
use vstd::string::StrSliceExecFns;
use vstd::string::StringExecFns;

use crate::GInputStyle;
use crate::length::length_text;
use crate::length::parse_number_and_unit;
use crate::length::scaled;
use crate::length::spec_parse_mag;
use crate::length::spec_parse_neg;
use crate::length::spec_parse_unit;
use crate::length::spec_scaled_mag;
use crate::length::spec_text_of;

verus! {

/// Everything a text-field instance declares that affects its stylesheet.
pub struct GTextInputRequest {
    pub style: GInputStyle,
    /// The instance id; it scopes every selector.
    pub id: String,
    pub width: String,
    /// An explicit field height; label and icon offsets scale with it.
    pub height: Option<String>,
    pub font_size: String,
    pub border_radius: String,
    pub border_color: String,
    pub border_color_hover: String,
    pub border_focus_color: String,
    /// The label's background; the filled variant forces it transparent.
    pub label_background_color: String,
    pub label_text_color: String,
    pub align_supporting_text: String,
    pub supporting_text_color: Option<String>,
    /// Suppresses the floating-label transition: the label disappears
    /// instead of shrinking above the field.
    pub no_asterisk: bool,
    pub has_leading_icon: bool,
    pub has_trailing_icon: bool,
    /// `Some(true)` hides the native numeric up/down controls.
    pub no_spinner: Option<bool>,
}

/// The resting border of the field.
pub open spec fn spec_input_border(style: GInputStyle) -> Seq<char> {
    match style {
        GInputStyle::Outlined => "0.0625em solid"@,
        GInputStyle::Filled => "0 none"@,
    }
}

/// The border when focused or filled in.
pub open spec fn spec_border_onfocus(style: GInputStyle) -> Seq<char> {
    match style {
        GInputStyle::Outlined => "0.1875em solid"@,
        GInputStyle::Filled => "0 none"@,
    }
}

/// The bottom corner radius: the filled variant squares the bottom.
pub open spec fn spec_border_bottom_radius(style: GInputStyle, border_radius: Seq<char>) -> Seq<
    char,
> {
    match style {
        GInputStyle::Outlined => border_radius,
        GInputStyle::Filled => "0"@,
    }
}

/// The top padding: the filled variant leaves room for the shrunken label
/// unless the floating label is suppressed.
pub open spec fn spec_input_padding_top(style: GInputStyle, no_asterisk: bool) -> Seq<char> {
    match style {
        GInputStyle::Outlined => "1.1875em"@,
        GInputStyle::Filled => {
            if no_asterisk {
                "1.1875em"@
            } else {
                "1.25em"@
            }
        },
    }
}

/// The bottom padding, distributed to match the top.
pub open spec fn spec_input_padding_bottom(style: GInputStyle, no_asterisk: bool) -> Seq<char> {
    match style {
        GInputStyle::Outlined => "1.1875em"@,
        GInputStyle::Filled => {
            if no_asterisk {
                "1.1875em"@
            } else {
                "0.5em"@
            }
        },
    }
}

/// The field's background: transparent for outlined, tinted for filled.
pub open spec fn spec_input_background(style: GInputStyle) -> Seq<char> {
    match style {
        GInputStyle::Outlined => "unset"@,
        GInputStyle::Filled => "whitesmoke"@,
    }
}

/// The background override on focus (the filled tint darkens).
pub open spec fn spec_background_onfocus(style: GInputStyle) -> Seq<char> {
    match style {
        GInputStyle::Outlined => ""@,
        GInputStyle::Filled => "background-color: #eeeeee;"@,
    }
}

/// The background override on hover (same darkening as focus).
pub open spec fn spec_background_onhover(style: GInputStyle) -> Seq<char> {
    match style {
        GInputStyle::Outlined => ""@,
        GInputStyle::Filled => "background-color: #eeeeee;"@,
    }
}

/// The label background: the caller's color for outlined (the label cuts
/// into the border), forced transparent for filled.
pub open spec fn spec_label_background(style: GInputStyle, caller: Seq<char>) -> Seq<char> {
    match style {
        GInputStyle::Outlined => caller,
        GInputStyle::Filled => "transparent"@,
    }
}

/// The floated label's left position.
pub open spec fn spec_label_on_focus_left(style: GInputStyle, has_leading_icon: bool) -> Seq<
    char,
> {
    match style {
        GInputStyle::Outlined => "0.75em"@,
        GInputStyle::Filled => {
            if has_leading_icon {
                "3.5em"@
            } else {
                "1.125em"@
            }
        },
    }
}

/// The floated label's top position.
pub open spec fn spec_label_on_focus_top(style: GInputStyle) -> Seq<char> {
    match style {
        GInputStyle::Outlined => "-0.55em"@,
        GInputStyle::Filled => "0.5em"@,
    }
}

/// The input's left padding: a leading icon reserves room.
pub open spec fn spec_input_padding_left(has_leading_icon: bool) -> Seq<char> {
    if has_leading_icon {
        "2.75em"@
    } else {
        "1em"@
    }
}

/// The resting label's left position, clearing a leading icon.
pub open spec fn spec_label_left(has_leading_icon: bool) -> Seq<char> {
    if has_leading_icon {
        "2.75em"@
    } else {
        "1em"@
    }
}

/// The input's right padding: a trailing icon reserves room.
pub open spec fn spec_input_padding_right(has_trailing_icon: bool) -> Seq<char> {
    if has_trailing_icon {
        "2.75em"@
    } else {
        "0"@
    }
}

/// The optional color declaration of the supporting text.
pub open spec fn spec_supporting_color_frag(c: Option<String>) -> Seq<char> {
    match c {
        Some(v) => "color: "@ + v@ + ";"@,
        None => Seq::empty(),
    }
}

/// The field height text: the caller's literal, or `3.5em` by default.
pub open spec fn spec_height_text(height: Option<String>) -> Seq<char> {
    match height {
        Some(h) => h@,
        None => "3.5em"@,
    }
}

/// The resting label top offset: the default, or the parsed height divided
/// by 2.95 in its own unit, so a custom height keeps the label centered.
pub open spec fn spec_label_top_text(height: Option<String>) -> Seq<char> {
    match height {
        Some(h) => spec_text_of(
            spec_parse_neg(h@),
            spec_scaled_mag(spec_parse_mag(h@), 295),
            spec_parse_unit(h@),
        ),
        None => "1.1875em"@,
    }
}

/// The icon top offset: the default, or the parsed height divided by 3.5
/// in its own unit.
pub open spec fn spec_icon_top_text(height: Option<String>) -> Seq<char> {
    match height {
        Some(h) => spec_text_of(
            spec_parse_neg(h@),
            spec_scaled_mag(spec_parse_mag(h@), 350),
            spec_parse_unit(h@),
        ),
        None => "1em"@,
    }
}

/// The filled variant always forces the label background to transparent,
/// whatever label background color the caller supplied.
pub proof fn lemma_filled_label_background_transparent(caller: Seq<char>)
    ensures
        spec_label_background(GInputStyle::Filled, caller) == "transparent"@,
{
}

fn supporting_color_frag(c: &Option<String>) -> (r: String)
    ensures
        r@ == spec_supporting_color_frag(*c),
{
    match c {
        Some(v) => {
            let mut out = String::new();
            out.append("color: ");
            out.append(v.as_str());
            out.append(";");
            proof {
                assert(out@ =~= spec_supporting_color_frag(*c));
            }
            out
        },
        None => String::new(),
    }
}

/// The main stylesheet text, assembled from the already-resolved parts.
pub open spec fn spec_input_main_css(
    g_init: Seq<char>,
    font_size: Seq<char>,
    width: Seq<char>,
    g_container: Seq<char>,
    id: Seq<char>,
    height: Seq<char>,
    padding_top: Seq<char>,
    padding_right: Seq<char>,
    padding_bottom: Seq<char>,
    padding_left: Seq<char>,
    input_border: Seq<char>,
    border_color: Seq<char>,
    border_bottom_radius: Seq<char>,
    border_radius: Seq<char>,
    input_bg: Seq<char>,
    border_color_hover: Seq<char>,
    bg_onhover: Seq<char>,
    border_onfocus: Seq<char>,
    border_focus_color: Seq<char>,
    bg_onfocus: Seq<char>,
    label_top: Seq<char>,
    label_left: Seq<char>,
    label_bg: Seq<char>,
    label_text_color: Seq<char>,
    align_supporting_text: Seq<char>,
    supporting_color: Seq<char>,
) -> Seq<char> {
    "\n        #"@ + g_init + " {\n            font-size: "@ + font_size
        + "; \n            width: "@ + width
        + ";    \n            box-sizing: border-box;\n            width: 100%;\n        }\n\n        #"@
        + g_container
        + " {\n            width: 100%;\n            position: relative;\n            margin: 0.5em 0 0.2em;\n            padding: 0;\n        }\n        \n        input#"@
        + id + " {\n            width: 100%;\n            height: "@ + height
        + ";\n            padding: "@ + padding_top + " "@ + padding_right + " "@ + padding_bottom
        + " "@ + padding_left
        + ";\n            margin: 0;\n            transition: border 0.2s;\n            line-height: 1em;\n            border: "@
        + input_border + ";\n            border-bottom: 0.0625em solid;\n            border-color: "@
        + border_color + ";\n            border-radius: "@ + border_bottom_radius
        + ";\n            border-top-left-radius: "@ + border_radius
        + ";\n            border-top-right-radius: "@ + border_radius
        + ";\n            background-color: "@ + input_bg
        + ";\n            font-size: 1em;\n            box-sizing: border-box;\n            resize: vertical;\n        }\n\n        input#"@
        + id + ":hover {\n            border-color: "@ + border_color_hover + ";\n            "@
        + bg_onhover + "\n        }\n        \n        input#"@ + id + ":focus,\n        input#"@
        + id + ":not(:placeholder-shown) {\n            outline: none;\n            border: "@
        + border_onfocus + ";\n            border-bottom: 0.1875em solid;\n            border-color: "@
        + border_focus_color + ";\n            outline-color: "@ + border_focus_color
        + ";\n            overflow: hidden;\n            "@ + bg_onfocus
        + "\n        }\n\n        input#"@ + id + ":not(:focus) {\n            border: "@
        + input_border + ";\n            border-bottom: 0.0625em solid;\n            border-color: "@
        + border_color + ";\n        }\n        \n        #"@ + g_container
        + " > label {\n            position: absolute;\n            top: "@ + label_top
        + ";\n            left: "@ + label_left
        + ";\n            line-height: 1em;\n            background-color: "@ + label_bg
        + "; \n            padding: 0;\n            font-size: 1em;\n            color: "@
        + label_text_color
        + ";\n            transition: 0.2s;\n            pointer-events: none;\n        }\n\n        .g_supporting_text_below_input_text_field {\n            text-align: "@
        + align_supporting_text + ";\n            font-size: 0.75em;\n            width: calc("@
        + width + " - 2em);\n            margin: 0;\n            padding: 0 1em;\n            "@
        + supporting_color + "\n        }\n        "@
}

/// The leading-icon overlay rules.
pub open spec fn spec_leading_overlay(g_init: Seq<char>, icon_top: Seq<char>) -> Seq<char> {
    "\n        #"@ + g_init
        + " gicon.g_has_leading_icon {\n            display: block;\n            position: absolute;  \n            top: "@
        + icon_top
        + ";\n            left: 0.5625em;\n            pointer-events: none;\n        }\n\n        #"@
        + g_init
        + " gicon.g_has_leading_icon > div > span {\n            font-size: 1.5em !important;  \n        }\n        "@
}

/// The trailing-icon overlay rules.
pub open spec fn spec_trailing_overlay(g_init: Seq<char>, icon_top: Seq<char>) -> Seq<char> {
    "\n        #"@ + g_init
        + " gicon.g_has_trailing_icon {\n            display: block;\n            position: absolute;\n            top: "@
        + icon_top
        + ";\n            right: 0.5625em;\n            pointer-events: none;\n        }\n\n        #"@
        + g_init
        + " gicon.g_has_trailing_icon > div > span {\n            font-size: 1.5em !important;  \n        }\n        "@
}

/// The floating-label transition: focused or filled in, the label shrinks
/// and moves above the field.
pub open spec fn spec_float_label(
    id: Seq<char>,
    label_on_focus_top: Seq<char>,
    label_on_focus_left: Seq<char>,
    border_focus_color: Seq<char>,
    label_text_color: Seq<char>,
) -> Seq<char> {
    "\n        input#"@ + id + ":focus + label,\n        input#"@ + id
        + ":not(:placeholder-shown) + label {\n            padding: 0 0.25em;\n            line-height: 0.75em;\n            top: "@
        + label_on_focus_top + ";\n            left: "@ + label_on_focus_left
        + ";\n            font-size: 0.75em;\n            color: "@ + border_focus_color
        + ";\n        }\n\n        input#"@ + id + ":not(:focus) + label {\n            color: "@
        + label_text_color + ";\n        }\n        "@
}

/// The suppressed floating label: it disappears instead of floating.
pub open spec fn spec_float_label_hidden(id: Seq<char>) -> Seq<char> {
    "\n        input#"@ + id + ":focus + label,\n        input#"@ + id
        + ":not(:placeholder-shown) + label {\n            display: none;\n        }\n        "@
}

/// The rules hiding the native numeric up/down controls.
pub open spec fn spec_no_spinner(id: Seq<char>) -> Seq<char> {
    "\n            input#"@ + id + "::-webkit-outer-spin-button,\n            input#"@ + id
        + "::-webkit-inner-spin-button {\n                -webkit-appearance: none;\n                margin: 0; \n            }\n            \n            input#"@
        + id + "[type=number] {\n                -moz-appearance:textfield;\n            }\n            "@
}

/// The conditional tail of the stylesheet: icon overlays, the floating
/// label (or its suppression), and the spinner suppression.
pub open spec fn spec_input_extras(req: GTextInputRequest) -> Seq<char> {
    (if req.has_leading_icon {
        spec_leading_overlay(crate::spec_g_init_id(req.id@), spec_icon_top_text(req.height))
    } else {
        Seq::<char>::empty()
    }) + (if req.has_trailing_icon {
        spec_trailing_overlay(crate::spec_g_init_id(req.id@), spec_icon_top_text(req.height))
    } else {
        Seq::<char>::empty()
    }) + (if !req.no_asterisk {
        spec_float_label(
            req.id@,
            spec_label_on_focus_top(req.style),
            spec_label_on_focus_left(req.style, req.has_leading_icon),
            req.border_focus_color@,
            req.label_text_color@,
        )
    } else {
        spec_float_label_hidden(req.id@)
    }) + (if req.no_spinner is Some && req.no_spinner->0 {
        spec_no_spinner(req.id@)
    } else {
        Seq::<char>::empty()
    })
}

/// The whole stylesheet a text-field request resolves to.
pub open spec fn spec_input_css(req: GTextInputRequest) -> Seq<char> {
    spec_input_main_css(
        crate::spec_g_init_id(req.id@),
        req.font_size@,
        req.width@,
        crate::spec_g_container_id(req.id@),
        req.id@,
        spec_height_text(req.height),
        spec_input_padding_top(req.style, req.no_asterisk),
        spec_input_padding_right(req.has_trailing_icon),
        spec_input_padding_bottom(req.style, req.no_asterisk),
        spec_input_padding_left(req.has_leading_icon),
        spec_input_border(req.style),
        req.border_color@,
        spec_border_bottom_radius(req.style, req.border_radius@),
        req.border_radius@,
        spec_input_background(req.style),
        req.border_color_hover@,
        spec_background_onhover(req.style),
        spec_border_onfocus(req.style),
        req.border_focus_color@,
        spec_background_onfocus(req.style),
        spec_label_top_text(req.height),
        spec_label_left(req.has_leading_icon),
        spec_label_background(req.style, req.label_background_color@),
        req.label_text_color@,
        req.align_supporting_text@,
        spec_supporting_color_frag(req.supporting_text_color),
    ) + spec_input_extras(req)
}

#[verifier::rlimit(100)]
fn assemble_input_main(
    g_init: &str,
    font_size: &str,
    width: &str,
    g_container: &str,
    id: &str,
    height: &str,
    padding_top: &str,
    padding_right: &str,
    padding_bottom: &str,
    padding_left: &str,
    input_border: &str,
    border_color: &str,
    border_bottom_radius: &str,
    border_radius: &str,
    input_bg: &str,
    border_color_hover: &str,
    bg_onhover: &str,
    border_onfocus: &str,
    border_focus_color: &str,
    bg_onfocus: &str,
    label_top: &str,
    label_left: &str,
    label_bg: &str,
    label_text_color: &str,
    align_supporting_text: &str,
    supporting_color: &str,
) -> (r: String)
    ensures
        r@ == spec_input_main_css(
            g_init@,
            font_size@,
            width@,
            g_container@,
            id@,
            height@,
            padding_top@,
            padding_right@,
            padding_bottom@,
            padding_left@,
            input_border@,
            border_color@,
            border_bottom_radius@,
            border_radius@,
            input_bg@,
            border_color_hover@,
            bg_onhover@,
            border_onfocus@,
            border_focus_color@,
            bg_onfocus@,
            label_top@,
            label_left@,
            label_bg@,
            label_text_color@,
            align_supporting_text@,
            supporting_color@,
        ),
{
    let mut out = String::new();
    out.append("\n        #");
    out.append(g_init);
    out.append(" {\n            font-size: ");
    out.append(font_size);
    out.append("; \n            width: ");
    out.append(width);
    out.append(
        ";    \n            box-sizing: border-box;\n            width: 100%;\n        }\n\n        #",
    );
    out.append(g_container);
    out.append(
        " {\n            width: 100%;\n            position: relative;\n            margin: 0.5em 0 0.2em;\n            padding: 0;\n        }\n        \n        input#",
    );
    out.append(id);
    out.append(" {\n            width: 100%;\n            height: ");
    out.append(height);
    out.append(";\n            padding: ");
    out.append(padding_top);
    out.append(" ");
    out.append(padding_right);
    out.append(" ");
    out.append(padding_bottom);
    out.append(" ");
    out.append(padding_left);
    out.append(
        ";\n            margin: 0;\n            transition: border 0.2s;\n            line-height: 1em;\n            border: ",
    );
    out.append(input_border);
    out.append(";\n            border-bottom: 0.0625em solid;\n            border-color: ");
    out.append(border_color);
    out.append(";\n            border-radius: ");
    out.append(border_bottom_radius);
    out.append(";\n            border-top-left-radius: ");
    out.append(border_radius);
    out.append(";\n            border-top-right-radius: ");
    out.append(border_radius);
    out.append(";\n            background-color: ");
    out.append(input_bg);
    out.append(
        ";\n            font-size: 1em;\n            box-sizing: border-box;\n            resize: vertical;\n        }\n\n        input#",
    );
    out.append(id);
    out.append(":hover {\n            border-color: ");
    out.append(border_color_hover);
    out.append(";\n            ");
    out.append(bg_onhover);
    out.append("\n        }\n        \n        input#");
    out.append(id);
    out.append(":focus,\n        input#");
    out.append(id);
    out.append(":not(:placeholder-shown) {\n            outline: none;\n            border: ");
    out.append(border_onfocus);
    out.append(";\n            border-bottom: 0.1875em solid;\n            border-color: ");
    out.append(border_focus_color);
    out.append(";\n            outline-color: ");
    out.append(border_focus_color);
    out.append(";\n            overflow: hidden;\n            ");
    out.append(bg_onfocus);
    out.append("\n        }\n\n        input#");
    out.append(id);
    out.append(":not(:focus) {\n            border: ");
    out.append(input_border);
    out.append(";\n            border-bottom: 0.0625em solid;\n            border-color: ");
    out.append(border_color);
    out.append(";\n        }\n        \n        #");
    out.append(g_container);
    out.append(" > label {\n            position: absolute;\n            top: ");
    out.append(label_top);
    out.append(";\n            left: ");
    out.append(label_left);
    out.append(";\n            line-height: 1em;\n            background-color: ");
    out.append(label_bg);
    out.append("; \n            padding: 0;\n            font-size: 1em;\n            color: ");
    out.append(label_text_color);
    out.append(
        ";\n            transition: 0.2s;\n            pointer-events: none;\n        }\n\n        .g_supporting_text_below_input_text_field {\n            text-align: ",
    );
    out.append(align_supporting_text);
    out.append(";\n            font-size: 0.75em;\n            width: calc(");
    out.append(width);
    out.append(" - 2em);\n            margin: 0;\n            padding: 0 1em;\n            ");
    out.append(supporting_color);
    out.append("\n        }\n        ");
    proof {
        assert(out@ =~= spec_input_main_css(
            g_init@,
            font_size@,
            width@,
            g_container@,
            id@,
            height@,
            padding_top@,
            padding_right@,
            padding_bottom@,
            padding_left@,
            input_border@,
            border_color@,
            border_bottom_radius@,
            border_radius@,
            input_bg@,
            border_color_hover@,
            bg_onhover@,
            border_onfocus@,
            border_focus_color@,
            bg_onfocus@,
            label_top@,
            label_left@,
            label_bg@,
            label_text_color@,
            align_supporting_text@,
            supporting_color@,
        ));
    }
    out
}

fn push_leading_overlay(out: &mut String, g_init: &str, icon_top: &str)
    ensures
        final(out)@ == old(out)@ + spec_leading_overlay(g_init@, icon_top@),
{
    out.append("\n        #");
    out.append(g_init);
    out.append(
        " gicon.g_has_leading_icon {\n            display: block;\n            position: absolute;  \n            top: ",
    );
    out.append(icon_top);
    out.append(";\n            left: 0.5625em;\n            pointer-events: none;\n        }\n\n        #");
    out.append(g_init);
    out.append(
        " gicon.g_has_leading_icon > div > span {\n            font-size: 1.5em !important;  \n        }\n        ",
    );
    assert(out@ =~= old(out)@ + spec_leading_overlay(g_init@, icon_top@));
}

fn push_trailing_overlay(out: &mut String, g_init: &str, icon_top: &str)
    ensures
        final(out)@ == old(out)@ + spec_trailing_overlay(g_init@, icon_top@),
{
    out.append("\n        #");
    out.append(g_init);
    out.append(
        " gicon.g_has_trailing_icon {\n            display: block;\n            position: absolute;\n            top: ",
    );
    out.append(icon_top);
    out.append(";\n            right: 0.5625em;\n            pointer-events: none;\n        }\n\n        #");
    out.append(g_init);
    out.append(
        " gicon.g_has_trailing_icon > div > span {\n            font-size: 1.5em !important;  \n        }\n        ",
    );
    assert(out@ =~= old(out)@ + spec_trailing_overlay(g_init@, icon_top@));
}

fn push_float_label(
    out: &mut String,
    id: &str,
    label_on_focus_top: &str,
    label_on_focus_left: &str,
    border_focus_color: &str,
    label_text_color: &str,
)
    ensures
        final(out)@ == old(out)@ + spec_float_label(
            id@,
            label_on_focus_top@,
            label_on_focus_left@,
            border_focus_color@,
            label_text_color@,
        ),
{
    out.append("\n        input#");
    out.append(id);
    out.append(":focus + label,\n        input#");
    out.append(id);
    out.append(
        ":not(:placeholder-shown) + label {\n            padding: 0 0.25em;\n            line-height: 0.75em;\n            top: ",
    );
    out.append(label_on_focus_top);
    out.append(";\n            left: ");
    out.append(label_on_focus_left);
    out.append(";\n            font-size: 0.75em;\n            color: ");
    out.append(border_focus_color);
    out.append(";\n        }\n\n        input#");
    out.append(id);
    out.append(":not(:focus) + label {\n            color: ");
    out.append(label_text_color);
    out.append(";\n        }\n        ");
    assert(out@ =~= old(out)@ + spec_float_label(
        id@,
        label_on_focus_top@,
        label_on_focus_left@,
        border_focus_color@,
        label_text_color@,
    ));
}

fn push_float_label_hidden(out: &mut String, id: &str)
    ensures
        final(out)@ == old(out)@ + spec_float_label_hidden(id@),
{
    out.append("\n        input#");
    out.append(id);
    out.append(":focus + label,\n        input#");
    out.append(id);
    out.append(":not(:placeholder-shown) + label {\n            display: none;\n        }\n        ");
    assert(out@ =~= old(out)@ + spec_float_label_hidden(id@));
}

/// Appends the conditional tail: overlays, floating-label rule, spinner.
fn push_input_extras(
    out: &mut String,
    req: &GTextInputRequest,
    g_init: &str,
    icon_top: &str,
    label_on_focus_top: &str,
    label_on_focus_left: &str,
)
    requires
        g_init@ == crate::spec_g_init_id(req.id@),
        icon_top@ == spec_icon_top_text(req.height),
        label_on_focus_top@ == spec_label_on_focus_top(req.style),
        label_on_focus_left@ == spec_label_on_focus_left(req.style, req.has_leading_icon),
    ensures
        final(out)@ == old(out)@ + spec_input_extras(*req),
{
    if req.has_leading_icon {
        push_leading_overlay(out, g_init, icon_top);
    }
    if req.has_trailing_icon {
        push_trailing_overlay(out, g_init, icon_top);
    }
    if !req.no_asterisk {
        push_float_label(
            out,
            req.id.as_str(),
            label_on_focus_top,
            label_on_focus_left,
            req.border_focus_color.as_str(),
            req.label_text_color.as_str(),
        );
    } else {
        push_float_label_hidden(out, req.id.as_str());
    }
    let spin = match req.no_spinner {
        Some(b) => b,
        None => false,
    };
    if spin {
        push_no_spinner(out, req.id.as_str());
    }
    proof {
        assert(out@ =~= old(out)@ + spec_input_extras(*req));
    }
}

fn push_no_spinner(out: &mut String, id: &str)
    ensures
        final(out)@ == old(out)@ + spec_no_spinner(id@),
{
    out.append("\n            input#");
    out.append(id);
    out.append("::-webkit-outer-spin-button,\n            input#");
    out.append(id);
    out.append(
        "::-webkit-inner-spin-button {\n                -webkit-appearance: none;\n                margin: 0; \n            }\n            \n            input#",
    );
    out.append(id);
    out.append("[type=number] {\n                -moz-appearance:textfield;\n            }\n            ");
    assert(out@ =~= old(out)@ + spec_no_spinner(id@));
}

/// Produces the stylesheet text for a text-field request.
///
/// Synthesis cannot fail: an unparsable explicit height falls back to the
/// default `3.5em` proportions instead of aborting.
#[verifier::rlimit(100)]
pub fn input_style(req: &GTextInputRequest) -> (r: String)
    ensures
        r@ == spec_input_css(*req),
{
    let g_init = crate::g_init_id(req.id.as_str());
    let g_container = crate::g_container_id(req.id.as_str());

    // Height-driven proportional offsets.
    let height_text: String;
    let label_top: String;
    let icon_top: String;
    match &req.height {
        None => {
            height_text = String::from_str("3.5em");
            label_top = String::from_str("1.1875em");
            icon_top = String::from_str("1em");
        },
        Some(h) => {
            let lv = parse_number_and_unit(h.as_str());
            proof {
                assert(lv.neg == spec_parse_neg(h@));
                assert(lv.mag_micro == spec_parse_mag(h@));
                assert(lv.unit@ == spec_parse_unit(h@));
            }
            let lt = scaled(&lv, 295);
            let it = scaled(&lv, 350);
            label_top = length_text(&lt);
            icon_top = length_text(&it);
            height_text = h.clone();
        },
    }

    let padding_top = match req.style {
        GInputStyle::Outlined => "1.1875em",
        GInputStyle::Filled => {
            if req.no_asterisk {
                "1.1875em"
            } else {
                "1.25em"
            }
        },
    };
    let padding_bottom = match req.style {
        GInputStyle::Outlined => "1.1875em",
        GInputStyle::Filled => {
            if req.no_asterisk {
                "1.1875em"
            } else {
                "0.5em"
            }
        },
    };
    let padding_left = if req.has_leading_icon {
        "2.75em"
    } else {
        "1em"
    };
    let padding_right = if req.has_trailing_icon {
        "2.75em"
    } else {
        "0"
    };
    let input_border = match req.style {
        GInputStyle::Outlined => "0.0625em solid",
        GInputStyle::Filled => "0 none",
    };
    let border_onfocus = match req.style {
        GInputStyle::Outlined => "0.1875em solid",
        GInputStyle::Filled => "0 none",
    };
    let border_bottom_radius: &str = match req.style {
        GInputStyle::Outlined => req.border_radius.as_str(),
        GInputStyle::Filled => "0",
    };
    let input_bg = match req.style {
        GInputStyle::Outlined => "unset",
        GInputStyle::Filled => "whitesmoke",
    };
    let bg_onfocus = match req.style {
        GInputStyle::Outlined => "",
        GInputStyle::Filled => "background-color: #eeeeee;",
    };
    let bg_onhover = match req.style {
        GInputStyle::Outlined => "",
        GInputStyle::Filled => "background-color: #eeeeee;",
    };
    let label_bg: &str = match req.style {
        GInputStyle::Outlined => req.label_background_color.as_str(),
        GInputStyle::Filled => "transparent",
    };
    let label_on_focus_left = match req.style {
        GInputStyle::Outlined => "0.75em",
        GInputStyle::Filled => {
            if req.has_leading_icon {
                "3.5em"
            } else {
                "1.125em"
            }
        },
    };
    let label_on_focus_top = match req.style {
        GInputStyle::Outlined => "-0.55em",
        GInputStyle::Filled => "0.5em",
    };
    let supporting_color = supporting_color_frag(&req.supporting_text_color);

    let mut out = assemble_input_main(
        g_init.as_str(),
        req.font_size.as_str(),
        req.width.as_str(),
        g_container.as_str(),
        req.id.as_str(),
        height_text.as_str(),
        padding_top,
        padding_right,
        padding_bottom,
        padding_left,
        input_border,
        req.border_color.as_str(),
        border_bottom_radius,
        req.border_radius.as_str(),
        input_bg,
        req.border_color_hover.as_str(),
        bg_onhover,
        border_onfocus,
        req.border_focus_color.as_str(),
        bg_onfocus,
        label_top.as_str(),
        padding_left,
        label_bg,
        req.label_text_color.as_str(),
        req.align_supporting_text.as_str(),
        supporting_color.as_str(),
    );
    push_input_extras(
        &mut out,
        req,
        g_init.as_str(),
        icon_top.as_str(),
        label_on_focus_top,
        label_on_focus_left,
    );
    proof {
        assert(height_text@ == spec_height_text(req.height));
        assert(label_top@ == spec_label_top_text(req.height));
        assert(icon_top@ == spec_icon_top_text(req.height));
        assert(padding_top@ == spec_input_padding_top(req.style, req.no_asterisk));
        assert(padding_bottom@ == spec_input_padding_bottom(req.style, req.no_asterisk));
        assert(padding_left@ == spec_input_padding_left(req.has_leading_icon));
        assert(padding_left@ == spec_label_left(req.has_leading_icon));
        assert(padding_right@ == spec_input_padding_right(req.has_trailing_icon));
        assert(input_border@ == spec_input_border(req.style));
        assert(border_onfocus@ == spec_border_onfocus(req.style));
        assert(border_bottom_radius@ == spec_border_bottom_radius(req.style, req.border_radius@));
        assert(input_bg@ == spec_input_background(req.style));
        assert(bg_onfocus@ == spec_background_onfocus(req.style));
        assert(bg_onhover@ == spec_background_onhover(req.style));
        assert(label_bg@ == spec_label_background(req.style, req.label_background_color@));
        assert(out@ == spec_input_css(*req));
    }
    out
}

/// Synthesis is a pure function of the request: two requests that agree on
/// every field the stylesheet reads resolve to identical text.
pub proof fn lemma_input_css_deterministic(r1: GTextInputRequest, r2: GTextInputRequest)
    requires
        r1.style == r2.style,
        r1.id@ == r2.id@,
        r1.width@ == r2.width@,
        (r1.height is Some <==> r2.height is Some),
        r1.height is Some ==> r1.height->0@ == r2.height->0@,
        r1.font_size@ == r2.font_size@,
        r1.border_radius@ == r2.border_radius@,
        r1.border_color@ == r2.border_color@,
        r1.border_color_hover@ == r2.border_color_hover@,
        r1.border_focus_color@ == r2.border_focus_color@,
        r1.label_background_color@ == r2.label_background_color@,
        r1.label_text_color@ == r2.label_text_color@,
        r1.align_supporting_text@ == r2.align_supporting_text@,
        (r1.supporting_text_color is Some <==> r2.supporting_text_color is Some),
        r1.supporting_text_color is Some ==> r1.supporting_text_color->0@
            == r2.supporting_text_color->0@,
        r1.no_asterisk == r2.no_asterisk,
        r1.has_leading_icon == r2.has_leading_icon,
        r1.has_trailing_icon == r2.has_trailing_icon,
        r1.no_spinner == r2.no_spinner,
    ensures
        spec_input_css(r1) == spec_input_css(r2),
{
}

} // verus!
