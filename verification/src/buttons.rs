//! Stylesheet synthesis for buttons.
//!
//! From a button's appearance request — variant, palette, dimensions and
//! state flags — this produces the full instance-scoped CSS text: the root
//! wrapper rule, the button rule, hover/focus and active rules, the ripple
//! span rule, the ripple keyframes, and an optional icon overlay.  The only
//! failure is an unrecognized background color literal.

use vstd::prelude::*;
use vstd::string::StrSliceExecFns;
use vstd::string::StringExecFns;

use crate::GButtonStyle;
use crate::color::ColorParseError;
use crate::color::ColorValue;
use crate::color::color_hex_text;
use crate::color::parse_css_color;
use crate::color::spec_color_hex_text;
use crate::color::spec_css_color;
use crate::color::spec_fade;
use crate::color::spec_hover_background;
use crate::color::spec_is_light;

verus! {

/// Everything a button instance declares that affects its stylesheet.
pub struct GButtonRequest {
    pub style: GButtonStyle,
    /// The instance id; it scopes every selector.
    pub id: String,
    /// True when the button shows only an icon and no label.
    pub only_icon: bool,
    pub font_size: String,
    pub height: String,
    pub width: Option<String>,
    pub background_color: String,
    /// The label text color; a disabled button overrides it.
    pub label_color: String,
    pub outlined_border_color: Option<String>,
    pub border_radius: String,
    pub disabled: bool,
    pub has_icon: bool,
    pub trailing_icon: bool,
    pub dark_theame: bool,
}

/// Whether the button shows only an icon: it has no label text.
pub fn only_icon_of(label: &str) -> (r: bool)
    ensures
        r == (label@.len() == 0),
{
    label.is_empty()
}

/// Whether the icon leads: there is one and it does not trail.
pub fn leading_icon_of(has_icon: bool, trailing_icon: bool) -> (r: bool)
    ensures
        r == (has_icon && !trailing_icon),
{
    has_icon && !trailing_icon
}

/// The left padding of the button text.
pub open spec fn spec_padding_left(has_icon: bool, only_icon: bool, trailing_icon: bool) -> Seq<
    char,
> {
    if has_icon && !only_icon {
        if trailing_icon {
            "1.71em"@
        } else {
            "3em"@
        }
    } else if !only_icon {
        "1.71em"@
    } else {
        "1.34em"@
    }
}

/// The right padding of the button text.
pub open spec fn spec_padding_right(has_icon: bool, only_icon: bool, trailing_icon: bool) -> Seq<
    char,
> {
    if has_icon && !only_icon {
        if trailing_icon {
            "3em"@
        } else {
            "1.71em"@
        }
    } else if !only_icon {
        "1.71em"@
    } else {
        "1.34em"@
    }
}

/// The horizontal offset that centers the icon overlay.
pub open spec fn spec_icon_align(only_icon: bool) -> Seq<char> {
    if only_icon {
        "0.77em"@
    } else {
        "1.14em"@
    }
}

/// The padding policy: a wide side of 3em clears a leading or trailing
/// icon, an icon-only button tightens both sides, and the icon-centering
/// offset follows.  Returns (left, right, icon alignment).
pub fn button_padding(has_icon: bool, only_icon: bool, trailing_icon: bool) -> (r: (
    &'static str,
    &'static str,
    &'static str,
))
    ensures
        r.0@ == spec_padding_left(has_icon, only_icon, trailing_icon),
        r.1@ == spec_padding_right(has_icon, only_icon, trailing_icon),
        r.2@ == spec_icon_align(only_icon),
{
    if has_icon && !only_icon {
        if trailing_icon {
            ("1.71em", "3em", "1.14em")
        } else {
            ("3em", "1.71em", "1.14em")
        }
    } else if !only_icon {
        ("1.71em", "1.71em", "1.14em")
    } else {
        ("1.34em", "1.34em", "0.77em")
    }
}

/// The shadow base channel: white in the dark theme, else black.
pub open spec fn spec_bsc(dark_theame: bool) -> Seq<char> {
    if dark_theame {
        "255"@
    } else {
        "0"@
    }
}

/// The shadow base channel text.
fn bsc_str(dark_theame: bool) -> (r: &'static str)
    ensures
        r@ == spec_bsc(dark_theame),
{
    if dark_theame {
        "255"
    } else {
        "0"
    }
}

/// The deep two-layer shadow (an elevated button's hover state).
pub open spec fn spec_shadow_deep(dark_theame: bool) -> Seq<char> {
    "box-shadow: 0 3px 6px rgba("@ + spec_bsc(dark_theame) + ","@ + spec_bsc(dark_theame) + ","@
        + spec_bsc(dark_theame) + ",0.16), 0 3px 6px rgba("@ + spec_bsc(dark_theame) + ","@
        + spec_bsc(dark_theame) + ","@ + spec_bsc(dark_theame) + ",0.23);"@
}

/// The light two-layer shadow (an elevated button at rest and when active,
/// a filled button's hover state).
pub open spec fn spec_shadow_low(dark_theame: bool) -> Seq<char> {
    "box-shadow: 0 2px 4px rgba("@ + spec_bsc(dark_theame) + ","@ + spec_bsc(dark_theame) + ","@
        + spec_bsc(dark_theame) + ",0.12), 0 1px 3px rgba("@ + spec_bsc(dark_theame) + ","@
        + spec_bsc(dark_theame) + ","@ + spec_bsc(dark_theame) + ",0.24);"@
}

/// The vanished shadow (a filled button when active).
pub open spec fn spec_shadow_none(dark_theame: bool) -> Seq<char> {
    "box-shadow: 0 0 0 rgba("@ + spec_bsc(dark_theame) + ","@ + spec_bsc(dark_theame) + ","@
        + spec_bsc(dark_theame) + ",0.0);"@
}

fn shadow_deep(dark_theame: bool) -> (r: String)
    ensures
        r@ == spec_shadow_deep(dark_theame),
{
    let b = bsc_str(dark_theame);
    let mut out = String::new();
    out.append("box-shadow: 0 3px 6px rgba(");
    out.append(b);
    out.append(",");
    out.append(b);
    out.append(",");
    out.append(b);
    out.append(",0.16), 0 3px 6px rgba(");
    out.append(b);
    out.append(",");
    out.append(b);
    out.append(",");
    out.append(b);
    out.append(",0.23);");
    proof {
        assert(out@ =~= spec_shadow_deep(dark_theame));
    }
    out
}

fn shadow_low(dark_theame: bool) -> (r: String)
    ensures
        r@ == spec_shadow_low(dark_theame),
{
    let b = bsc_str(dark_theame);
    let mut out = String::new();
    out.append("box-shadow: 0 2px 4px rgba(");
    out.append(b);
    out.append(",");
    out.append(b);
    out.append(",");
    out.append(b);
    out.append(",0.12), 0 1px 3px rgba(");
    out.append(b);
    out.append(",");
    out.append(b);
    out.append(",");
    out.append(b);
    out.append(",0.24);");
    proof {
        assert(out@ =~= spec_shadow_low(dark_theame));
    }
    out
}

fn shadow_none(dark_theame: bool) -> (r: String)
    ensures
        r@ == spec_shadow_none(dark_theame),
{
    let b = bsc_str(dark_theame);
    let mut out = String::new();
    out.append("box-shadow: 0 0 0 rgba(");
    out.append(b);
    out.append(",");
    out.append(b);
    out.append(",");
    out.append(b);
    out.append(",0.0);");
    proof {
        assert(out@ =~= spec_shadow_none(dark_theame));
    }
    out
}

/// The ripple animation's base color: black over a light background,
/// white over a dark one.
pub open spec fn spec_ripple_base(bg: ColorValue) -> ColorValue {
    if spec_is_light(bg) {
        ColorValue { red: 0, green: 0, blue: 0, alpha_milli: 1000 }
    } else {
        ColorValue { red: 255, green: 255, blue: 255, alpha_milli: 1000 }
    }
}

/// A `background-color` declaration for a given color.
pub open spec fn spec_bg_decl(c: ColorValue) -> Seq<char> {
    "background-color: "@ + spec_color_hex_text(c) + ";"@
}

fn bg_decl(c: &ColorValue) -> (r: String)
    requires
        c.wf(),
    ensures
        r@ == spec_bg_decl(*c),
{
    let mut out = String::new();
    out.append("background-color: ");
    let hex = color_hex_text(c);
    out.append(hex.as_str());
    out.append(";");
    proof {
        assert(out@ =~= spec_bg_decl(*c));
    }
    out
}

/// The button's resting `background-color` declaration: the palette color,
/// the fixed translucent neutral when disabled, none ("unset") for the
/// outlined and text variants.
pub open spec fn spec_background_frag(style: GButtonStyle, disabled: bool, bg: ColorValue) -> Seq<
    char,
> {
    match style {
        GButtonStyle::Elevated | GButtonStyle::Filled => {
            if !disabled {
                spec_bg_decl(bg)
            } else {
                "background-color: rgba(29, 27, 32, 0.12);"@
            }
        },
        GButtonStyle::Outlined | GButtonStyle::Text => "background-color: unset;"@,
    }
}

/// The hover/focus `background-color` declaration: the contrast-derived
/// hover color for filled looks, a translucent wash of the palette color
/// for the outlined and text variants, nothing when disabled.
pub open spec fn spec_hover_bg_frag(style: GButtonStyle, disabled: bool, bg: ColorValue) -> Seq<
    char,
> {
    if disabled {
        Seq::empty()
    } else {
        match style {
            GButtonStyle::Elevated | GButtonStyle::Filled => spec_bg_decl(
                spec_hover_background(bg),
            ),
            GButtonStyle::Outlined | GButtonStyle::Text => spec_bg_decl(spec_fade(bg, 100)),
        }
    }
}

/// The hover/focus shadow: deep for elevated, low for filled, none else.
pub open spec fn spec_hover_shadow_frag(
    style: GButtonStyle,
    disabled: bool,
    dark_theame: bool,
) -> Seq<char> {
    if disabled {
        Seq::empty()
    } else {
        match style {
            GButtonStyle::Elevated => spec_shadow_deep(dark_theame),
            GButtonStyle::Filled => spec_shadow_low(dark_theame),
            GButtonStyle::Outlined | GButtonStyle::Text => Seq::empty(),
        }
    }
}

/// The resting/active shadow: low for elevated, vanished for filled.
pub open spec fn spec_active_shadow_frag(
    style: GButtonStyle,
    disabled: bool,
    dark_theame: bool,
) -> Seq<char> {
    if disabled {
        Seq::empty()
    } else {
        match style {
            GButtonStyle::Elevated => spec_shadow_low(dark_theame),
            GButtonStyle::Filled => spec_shadow_none(dark_theame),
            GButtonStyle::Outlined | GButtonStyle::Text => Seq::empty(),
        }
    }
}

/// The ripple's starting color stop: the ripple base at a tenth of
/// opacity for filled looks, the palette color at a tenth for the others.
pub open spec fn spec_ripple_from_frag(style: GButtonStyle, disabled: bool, bg: ColorValue) -> Seq<
    char,
> {
    if disabled {
        Seq::empty()
    } else {
        match style {
            GButtonStyle::Elevated | GButtonStyle::Filled => spec_bg_decl(
                spec_fade(spec_ripple_base(bg), 100),
            ),
            GButtonStyle::Outlined | GButtonStyle::Text => spec_bg_decl(spec_fade(bg, 100)),
        }
    }
}

/// The ripple's ending color stop: the same base at three tenths.
pub open spec fn spec_ripple_to_frag(style: GButtonStyle, disabled: bool, bg: ColorValue) -> Seq<
    char,
> {
    if disabled {
        Seq::empty()
    } else {
        match style {
            GButtonStyle::Elevated | GButtonStyle::Filled => spec_bg_decl(
                spec_fade(spec_ripple_base(bg), 300),
            ),
            GButtonStyle::Outlined | GButtonStyle::Text => spec_bg_decl(spec_fade(bg, 300)),
        }
    }
}

/// The border declaration: only the outlined variant draws one, in the
/// caller's color or the fixed default, and in the translucent neutral
/// when disabled.
pub open spec fn spec_border_frag(
    style: GButtonStyle,
    disabled: bool,
    outlined_border_color: Option<String>,
) -> Seq<char> {
    match style {
        GButtonStyle::Outlined => {
            if !disabled {
                match outlined_border_color {
                    Some(c) => "border: 0.0714em solid "@ + c@ + ";"@,
                    None => "border: 0.0714em solid #79747E;"@,
                }
            } else {
                "border: 0.0714em solid rgba(29, 27, 32, 0.12);"@
            }
        },
        GButtonStyle::Elevated | GButtonStyle::Filled | GButtonStyle::Text => Seq::empty(),
    }
}

/// The label color: forced to the fixed neutral when disabled.
pub open spec fn spec_text_color_frag(disabled: bool, label_color: Seq<char>) -> Seq<char> {
    if disabled {
        "rgba(29, 27, 32, 0.38)"@
    } else {
        label_color
    }
}

/// The optional width declaration.
pub open spec fn spec_width_frag(width: Option<String>) -> Seq<char> {
    match width {
        Some(w) => "width: "@ + w@ + ";"@,
        None => Seq::empty(),
    }
}

fn width_frag(width: &Option<String>) -> (r: String)
    ensures
        r@ == spec_width_frag(*width),
{
    match width {
        Some(w) => {
            let mut out = String::new();
            out.append("width: ");
            out.append(w.as_str());
            out.append(";");
            proof {
                assert(out@ =~= spec_width_frag(*width));
            }
            out
        },
        None => String::new(),
    }
}

fn background_frag(style: &GButtonStyle, disabled: bool, bg: &ColorValue) -> (r: String)
    requires
        bg.wf(),
    ensures
        r@ == spec_background_frag(*style, disabled, *bg),
{
    match style {
        GButtonStyle::Elevated | GButtonStyle::Filled => {
            if !disabled {
                bg_decl(bg)
            } else {
                String::from_str("background-color: rgba(29, 27, 32, 0.12);")
            }
        },
        GButtonStyle::Outlined | GButtonStyle::Text => String::from_str(
            "background-color: unset;",
        ),
    }
}

fn hover_bg_frag(style: &GButtonStyle, disabled: bool, bg: &ColorValue) -> (r: String)
    requires
        bg.wf(),
    ensures
        r@ == spec_hover_bg_frag(*style, disabled, *bg),
{
    if disabled {
        String::new()
    } else {
        match style {
            GButtonStyle::Elevated | GButtonStyle::Filled => {
                let hover = bg.hover_background();
                bg_decl(&hover)
            },
            GButtonStyle::Outlined | GButtonStyle::Text => {
                let washed = bg.fade(100);
                bg_decl(&washed)
            },
        }
    }
}

fn hover_shadow_frag(style: &GButtonStyle, disabled: bool, dark_theame: bool) -> (r: String)
    ensures
        r@ == spec_hover_shadow_frag(*style, disabled, dark_theame),
{
    if disabled {
        String::new()
    } else {
        match style {
            GButtonStyle::Elevated => shadow_deep(dark_theame),
            GButtonStyle::Filled => shadow_low(dark_theame),
            GButtonStyle::Outlined | GButtonStyle::Text => String::new(),
        }
    }
}

fn active_shadow_frag(style: &GButtonStyle, disabled: bool, dark_theame: bool) -> (r: String)
    ensures
        r@ == spec_active_shadow_frag(*style, disabled, dark_theame),
{
    if disabled {
        String::new()
    } else {
        match style {
            GButtonStyle::Elevated => shadow_low(dark_theame),
            GButtonStyle::Filled => shadow_none(dark_theame),
            GButtonStyle::Outlined | GButtonStyle::Text => String::new(),
        }
    }
}

fn ripple_base(bg: &ColorValue) -> (r: ColorValue)
    ensures
        r == spec_ripple_base(*bg),
        r.wf(),
{
    if bg.is_light() {
        ColorValue { red: 0, green: 0, blue: 0, alpha_milli: 1000 }
    } else {
        ColorValue { red: 255, green: 255, blue: 255, alpha_milli: 1000 }
    }
}

fn ripple_from_frag(style: &GButtonStyle, disabled: bool, bg: &ColorValue) -> (r: String)
    requires
        bg.wf(),
    ensures
        r@ == spec_ripple_from_frag(*style, disabled, *bg),
{
    if disabled {
        String::new()
    } else {
        match style {
            GButtonStyle::Elevated | GButtonStyle::Filled => {
                let base = ripple_base(bg);
                let faded = base.fade(100);
                bg_decl(&faded)
            },
            GButtonStyle::Outlined | GButtonStyle::Text => {
                let faded = bg.fade(100);
                bg_decl(&faded)
            },
        }
    }
}

fn ripple_to_frag(style: &GButtonStyle, disabled: bool, bg: &ColorValue) -> (r: String)
    requires
        bg.wf(),
    ensures
        r@ == spec_ripple_to_frag(*style, disabled, *bg),
{
    if disabled {
        String::new()
    } else {
        match style {
            GButtonStyle::Elevated | GButtonStyle::Filled => {
                let base = ripple_base(bg);
                let faded = base.fade(300);
                bg_decl(&faded)
            },
            GButtonStyle::Outlined | GButtonStyle::Text => {
                let faded = bg.fade(300);
                bg_decl(&faded)
            },
        }
    }
}

fn border_frag(
    style: &GButtonStyle,
    disabled: bool,
    outlined_border_color: &Option<String>,
) -> (r: String)
    ensures
        r@ == spec_border_frag(*style, disabled, *outlined_border_color),
{
    match style {
        GButtonStyle::Outlined => {
            if !disabled {
                match outlined_border_color {
                    Some(c) => {
                        let mut out = String::new();
                        out.append("border: 0.0714em solid ");
                        out.append(c.as_str());
                        out.append(";");
                        proof {
                            assert(out@ =~= spec_border_frag(
                                *style,
                                disabled,
                                *outlined_border_color,
                            ));
                        }
                        out
                    },
                    None => String::from_str("border: 0.0714em solid #79747E;"),
                }
            } else {
                String::from_str("border: 0.0714em solid rgba(29, 27, 32, 0.12);")
            }
        },
        GButtonStyle::Elevated | GButtonStyle::Filled | GButtonStyle::Text => String::new(),
    }
}

fn text_color_frag(disabled: bool, label_color: &String) -> (r: String)
    ensures
        r@ == spec_text_color_frag(disabled, label_color@),
{
    if disabled {
        String::from_str("rgba(29, 27, 32, 0.38)")
    } else {
        label_color.clone()
    }
}

/// The icon overlay rules: the overlay is absolutely positioned, vertically
/// centered, offset by the icon alignment on the trailing or leading side.
pub open spec fn spec_icon_overlay(
    g_init: Seq<char>,
    trailing_icon: bool,
    icon_align: Seq<char>,
) -> Seq<char> {
    if trailing_icon {
        "\n            #"@ + g_init
            + " gicon.g_has_trailing_icon {\n                display: block;\n                position: absolute;\n                top: 50%;\n                transform: translateY(-50%);\n                right: "@
            + icon_align + ";\n                pointer-events: none;\n            }\n    \n            #"@
            + g_init
            + " gicon.g_has_trailing_icon > div > span {\n                font-size: 1.29em !important;  \n                color: inherit !important;\n            }\n            "@
    } else {
        "\n            #"@ + g_init
            + " gicon.g_has_leading_icon {\n                display: block;\n                position: absolute;  \n                top: 50%;\n                transform: translateY(-50%);\n                left: "@
            + icon_align + ";\n                pointer-events: none;\n            }\n    \n            #"@
            + g_init
            + " gicon.g_has_leading_icon > div > span {\n                font-size: 1.29em !important;  \n                color: inherit !important;\n            }\n            "@
    }
}

fn push_icon_overlay(out: &mut String, g_init: &str, trailing_icon: bool, icon_align: &str)
    ensures
        final(out)@ == old(out)@ + spec_icon_overlay(g_init@, trailing_icon, icon_align@),
{
    if trailing_icon {
        out.append("\n            #");
        out.append(g_init);
        out.append(
            " gicon.g_has_trailing_icon {\n                display: block;\n                position: absolute;\n                top: 50%;\n                transform: translateY(-50%);\n                right: ",
        );
        out.append(icon_align);
        out.append(";\n                pointer-events: none;\n            }\n    \n            #");
        out.append(g_init);
        out.append(
            " gicon.g_has_trailing_icon > div > span {\n                font-size: 1.29em !important;  \n                color: inherit !important;\n            }\n            ",
        );
        assert(out@ =~= old(out)@ + spec_icon_overlay(g_init@, trailing_icon, icon_align@));
    } else {
        out.append("\n            #");
        out.append(g_init);
        out.append(
            " gicon.g_has_leading_icon {\n                display: block;\n                position: absolute;  \n                top: 50%;\n                transform: translateY(-50%);\n                left: ",
        );
        out.append(icon_align);
        out.append(";\n                pointer-events: none;\n            }\n    \n            #");
        out.append(g_init);
        out.append(
            " gicon.g_has_leading_icon > div > span {\n                font-size: 1.29em !important;  \n                color: inherit !important;\n            }\n            ",
        );
        assert(out@ =~= old(out)@ + spec_icon_overlay(g_init@, trailing_icon, icon_align@));
    }
}

/// The main stylesheet text, assembled from the already-resolved parts.
pub open spec fn spec_button_main_css(
    g_init: Seq<char>,
    font_size: Seq<char>,
    text_color: Seq<char>,
    id: Seq<char>,
    height: Seq<char>,
    width: Seq<char>,
    padding_left: Seq<char>,
    padding_right: Seq<char>,
    border_radius: Seq<char>,
    background: Seq<char>,
    border: Seq<char>,
    hover_shadow: Seq<char>,
    hover_bg: Seq<char>,
    active_shadow: Seq<char>,
    ripple_from: Seq<char>,
    ripple_to: Seq<char>,
) -> Seq<char> {
    "\n            div#"@ + g_init
        + " {\n                display: inline-block;\n                font-size: "@ + font_size
        + ";\n                position: relative;\n                color: "@ + text_color
        + ";\n                line-height: 0;\n                margin: 0;\n                padding: 0;\n            }\n\n            button#"@
        + id + " {\n                height: "@ + height + ";\n                "@ + width
        + "\n                padding: 0.7em "@ + padding_right + " 0.7em "@ + padding_left
        + ";\n                border: none;\n                line-height: 1.42em;\n                font-size: inherit;\n                font-weight: 500;\n                border-radius: "@
        + border_radius + ";\n                "@ + background
        + "\n                outline: none;\n                cursor: pointer;\n                color: inherit;\n                position: relative;\n                overflow: hidden;\n                transition: box-shadow ease-out 0.3s;\n                "@
        + border + "\n            }\n\n            button#"@ + id + ":hover, button#"@ + id
        + ":focus {\n                "@ + hover_shadow + "\n                "@ + hover_bg
        + "\n            }\n\n            button#"@ + id + ", button#"@ + id
        + ":active {\n                "@ + active_shadow + "\n            }\n\n            button#"@
        + id + " > span#g_init_span"@ + id
        + " {\n                position: absolute;\n                border-radius: 50%;\n                pointer-events: auto;\n                width: 200%;\n                aspect-ratio: 1;\n                margin-top: -100%;\n                margin-left: -100%;\n                animation: ripple ease-in-out 0.6s forwards;\n            }\n\n            @keyframes ripple {\n                from {\n                    transform: scale(0.2);\n                    "@
        + ripple_from
        + "\n                }\n            \n                to {\n                    transform: scale(2);\n                    "@
        + ripple_to + "\n                }\n            }\n        "@
}

/// The whole stylesheet a button request resolves to, given its parsed
/// background color.
pub open spec fn spec_button_css(req: GButtonRequest, bg: ColorValue) -> Seq<char> {
    spec_button_main_css(
        crate::spec_g_init_id(req.id@),
        req.font_size@,
        spec_text_color_frag(req.disabled, req.label_color@),
        req.id@,
        req.height@,
        spec_width_frag(req.width),
        spec_padding_left(req.has_icon, req.only_icon, req.trailing_icon),
        spec_padding_right(req.has_icon, req.only_icon, req.trailing_icon),
        req.border_radius@,
        spec_background_frag(req.style, req.disabled, bg),
        spec_border_frag(req.style, req.disabled, req.outlined_border_color),
        spec_hover_shadow_frag(req.style, req.disabled, req.dark_theame),
        spec_hover_bg_frag(req.style, req.disabled, bg),
        spec_active_shadow_frag(req.style, req.disabled, req.dark_theame),
        spec_ripple_from_frag(req.style, req.disabled, bg),
        spec_ripple_to_frag(req.style, req.disabled, bg),
    ) + (if req.has_icon {
        spec_icon_overlay(
            crate::spec_g_init_id(req.id@),
            req.trailing_icon,
            spec_icon_align(req.only_icon),
        )
    } else {
        Seq::empty()
    })
}

#[verifier::rlimit(100)]
fn assemble_button_main(
    g_init: &str,
    font_size: &str,
    text_color: &str,
    id: &str,
    height: &str,
    width: &str,
    padding_left: &str,
    padding_right: &str,
    border_radius: &str,
    background: &str,
    border: &str,
    hover_shadow: &str,
    hover_bg: &str,
    active_shadow: &str,
    ripple_from: &str,
    ripple_to: &str,
) -> (r: String)
    ensures
        r@ == spec_button_main_css(
            g_init@,
            font_size@,
            text_color@,
            id@,
            height@,
            width@,
            padding_left@,
            padding_right@,
            border_radius@,
            background@,
            border@,
            hover_shadow@,
            hover_bg@,
            active_shadow@,
            ripple_from@,
            ripple_to@,
        ),
{
    let mut out = String::new();
    out.append("\n            div#");
    out.append(g_init);
    out.append(" {\n                display: inline-block;\n                font-size: ");
    out.append(font_size);
    out.append(";\n                position: relative;\n                color: ");
    out.append(text_color);
    out.append(
        ";\n                line-height: 0;\n                margin: 0;\n                padding: 0;\n            }\n\n            button#",
    );
    out.append(id);
    out.append(" {\n                height: ");
    out.append(height);
    out.append(";\n                ");
    out.append(width);
    out.append("\n                padding: 0.7em ");
    out.append(padding_right);
    out.append(" 0.7em ");
    out.append(padding_left);
    out.append(
        ";\n                border: none;\n                line-height: 1.42em;\n                font-size: inherit;\n                font-weight: 500;\n                border-radius: ",
    );
    out.append(border_radius);
    out.append(";\n                ");
    out.append(background);
    out.append(
        "\n                outline: none;\n                cursor: pointer;\n                color: inherit;\n                position: relative;\n                overflow: hidden;\n                transition: box-shadow ease-out 0.3s;\n                ",
    );
    out.append(border);
    out.append("\n            }\n\n            button#");
    out.append(id);
    out.append(":hover, button#");
    out.append(id);
    out.append(":focus {\n                ");
    out.append(hover_shadow);
    out.append("\n                ");
    out.append(hover_bg);
    out.append("\n            }\n\n            button#");
    out.append(id);
    out.append(", button#");
    out.append(id);
    out.append(":active {\n                ");
    out.append(active_shadow);
    out.append("\n            }\n\n            button#");
    out.append(id);
    out.append(" > span#g_init_span");
    out.append(id);
    out.append(
        " {\n                position: absolute;\n                border-radius: 50%;\n                pointer-events: auto;\n                width: 200%;\n                aspect-ratio: 1;\n                margin-top: -100%;\n                margin-left: -100%;\n                animation: ripple ease-in-out 0.6s forwards;\n            }\n\n            @keyframes ripple {\n                from {\n                    transform: scale(0.2);\n                    ",
    );
    out.append(ripple_from);
    out.append(
        "\n                }\n            \n                to {\n                    transform: scale(2);\n                    ",
    );
    out.append(ripple_to);
    out.append("\n                }\n            }\n        ");
    proof {
        assert(out@ =~= spec_button_main_css(
            g_init@,
            font_size@,
            text_color@,
            id@,
            height@,
            width@,
            padding_left@,
            padding_right@,
            border_radius@,
            background@,
            border@,
            hover_shadow@,
            hover_bg@,
            active_shadow@,
            ripple_from@,
            ripple_to@,
        ));
    }
    out
}

/// Produces the stylesheet text for a button request.
///
/// The background color literal is parsed first; an unrecognized literal is
/// the one fatal failure, whatever the variant or the disabled flag.  On
/// success the text is exactly the stylesheet the request resolves to.
pub fn input_style(req: &GButtonRequest) -> (r: Result<String, ColorParseError>)
    ensures
        r is Ok <==> spec_css_color(req.background_color@) is Some,
        r is Ok ==> r->Ok_0@ == spec_button_css(*req, spec_css_color(req.background_color@)->0),
{
    let bg = match parse_css_color(req.background_color.as_str()) {
        Ok(c) => c,
        Err(e) => {
            return Err(e);
        },
    };
    let g_init = crate::g_init_id(req.id.as_str());
    let text_color = text_color_frag(req.disabled, &req.label_color);
    let width = width_frag(&req.width);
    let (pad_left, pad_right, icon_align) = button_padding(
        req.has_icon,
        req.only_icon,
        req.trailing_icon,
    );
    let background = background_frag(&req.style, req.disabled, &bg);
    let border = border_frag(&req.style, req.disabled, &req.outlined_border_color);
    let hover_shadow = hover_shadow_frag(&req.style, req.disabled, req.dark_theame);
    let hover_bg = hover_bg_frag(&req.style, req.disabled, &bg);
    let active_shadow = active_shadow_frag(&req.style, req.disabled, req.dark_theame);
    let ripple_from = ripple_from_frag(&req.style, req.disabled, &bg);
    let ripple_to = ripple_to_frag(&req.style, req.disabled, &bg);
    let mut out = assemble_button_main(
        g_init.as_str(),
        req.font_size.as_str(),
        text_color.as_str(),
        req.id.as_str(),
        req.height.as_str(),
        width.as_str(),
        pad_left,
        pad_right,
        req.border_radius.as_str(),
        background.as_str(),
        border.as_str(),
        hover_shadow.as_str(),
        hover_bg.as_str(),
        active_shadow.as_str(),
        ripple_from.as_str(),
        ripple_to.as_str(),
    );
    if req.has_icon {
        push_icon_overlay(&mut out, g_init.as_str(), req.trailing_icon, icon_align);
    }
    proof {
        assert(out@ =~= spec_button_css(*req, spec_css_color(req.background_color@)->0));
    }
    Ok(out)
}

/// A disabled button always resolves to the fixed neutral palette: the
/// filled looks get the translucent neutral background, the outlined
/// variant the neutral border, and the label color is forced — whatever
/// colors the caller supplied.
pub proof fn lemma_disabled_button_neutral(req: GButtonRequest, bg: ColorValue)
    requires
        req.disabled,
    ensures
        (req.style == GButtonStyle::Elevated || req.style == GButtonStyle::Filled)
            ==> spec_background_frag(req.style, req.disabled, bg)
            == "background-color: rgba(29, 27, 32, 0.12);"@,
        req.style == GButtonStyle::Outlined ==> spec_border_frag(
            req.style,
            req.disabled,
            req.outlined_border_color,
        ) == "border: 0.0714em solid rgba(29, 27, 32, 0.12);"@,
        spec_text_color_frag(req.disabled, req.label_color@) == "rgba(29, 27, 32, 0.38)"@,
        spec_hover_bg_frag(req.style, req.disabled, bg) == Seq::<char>::empty(),
        spec_hover_shadow_frag(req.style, req.disabled, req.dark_theame) == Seq::<char>::empty(),
{
}

/// Synthesis is a pure function of the request: two requests that agree on
/// every field that the stylesheet reads resolve to identical text.
pub proof fn lemma_button_css_deterministic(r1: GButtonRequest, r2: GButtonRequest, bg: ColorValue)
    requires
        r1.style == r2.style,
        r1.id@ == r2.id@,
        r1.only_icon == r2.only_icon,
        r1.font_size@ == r2.font_size@,
        r1.height@ == r2.height@,
        (r1.width is Some <==> r2.width is Some),
        r1.width is Some ==> r1.width->0@ == r2.width->0@,
        r1.label_color@ == r2.label_color@,
        (r1.outlined_border_color is Some <==> r2.outlined_border_color is Some),
        r1.outlined_border_color is Some ==> r1.outlined_border_color->0@
            == r2.outlined_border_color->0@,
        r1.border_radius@ == r2.border_radius@,
        r1.disabled == r2.disabled,
        r1.has_icon == r2.has_icon,
        r1.trailing_icon == r2.trailing_icon,
        r1.dark_theame == r2.dark_theame,
    ensures
        spec_button_css(r1, bg) == spec_button_css(r2, bg),
{
}

} // verus!
