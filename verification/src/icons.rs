//! Stylesheet synthesis for icon glyphs.
//!
//! An icon declares three numeric variation-axis parameters — weight,
//! grade and optical size — each constrained to a closed range, plus a
//! fill flag and free-form color, size and transition values.  Validation
//! is the only branching: a parameter outside its range (or not a number)
//! is a fatal error, in the order weight, grade, optical size.

use vstd::prelude::*;
use vstd::string::StrSliceExecFns;
use vstd::string::StringExecFns;

use crate::GIconStyle;
use crate::length::spec_sign_body;
use crate::numtext::digits_value_capped;
use crate::numtext::push_u64;
use crate::numtext::spec_all_digits;
use crate::numtext::spec_digits_val;
use crate::numtext::spec_is_digit;
use crate::numtext::spec_u64_text;
use crate::numtext::str_chars;

verus! {

/// Everything an icon instance declares that affects its stylesheet.
pub struct GIconRequest {
    pub icon_style: GIconStyle,
    /// Maps to the `FILL` axis: `1` when set, `0` when not.
    pub fill: bool,
    /// The `wght` axis, an integer in `100 ..= 700`.
    pub wght: String,
    /// The `GRAD` axis, an integer in `-50 ..= 200`.
    pub grade: String,
    /// The `opsz` axis, an integer in `20 ..= 48`.
    pub opsz: String,
    pub color: String,
    pub size: String,
    pub transition: String,
}

/// The variation-axis parameter that failed validation.
#[derive(Debug, Clone, Copy, PartialEq, Eq, Structural)]
pub enum GIconError {
    Wght,
    Grade,
    Opsz,
}

impl GIconError {
    /// The diagnostic text for this failure.
    pub fn message(&self) -> (r: &'static str)
        ensures
            *self == GIconError::Wght ==> r@ == "Wrong Google Material Icon wght setting"@,
            *self == GIconError::Grade ==> r@ == "Wrong Google Material Icon grade setting"@,
            *self == GIconError::Opsz ==> r@ == "Wrong Google Material Icon opsz setting"@,
    {
        match self {
            GIconError::Wght => "Wrong Google Material Icon wght setting",
            GIconError::Grade => "Wrong Google Material Icon grade setting",
            GIconError::Opsz => "Wrong Google Material Icon opsz setting",
        }
    }
}

/// Whether the literal is an optionally signed run of digits.
pub open spec fn spec_int_shape(s: Seq<char>) -> bool {
    spec_sign_body(s).len() >= 1 && spec_all_digits(spec_sign_body(s))
}

/// Whether the literal carries a minus sign.
pub open spec fn spec_int_neg(s: Seq<char>) -> bool {
    s.len() > 0 && s[0] == '-'
}

/// The magnitude the digits denote.
pub open spec fn spec_int_mag(s: Seq<char>) -> int {
    spec_digits_val(spec_sign_body(s))
}

/// Whether the weight literal is valid: an unsigned integer in
/// `100 ..= 700` (both ends included).
pub open spec fn spec_wght_ok(s: Seq<char>) -> bool {
    spec_int_shape(s) && !spec_int_neg(s) && 100 <= spec_int_mag(s) <= 700
}

/// Whether the grade literal is valid: an integer in `-50 ..= 200`.
pub open spec fn spec_grade_ok(s: Seq<char>) -> bool {
    spec_int_shape(s) && (if spec_int_neg(s) {
        spec_int_mag(s) <= 50
    } else {
        spec_int_mag(s) <= 200
    })
}

/// Whether the optical-size literal is valid: an unsigned integer in
/// `20 ..= 48`.
pub open spec fn spec_opsz_ok(s: Seq<char>) -> bool {
    spec_int_shape(s) && !spec_int_neg(s) && 20 <= spec_int_mag(s) <= 48
}

/// The rendered value of a validated axis literal: the digits without
/// leading zeros, with a minus sign for a negative grade.
pub open spec fn spec_axis_text(s: Seq<char>) -> Seq<char> {
    if spec_int_neg(s) && spec_int_mag(s) != 0 {
        seq!['-'] + spec_u64_text(spec_int_mag(s) as nat)
    } else {
        spec_u64_text(spec_int_mag(s) as nat)
    }
}

/// Parses an optionally signed integer literal with magnitude at most
/// `cap`: `None` when malformed or beyond the cap.
fn parse_axis_int(s: &str, cap: u64) -> (r: Option<(bool, u64)>)
    requires
        1 <= cap <= 0x1000_0000_0000_0000,
    ensures
        r is Some <==> (spec_int_shape(s@) && spec_int_mag(s@) <= cap),
        r is Some ==> r->Some_0.0 == spec_int_neg(s@) && r->Some_0.1 == spec_int_mag(s@),
{
    let v = str_chars(s);
    let n = v.len();
    let mut neg = false;
    let mut start: usize = 0;
    if n > 0 && (v[0] == '+' || v[0] == '-') {
        neg = v[0] == '-';
        start = 1;
    }
    proof {
        assert(spec_sign_body(s@) =~= v@.subrange(start as int, n as int));
    }
    if start == n {
        return None;
    }
    let mut i: usize = start;
    while i < n
        invariant
            start <= i <= n,
            n == v@.len(),
            v@ == s@,
            start < n,
            spec_sign_body(s@) == v@.subrange(start as int, n as int),
            forall|j: int| start <= j < i ==> spec_is_digit(#[trigger] v@[j]),
        decreases n - i,
    {
        let c = v[i];
        if !(c >= '0' && c <= '9') {
            proof {
                assert(spec_sign_body(s@)[i - start] == v@[i as int]);
            }
            return None;
        }
        i = i + 1;
    }
    let val = digits_value_capped(&v, start, n, cap);
    proof {
        assert(v@.subrange(start as int, n as int) =~= spec_sign_body(s@));
    }
    if val > cap {
        return None;
    }
    Some((neg, val))
}

/// The glyph font class of an icon style family.
pub open spec fn spec_icon_class(style: GIconStyle) -> Seq<char> {
    match style {
        GIconStyle::Outlined => "material-symbols-outlined"@,
        GIconStyle::Rounded => "material-symbols-rounded"@,
        GIconStyle::Sharp => "material-symbols-sharp"@,
    }
}

/// The glyph font class text.
pub fn icon_class(style: &GIconStyle) -> (r: &'static str)
    ensures
        r@ == spec_icon_class(*style),
{
    match style {
        GIconStyle::Outlined => "material-symbols-outlined",
        GIconStyle::Rounded => "material-symbols-rounded",
        GIconStyle::Sharp => "material-symbols-sharp",
    }
}

/// The `FILL` axis value.
pub open spec fn spec_fill_text(fill: bool) -> Seq<char> {
    if fill {
        "1"@
    } else {
        "0"@
    }
}

/// The stylesheet an icon request resolves to, once its axes validate.
pub open spec fn spec_icon_css(req: GIconRequest) -> Seq<char> {
    "\n            ."@ + spec_icon_class(req.icon_style)
        + " {\n                display: block;\n                transition: "@ + req.transition@
        + ";\n                color: "@ + req.color@ + ";\n                font-size: "@ + req.size@
        + ";\n                font-variation-settings:\n                'FILL' "@ + spec_fill_text(
        req.fill,
    ) + ",\n                'wght' "@ + spec_axis_text(req.wght@) + ",\n                'GRAD' "@
        + spec_axis_text(req.grade@) + ",\n                'opsz' "@ + spec_axis_text(req.opsz@)
        + "\n                }\n        "@
}

/// Appends the rendered value of a validated axis literal.
fn push_axis_text(out: &mut String, neg: bool, mag: u64)
    ensures
        final(out)@ == old(out)@ + (if neg && mag != 0 {
            seq!['-'] + spec_u64_text(mag as nat)
        } else {
            spec_u64_text(mag as nat)
        }),
{
    if neg && mag != 0 {
        out.append("-");
        proof {
            reveal_strlit("-");
            assert("-"@ =~= seq!['-']);
        }
    }
    push_u64(out, mag);
    proof {
        if neg && mag != 0 {
            assert(out@ =~= old(out)@ + (seq!['-'] + spec_u64_text(mag as nat)));
        }
    }
}

/// Produces the stylesheet text for an icon request.
///
/// Each axis literal must parse as an integer inside its closed range —
/// weight in `100 ..= 700`, grade in `-50 ..= 200`, optical size in
/// `20 ..= 48` — and the first failure, in that order, is the error.
pub fn icon_style_text(req: &GIconRequest) -> (r: Result<String, GIconError>)
    ensures
        r is Ok <==> spec_wght_ok(req.wght@) && spec_grade_ok(req.grade@) && spec_opsz_ok(
            req.opsz@,
        ),
        r is Ok ==> r->Ok_0@ == spec_icon_css(*req),
        r is Err ==> r->Err_0 == (if !spec_wght_ok(req.wght@) {
            GIconError::Wght
        } else if !spec_grade_ok(req.grade@) {
            GIconError::Grade
        } else {
            GIconError::Opsz
        }),
{
    let wght = match parse_axis_int(req.wght.as_str(), 700) {
        Some((neg, mag)) => {
            if neg || mag < 100 {
                return Err(GIconError::Wght);
            }
            mag
        },
        None => {
            return Err(GIconError::Wght);
        },
    };
    let (grade_neg, grade_mag) = match parse_axis_int(req.grade.as_str(), 200) {
        Some((neg, mag)) => {
            if neg && mag > 50 {
                return Err(GIconError::Grade);
            }
            (neg, mag)
        },
        None => {
            return Err(GIconError::Grade);
        },
    };
    let opsz = match parse_axis_int(req.opsz.as_str(), 48) {
        Some((neg, mag)) => {
            if neg || mag < 20 {
                return Err(GIconError::Opsz);
            }
            mag
        },
        None => {
            return Err(GIconError::Opsz);
        },
    };

    let mut out = String::new();
    out.append("\n            .");
    out.append(icon_class(&req.icon_style));
    out.append(" {\n                display: block;\n                transition: ");
    out.append(req.transition.as_str());
    out.append(";\n                color: ");
    out.append(req.color.as_str());
    out.append(";\n                font-size: ");
    out.append(req.size.as_str());
    out.append(";\n                font-variation-settings:\n                'FILL' ");
    out.append(if req.fill {
        "1"
    } else {
        "0"
    });
    out.append(",\n                'wght' ");
    push_axis_text(&mut out, false, wght);
    out.append(",\n                'GRAD' ");
    push_axis_text(&mut out, grade_neg, grade_mag);
    out.append(",\n                'opsz' ");
    push_axis_text(&mut out, false, opsz);
    out.append("\n                }\n        ");
    proof {
        assert(out@ =~= spec_icon_css(*req));
    }
    Ok(out)
}

} // verus!
