//! CSS length literals: splitting a literal into a numeric magnitude and a
//! unit suffix, proportional scaling, and rendering back to text.
//!
//! A magnitude is held as a sign and a whole number of millionths, so that
//! `"3.5"` parses to `3_500_000` millionths.  A literal whose numeric segment
//! is not a decimal number falls back to `3.5` with unit `"em"` instead of
//! failing, so a malformed height never aborts rendering.

use vstd::prelude::*;
use vstd::string::StrSliceExecFns;
use vstd::string::StringExecFns;

use crate::numtext::digits_value_capped;
use crate::numtext::push_u64;
use crate::numtext::push_u64_padded;
use crate::numtext::spec_all_digits;
use crate::numtext::spec_digits_val;
use crate::numtext::spec_is_digit;
use crate::numtext::spec_u64_text;
use crate::numtext::spec_u64_text_padded;
use crate::numtext::str_chars;

verus! {

/// A parsed CSS length: a signed fixed-point magnitude in millionths and a
/// unit suffix kept verbatim.
pub struct LengthValue {
    /// Whether the magnitude carries a minus sign.
    pub neg: bool,
    /// Magnitude in millionths: `3_500_000` stands for `3.5`.
    pub mag_micro: u64,
    /// Unit suffix, e.g. `"em"`, `"px"`, or empty.
    pub unit: String,
}

/// The greatest whole-part value a literal may carry before the
/// fallback applies.
pub open spec fn spec_max_whole() -> int {
    9_999_999_999
}

/// Characters that belong to the numeric segment of a length literal.
pub open spec fn spec_numeric_char(c: char) -> bool {
    spec_is_digit(c) || c == '.' || c == '+' || c == '-'
}

/// Index of the first character that does not belong to the numeric
/// segment; the length of `s` if every character does.
pub open spec fn spec_split_pos(s: Seq<char>) -> int
    decreases s.len(),
{
    if s.len() == 0 {
        0
    } else if !spec_numeric_char(s[0]) {
        0
    } else {
        1 + spec_split_pos(s.drop_first())
    }
}

/// Index of the first `'.'` in `u`; the length of `u` if there is none.
pub open spec fn spec_dot_pos(u: Seq<char>) -> int
    decreases u.len(),
{
    if u.len() == 0 {
        0
    } else if u[0] == '.' {
        0
    } else {
        1 + spec_dot_pos(u.drop_first())
    }
}

/// The numeric segment with an optional leading sign removed.
pub open spec fn spec_sign_body(t: Seq<char>) -> Seq<char> {
    if t.len() > 0 && (t[0] == '+' || t[0] == '-') {
        t.drop_first()
    } else {
        t
    }
}

/// Whether the unsigned part of a numeric segment is a well-formed decimal
/// number: non-empty, only digits and at most one dot, and at least one digit.
pub open spec fn spec_decimal_shape(u: Seq<char>) -> bool {
    &&& u.len() >= 1
    &&& (forall|j: int| 0 <= j < u.len() ==> spec_is_digit(#[trigger] u[j]) || u[j] == '.')
    &&& (forall|j: int| spec_dot_pos(u) < j < u.len() ==> spec_is_digit(#[trigger] u[j]))
    &&& (if spec_dot_pos(u) < u.len() {
        u.len() >= 2
    } else {
        true
    })
}

/// Value of the digits before the dot.
pub open spec fn spec_whole_val(u: Seq<char>) -> int {
    spec_digits_val(u.take(spec_dot_pos(u)))
}

/// Powers of ten.
pub open spec fn spec_pow10(k: nat) -> int
    decreases k,
{
    if k == 0 {
        1
    } else {
        10 * spec_pow10((k - 1) as nat)
    }
}

/// Value in millionths of the fraction digits after the dot; digits beyond
/// the sixth are ignored.
pub open spec fn spec_frac_val(u: Seq<char>) -> int {
    let dp = spec_dot_pos(u);
    if dp >= u.len() {
        0
    } else {
        let w = u.subrange(dp + 1, u.len() as int);
        if w.len() >= 6 {
            spec_digits_val(w.take(6))
        } else {
            spec_digits_val(w) * spec_pow10((6 - w.len()) as nat)
        }
    }
}

/// Whether the numeric segment `t` parses as a decimal magnitude within
/// the supported range.
pub open spec fn spec_len_valid(t: Seq<char>) -> bool {
    spec_decimal_shape(spec_sign_body(t)) && spec_whole_val(spec_sign_body(t)) <= spec_max_whole()
}

/// Whether the numeric segment carries a minus sign.
pub open spec fn spec_len_neg(t: Seq<char>) -> bool {
    t.len() > 0 && t[0] == '-'
}

/// Magnitude in millionths denoted by a valid numeric segment.
pub open spec fn spec_len_mag(t: Seq<char>) -> int {
    spec_whole_val(spec_sign_body(t)) * 1_000_000 + spec_frac_val(spec_sign_body(t))
}

/// If the first `i` characters are numeric and the `i`-th is not (or `i` is
/// the length), then `i` is the split position.
proof fn lemma_split_pos_from_bounds(s: Seq<char>, i: int)
    requires
        0 <= i <= s.len(),
        forall|j: int| 0 <= j < i ==> spec_numeric_char(#[trigger] s[j]),
        i == s.len() || !spec_numeric_char(s[i]),
    ensures
        spec_split_pos(s) == i,
    decreases s.len(),
{
    if i == 0 {
    } else {
        lemma_split_pos_from_bounds(s.drop_first(), i - 1);
    }
}

/// If the first `k` characters are not dots and the `k`-th is a dot (or `k`
/// is the length), then `k` is the dot position.
pub proof fn lemma_dot_pos_from_bounds(u: Seq<char>, k: int)
    requires
        0 <= k <= u.len(),
        forall|j: int| 0 <= j < k ==> #[trigger] u[j] != '.',
        k == u.len() || u[k] == '.',
    ensures
        spec_dot_pos(u) == k,
    decreases u.len(),
{
    if k == 0 {
    } else {
        lemma_dot_pos_from_bounds(u.drop_first(), k - 1);
    }
}

/// A sequence of `n` digits has value below ten to the `n`.
pub proof fn lemma_digits_val_bound(s: Seq<char>)
    requires
        spec_all_digits(s),
    ensures
        spec_digits_val(s) < spec_pow10(s.len()),
    decreases s.len(),
{
    if s.len() == 0 {
    } else {
        assert(spec_all_digits(s.drop_last()));
        lemma_digits_val_bound(s.drop_last());
    }
}

/// Whether `c` belongs to the numeric segment of a length literal.
fn is_numeric_char(c: char) -> (r: bool)
    ensures
        r == spec_numeric_char(c),
{
    (c >= '0' && c <= '9') || c == '.' || c == '+' || c == '-'
}

/// The documented fallback: `3.5` with unit `"em"`.
fn fallback_length() -> (r: LengthValue)
    ensures
        r.neg == false,
        r.mag_micro == 3_500_000,
        r.unit@ == "em"@,
{
    LengthValue { neg: false, mag_micro: 3_500_000, unit: String::from_str("em") }
}

/// Parses the unsigned decimal body `v[start .. p]` into millionths:
/// `None` when it is not a well-formed decimal number or its whole part is
/// beyond the supported range.
#[verifier::rlimit(100)]
fn parse_magnitude(v: &Vec<char>, start: usize, p: usize) -> (r: Option<u64>)
    requires
        start < p <= v@.len(),
    ensures
        ({
            let u = v@.subrange(start as int, p as int);
            &&& (r is Some <==> (spec_decimal_shape(u) && spec_whole_val(u) <= spec_max_whole()))
            &&& (r is Some ==> r->0 == spec_whole_val(u) * 1_000_000 + spec_frac_val(u))
        }),
{
    proof {
        reveal_with_fuel(spec_pow10, 7);
    }
    let ghost u = v@.subrange(start as int, p as int);

    // Scan the body: digits with at most one dot.
    let mut found_dot = false;
    let mut dot: usize = p;  // absolute index of the first dot, `p` if none
    let mut i: usize = start;
    while i < p
        invariant
            start <= i <= p <= v@.len(),
            start < p,
            u == v@.subrange(start as int, p as int),
            !found_dot ==> dot == p && forall|j: int|
                start <= j < i ==> spec_is_digit(#[trigger] v@[j]),
            found_dot ==> {
                &&& start <= dot < i
                &&& v@[dot as int] == '.'
                &&& (forall|j: int| start <= j < dot ==> spec_is_digit(#[trigger] v@[j]))
                &&& (forall|j: int| dot < j < i ==> spec_is_digit(#[trigger] v@[j]))
            },
        decreases p - i,
    {
        let c = v[i];
        if c >= '0' && c <= '9' {
            // a digit
        } else if c == '.' {
            if found_dot {
                // Second dot: not a decimal number.
                proof {
                    lemma_dot_pos_from_bounds(u, dot - start);
                    assert(u[i - start] == '.');
                    assert(!spec_decimal_shape(u));
                }
                return None;
            }
            found_dot = true;
            dot = i;
        } else {
            // A stray sign inside the body.
            proof {
                assert(u[i - start] == v@[i as int]);
                assert(!spec_decimal_shape(u));
            }
            return None;
        }
        i = i + 1;
    }
    proof {
        if found_dot {
            lemma_dot_pos_from_bounds(u, dot - start);
        } else {
            lemma_dot_pos_from_bounds(u, u.len() as int);
        }
    }
    if found_dot && p - start == 1 {
        // The body is a lone dot.
        assert(!spec_decimal_shape(u));
        return None;
    }
    assert(spec_decimal_shape(u));

    // Whole part.
    let whole = digits_value_capped(v, start, dot, 9_999_999_999);
    proof {
        assert(v@.subrange(start as int, dot as int) =~= u.take(spec_dot_pos(u)));
    }
    if whole > 9_999_999_999 {
        return None;
    }

    // Fraction part, in millionths; digits beyond the sixth are ignored.
    let mut frac: u64 = 0;
    if found_dot && dot + 1 < p {
        let avail = p - (dot + 1);
        let m = if avail >= 6 {
            6
        } else {
            avail
        };
        let fv = digits_value_capped(v, dot + 1, dot + 1 + m, 9_999_999_999);
        let mult: u64 = match 6 - m {
            0 => 1,
            1 => 10,
            2 => 100,
            3 => 1_000,
            4 => 10_000,
            _ => 100_000,
        };
        proof {
            let w = u.subrange(spec_dot_pos(u) + 1, u.len() as int);
            let taken = v@.subrange(dot + 1, (dot + 1 + m) as int);
            if avail >= 6 {
                assert(taken =~= w.take(6));
            } else {
                assert(taken =~= w);
            }
            assert(spec_all_digits(taken));
            lemma_digits_val_bound(taken);
        }
        frac = fv * mult;
    }
    Some(whole * 1_000_000 + frac)
}

/// Splits a length literal into its numeric magnitude and its unit suffix.
///
/// The numeric segment runs up to the first character that is not a digit,
/// `'.'`, `'+'` or `'-'`; everything from that character on is the unit,
/// kept verbatim.  If the segment is not a decimal number (or its whole part
/// is beyond the supported range), the result is the fallback `3.5` `"em"`.
pub fn parse_number_and_unit(input: &str) -> (r: LengthValue)
    ensures
        spec_len_valid(input@.take(spec_split_pos(input@))) ==> {
            &&& r.neg == spec_len_neg(input@.take(spec_split_pos(input@)))
            &&& r.mag_micro == spec_len_mag(input@.take(spec_split_pos(input@)))
            &&& r.unit@ == input@.skip(spec_split_pos(input@))
        },
        !spec_len_valid(input@.take(spec_split_pos(input@))) ==> {
            &&& r.neg == false
            &&& r.mag_micro == 3_500_000
            &&& r.unit@ == "em"@
        },
{
    let v = str_chars(input);
    let n = v.len();

    // Find the end of the numeric segment.
    let mut p: usize = 0;
    while p < n && is_numeric_char(v[p])
        invariant
            0 <= p <= n,
            n == v@.len(),
            v@ == input@,
            forall|j: int| 0 <= j < p ==> spec_numeric_char(#[trigger] v@[j]),
        decreases n - p,
    {
        p = p + 1;
    }
    proof {
        lemma_split_pos_from_bounds(input@, p as int);
    }
    let ghost t = input@.take(p as int);

    // Optional sign.
    let mut neg = false;
    let mut start: usize = 0;
    if p > 0 && (v[0] == '+' || v[0] == '-') {
        neg = v[0] == '-';
        start = 1;
    }
    proof {
        assert(spec_sign_body(t) =~= v@.subrange(start as int, p as int));
    }
    if start == p {
        // Empty numeric body.
        assert(!spec_decimal_shape(spec_sign_body(t)));
        return fallback_length();
    }
    match parse_magnitude(&v, start, p) {
        Some(mag) => {
            let unit = input.substring_char(p, n).to_owned();
            proof {
                assert(unit@ =~= input@.skip(p as int));
            }
            LengthValue { neg, mag_micro: mag, unit }
        },
        None => fallback_length(),
    }
}

/// The scaled magnitude: `mag` times one hundred divided by `divisor_centi`,
/// truncated, and cut off at the largest representable magnitude.
pub open spec fn spec_scaled_mag(mag: int, divisor_centi: int) -> int {
    let q = mag * 100 / divisor_centi;
    if q > u64::MAX {
        u64::MAX as int
    } else {
        q
    }
}

/// Divides a length by `divisor_centi` hundredths, keeping sign and unit:
/// `scaled(7em, 295)` is `7 / 2.95` em.
pub fn scaled(v: &LengthValue, divisor_centi: u64) -> (r: LengthValue)
    requires
        divisor_centi >= 1,
    ensures
        r.neg == v.neg,
        r.mag_micro == spec_scaled_mag(v.mag_micro as int, divisor_centi as int),
        r.unit@ == v.unit@,
{
    let q: u128 = (v.mag_micro as u128) * 100 / (divisor_centi as u128);
    let mag: u64 = if q > u64::MAX as u128 {
        u64::MAX
    } else {
        q as u64
    };
    LengthValue { neg: v.neg, mag_micro: mag, unit: v.unit.clone() }
}

/// Strips trailing `'0'` characters.
pub open spec fn spec_strip_zeros(s: Seq<char>) -> Seq<char>
    decreases s.len(),
{
    if s.len() > 0 && s.last() == '0' {
        spec_strip_zeros(s.drop_last())
    } else {
        s
    }
}

/// Text of the fractional part: empty when zero, else a dot followed by the
/// six fraction digits with trailing zeros removed.
pub open spec fn spec_frac_text(f: nat) -> Seq<char> {
    if f == 0 {
        Seq::empty()
    } else {
        seq!['.'] + spec_strip_zeros(spec_u64_text_padded(f, 6))
    }
}

/// The rendered text of a magnitude in millionths: optional sign, whole
/// part, fraction with trailing zeros removed, then the unit verbatim.
pub open spec fn spec_text_of(neg: bool, mag: int, unit: Seq<char>) -> Seq<char> {
    (if neg && mag != 0 {
        seq!['-']
    } else {
        Seq::<char>::empty()
    }) + spec_u64_text((mag / 1_000_000) as nat) + spec_frac_text((mag % 1_000_000) as nat) + unit
}

/// The rendered text of a length value.
pub open spec fn spec_length_text(v: LengthValue) -> Seq<char> {
    spec_text_of(v.neg, v.mag_micro as int, v.unit@)
}

/// Whether the literal's numeric segment parses (the fallback does not
/// apply).
pub open spec fn spec_parse_valid(s: Seq<char>) -> bool {
    spec_len_valid(s.take(spec_split_pos(s)))
}

/// The sign `parse_number_and_unit` yields for a literal.
pub open spec fn spec_parse_neg(s: Seq<char>) -> bool {
    if spec_parse_valid(s) {
        spec_len_neg(s.take(spec_split_pos(s)))
    } else {
        false
    }
}

/// The magnitude in millionths `parse_number_and_unit` yields for a literal.
pub open spec fn spec_parse_mag(s: Seq<char>) -> int {
    if spec_parse_valid(s) {
        spec_len_mag(s.take(spec_split_pos(s)))
    } else {
        3_500_000
    }
}

/// The unit `parse_number_and_unit` yields for a literal.
pub open spec fn spec_parse_unit(s: Seq<char>) -> Seq<char> {
    if spec_parse_valid(s) {
        s.skip(spec_split_pos(s))
    } else {
        "em"@
    }
}

/// Renders the magnitude and unit back to text, e.g. `2.372881em`.
pub fn length_text(v: &LengthValue) -> (r: String)
    ensures
        r@ == spec_length_text(*v),
{
    let mut out = String::new();
    if v.neg && v.mag_micro != 0 {
        out.append("-");
        proof {
            reveal_strlit("-");
            assert("-"@ =~= seq!['-']);
        }
    }
    push_u64(&mut out, v.mag_micro / 1_000_000);
    let f0 = v.mag_micro % 1_000_000;
    if f0 != 0 {
        out.append(".");
        proof {
            reveal_strlit(".");
            assert("."@ =~= seq!['.']);
        }
        // Drop trailing zero digits before rendering.
        let mut fr = f0;
        let mut w: u64 = 6;
        proof {
            reveal_with_fuel(spec_pow10, 7);
        }
        while fr % 10 == 0
            invariant
                1 <= w <= 6,
                0 < fr < spec_pow10(w as nat),
                spec_strip_zeros(spec_u64_text_padded(f0 as nat, 6)) == spec_strip_zeros(
                    spec_u64_text_padded(fr as nat, w as nat),
                ),
            decreases fr,
        {
            proof {
                reveal_with_fuel(spec_pow10, 7);
                assert(spec_u64_text_padded(fr as nat, w as nat) =~= spec_u64_text_padded(
                    (fr / 10) as nat,
                    (w - 1) as nat,
                ) + seq!['0']);
                assert(spec_u64_text_padded(fr as nat, w as nat).drop_last()
                    =~= spec_u64_text_padded((fr / 10) as nat, (w - 1) as nat));
            }
            fr = fr / 10;
            w = w - 1;
        }
        proof {
            assert(spec_u64_text_padded(fr as nat, w as nat).last() != '0');
            assert(spec_strip_zeros(spec_u64_text_padded(fr as nat, w as nat))
                == spec_u64_text_padded(fr as nat, w as nat));
        }
        push_u64_padded(&mut out, fr, w);
    }
    out.append(v.unit.as_str());
    proof {
        assert(out@ =~= spec_length_text(*v));
    }
    out
}

} // verus!
