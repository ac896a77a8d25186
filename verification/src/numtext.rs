//! Decimal digit arithmetic and rendering shared by the color, length and
//! icon-axis code: values of digit sequences, and appending the decimal
//! text of an unsigned integer to a `String`.

use vstd::prelude::*;
use vstd::string::StringExecFns;
use vstd::string::StrSliceExecFns;

verus! {

/// The decimal digit character for a value in `0 ..= 9`.
pub open spec fn spec_digit_char(d: int) -> char {
    if d == 0 {
        '0'
    } else if d == 1 {
        '1'
    } else if d == 2 {
        '2'
    } else if d == 3 {
        '3'
    } else if d == 4 {
        '4'
    } else if d == 5 {
        '5'
    } else if d == 6 {
        '6'
    } else if d == 7 {
        '7'
    } else if d == 8 {
        '8'
    } else {
        '9'
    }
}

/// Whether `c` is a decimal digit character.
pub open spec fn spec_is_digit(c: char) -> bool {
    '0' <= c && c <= '9'
}

/// Numeric value of a decimal digit character.
pub open spec fn spec_digit_val(c: char) -> int {
    c as u32 - '0' as u32
}

/// Whether every character of `s` is a decimal digit.
pub open spec fn spec_all_digits(s: Seq<char>) -> bool {
    forall|i: int| 0 <= i < s.len() ==> spec_is_digit(#[trigger] s[i])
}

/// The numeric value of a sequence of decimal digit characters,
/// most significant digit first.
pub open spec fn spec_digits_val(s: Seq<char>) -> int
    decreases s.len(),
{
    if s.len() == 0 {
        0
    } else {
        spec_digits_val(s.drop_last()) * 10 + spec_digit_val(s.last())
    }
}

/// The decimal text of `n`, without leading zeros (a single `'0'` for zero).
pub open spec fn spec_u64_text(n: nat) -> Seq<char>
    decreases n,
{
    if n < 10 {
        seq![spec_digit_char(n as int)]
    } else {
        spec_u64_text(n / 10) + seq![spec_digit_char((n % 10) as int)]
    }
}

/// The decimal text of `n` left-padded with zeros to exactly `w` digits
/// (only the lowest `w` digits of `n` appear).
pub open spec fn spec_u64_text_padded(n: nat, w: nat) -> Seq<char>
    decreases w,
{
    if w == 0 {
        Seq::empty()
    } else {
        spec_u64_text_padded(n / 10, (w - 1) as nat) + seq![spec_digit_char((n % 10) as int)]
    }
}

/// One-character string for a decimal digit value.
pub fn digit_str(d: u64) -> (r: &'static str)
    requires
        d < 10,
    ensures
        r@ == seq![spec_digit_char(d as int)],
{
    let r = match d {
        0 => "0",
        1 => "1",
        2 => "2",
        3 => "3",
        4 => "4",
        5 => "5",
        6 => "6",
        7 => "7",
        8 => "8",
        _ => "9",
    };
    proof {
        reveal_strlit("0");
        reveal_strlit("1");
        reveal_strlit("2");
        reveal_strlit("3");
        reveal_strlit("4");
        reveal_strlit("5");
        reveal_strlit("6");
        reveal_strlit("7");
        reveal_strlit("8");
        reveal_strlit("9");
        assert(r@ =~= seq![spec_digit_char(d as int)]);
    }
    r
}

/// Appends the decimal text of `n` to `out`.
pub fn push_u64(out: &mut String, n: u64)
    ensures
        final(out)@ == old(out)@ + spec_u64_text(n as nat),
    decreases n,
{
    if n >= 10 {
        push_u64(out, n / 10);
        out.append(digit_str(n % 10));
        assert(out@ =~= old(out)@ + spec_u64_text(n as nat));
    } else {
        out.append(digit_str(n));
    }
}

/// Appends the decimal text of `n`, zero-padded to exactly `w` digits.
pub fn push_u64_padded(out: &mut String, n: u64, w: u64)
    ensures
        final(out)@ == old(out)@ + spec_u64_text_padded(n as nat, w as nat),
    decreases w,
{
    if w == 0 {
        assert(out@ =~= old(out)@ + spec_u64_text_padded(n as nat, 0));
    } else {
        push_u64_padded(out, n / 10, w - 1);
        out.append(digit_str(n % 10));
        assert(out@ =~= old(out)@ + spec_u64_text_padded(n as nat, w as nat));
    }
}

/// The characters of `s`, as a vector.
pub fn str_chars(s: &str) -> (r: Vec<char>)
    ensures
        r@ == s@,
{
    let n = s.unicode_len();
    let mut r: Vec<char> = Vec::new();
    let mut i: usize = 0;
    while i < n
        invariant
            i <= n,
            n == s@.len(),
            r@ == s@.take(i as int),
        decreases n - i,
    {
        r.push(s.get_char(i));
        proof {
            assert(r@ =~= s@.take(i + 1));
        }
        i = i + 1;
    }
    proof {
        assert(r@ =~= s@);
    }
    r
}

/// The value of the digit characters `v[start .. end]`, cut off at `cap`:
/// the result is the exact value where that value is at most `cap`, and
/// `cap + 1` where it exceeds `cap`.
pub fn digits_value_capped(v: &Vec<char>, start: usize, end: usize, cap: u64) -> (r: u64)
    requires
        start <= end <= v@.len(),
        forall|i: int| start <= i < end ==> spec_is_digit(#[trigger] v@[i]),
        cap <= 0x1000_0000_0000_0000,
    ensures
        spec_digits_val(v@.subrange(start as int, end as int)) <= cap ==> r == spec_digits_val(
            v@.subrange(start as int, end as int),
        ),
        spec_digits_val(v@.subrange(start as int, end as int)) > cap ==> r == cap + 1,
{
    let mut val: u64 = 0;
    let mut i: usize = start;
    proof {
        lemma_digits_val_nonneg(v@.subrange(start as int, start as int));
    }
    while i < end
        invariant
            start <= i <= end <= v@.len(),
            forall|j: int| start <= j < end ==> spec_is_digit(#[trigger] v@[j]),
            cap <= 0x1000_0000_0000_0000,
            spec_digits_val(v@.subrange(start as int, i as int)) <= cap ==> val == spec_digits_val(
                v@.subrange(start as int, i as int),
            ),
            spec_digits_val(v@.subrange(start as int, i as int)) > cap ==> val == cap + 1,
            val <= cap + 1,
        decreases end - i,
    {
        let c = v[i];
        let d: u64 = (c as u32 - 48) as u64;
        proof {
            lemma_digits_val_nonneg(v@.subrange(start as int, i as int));
            assert(v@.subrange(start as int, i + 1).drop_last() =~= v@.subrange(
                start as int,
                i as int,
            ));
            assert(v@.subrange(start as int, i + 1).last() == c);
        }
        let next: u64 = val * 10 + d;
        val = if next > cap {
            cap + 1
        } else {
            next
        };
        i = i + 1;
    }
    proof {
        assert(v@.subrange(start as int, end as int) =~= v@.subrange(start as int, i as int));
    }
    val
}

/// A sequence of `'0'` characters has value zero.
pub proof fn lemma_digits_val_zeros(s: Seq<char>)
    requires
        forall|i: int| 0 <= i < s.len() ==> #[trigger] s[i] == '0',
    ensures
        spec_digits_val(s) == 0,
    decreases s.len(),
{
    if s.len() > 0 {
        lemma_digits_val_zeros(s.drop_last());
    }
}

/// The value of a digit sequence is never negative.
pub proof fn lemma_digits_val_nonneg(s: Seq<char>)
    requires
        spec_all_digits(s),
    ensures
        spec_digits_val(s) >= 0,
    decreases s.len(),
{
    if s.len() > 0 {
        assert(spec_all_digits(s.drop_last()));
        lemma_digits_val_nonneg(s.drop_last());
    }
}

} // verus!
