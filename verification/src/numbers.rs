//! Reading numbers from text.
//!
//! Whole numbers are read as the standard library reads them. Decimal
//! fractions are read into whole millionths: an optional sign, digits, and
//! optionally a point and more digits; what lies beyond the sixth digit
//! after the point is rounded to the nearest millionth.

use vstd::prelude::*;
use crate::diagnostics::chars_of;
use crate::text::{lemma_pow10_values, pow10, pow10_of};

verus! {

/// Whether `c` is a decimal digit.
pub open spec fn is_digit(c: char) -> bool {
    '0' <= c <= '9'
}

/// The value of a decimal digit.
pub open spec fn digit_value(c: char) -> int {
    c as int - '0' as int
}

/// Whether `s` holds nothing but decimal digits.
pub open spec fn all_digits(s: Seq<char>) -> bool {
    forall|i: int| 0 <= i < s.len() ==> is_digit(#[trigger] s[i])
}

/// The number that the decimal digits `s` write; 0 for none.
pub open spec fn digits_value(s: Seq<char>) -> int
    decreases s.len(),
{
    if s.len() == 0 {
        0
    } else {
        10 * digits_value(s.drop_last()) + digit_value(s.last())
    }
}

/// The whole number that `text` writes: digits, with an optional plus sign
/// in front, whose value fits 64 bits.
pub open spec fn parsed_u64(text: Seq<char>) -> Option<u64> {
    let body = if text.len() > 0 && text[0] == '+' {
        text.skip(1)
    } else {
        text
    };
    if body.len() > 0 && all_digits(body) && digits_value(body) <= u64::MAX {
        Some(digits_value(body) as u64)
    } else {
        None
    }
}

/// Where the first `c` of `s` is, or the length of `s` if it has none.
pub open spec fn position_of(s: Seq<char>, c: char) -> int
    decreases s.len(),
{
    if s.len() == 0 {
        0
    } else if s[0] == c {
        0
    } else {
        1 + position_of(s.skip(1), c)
    }
}

/// The millionths that the digits `frac` after a point stand for, rounded
/// to the nearest; half a millionth goes up.
pub open spec fn fraction_millionths(frac: Seq<char>) -> int {
    if frac.len() <= 6 {
        digits_value(frac) * pow10((6 - frac.len()) as nat)
    } else {
        digits_value(frac.take(6)) + if digit_value(frac[6]) >= 5 {
            1int
        } else {
            0int
        }
    }
}

/// The number of millionths that `text` writes as a decimal fraction, if it
/// is one and the number fits 64 bits.
pub open spec fn parsed_millionths(text: Seq<char>) -> Option<i64> {
    let signed = text.len() > 0 && (text[0] == '-' || text[0] == '+');
    let negative = text.len() > 0 && text[0] == '-';
    let body = if signed {
        text.skip(1)
    } else {
        text
    };
    let point = position_of(body, '.');
    let whole = body.take(point);
    let frac = if point < body.len() {
        body.skip(point + 1)
    } else {
        Seq::empty()
    };
    let magnitude = digits_value(whole) * 1_000_000 + fraction_millionths(frac);
    let value = if negative {
        -magnitude
    } else {
        magnitude
    };
    if whole.len() + frac.len() > 0 && all_digits(whole) && all_digits(frac) && i64::MIN <= value
        <= i64::MAX {
        Some(value as i64)
    } else {
        None
    }
}

/// The digits of a number are worth at least as much as any of their
/// beginnings.
pub proof fn lemma_digits_value_grows(s: Seq<char>, k: int)
    requires
        all_digits(s),
        0 <= k <= s.len(),
    ensures
        0 <= digits_value(s.take(k)) <= digits_value(s),
    decreases s.len() - k,
{
    lemma_digits_value_nonnegative(s.take(k));
    if k < s.len() {
        lemma_digits_value_grows(s, k + 1);
        let longer = s.take(k + 1);
        assert(longer.drop_last() =~= s.take(k));
        assert(is_digit(longer.last()));
    } else {
        assert(s.take(k) =~= s);
    }
}

proof fn lemma_digits_value_nonnegative(s: Seq<char>)
    requires
        all_digits(s),
    ensures
        0 <= digits_value(s),
    decreases s.len(),
{
    if s.len() > 0 {
        lemma_digits_value_nonnegative(s.drop_last());
        assert(is_digit(s.last()));
    }
}

fn digit_of(c: char) -> (d: Option<u8>)
    ensures
        match d {
            Some(v) => is_digit(c) && v == digit_value(c) && v <= 9,
            None => !is_digit(c),
        },
{
    if '0' <= c && c <= '9' {
        Some(((c as u32) - ('0' as u32)) as u8)
    } else {
        None
    }
}

/// Reads the digits of `text` from `from` to `to` as a number. `None` where
/// something else than a digit is among them or the number exceeds
/// `limit`.
fn read_digits(text: &Vec<char>, from: usize, to: usize, limit: u128) -> (r: Option<u128>)
    requires
        from <= to <= text.len(),
        limit <= 0xffff_ffff_ffff_ffff_ffff,
    ensures
        match r {
            Some(v) => all_digits(text@.subrange(from as int, to as int)) && v == digits_value(
                text@.subrange(from as int, to as int),
            ) && v <= limit,
            None => !all_digits(text@.subrange(from as int, to as int)) || digits_value(
                text@.subrange(from as int, to as int),
            ) > limit,
        },
{
    let ghost part = text@.subrange(from as int, to as int);
    let mut value: u128 = 0;
    let mut i: usize = from;
    while i < to
        invariant
            from <= i <= to <= text.len(),
            part == text@.subrange(from as int, to as int),
            limit <= 0xffff_ffff_ffff_ffff_ffff,
            all_digits(part.take(i - from)),
            value == digits_value(part.take(i - from)),
            value <= limit,
        decreases to - i,
    {
        let ghost seen = part.take(i - from);
        let ghost next = part.take(i - from + 1);
        assert(next.drop_last() =~= seen);
        assert(next.last() == text@[i as int]);
        match digit_of(text[i]) {
            Some(d) => {
                assert(all_digits(next)) by {
                    assert forall|j: int| 0 <= j < next.len() implies is_digit(
                        #[trigger] next[j],
                    ) by {
                        if j < seen.len() {
                            assert(next[j] == seen[j]);
                        }
                    }
                }
                value = value * 10 + d as u128;
                if value > limit {
                    proof {
                        if all_digits(part) {
                            lemma_digits_value_grows(part, i - from + 1);
                        }
                    }
                    return None;
                }
            },
            None => {
                assert(part[i - from] == text@[i as int]);
                return None;
            },
        }
        i += 1;
    }
    assert(part.take(to - from) =~= part);
    Some(value)
}

/// The whole number that `text` writes, if it writes one.
pub fn parse_u64(text: &str) -> (r: Option<u64>)
    ensures
        r == parsed_u64(text@),
{
    let chars = chars_of(text);
    let start: usize = if chars.len() > 0 && chars[0] == '+' {
        1
    } else {
        0
    };
    assert(chars@.skip(0) =~= chars@);
    if start == chars.len() {
        return None;
    }
    assert(chars@.subrange(start as int, chars.len() as int) =~= chars@.skip(start as int));
    match read_digits(&chars, start, chars.len(), u64::MAX as u128) {
        Some(v) => Some(v as u64),
        None => None,
    }
}

/// Where the first `c` at or after `from` is, or the length of `text` if
/// there is none.
pub fn find_char(text: &Vec<char>, from: usize, c: char) -> (at: usize)
    requires
        from <= text.len(),
    ensures
        from <= at <= text.len(),
        at - from == position_of(text@.skip(from as int), c),
        at < text.len() ==> text@[at as int] == c,
{
    let mut at: usize = from;
    while at < text.len() && text[at] != c
        invariant
            from <= at <= text.len(),
            position_of(text@.skip(from as int), c) == (at - from) + position_of(
                text@.skip(at as int),
                c,
            ),
        decreases text.len() - at,
    {
        assert(text@.skip(at as int)[0] == text@[at as int]);
        assert(text@.skip(at as int).skip(1) =~= text@.skip(at + 1));
        at += 1;
    }
    proof {
        if at < text.len() {
            assert(text@.skip(at as int)[0] == text@[at as int]);
        }
    }
    at
}

/// Reads the digits after the point as millionths.
fn read_fraction(text: &Vec<char>, from: usize) -> (r: Option<u128>)
    requires
        from <= text.len(),
    ensures
        match r {
            Some(v) => all_digits(text@.skip(from as int)) && v == fraction_millionths(
                text@.skip(from as int),
            ) && v <= 1_000_000,
            None => !all_digits(text@.skip(from as int)),
        },
{
    let ghost frac = text@.skip(from as int);
    let count: usize = text.len() - from;
    let kept: usize = if count <= 6 {
        count
    } else {
        6
    };
    assert(text@.subrange(from as int, from + kept) =~= frac.take(kept as int));
    assert(text@.subrange(from + kept, text.len() as int) =~= frac.skip(kept as int));
    let head = match read_digits(text, from, from + kept, 999_999) {
        Some(v) => v,
        None => {
            proof {
                let part = frac.take(kept as int);
                if all_digits(frac) {
                    assert forall|j: int| 0 <= j < part.len() implies is_digit(
                        #[trigger] part[j],
                    ) by {
                        assert(part[j] == frac[j]);
                    }
                    lemma_digits_bounded(part);
                    lemma_pow10_values();
                }
            }
            return None;
        },
    };
    let mut i: usize = from + kept;
    while i < text.len()
        invariant
            from + kept <= i <= text.len(),
            frac == text@.skip(from as int),
            forall|j: int| kept <= j < i - from ==> is_digit(#[trigger] frac[j]),
        decreases text.len() - i,
    {
        assert(frac[i - from] == text@[i as int]);
        match digit_of(text[i]) {
            Some(_) => {},
            None => {
                return None;
            },
        }
        i += 1;
    }
    proof {
        let part = frac.take(kept as int);
        assert forall|j: int| 0 <= j < frac.len() implies is_digit(#[trigger] frac[j]) by {
            if j < kept {
                assert(part[j] == frac[j]);
            }
        }
        lemma_digits_bounded(part);
        lemma_pow10_values();
    }
    if count <= 6 {
        assert(frac.take(kept as int) =~= frac);
        let scale: u128 = pow10_of((6 - count) as u8) as u128;
        assert(head * scale <= 1_000_000) by (nonlinear_arith)
            requires
                head < pow10(count as nat),
                scale == pow10((6 - count) as nat),
                pow10(count as nat) * pow10((6 - count) as nat) == 1_000_000,
                scale >= 1,
        ;
        Some(head * scale)
    } else {
        assert(frac[6] == text@[from + 6]);
        let up: u128 = match digit_of(text[from + 6]) {
            Some(d) => if d >= 5 {
                1
            } else {
                0
            },
            None => 0,
        };
        Some(head + up)
    }
}

/// A number of `s.len()` digits is less than ten to that power, and the
/// powers of ten up to the sixth multiply to a million.
proof fn lemma_digits_bounded(s: Seq<char>)
    requires
        all_digits(s),
    ensures
        0 <= digits_value(s) < pow10(s.len()),
        s.len() <= 6 ==> pow10(s.len()) * pow10((6 - s.len()) as nat) == 1_000_000,
    decreases s.len(),
{
    lemma_pow10_values();
    if s.len() > 0 {
        lemma_digits_bounded(s.drop_last());
        assert(is_digit(s.last()));
    }
    let n = s.len();
    let rest = (6 - n) as nat;
    if n == 0 {
        assert(pow10(n) * pow10(rest) == 1_000_000) by (nonlinear_arith)
            requires
                pow10(n) == 1,
                pow10(rest) == 1_000_000,
        ;
    } else if n == 1 {
        assert(pow10(n) * pow10(rest) == 1_000_000) by (nonlinear_arith)
            requires
                pow10(n) == 10,
                pow10(rest) == 100_000,
        ;
    } else if n == 2 {
        assert(pow10(n) * pow10(rest) == 1_000_000) by (nonlinear_arith)
            requires
                pow10(n) == 100,
                pow10(rest) == 10_000,
        ;
    } else if n == 3 {
        assert(pow10(n) * pow10(rest) == 1_000_000) by (nonlinear_arith)
            requires
                pow10(n) == 1_000,
                pow10(rest) == 1_000,
        ;
    } else if n == 4 {
        assert(pow10(n) * pow10(rest) == 1_000_000) by (nonlinear_arith)
            requires
                pow10(n) == 10_000,
                pow10(rest) == 100,
        ;
    } else if n == 5 {
        assert(pow10(n) * pow10(rest) == 1_000_000) by (nonlinear_arith)
            requires
                pow10(n) == 100_000,
                pow10(rest) == 10,
        ;
    } else if n == 6 {
        assert(pow10(n) * pow10(rest) == 1_000_000) by (nonlinear_arith)
            requires
                pow10(n) == 1_000_000,
                pow10(rest) == 1,
        ;
    }
}

/// The number of millionths that `text` writes as a decimal fraction, if it
/// writes one.
pub fn parse_millionths(text: &str) -> (r: Option<i64>)
    ensures
        r == parsed_millionths(text@),
{
    let chars = chars_of(text);
    let signed = chars.len() > 0 && (chars[0] == '-' || chars[0] == '+');
    let negative = chars.len() > 0 && chars[0] == '-';
    let start: usize = if signed {
        1
    } else {
        0
    };
    assert(chars@.skip(0) =~= chars@);
    let ghost body = chars@.skip(start as int);
    let point = find_char(&chars, start, '.');
    let ghost whole = body.take(point - start);
    let ghost frac = if point < chars.len() {
        body.skip(point - start + 1)
    } else {
        Seq::<char>::empty()
    };
    assert(chars@.subrange(start as int, point as int) =~= whole);
    let frac_start: usize = if point < chars.len() {
        point + 1
    } else {
        point
    };
    assert(chars@.skip(frac_start as int) =~= frac);
    if (point - start) + (chars.len() - frac_start) == 0 {
        return None;
    }
    let limit: u128 = 9_223_372_036_855;
    let units = match read_digits(&chars, start, point, limit) {
        Some(v) => v,
        None => {
            proof {
                if all_digits(whole) && all_digits(frac) {
                    lemma_fraction_nonnegative(frac);
                }
            }
            return None;
        },
    };
    let part = match read_fraction(&chars, frac_start) {
        Some(v) => v,
        None => {
            return None;
        },
    };
    let magnitude: u128 = units * 1_000_000 + part;
    if negative {
        if magnitude > 9_223_372_036_854_775_808 {
            None
        } else if magnitude == 9_223_372_036_854_775_808 {
            Some(i64::MIN)
        } else {
            Some(-(magnitude as i64))
        }
    } else {
        if magnitude > 9_223_372_036_854_775_807 {
            None
        } else {
            Some(magnitude as i64)
        }
    }
}

proof fn lemma_fraction_nonnegative(frac: Seq<char>)
    requires
        all_digits(frac),
    ensures
        0 <= fraction_millionths(frac),
{
    lemma_pow10_values();
    if frac.len() <= 6 {
        lemma_digits_value_nonnegative(frac);
        assert(0 <= digits_value(frac) * pow10((6 - frac.len()) as nat)) by (nonlinear_arith)
            requires
                0 <= digits_value(frac),
                0 < pow10((6 - frac.len()) as nat),
        ;
    } else {
        let head = frac.take(6);
        assert forall|j: int| 0 <= j < head.len() implies is_digit(#[trigger] head[j]) by {
            assert(head[j] == frac[j]);
        }
        lemma_digits_value_nonnegative(head);
    }
}

} // verus!
