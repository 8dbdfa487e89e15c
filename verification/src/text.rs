//! Text rendering of numbers and argument lists.
//!
//! Every quantity in this crate is an integer count of fixed units
//! (microseconds, millionths, picoseconds). This module turns such counts
//! into decimal text with an exact, specified rounding rule, and offers the
//! small string utilities the directive renderers are built from.

use vstd::prelude::*;
use vstd::string::*;
use vstd::arithmetic::div_mod::*;

verus! {

/// The character that stands for a single decimal digit.
pub open spec fn digit_char(d: int) -> char {
    if d == 0 {
        '0'
    } else if d == 1 {
        '1'
    } else if d == 2 {
        '2'
    } else if d == 3 {
        '3'
    } else if d == 4 {
        '4'
    } else if d == 5 {
        '5'
    } else if d == 6 {
        '6'
    } else if d == 7 {
        '7'
    } else if d == 8 {
        '8'
    } else {
        '9'
    }
}

/// The decimal numeral of a natural number, without leading zeros.
pub open spec fn decimal(n: nat) -> Seq<char>
    decreases n,
{
    if n < 10 {
        seq![digit_char(n as int)]
    } else {
        decimal(n / 10).push(digit_char((n % 10) as int))
    }
}

/// The last `width` decimal digits of `n`, padded with zeros on the left.
pub open spec fn padded(n: nat, width: nat) -> Seq<char>
    decreases width,
{
    if width == 0 {
        Seq::empty()
    } else {
        padded(n / 10, (width - 1) as nat).push(digit_char((n % 10) as int))
    }
}

/// Ten to the power `e`.
pub open spec fn pow10(e: nat) -> nat
    decreases e,
{
    if e == 0 {
        1
    } else {
        10 * pow10((e - 1) as nat)
    }
}

/// The views of a list of strings.
pub open spec fn texts(v: Seq<String>) -> Seq<Seq<char>> {
    Seq::new(v.len(), |i: int| v[i]@)
}

/// The text of an optional string.
pub open spec fn opt_text(s: Option<String>) -> Option<Seq<char>> {
    match s {
        Some(t) => Some(t@),
        None => None,
    }
}

/// `parts` written one after another with `sep` between neighbours.
pub open spec fn joined(parts: Seq<Seq<char>>, sep: Seq<char>) -> Seq<char>
    decreases parts.len(),
{
    if parts.len() == 0 {
        Seq::empty()
    } else if parts.len() == 1 {
        parts[0]
    } else {
        joined(parts.drop_last(), sep) + sep + parts.last()
    }
}

/// `magnitude / den`, expressed in units of `10^-places` and rounded to the
/// nearest unit; a value exactly half way between two units goes up.
pub open spec fn scaled_round(magnitude: nat, den: nat, places: nat) -> nat {
    ((2 * magnitude * pow10(places) + den) / (2 * den)) as nat
}

/// The text of the fraction `magnitude / den` with exactly `places` digits
/// after the point, a leading minus sign when `negative` is set.
pub open spec fn fixed_text(negative: bool, magnitude: nat, den: nat, places: nat) -> Seq<char> {
    let q = scaled_round(magnitude, den, places);
    let sign = if negative {
        seq!['-']
    } else {
        Seq::<char>::empty()
    };
    let whole = decimal(q / pow10(places));
    if places == 0 {
        sign + whole
    } else {
        sign + whole + seq!['.'] + padded(q % pow10(places), places)
    }
}

/// The digits of `frac`, padded to `width`, with trailing zeros removed.
pub open spec fn trimmed_fraction(frac: nat, width: nat) -> Seq<char>
    decreases width,
{
    if width == 0 {
        Seq::empty()
    } else if frac % 10 == 0 {
        trimmed_fraction(frac / 10, (width - 1) as nat)
    } else {
        padded(frac, width)
    }
}

/// The shortest decimal text of a count of millionths: the whole part, and
/// a fraction only when there is one.
pub open spec fn plain_text(millionths: nat) -> Seq<char> {
    if millionths % 1_000_000 == 0 {
        decimal(millionths / 1_000_000)
    } else {
        decimal(millionths / 1_000_000) + seq!['.'] + trimmed_fraction(
            millionths % 1_000_000,
            6,
        )
    }
}

/// The shortest decimal text of `magnitude` counted in units of
/// `10^-places`, with a minus sign when `negative` is set.
pub open spec fn trimmed_text(negative: bool, magnitude: nat, places: nat) -> Seq<char> {
    let sign = if negative {
        seq!['-']
    } else {
        Seq::<char>::empty()
    };
    let scale = pow10(places);
    if magnitude % scale == 0 {
        sign + decimal(magnitude / scale)
    } else {
        sign + decimal(magnitude / scale) + seq!['.'] + trimmed_fraction(
            magnitude % scale,
            places,
        )
    }
}

/// The absolute value of an integer.
pub open spec fn magnitude_of(v: int) -> nat {
    if v < 0 {
        (-v) as nat
    } else {
        v as nat
    }
}

/// Text of a count of microseconds as seconds with three decimals.
pub open spec fn seconds_text(micros: int) -> Seq<char> {
    fixed_text(micros < 0, magnitude_of(micros), 1_000_000, 3)
}

/// Text of a count of picoseconds as seconds with three decimals.
pub open spec fn pico_seconds_text(picos: int) -> Seq<char> {
    fixed_text(picos < 0, magnitude_of(picos), 1_000_000_000_000, 3)
}

/// The powers of ten up to the ninth.
pub proof fn lemma_pow10_values()
    ensures
        pow10(0) == 1,
        pow10(1) == 10,
        pow10(2) == 100,
        pow10(3) == 1_000,
        pow10(4) == 10_000,
        pow10(5) == 100_000,
        pow10(6) == 1_000_000,
        pow10(7) == 10_000_000,
        pow10(8) == 100_000_000,
        pow10(9) == 1_000_000_000,
{
    reveal_with_fuel(pow10, 10);
}

/// Ten to the power `e`, for the exponents a rendering can ask for.
pub fn pow10_of(e: u8) -> (r: u64)
    requires
        e <= 9,
    ensures
        r == pow10(e as nat),
        1 <= r <= 1_000_000_000,
{
    proof {
        lemma_pow10_values();
    }
    if e == 0 {
        1
    } else if e == 1 {
        10
    } else if e == 2 {
        100
    } else if e == 3 {
        1_000
    } else if e == 4 {
        10_000
    } else if e == 5 {
        100_000
    } else if e == 6 {
        1_000_000
    } else if e == 7 {
        10_000_000
    } else if e == 8 {
        100_000_000
    } else {
        1_000_000_000
    }
}

fn push_digit(out: &mut String, d: u8)
    requires
        d < 10,
    ensures
        final(out)@ == old(out)@.push(digit_char(d as int)),
{
    proof {
        reveal_strlit("0");
        reveal_strlit("1");
        reveal_strlit("2");
        reveal_strlit("3");
        reveal_strlit("4");
        reveal_strlit("5");
        reveal_strlit("6");
        reveal_strlit("7");
        reveal_strlit("8");
        reveal_strlit("9");
    }
    let ghost before = out@;
    if d == 0 {
        out.append("0");
    } else if d == 1 {
        out.append("1");
    } else if d == 2 {
        out.append("2");
    } else if d == 3 {
        out.append("3");
    } else if d == 4 {
        out.append("4");
    } else if d == 5 {
        out.append("5");
    } else if d == 6 {
        out.append("6");
    } else if d == 7 {
        out.append("7");
    } else if d == 8 {
        out.append("8");
    } else {
        out.append("9");
    }
    assert(out@ =~= before.push(digit_char(d as int)));
}

/// Appends the decimal numeral of `n` to `out`.
pub fn push_decimal(out: &mut String, n: u128)
    ensures
        final(out)@ == old(out)@ + decimal(n as nat),
    decreases n,
{
    let ghost before = out@;
    if n >= 10 {
        push_decimal(out, n / 10);
    }
    push_digit(out, (n % 10) as u8);
    assert(out@ =~= before + decimal(n as nat));
}

/// Appends the last `width` digits of `n` to `out`, zero-padded.
pub fn push_padded(out: &mut String, n: u128, width: u8)
    ensures
        final(out)@ == old(out)@ + padded(n as nat, width as nat),
    decreases width,
{
    let ghost before = out@;
    if width > 0 {
        push_padded(out, n / 10, width - 1);
        push_digit(out, (n % 10) as u8);
    }
    assert(out@ =~= before + padded(n as nat, width as nat));
}

/// The decimal numeral of `n` as a string of its own.
pub fn decimal_string(n: u128) -> (s: String)
    ensures
        s@ == decimal(n as nat),
{
    let mut s = String::new();
    push_decimal(&mut s, n);
    assert(s@ =~= decimal(n as nat));
    s
}

/// Splitting `m / d` into whole part and remainder before scaling gives the
/// same rounded result as scaling first.
proof fn lemma_scaled_round_split(m: nat, d: nat, s: nat)
    requires
        d > 0,
        s > 0,
    ensures
        (2 * m * s + d) / (2 * d) == (m / d) * s + (2 * (m % d) * s + d) / (2 * d),
        (2 * (m % d) * s + d) / (2 * d) <= s,
{
    let w = (m / d) as int;
    let r = (m % d) as int;
    let dd = d as int;
    let ss = s as int;
    lemma_fundamental_div_mod(m as int, dd);
    assert(m == dd * w + r);
    assert(2 * m * s + d == (w * ss) * (2 * dd) + (2 * r * ss + dd)) by (nonlinear_arith)
        requires
            m == dd * w + r,
            s == ss,
            d == dd,
    ;
    assert(0 <= 2 * r * ss + dd) by (nonlinear_arith)
        requires
            0 <= r,
            0 < ss,
            0 < dd,
    ;
    lemma_div_multiples_vanish_quotient(2 * dd, w * ss, 2 * r * ss + dd);
    assert((2 * dd) * (w * ss) + (2 * r * ss + dd) == (w * ss) * (2 * dd) + (2 * r * ss + dd))
        by (nonlinear_arith);
    lemma_hoist_over_denominator(2 * r * ss + dd, w * ss, (2 * dd) as nat);
    assert(2 * r * ss + dd < (ss + 1) * (2 * dd)) by (nonlinear_arith)
        requires
            0 <= r < dd,
            0 < ss,
    ;
    lemma_div_by_multiple_is_strongly_ordered_helper(2 * r * ss + dd, ss + 1, 2 * dd);
}

/// If `x < k * d` then `x / d < k`.
proof fn lemma_div_by_multiple_is_strongly_ordered_helper(x: int, k: int, d: int)
    requires
        0 <= x < k * d,
        d > 0,
    ensures
        x / d < k,
{
    lemma_fundamental_div_mod(x, d);
    lemma_mod_bound(x, d);
    let q = x / d;
    assert(q < k) by (nonlinear_arith)
        requires
            x == d * q + x % d,
            0 <= x % d < d,
            x < k * d,
            d > 0,
    ;
}

/// Appends the text of `magnitude / den` with `places` decimals to `out`.
pub fn push_fixed(out: &mut String, negative: bool, magnitude: u128, den: u64, places: u8)
    requires
        den > 0,
        places <= 9,
    ensures
        final(out)@ == old(out)@ + fixed_text(
            negative,
            magnitude as nat,
            den as nat,
            places as nat,
        ),
{
    let ghost before = out@;
    let scale: u128 = pow10_of(places) as u128;
    let d: u128 = den as u128;
    let whole: u128 = magnitude / d;
    let rem: u128 = magnitude % d;
    assert(2 * rem * scale + d <= 0xffff_ffff_ffff_ffff_ffff_ffff_ffff_ffff) by (nonlinear_arith)
        requires
            rem < d,
            d < 0x1_0000_0000_0000_0000,
            scale <= 1_000_000_000,
    ;
    assert(2 * rem * scale <= 0xffff_ffff_ffff_ffff_ffff_ffff_ffff_ffff) by (nonlinear_arith)
        requires
            rem < d,
            d < 0x1_0000_0000_0000_0000,
            scale <= 1_000_000_000,
    ;
    assert(2 * rem <= 0xffff_ffff_ffff_ffff_ffff_ffff_ffff_ffff);
    let frac: u128 = (2 * rem * scale + d) / (2 * d);
    proof {
        lemma_scaled_round_split(magnitude as nat, den as nat, scale as nat);
        assert(frac <= scale);
    }
    let ghost q = scaled_round(magnitude as nat, den as nat, places as nat);
    assert(q == whole * scale + frac);
    let carry: bool = frac == scale;
    proof {
        if carry {
            // a remainder that rounds up to a whole unit needs a denominator of at least two
            assert(d >= 2) by {
                if d == 1 {
                    assert(rem == 0);
                    assert(2 * rem * scale == 0) by (nonlinear_arith)
                        requires
                            rem == 0,
                    ;
                    assert(2 * rem * scale + d == 1);
                    assert(1u128 / 2u128 == 0);
                    assert(frac == 0);
                }
            }
            assert(whole <= magnitude / 2) by {
                lemma_div_is_ordered_by_denominator(magnitude as int, 2, d as int);
            }
        }
    }
    let shown_whole: u128 = if carry {
        whole + 1
    } else {
        whole
    };
    let shown_frac: u128 = if carry {
        0
    } else {
        frac
    };
    proof {
        let s = scale as int;
        if carry {
            assert(q == (whole + 1) * s + 0) by (nonlinear_arith)
                requires
                    q == whole * scale + frac,
                    frac == scale,
                    s == scale,
            ;
            lemma_fundamental_div_mod_converse(q as int, s, (whole + 1) as int, 0);
        } else {
            assert(q == s * whole + frac) by (nonlinear_arith)
                requires
                    q == whole * scale + frac,
                    s == scale,
            ;
            lemma_fundamental_div_mod_converse(q as int, s, whole as int, frac as int);
        }
        assert(q / pow10(places as nat) == shown_whole);
        assert(q % pow10(places as nat) == shown_frac);
    }
    if negative {
        out.append("-");
    }
    proof {
        reveal_strlit("-");
        reveal_strlit(".");
    }
    push_decimal(out, shown_whole);
    if places > 0 {
        out.append(".");
        push_padded(out, shown_frac, places);
    }
    assert(out@ =~= before + fixed_text(
        negative,
        magnitude as nat,
        den as nat,
        places as nat,
    ));
}

/// The absolute value of `v`, which always fits the unsigned type.
pub fn magnitude(v: i128) -> (m: u128)
    ensures
        m == magnitude_of(v as int),
{
    if v >= 0 {
        v as u128
    } else {
        let below: i128 = -(v + 1);
        (below as u128) + 1
    }
}

/// Appends a count of microseconds, written as seconds with three decimals.
pub fn push_seconds(out: &mut String, micros: i128)
    ensures
        final(out)@ == old(out)@ + seconds_text(micros as int),
{
    push_fixed(out, micros < 0, magnitude(micros), 1_000_000, 3);
}

/// Appends a count of picoseconds, written as seconds with three decimals.
pub fn push_pico_seconds(out: &mut String, picos: i128)
    ensures
        final(out)@ == old(out)@ + pico_seconds_text(picos as int),
{
    push_fixed(out, picos < 0, magnitude(picos), 1_000_000_000_000, 3);
}

fn push_trimmed_fraction(out: &mut String, frac: u64, width: u8)
    ensures
        final(out)@ == old(out)@ + trimmed_fraction(frac as nat, width as nat),
    decreases width,
{
    let ghost before = out@;
    if width == 0 {
    } else if frac % 10 == 0 {
        push_trimmed_fraction(out, frac / 10, width - 1);
    } else {
        push_padded(out, frac as u128, width);
    }
    assert(out@ =~= before + trimmed_fraction(frac as nat, width as nat));
}

/// Appends the shortest decimal text of a count of millionths.
pub fn push_plain(out: &mut String, millionths: u64)
    ensures
        final(out)@ == old(out)@ + plain_text(millionths as nat),
{
    let ghost before = out@;
    proof {
        reveal_strlit(".");
    }
    push_decimal(out, (millionths / 1_000_000) as u128);
    if millionths % 1_000_000 != 0 {
        out.append(".");
        push_trimmed_fraction(out, millionths % 1_000_000, 6);
    }
    assert(out@ =~= before + plain_text(millionths as nat));
}

/// Appends the shortest decimal text of `magnitude` counted in units of
/// `10^-places`.
pub fn push_trimmed(out: &mut String, negative: bool, magnitude: u128, places: u8)
    requires
        places <= 9,
    ensures
        final(out)@ == old(out)@ + trimmed_text(negative, magnitude as nat, places as nat),
{
    let ghost before = out@;
    proof {
        reveal_strlit(".");
        reveal_strlit("-");
    }
    let scale: u128 = pow10_of(places) as u128;
    if negative {
        out.append("-");
    }
    push_decimal(out, magnitude / scale);
    if magnitude % scale != 0 {
        out.append(".");
        push_trimmed_fraction(out, (magnitude % scale) as u64, places);
    }
    assert(out@ =~= before + trimmed_text(negative, magnitude as nat, places as nat));
}

/// Adds a copy of `text` at the end of `list`.
pub fn push_text(list: &mut Vec<String>, text: &str)
    ensures
        texts(final(list)@) == texts(old(list)@).push(text@),
{
    let ghost before = list@;
    let owned = String::from_str(text);
    list.push(owned);
    assert(texts(list@) =~= texts(before).push(text@));
}

/// Adds `text` at the end of `list`.
pub fn push_owned(list: &mut Vec<String>, text: String)
    ensures
        texts(final(list)@) == texts(old(list)@).push(text@),
{
    let ghost before = list@;
    let ghost t = text@;
    list.push(text);
    assert(texts(list@) =~= texts(before).push(t));
}

/// A copy of `list`.
pub fn copy_texts(list: &Vec<String>) -> (copy: Vec<String>)
    ensures
        texts(copy@) == texts(list@),
{
    let mut copy: Vec<String> = Vec::new();
    let mut i: usize = 0;
    while i < list.len()
        invariant
            i <= list.len(),
            copy.len() == i,
            forall|j: int| 0 <= j < i ==> copy@[j]@ == list@[j]@,
        decreases list.len() - i,
    {
        copy.push(list[i].clone());
        i += 1;
    }
    assert(texts(copy@) =~= texts(list@));
    copy
}

/// Whether `a` holds exactly the characters of `b`.
pub fn is_text(a: &String, b: &str) -> (r: bool)
    ensures
        r == (a@ == b@),
{
    let other = String::from_str(b);
    *a == other
}

pub proof fn lemma_joined_push(parts: Seq<Seq<char>>, sep: Seq<char>, next: Seq<char>)
    ensures
        joined(parts.push(next), sep) == if parts.len() == 0 {
            next
        } else {
            joined(parts, sep) + sep + next
        },
{
    let all = parts.push(next);
    assert(all.drop_last() =~= parts);
    assert(all.last() == next);
    if parts.len() == 0 {
        assert(all[0] == next);
    }
}

/// The strings of `parts` in order, with `sep` between neighbours.
pub fn join(parts: &Vec<String>, sep: &str) -> (out: String)
    ensures
        out@ == joined(texts(parts@), sep@),
{
    let mut out = String::new();
    let mut i: usize = 0;
    while i < parts.len()
        invariant
            i <= parts.len(),
            out@ == joined(texts(parts@).take(i as int), sep@),
        decreases parts.len() - i,
    {
        let ghost done = texts(parts@).take(i as int);
        proof {
            lemma_joined_push(done, sep@, parts@[i as int]@);
            assert(texts(parts@).take(i + 1) =~= done.push(parts@[i as int]@));
        }
        let ghost before = out@;
        if i > 0 {
            out.append(sep);
        }
        out.append(parts[i].as_str());
        assert(out@ =~= joined(texts(parts@).take(i + 1), sep@));
        i += 1;
    }
    assert(texts(parts@).take(parts.len() as int) =~= texts(parts@));
    out
}


/// Whether `a` comes strictly before `b` when both are compared byte by
/// byte: at the first position where they differ the smaller byte decides,
/// and a proper prefix comes before what extends it.
pub open spec fn bytes_less(a: Seq<u8>, b: Seq<u8>) -> bool
    decreases a.len(),
{
    if b.len() == 0 {
        false
    } else if a.len() == 0 {
        true
    } else if a[0] != b[0] {
        a[0] < b[0]
    } else {
        bytes_less(a.skip(1), b.skip(1))
    }
}

/// Whether the text `a` comes strictly before the text `b` in the byte-wise
/// order of their UTF-8 encodings.
pub open spec fn text_less(a: Seq<char>, b: Seq<char>) -> bool {
    bytes_less(vstd::utf8::encode_utf8(a), vstd::utf8::encode_utf8(b))
}

/// No byte string comes before itself.
pub proof fn lemma_bytes_less_irreflexive(a: Seq<u8>)
    ensures
        !bytes_less(a, a),
    decreases a.len(),
{
    if a.len() > 0 {
        lemma_bytes_less_irreflexive(a.skip(1));
    }
}

/// Of two different byte strings one comes before the other.
pub proof fn lemma_bytes_less_total(a: Seq<u8>, b: Seq<u8>)
    ensures
        bytes_less(a, b) || bytes_less(b, a) || a == b,
        !(bytes_less(a, b) && bytes_less(b, a)),
    decreases a.len(),
{
    if a.len() == 0 || b.len() == 0 {
        if a.len() == 0 && b.len() == 0 {
            assert(a =~= b);
        }
    } else if a[0] == b[0] {
        lemma_bytes_less_total(a.skip(1), b.skip(1));
        if a.skip(1) == b.skip(1) {
            assert(a =~= seq![a[0]] + a.skip(1));
            assert(b =~= seq![b[0]] + b.skip(1));
        }
    }
}

/// The byte-wise order is transitive.
pub proof fn lemma_bytes_less_transitive(a: Seq<u8>, b: Seq<u8>, c: Seq<u8>)
    requires
        bytes_less(a, b),
        bytes_less(b, c),
    ensures
        bytes_less(a, c),
    decreases a.len(),
{
    if a.len() > 0 && a[0] == b[0] && b[0] == c[0] {
        lemma_bytes_less_transitive(a.skip(1), b.skip(1), c.skip(1));
    }
}

/// Two texts with the same encoding are the same text.
pub proof fn lemma_encoding_injective(a: Seq<char>, b: Seq<char>)
    requires
        vstd::utf8::encode_utf8(a) == vstd::utf8::encode_utf8(b),
    ensures
        a == b,
{
    vstd::utf8::encode_utf8_decode_utf8(a);
    vstd::utf8::encode_utf8_decode_utf8(b);
}

/// Whether `a` comes strictly before `b` in byte-wise order.
#[verifier::loop_isolation(false)]
pub fn is_text_less(a: &str, b: &str) -> (r: bool)
    ensures
        r == text_less(a@, b@),
{
    let x = a.as_bytes();
    let y = b.as_bytes();
    let mut i: usize = 0;
    assert(x@.skip(0) =~= x@);
    assert(y@.skip(0) =~= y@);
    while i < x.len() && i < y.len()
        invariant
            i <= x.len(),
            i <= y.len(),
            bytes_less(x@, y@) == bytes_less(x@.skip(i as int), y@.skip(i as int)),
        decreases x.len() - i,
    {
        let ghost xs = x@.skip(i as int);
        let ghost ys = y@.skip(i as int);
        assert(xs[0] == x@[i as int]);
        assert(ys[0] == y@[i as int]);
        if x[i] != y[i] {
            return x[i] < y[i];
        }
        assert(xs.skip(1) =~= x@.skip(i + 1));
        assert(ys.skip(1) =~= y@.skip(i + 1));
        i += 1;
    }
    i < y.len()
}


/// Moves the strings of `more` to the end of `list`.
pub fn push_all(list: &mut Vec<String>, more: Vec<String>)
    ensures
        texts(final(list)@) == texts(old(list)@) + texts(more@),
{
    let ghost before = list@;
    let ghost added = more@;
    let mut more = more;
    list.append(&mut more);
    assert(texts(list@) =~= texts(before) + texts(added));
}

} // verus!
