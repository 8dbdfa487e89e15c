//! The audio tempo chain.
//!
//! An audio tempo stage can change the speed by a factor between one half
//! and two only. A larger or smaller factor is reached by a chain of
//! stages: as many doublings or halvings as it takes to bring what remains
//! into that range, then one stage for the rest.

use vstd::prelude::*;
use vstd::string::*;
use crate::model::MILLION;
use crate::text::{fixed_text, push_fixed};

verus! {

/// One stage of the chain.
#[derive(Clone, Copy, Debug, PartialEq, Eq, Structural)]
pub enum TempoStep {
    /// Twice as fast.
    Double,
    /// Half as fast.
    Halve,
    /// Faster by the factor `num / den`.
    Ratio { num: u64, den: u64 },
}

/// What a reduction arrives at: the stages applied, and the factor
/// `num / den` that remains to be applied.
pub struct Reduction {
    pub steps: Seq<TempoStep>,
    pub num: int,
    pub den: int,
}

/// Whether the factor `num / den` differs from one by more than a
/// thousandth.
pub open spec fn is_off_unity(num: int, den: int) -> bool {
    1000 * (num - den) > den || 1000 * (den - num) > den
}

/// Whether a speed in millionths differs from unchanged playback by more
/// than a thousandth.
pub open spec fn is_retimed(speed: int) -> bool {
    is_off_unity(speed, MILLION as int)
}

/// Halving while the remaining factor is below one half.
pub open spec fn reduce_slow(num: int, den: int) -> Reduction
    decreases den - num,
{
    if num > 0 && 2 * num < den {
        let rest = reduce_slow(2 * num, den);
        Reduction { steps: seq![TempoStep::Halve] + rest.steps, num: rest.num, den: rest.den }
    } else {
        Reduction { steps: Seq::empty(), num, den }
    }
}

/// Doubling while the remaining factor is above two, then halving while it
/// is below one half.
pub open spec fn reduce(num: int, den: int) -> Reduction
    decreases num - den,
{
    if den > 0 && num > 2 * den {
        let rest = reduce(num, 2 * den);
        Reduction { steps: seq![TempoStep::Double] + rest.steps, num: rest.num, den: rest.den }
    } else {
        reduce_slow(num, den)
    }
}

/// The stage for what remains, if it is worth one.
pub open spec fn last_step(num: int, den: int) -> Seq<TempoStep> {
    if is_off_unity(num, den) {
        seq![TempoStep::Ratio { num: num as u64, den: den as u64 }]
    } else {
        Seq::empty()
    }
}

/// The chain for a speed in millionths: none for a speed within a
/// thousandth of unchanged playback; else the doublings or halvings, and a
/// last stage for the rest unless the rest is within a thousandth of one.
pub open spec fn tempo_steps(speed: int) -> Seq<TempoStep> {
    if is_retimed(speed) {
        let r = reduce(speed, MILLION as int);
        r.steps + last_step(r.num, r.den)
    } else {
        Seq::empty()
    }
}

/// How many of `steps` are `step`.
pub open spec fn count_of(steps: Seq<TempoStep>, step: TempoStep) -> nat
    decreases steps.len(),
{
    if steps.len() == 0 {
        0
    } else {
        count_of(steps.drop_first(), step) + if steps[0] == step {
            1nat
        } else {
            0nat
        }
    }
}

/// Two to the power `e`.
pub open spec fn pow2(e: nat) -> int
    decreases e,
{
    if e == 0 {
        1
    } else {
        2 * pow2((e - 1) as nat)
    }
}

proof fn lemma_reduce_slow_in_range(num: int, den: int)
    requires
        num > 0,
        den > 0,
        num <= 2 * den,
    ensures
        ({
            let r = reduce_slow(num, den);
            r.den <= 2 * r.num && r.num <= 2 * r.den && r.num > 0 && r.den > 0
        }),
    decreases den - num,
{
    if 2 * num < den {
        lemma_reduce_slow_in_range(2 * num, den);
    }
}

/// For every positive factor the reduction ends, and what remains lies
/// between one half and two.
pub proof fn lemma_reduction_in_range(num: int, den: int)
    requires
        num > 0,
        den > 0,
    ensures
        ({
            let r = reduce(num, den);
            r.den <= 2 * r.num && r.num <= 2 * r.den && r.num > 0 && r.den > 0
        }),
    decreases num - den,
{
    if num > 2 * den {
        lemma_reduction_in_range(num, 2 * den);
    } else {
        lemma_reduce_slow_in_range(num, den);
    }
}

/// For every positive speed, what remains after the doublings and halvings
/// of its chain lies between one half and two.
pub proof fn lemma_tempo_remainder_in_range(speed: int)
    requires
        speed > 0,
    ensures
        ({
            let r = reduce(speed, MILLION as int);
            r.den <= 2 * r.num && r.num <= 2 * r.den
        }),
{
    lemma_reduction_in_range(speed, MILLION as int);
}

proof fn lemma_count_prepend(step: TempoStep, rest: Seq<TempoStep>, what: TempoStep)
    ensures
        count_of(seq![step] + rest, what) == count_of(rest, what) + if step == what {
            1nat
        } else {
            0nat
        },
{
    let all = seq![step] + rest;
    assert(all.drop_first() =~= rest);
}

proof fn lemma_reduce_slow_exact(num: int, den: int)
    requires
        num > 0,
        den > 0,
    ensures
        ({
            let r = reduce_slow(num, den);
            &&& r.den == den
            &&& r.num == num * pow2(count_of(r.steps, TempoStep::Halve))
            &&& count_of(r.steps, TempoStep::Double) == 0
        }),
    decreases den - num,
{
    if 2 * num < den {
        lemma_reduce_slow_exact(2 * num, den);
        let rest = reduce_slow(2 * num, den);
        lemma_count_prepend(TempoStep::Halve, rest.steps, TempoStep::Halve);
        lemma_count_prepend(TempoStep::Halve, rest.steps, TempoStep::Double);
        let m = count_of(rest.steps, TempoStep::Halve);
        assert(pow2(m + 1) == 2 * pow2(m));
        assert((2 * num) * pow2(m) == num * (2 * pow2(m))) by (nonlinear_arith);
    } else {
        assert(num * 1 == num);
    }
}

/// The stages of a reduction and what remains make up the factor that was
/// to be reached: each doubling is in the denominator of the rest, each
/// halving in its numerator.
pub proof fn lemma_reduction_exact(num: int, den: int)
    requires
        num > 0,
        den > 0,
    ensures
        ({
            let r = reduce(num, den);
            &&& r.den == den * pow2(count_of(r.steps, TempoStep::Double))
            &&& r.num == num * pow2(count_of(r.steps, TempoStep::Halve))
        }),
    decreases num - den,
{
    if num > 2 * den {
        lemma_reduction_exact(num, 2 * den);
        let rest = reduce(num, 2 * den);
        lemma_count_prepend(TempoStep::Double, rest.steps, TempoStep::Halve);
        lemma_count_prepend(TempoStep::Double, rest.steps, TempoStep::Double);
        let k = count_of(rest.steps, TempoStep::Double);
        assert(pow2(k + 1) == 2 * pow2(k));
        assert((2 * den) * pow2(k) == den * (2 * pow2(k))) by (nonlinear_arith);
    } else {
        lemma_reduce_slow_exact(num, den);
        assert(den * 1 == den);
    }
}

/// Whether a speed in millionths differs from unchanged playback by more
/// than a thousandth.
pub fn speed_is_retimed(speed: i64) -> (r: bool)
    ensures
        r == is_retimed(speed as int),
{
    let s: i128 = speed as i128;
    let unit: i128 = MILLION as i128;
    1000 * (s - unit) > unit || 1000 * (unit - s) > unit
}

/// The audio tempo chain for a clip that plays at `speed` millionths of its
/// natural speed.
pub fn audio_tempo_steps(speed: i64) -> (steps: Vec<TempoStep>)
    requires
        speed > 0,
    ensures
        steps@ == tempo_steps(speed as int),
        has_denominators(steps@),
        within_stage_range(steps@),
{
    proof {
        lemma_tempo_steps_have_denominators(speed as int);
        lemma_tempo_steps_within_range(speed as int);
    }
    let mut steps: Vec<TempoStep> = Vec::new();
    if !speed_is_retimed(speed) {
        return steps;
    }
    let ghost goal = reduce(speed as int, MILLION as int);
    let num: u64 = speed as u64;
    let mut den: u64 = MILLION as u64;
    while den <= num / 2 && num > 2 * den
        invariant
            0 < den,
            0 < num < 0x8000_0000_0000_0000,
            den <= num || den == MILLION,
            goal.steps == steps@ + reduce(num as int, den as int).steps,
            goal.num == reduce(num as int, den as int).num,
            goal.den == reduce(num as int, den as int).den,
        decreases num - den,
    {
        let ghost before = steps@;
        let ghost rest = reduce(num as int, 2 * den);
        steps.push(TempoStep::Double);
        assert(steps@ + rest.steps =~= before + (seq![TempoStep::Double] + rest.steps));
        den = den * 2;
    }
    assert(!(num > 2 * den));
    let mut rest_num: u64 = num;
    while rest_num < den && 2 * rest_num < den
        invariant
            0 < rest_num < 0x8000_0000_0000_0000,
            0 < den < 0x8000_0000_0000_0000,
            goal.steps == steps@ + reduce_slow(rest_num as int, den as int).steps,
            goal.num == reduce_slow(rest_num as int, den as int).num,
            goal.den == reduce_slow(rest_num as int, den as int).den,
        decreases den - rest_num,
    {
        let ghost before = steps@;
        let ghost rest = reduce_slow(2 * rest_num, den as int);
        steps.push(TempoStep::Halve);
        assert(steps@ + rest.steps =~= before + (seq![TempoStep::Halve] + rest.steps));
        rest_num = rest_num * 2;
    }
    assert(goal.steps =~= steps@);
    let n: i128 = rest_num as i128;
    let d: i128 = den as i128;
    if 1000 * (n - d) > d || 1000 * (d - n) > d {
        steps.push(TempoStep::Ratio { num: rest_num, den });
    }
    assert(steps@ =~= goal.steps + last_step(goal.num, goal.den));
    steps
}

/// The text of one stage as an audio filter, the factor of a `Ratio` stage
/// written with `places` decimals.
pub open spec fn tempo_filter_text(step: TempoStep, places: nat) -> Seq<char> {
    match step {
        TempoStep::Double => "atempo=2.0"@,
        TempoStep::Halve => "atempo=0.5"@,
        TempoStep::Ratio { num, den } => "atempo="@ + fixed_text(
            false,
            num as nat,
            den as nat,
            places,
        ),
    }
}

/// The texts of the stages of a chain.
pub open spec fn tempo_filter_texts(steps: Seq<TempoStep>, places: nat) -> Seq<Seq<char>> {
    Seq::new(steps.len(), |i: int| tempo_filter_text(steps[i], places))
}

/// Whether every `Ratio` stage of `steps` has a denominator.
pub open spec fn has_denominators(steps: Seq<TempoStep>) -> bool {
    forall|i: int|
        0 <= i < steps.len() ==> match #[trigger] steps[i] {
            TempoStep::Ratio { num, den } => den > 0,
            _ => true,
        }
}

/// Whether every `Ratio` stage of `steps` is a factor between one half and
/// two.
pub open spec fn within_stage_range(steps: Seq<TempoStep>) -> bool {
    forall|i: int|
        0 <= i < steps.len() ==> match #[trigger] steps[i] {
            TempoStep::Ratio { num, den } => den <= 2 * num && num <= 2 * den,
            _ => true,
        }
}

/// Every stage of the chain of a positive speed is one that a tempo stage
/// can do: a doubling, a halving, or a factor between one half and two.
pub proof fn lemma_tempo_steps_within_range(speed: int)
    requires
        0 < speed <= i64::MAX,
    ensures
        within_stage_range(tempo_steps(speed)),
{
    lemma_reduction_plain_only(speed, MILLION as int);
    lemma_reduction_bounded(speed, MILLION as int);
    lemma_reduction_in_range(speed, MILLION as int);
    let r = reduce(speed, MILLION as int);
    let all = tempo_steps(speed);
    assert forall|i: int| 0 <= i < all.len() implies match #[trigger] all[i] {
        TempoStep::Ratio { num, den } => den <= 2 * num && num <= 2 * den,
        _ => true,
    } by {
        if i < r.steps.len() {
            assert(all[i] == r.steps[i]);
            assert(!(r.steps[i] is Ratio));
        } else {
            assert(all[i] == last_step(r.num, r.den)[i - r.steps.len()]);
        }
    }
}

proof fn lemma_reduce_slow_plain_only(num: int, den: int)
    ensures
        forall|i: int|
            0 <= i < reduce_slow(num, den).steps.len() ==> !((#[trigger] reduce_slow(
                num,
                den,
            ).steps[i]) is Ratio),
    decreases den - num,
{
    if num > 0 && 2 * num < den {
        lemma_reduce_slow_plain_only(2 * num, den);
        let rest = reduce_slow(2 * num, den);
        let all = seq![TempoStep::Halve] + rest.steps;
        assert forall|i: int| 0 <= i < all.len() implies !((#[trigger] all[i]) is Ratio) by {
            if i > 0 {
                assert(all[i] == rest.steps[i - 1]);
            }
        }
    }
}

/// The stages before the last are doublings and halvings only.
proof fn lemma_reduction_plain_only(num: int, den: int)
    ensures
        forall|i: int|
            0 <= i < reduce(num, den).steps.len() ==> !((#[trigger] reduce(num, den).steps[i])
                is Ratio),
    decreases num - den,
{
    if den > 0 && num > 2 * den {
        lemma_reduction_plain_only(num, 2 * den);
        let rest = reduce(num, 2 * den);
        let all = seq![TempoStep::Double] + rest.steps;
        assert forall|i: int| 0 <= i < all.len() implies !((#[trigger] all[i]) is Ratio) by {
            if i > 0 {
                assert(all[i] == rest.steps[i - 1]);
            }
        }
    } else {
        lemma_reduce_slow_plain_only(num, den);
    }
}

/// The chain of a positive speed divides by nothing but positive numbers.
pub proof fn lemma_tempo_steps_have_denominators(speed: int)
    requires
        0 < speed <= i64::MAX,
    ensures
        has_denominators(tempo_steps(speed)),
{
    lemma_reduction_plain_only(speed, MILLION as int);
    lemma_reduction_bounded(speed, MILLION as int);
    let r = reduce(speed, MILLION as int);
    let all = tempo_steps(speed);
    assert forall|i: int| 0 <= i < all.len() implies match #[trigger] all[i] {
        TempoStep::Ratio { num, den } => den > 0,
        _ => true,
    } by {
        if i < r.steps.len() {
            assert(all[i] == r.steps[i]);
            assert(!(r.steps[i] is Ratio));
        } else {
            assert(all[i] == last_step(r.num, r.den)[i - r.steps.len()]);
        }
    }
}

proof fn lemma_reduce_slow_bounded(num: int, den: int)
    requires
        0 < num,
        0 < den,
    ensures
        reduce_slow(num, den).den == den,
        reduce_slow(num, den).num <= if num > den {
            num
        } else {
            den
        },
    decreases den - num,
{
    if 2 * num < den {
        lemma_reduce_slow_bounded(2 * num, den);
    }
}

/// What remains of a reduction is no larger than what it started from.
proof fn lemma_reduction_bounded(num: int, den: int)
    requires
        0 < num,
        0 < den,
    ensures
        0 < reduce(num, den).den <= if num > den {
            num
        } else {
            den
        },
        reduce(num, den).num <= if num > den {
            num
        } else {
            den
        },
    decreases num - den,
{
    if num > 2 * den {
        lemma_reduction_bounded(num, 2 * den);
    } else {
        lemma_reduce_slow_bounded(num, den);
    }
}

/// Appends the text of one stage to `out`.
pub fn push_tempo_filter(out: &mut String, step: TempoStep, places: u8)
    requires
        places <= 9,
        step matches TempoStep::Ratio { num, den } ==> den > 0,
    ensures
        final(out)@ == old(out)@ + tempo_filter_text(step, places as nat),
{
    match step {
        TempoStep::Double => {
            out.append("atempo=2.0");
        },
        TempoStep::Halve => {
            out.append("atempo=0.5");
        },
        TempoStep::Ratio { num, den } => {
            let ghost before = out@;
            out.append("atempo=");
            push_fixed(out, false, num as u128, den, places);
            assert(out@ =~= before + tempo_filter_text(step, places as nat));
        },
    }
}

} // verus!
