//! The exponential-decay filter that moves a crop dimension toward its
//! target, and what is proved of it.
//!
//! `decay` stands for `exp(-friction)` as a fixed-point ratio between zero
//! and one.  Each frame the filter covers that share of the remaining
//! distance, rounded toward zero, and never steps past the target.

use crate::fixed::{div_toward_zero, floor_div, magnitude, ONE};
use vstd::arithmetic::power2::{lemma_pow2_pos, lemma_pow2_unfold, pow2};
use vstd::prelude::*;

verus! {

/// `exp(-4)` in fixed point: the decay of the standard friction.
pub const STANDARD_DECAY: i64 = 18_316;

/// The step that the filter takes from `current` toward `target`.
pub open spec fn displacement(target: int, current: int, decay: int) -> int {
    div_toward_zero((target - current) * decay, ONE as int)
}

/// The place that one step of the filter leads to from `current`.
pub open spec fn approach(current: int, target: int, decay: int) -> int {
    current + displacement(target, current, decay)
}

/// One frame of the filter, followed by the overshoot guard.
///
/// The step is taken only while the camera is `active` (zooming in or
/// out).  While zooming in the result is kept at or above the target,
/// otherwise at or below it.
pub open spec fn settle(current: int, target: int, decay: int, active: bool, zooming_in: bool) -> int {
    let moved = if active {
        approach(current, target, decay)
    } else {
        current
    };
    if zooming_in {
        if moved >= target {
            moved
        } else {
            target
        }
    } else {
        if moved <= target {
            moved
        } else {
            target
        }
    }
}

/// `frames` frames of an active filter with the target held fixed.
pub open spec fn settle_n(current: int, target: int, decay: int, zooming_in: bool, frames: nat) -> int
    decreases frames,
{
    if frames == 0 {
        current
    } else {
        settle(
            settle_n(current, target, decay, zooming_in, (frames - 1) as nat),
            target,
            decay,
            true,
            zooming_in,
        )
    }
}

/// How far `current` is from the band around `target` in which a step
/// rounds to nothing, scaled by `decay`: `|current - target| * decay - ONE`,
/// or zero inside the band.
pub open spec fn excess(current: int, target: int, decay: int) -> int {
    let e = magnitude(current - target) * decay - ONE;
    if e > 0 {
        e
    } else {
        0
    }
}

/// The number of frames after which the excess has at least halved: the
/// reciprocal of `decay`, rounded up.
pub open spec fn frames_to_halve(decay: int) -> int {
    (ONE + decay - 1) / decay
}

/// The step of a damped spring: the velocity after the spring has pulled
/// toward the target with `tension` and the damper has held back with
/// `friction`.  A spring that was asked to move only downward
/// (`direction` below zero) stands still below its target, and one that
/// was asked to move only upward stands still above it.
pub open spec fn spring_step(
    target: int,
    current: int,
    velocity: int,
    tension: int,
    friction: int,
    direction: int,
) -> int {
    if (direction < 0 && current < target) || (direction > 0 && current > target) {
        0
    } else {
        velocity + div_toward_zero((target - current) * tension - velocity * friction, ONE as int)
    }
}

/// The displacement of one frame of a damped spring.
///
/// Tension and friction may be any fixed-point numbers; only the step
/// itself has to fit.
pub fn spring_animation(
    target: i64,
    current: i64,
    velocity: i64,
    tension: i64,
    friction: i64,
    direction: i64,
) -> (step: i64)
    requires
        i64::MIN <= spring_step(
            target as int,
            current as int,
            velocity as int,
            tension as int,
            friction as int,
            direction as int,
        ) <= i64::MAX,
    ensures
        step == spring_step(
            target as int,
            current as int,
            velocity as int,
            tension as int,
            friction as int,
            direction as int,
        ),
{
    if (direction < 0 && current < target) || (direction > 0 && current > target) {
        return 0;
    }
    let spring_force: i128 = target as i128 - current as i128;
    assert(-0x7fff_ffff_ffff_ffff_8000_0000_0000_0000 <= spring_force * tension
        <= 0x7fff_ffff_ffff_ffff_8000_0000_0000_0000) by (nonlinear_arith)
        requires
            -0xffff_ffff_ffff_ffff <= spring_force <= 0xffff_ffff_ffff_ffff,
            -0x8000_0000_0000_0000 <= tension <= 0x7fff_ffff_ffff_ffff,
    ;
    assert(-0x4000_0000_0000_0000_0000_0000_0000_0000 <= velocity * friction
        <= 0x4000_0000_0000_0000_0000_0000_0000_0000) by (nonlinear_arith)
        requires
            -0x8000_0000_0000_0000 <= velocity <= 0x7fff_ffff_ffff_ffff,
            -0x8000_0000_0000_0000 <= friction <= 0x7fff_ffff_ffff_ffff,
    ;
    let pull: i128 = spring_force * (tension as i128);
    let drag: i128 = (velocity as i128) * (friction as i128);
    // pull - drag may not fit; its quotient by ONE is taken from the
    // quotients and remainders of the two.
    let pull_whole: i128 = floor_div(pull, ONE as i128);
    let drag_whole: i128 = floor_div(drag, ONE as i128);
    let pull_rest: i128 = pull - pull_whole * (ONE as i128);
    let drag_rest: i128 = drag - drag_whole * (ONE as i128);
    let rest: i128 = pull_rest - drag_rest;
    let whole: i128 = pull_whole - drag_whole;
    let floor: i128 = if rest < 0 {
        whole - 1
    } else {
        whole
    };
    let left: i128 = if rest < 0 {
        rest + ONE as i128
    } else {
        rest
    };
    proof {
        let n = pull as int - drag as int;
        assert(n == floor * ONE + left);
        assert(0 <= left < ONE);
        assert(n / (ONE as int) == floor);
        if n < 0 && left > 0 {
            assert(-n == (-floor - 1) * ONE + (ONE - left));
            assert((-n) / (ONE as int) == -floor - 1);
        }
        if n < 0 && left == 0 {
            assert(-n == (-floor) * ONE);
            assert((-n) / (ONE as int) == -floor);
        }
    }
    let force: i128 = if floor >= 0 || left == 0 {
        floor
    } else {
        floor + 1
    };
    (velocity as i128 + force) as i64
}

/// The displacement of one frame, before it is narrowed to `i64`.
fn wide_displacement(target: i64, current: i64, decay: i64) -> (step: i128)
    ensures
        step == displacement(target as int, current as int, decay as int),
{
    let diff: i128 = target as i128 - current as i128;
    assert(-0x7fff_ffff_ffff_ffff_ffff_ffff_ffff_ffff <= diff * decay
        <= 0x7fff_ffff_ffff_ffff_ffff_ffff_ffff_ffff) by (nonlinear_arith)
        requires
            -0xffff_ffff_ffff_ffff <= diff <= 0xffff_ffff_ffff_ffff,
            -0x8000_0000_0000_0000 <= decay <= 0x7fff_ffff_ffff_ffff,
    ;
    let product: i128 = diff * (decay as i128);
    product / (ONE as i128)
}

/// The displacement of one frame: `(target - current) * exp(-friction)`,
/// rounded toward zero.  The filter has no memory, so the velocity of the
/// frame before does not enter.
pub fn frictional_animation(target: i64, current: i64, velocity: i64, decay: i64) -> (step: i64)
    requires
        i64::MIN <= displacement(target as int, current as int, decay as int) <= i64::MAX,
    ensures
        step == displacement(target as int, current as int, decay as int),
        0 <= decay <= ONE ==> magnitude(current + step - target) <= magnitude(current - target),
        0 <= decay <= ONE ==> current <= current + step <= target || target <= current + step
            <= current,
{
    proof {
        if 0 <= decay <= ONE {
            lemma_step_stays_between(current as int, target as int, decay as int);
        }
    }
    wide_displacement(target, current, decay) as i64
}

/// One step of the filter from `current` toward `target`.  The result
/// lies between the two.
pub fn step_toward(current: i64, target: i64, decay: i64) -> (next: i64)
    requires
        0 <= decay <= ONE,
    ensures
        next == approach(current as int, target as int, decay as int),
        current <= next <= target || target <= next <= current,
{
    proof {
        lemma_step_stays_between(current as int, target as int, decay as int);
    }
    (current as i128 + wide_displacement(target, current, decay)) as i64
}

/// One frame of the filter on a crop dimension.
pub fn settle_dimension(current: i64, target: i64, decay: i64, active: bool, zooming_in: bool) -> (next: i64)
    requires
        0 <= decay <= ONE,
    ensures
        next == settle(current as int, target as int, decay as int, active, zooming_in),
        magnitude(next - target) <= magnitude(current - target),
{
    proof {
        lemma_step_stays_between(current as int, target as int, decay as int);
        lemma_settle_never_moves_away(
            current as int,
            target as int,
            decay as int,
            active,
            zooming_in,
        );
    }
    let moved: i64 = if active {
        step_toward(current, target, decay)
    } else {
        current
    };
    if zooming_in {
        if moved >= target {
            moved
        } else {
            target
        }
    } else {
        if moved <= target {
            moved
        } else {
            target
        }
    }
}

/// A step has the sign of the remaining distance and is no longer than it.
pub proof fn lemma_step_stays_between(current: int, target: int, decay: int)
    requires
        0 <= decay <= ONE,
    ensures
        current <= target ==> 0 <= displacement(target, current, decay) <= target - current,
        current >= target ==> target - current <= displacement(target, current, decay) <= 0,
        magnitude(displacement(target, current, decay)) == magnitude(target - current) * decay / (
        ONE as int),
{
    let x = magnitude(target - current);
    let one = ONE as int;
    assert(0 <= x * decay <= x * one) by (nonlinear_arith)
        requires
            0 <= x,
            0 <= decay <= one,
    ;
    assert(0 <= (x * decay) / one <= x) by (nonlinear_arith)
        requires
            0 <= x * decay <= x * one,
            one > 0,
    ;
    if current <= target {
        assert((target - current) * decay == x * decay);
    } else {
        assert(-((target - current) * decay) == x * decay) by (nonlinear_arith)
            requires
                x == -(target - current),
        ;
        if x * decay == 0 {
            assert((target - current) * decay == 0);
        }
    }
}

/// The filter never increases the distance to a fixed target.
pub proof fn lemma_settle_never_moves_away(
    current: int,
    target: int,
    decay: int,
    active: bool,
    zooming_in: bool,
)
    requires
        0 <= decay <= ONE,
    ensures
        magnitude(settle(current, target, decay, active, zooming_in) - target) <= magnitude(
            current - target,
        ),
{
    lemma_step_stays_between(current, target, decay);
}

/// One active frame leaves at most the distance that the step did not cover.
proof fn lemma_settle_distance(current: int, target: int, decay: int, zooming_in: bool)
    requires
        0 <= decay <= ONE,
    ensures
        0 <= magnitude(settle(current, target, decay, true, zooming_in) - target) <= magnitude(
            current - target,
        ) - magnitude(current - target) * decay / (ONE as int),
{
    lemma_step_stays_between(current, target, decay);
}

/// One active frame shrinks the excess by the factor `1 - decay`.
proof fn lemma_excess_contracts(current: int, target: int, decay: int, zooming_in: bool)
    requires
        0 <= decay <= ONE,
    ensures
        excess(settle(current, target, decay, true, zooming_in), target, decay) * ONE <= excess(
            current,
            target,
            decay,
        ) * (ONE - decay),
        0 <= excess(settle(current, target, decay, true, zooming_in), target, decay) <= excess(
            current,
            target,
            decay,
        ),
{
    let one = ONE as int;
    let next = settle(current, target, decay, true, zooming_in);
    let x = magnitude(current - target);
    let y = magnitude(next - target);
    let f = x * decay / one;
    lemma_settle_distance(current, target, decay, zooming_in);
    let e = excess(current, target, decay);
    assert(y * decay <= x * decay) by (nonlinear_arith)
        requires
            0 <= y <= x,
            0 <= decay,
    ;
    assert(0 <= e * (one - decay)) by (nonlinear_arith)
        requires
            0 <= e,
            0 <= decay <= one,
    ;
    if y * decay - one > 0 {
        // f is the floor of x * decay / one, so one * f >= x * decay - (one - 1).
        assert(one * f >= x * decay - (one - 1)) by (nonlinear_arith)
            requires
                f == x * decay / one,
                one > 0,
        ;
        assert((y * decay - one) * one <= (x * decay - one) * (one - decay)) by (nonlinear_arith)
            requires
                0 <= y <= x - f,
                one * f >= x * decay - (one - 1),
                0 <= decay <= one,
                one == 1_000_000,
        ;
        assert(x * decay - one > 0);
    }
}

/// After `frames` active frames the excess, scaled by `1 + frames * decay`,
/// is at most what it was.
proof fn lemma_excess_after(current: int, target: int, decay: int, zooming_in: bool, frames: nat)
    requires
        0 <= decay <= ONE,
    ensures
        0 <= excess(settle_n(current, target, decay, zooming_in, frames), target, decay),
        excess(settle_n(current, target, decay, zooming_in, frames), target, decay) * (ONE + frames
            * decay) <= excess(current, target, decay) * ONE,
    decreases frames,
{
    let one = ONE as int;
    let e0 = excess(current, target, decay);
    if frames == 0 {
        assert(e0 * (one + 0 * decay) == e0 * one) by (nonlinear_arith);
    } else {
        let before = settle_n(current, target, decay, zooming_in, (frames - 1) as nat);
        lemma_excess_after(current, target, decay, zooming_in, (frames - 1) as nat);
        lemma_excess_contracts(before, target, decay, zooming_in);
        let eb = excess(before, target, decay);
        let en = excess(settle_n(current, target, decay, zooming_in, frames), target, decay);
        let k = frames - 1;
        assert(en * (one + (k + 1) * decay) <= e0 * one) by (nonlinear_arith)
            requires
                0 <= en,
                0 <= eb,
                0 <= k,
                0 <= decay <= one,
                one == 1_000_000,
                en * one <= eb * (one - decay),
                eb * (one + k * decay) <= e0 * one,
        ;
    }
}

/// Frames of the filter add up.
proof fn lemma_settle_n_split(
    current: int,
    target: int,
    decay: int,
    zooming_in: bool,
    first: nat,
    second: nat,
)
    ensures
        settle_n(current, target, decay, zooming_in, first + second) == settle_n(
            settle_n(current, target, decay, zooming_in, first),
            target,
            decay,
            zooming_in,
            second,
        ),
    decreases second,
{
    if second > 0 {
        lemma_settle_n_split(current, target, decay, zooming_in, first, (second - 1) as nat);
        assert((first + second - 1) as nat == first + (second - 1) as nat);
    }
}

/// With the target held fixed, the distance to it never grows from one
/// frame to the next.
pub proof fn lemma_distance_is_non_increasing(
    current: int,
    target: int,
    decay: int,
    zooming_in: bool,
    frames: nat,
)
    requires
        0 <= decay <= ONE,
    ensures
        magnitude(settle_n(current, target, decay, zooming_in, frames + 1) - target) <= magnitude(
            settle_n(current, target, decay, zooming_in, frames) - target,
        ),
{
    lemma_settle_never_moves_away(
        settle_n(current, target, decay, zooming_in, frames),
        target,
        decay,
        true,
        zooming_in,
    );
}

/// The reciprocal of `decay`, rounded up, times `decay` reaches one.
proof fn lemma_frames_to_halve(decay: int)
    requires
        0 < decay <= ONE,
    ensures
        frames_to_halve(decay) >= 1,
        frames_to_halve(decay) * decay >= ONE,
{
    let one = ONE as int;
    let k = (one + decay - 1) / decay;
    assert(k * decay >= one && k >= 1) by (nonlinear_arith)
        requires
            k == (one + decay - 1) / decay,
            0 < decay <= one,
    ;
}

/// With the target held fixed, every `frames_to_halve(decay)` frames at
/// least halve the excess: after `halvings` such runs it is at most the
/// initial excess divided by two to the power `halvings`.
pub proof fn lemma_excess_halves(
    current: int,
    target: int,
    decay: int,
    zooming_in: bool,
    halvings: nat,
)
    requires
        0 < decay <= ONE,
    ensures
        frames_to_halve(decay) >= 1,
        excess(
            settle_n(
                current,
                target,
                decay,
                zooming_in,
                (halvings * frames_to_halve(decay)) as nat,
            ),
            target,
            decay,
        ) * pow2(halvings) <= excess(current, target, decay),
    decreases halvings,
{
    let one = ONE as int;
    let k = frames_to_halve(decay);
    lemma_frames_to_halve(decay);
    let e0 = excess(current, target, decay);
    if halvings == 0 {
        assert(pow2(0) == 1) by {
            lemma_pow2_unfold(1);
            vstd::arithmetic::power2::lemma2_to64();
        }
        assert((0 * k) as nat == 0) by (nonlinear_arith);
        assert(e0 * 1 == e0);
    } else {
        let h = (halvings - 1) as nat;
        lemma_excess_halves(current, target, decay, zooming_in, h);
        let n1 = (h * k) as nat;
        assert(h * k >= 0) by (nonlinear_arith)
            requires
                h >= 0,
                k >= 1,
        ;
        let mid = settle_n(current, target, decay, zooming_in, n1);
        let em = excess(mid, target, decay);
        lemma_excess_after(mid, target, decay, zooming_in, k as nat);
        lemma_settle_n_split(current, target, decay, zooming_in, n1, k as nat);
        assert((halvings * k) as nat == n1 + k as nat) by (nonlinear_arith)
            requires
                halvings == h + 1,
                n1 == h * k,
                k >= 1,
                h >= 0,
        ;
        let end = settle_n(current, target, decay, zooming_in, (halvings * k) as nat);
        let ee = excess(end, target, decay);
        assert(ee * 2 <= em) by (nonlinear_arith)
            requires
                0 <= ee,
                ee * (one + k * decay) <= em * one,
                k * decay >= one,
                one == 1_000_000,
        ;
        lemma_pow2_unfold(halvings);
        lemma_pow2_pos(h);
        assert(ee * pow2(halvings) <= e0) by (nonlinear_arith)
            requires
                0 <= ee,
                ee * 2 <= em,
                em * pow2(h) <= e0,
                pow2(halvings) == 2 * pow2(h),
                pow2(h) > 0,
        ;
    }
}

/// Convergence of the filter: with the target held fixed and the initial
/// distance at most `epsilon * 2^halvings`, the distance after
/// `halvings * frames_to_halve(decay)` frames is at most `epsilon` beyond
/// the band in which steps round to nothing.
pub proof fn lemma_settles_within(
    current: int,
    target: int,
    decay: int,
    zooming_in: bool,
    epsilon: int,
    halvings: nat,
)
    requires
        0 < decay <= ONE,
        0 <= epsilon,
        magnitude(current - target) <= epsilon * pow2(halvings),
    ensures
        magnitude(
            settle_n(
                current,
                target,
                decay,
                zooming_in,
                (halvings * frames_to_halve(decay)) as nat,
            ) - target,
        ) * decay <= ONE + epsilon * decay,
{
    let one = ONE as int;
    let k = frames_to_halve(decay);
    let end = settle_n(current, target, decay, zooming_in, (halvings * k) as nat);
    lemma_excess_halves(current, target, decay, zooming_in, halvings);
    lemma_pow2_pos(halvings);
    let p = pow2(halvings) as int;
    let x0 = magnitude(current - target);
    let e0 = excess(current, target, decay);
    let ee = excess(end, target, decay);
    assert(e0 <= x0 * decay) by (nonlinear_arith)
        requires
            e0 == if x0 * decay - one > 0 {
                x0 * decay - one
            } else {
                0
            },
            0 <= x0,
            0 < decay,
            one > 0,
    ;
    assert(x0 * decay <= epsilon * p * decay) by (nonlinear_arith)
        requires
            0 <= x0 <= epsilon * p,
            0 < decay,
    ;
    assert(ee <= epsilon * decay) by (nonlinear_arith)
        requires
            0 <= ee,
            ee * p <= e0,
            e0 <= epsilon * p * decay,
            p > 0,
            0 <= epsilon,
            0 < decay,
    ;
}

} // verus!
