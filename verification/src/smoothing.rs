//! Smoothing of a series of values from frame to frame: a moving mean over
//! the last frames, a detector for shaky input that asks for more
//! smoothing, and a running average of a velocity.
//!
//! All values are fixed-point millionths.

use crate::fixed::{div_toward_zero, magnitude, ONE};
use std::collections::VecDeque;
use vstd::prelude::*;

verus! {

/// The number of values that the moving mean covers.
pub const BUFFER_SIZE: usize = 10;

/// The weight of the newest velocity in the running average: one fifth.
pub const EMA_ALPHA: i64 = 200_000;

/// The smallest change between two frames that counts as a move: one
/// hundredth.
pub const SHAKE_THRESHOLD: i64 = 10_000;

/// The number of recent values that are checked for shakiness.
pub const SHAKE_WINDOW: usize = 5;

/// The weight of the moving mean while the input is shaky: one half.
pub const SHAKE_SMOOTHING_FACTOR: i64 = 500_000;

/// The state of the smoothing.
pub struct SmoothAnimation {
    buffer: VecDeque<i64>,
    ema_velocity: i64,
    shake_detection_buffer: VecDeque<i64>,
}

/// The sum of the values.
pub open spec fn total(values: Seq<i64>) -> int
    decreases values.len(),
{
    if values.len() == 0 {
        0
    } else {
        total(values.drop_last()) + values.last()
    }
}

/// The mean of the values, rounded toward zero.
pub open spec fn mean(values: Seq<i64>) -> int {
    div_toward_zero(total(values), values.len() as int)
}

/// The values with `value` added at the end, and without the oldest one
/// if that makes more than `capacity`.
pub open spec fn pushed(values: Seq<i64>, value: i64, capacity: int) -> Seq<i64> {
    let longer = values.push(value);
    if longer.len() > capacity {
        longer.skip(1)
    } else {
        longer
    }
}

/// The two changes point in opposite directions.
pub open spec fn opposed(a: int, b: int) -> bool {
    (a < 0 && b > 0) || (a > 0 && b < 0)
}

/// How often the series has turned around, and its last change that
/// counted as a move.  Changes of at most [`SHAKE_THRESHOLD`] are passed
/// over; a move turns the series around if it is opposed to the move
/// before it.
pub open spec fn swings(values: Seq<i64>) -> (int, int)
    decreases values.len(),
{
    if values.len() <= 1 {
        (0, 0)
    } else {
        let before = swings(values.drop_last());
        let change = values[values.len() - 1] - values[values.len() - 2];
        if magnitude(change) > SHAKE_THRESHOLD {
            (
                if opposed(change, before.1) {
                    before.0 + 1
                } else {
                    before.0
                },
                change,
            )
        } else {
            before
        }
    }
}

/// The series is shaky: it is a full window long and has turned around
/// more than half a window's times.
pub open spec fn shaky(values: Seq<i64>) -> bool {
    values.len() >= SHAKE_WINDOW && swings(values).0 > SHAKE_WINDOW / 2
}

/// The smoothed value for a series whose newest value is `value`: the
/// moving mean, or, for shaky input, the weighted mean of the moving mean
/// and the newest value.
pub open spec fn smoothed_value(series: Seq<i64>, recent: Seq<i64>, value: int) -> int {
    if shaky(recent) {
        div_toward_zero(
            mean(series) * SHAKE_SMOOTHING_FACTOR + value * (ONE - SHAKE_SMOOTHING_FACTOR),
            ONE as int,
        )
    } else {
        mean(series)
    }
}

/// The running average of a velocity after a new velocity.
pub open spec fn averaged(previous: int, velocity: int) -> int {
    div_toward_zero(EMA_ALPHA * velocity + (ONE - EMA_ALPHA) * previous, ONE as int)
}

/// The sum of up to `i64` many values lies between the least and the
/// greatest value times their number.
proof fn lemma_total_bounds(values: Seq<i64>)
    ensures
        values.len() * i64::MIN <= total(values) <= values.len() * i64::MAX,
    decreases values.len(),
{
    if values.len() > 0 {
        lemma_total_bounds(values.drop_last());
    }
}

/// The mean of a series lies between its least and greatest possible
/// value.
proof fn lemma_mean_bounds(values: Seq<i64>)
    requires
        values.len() > 0,
    ensures
        i64::MIN <= mean(values) <= i64::MAX,
{
    lemma_total_bounds(values);
    let n = values.len() as int;
    let t = total(values);
    if t >= 0 {
        assert(0 <= t / n <= i64::MAX) by (nonlinear_arith)
            requires
                0 <= t <= n * i64::MAX,
                n > 0,
        ;
    } else {
        assert(0 <= (-t) / n <= -(i64::MIN as int)) by (nonlinear_arith)
            requires
                0 <= -t <= n * (-(i64::MIN as int)),
                n > 0,
        ;
    }
}

/// A weighted mean of two values lies between them.
proof fn lemma_weighted_mean_bounds(a: int, b: int, weight: int)
    requires
        0 <= weight <= ONE,
        i64::MIN <= a <= i64::MAX,
        i64::MIN <= b <= i64::MAX,
    ensures
        i64::MIN <= div_toward_zero(a * weight + b * (ONE - weight), ONE as int) <= i64::MAX,
        -0x8000_0000_0000_0000 * 1_000_000 <= a * weight + b * (ONE - weight)
            <= 0x7fff_ffff_ffff_ffff * 1_000_000,
{
    let one = ONE as int;
    let s = a * weight + b * (one - weight);
    assert(i64::MIN * one <= s <= i64::MAX * one) by (nonlinear_arith)
        requires
            s == a * weight + b * (one - weight),
            0 <= weight <= one,
            i64::MIN <= a <= i64::MAX,
            i64::MIN <= b <= i64::MAX,
    ;
    if s >= 0 {
        assert(0 <= s / one <= i64::MAX) by (nonlinear_arith)
            requires
                0 <= s <= i64::MAX * one,
                one > 0,
        ;
    } else {
        assert(0 <= (-s) / one <= -(i64::MIN as int)) by (nonlinear_arith)
            requires
                0 <= -s <= (-(i64::MIN as int)) * one,
                one > 0,
        ;
    }
}

/// Two changes are opposed exactly if their product is negative.
pub proof fn lemma_opposed_is_negative_product(a: int, b: int)
    ensures
        opposed(a, b) <==> a * b < 0,
{
    assert(opposed(a, b) <==> a * b < 0) by (nonlinear_arith);
}

impl SmoothAnimation {
    /// The values that the moving mean covers, oldest first.
    pub closed spec fn series(&self) -> Seq<i64> {
        self.buffer@
    }

    /// The values that are checked for shakiness, oldest first.
    pub closed spec fn recent(&self) -> Seq<i64> {
        self.shake_detection_buffer@
    }

    /// The running average of the velocity.
    pub closed spec fn velocity(&self) -> int {
        self.ema_velocity as int
    }

    /// Neither series is longer than its window.
    pub open spec fn wf(&self) -> bool {
        self.series().len() <= BUFFER_SIZE && self.recent().len() <= SHAKE_WINDOW
    }

    /// A smoothing with no values yet and a velocity of zero.
    pub fn new() -> (s: SmoothAnimation)
        ensures
            s.wf(),
            s.series() == Seq::<i64>::empty(),
            s.recent() == Seq::<i64>::empty(),
            s.velocity() == 0,
    {
        SmoothAnimation {
            buffer: VecDeque::with_capacity(BUFFER_SIZE),
            ema_velocity: 0,
            shake_detection_buffer: VecDeque::with_capacity(SHAKE_WINDOW),
        }
    }

    /// Takes in the value of a frame and gives the smoothed value.
    ///
    /// The value joins both series, each of which forgets its oldest
    /// value once it is full.  The result is the mean of the longer
    /// series, mixed half and half with the new value while the recent
    /// values are shaky.
    pub fn update(&mut self, value: i64) -> (smooth: i64)
        requires
            old(self).wf(),
        ensures
            final(self).wf(),
            final(self).series() == pushed(old(self).series(), value, BUFFER_SIZE as int),
            final(self).recent() == pushed(old(self).recent(), value, SHAKE_WINDOW as int),
            final(self).velocity() == old(self).velocity(),
            smooth == smoothed_value(final(self).series(), final(self).recent(), value as int),
    {
        self.buffer.push_back(value);
        if self.buffer.len() > BUFFER_SIZE {
            let dropped = self.buffer.pop_front();
        }
        let mut sum: i128 = 0;
        let mut i: usize = 0;
        let count: usize = self.buffer.len();
        while i < count
            invariant
                i <= count,
                count == self.buffer@.len(),
                count <= BUFFER_SIZE,
                sum == total(self.buffer@.take(i as int)),
                i * i64::MIN <= sum <= i * i64::MAX,
            decreases count - i,
        {
            proof {
                let longer = self.buffer@.take(i + 1);
                assert(longer.drop_last() =~= self.buffer@.take(i as int));
                assert(longer.last() == self.buffer@[i as int]);
            }
            sum = sum + self.buffer[i] as i128;
            i += 1;
        }
        proof {
            assert(self.buffer@.take(count as int) =~= self.buffer@);
            lemma_mean_bounds(self.buffer@);
        }
        let smooth_value: i64 = (sum / (count as i128)) as i64;

        if self.shake_detection_buffer.len() >= SHAKE_WINDOW {
            let dropped = self.shake_detection_buffer.pop_front();
        }
        self.shake_detection_buffer.push_back(value);

        if self.is_shaky() {
            proof {
                lemma_weighted_mean_bounds(
                    smooth_value as int,
                    value as int,
                    SHAKE_SMOOTHING_FACTOR as int,
                );
            }
            let weight: i128 = SHAKE_SMOOTHING_FACTOR as i128;
            let mixed: i128 = (smooth_value as i128) * weight + (value as i128) * (ONE as i128
                - weight);
            (mixed / (ONE as i128)) as i64
        } else {
            smooth_value
        }
    }

    /// Takes in a velocity and gives the running average: one fifth of the
    /// new velocity and four fifths of the average so far.
    pub fn smooth_velocity(&mut self, new_velocity: i64) -> (average: i64)
        ensures
            average == averaged(old(self).velocity(), new_velocity as int),
            final(self).velocity() == average,
            final(self).series() == old(self).series(),
            final(self).recent() == old(self).recent(),
            final(self).wf() == old(self).wf(),
    {
        proof {
            lemma_weighted_mean_bounds(
                new_velocity as int,
                self.ema_velocity as int,
                EMA_ALPHA as int,
            );
        }
        let weight: i128 = EMA_ALPHA as i128;
        let sum: i128 = weight * (new_velocity as i128) + (ONE as i128 - weight) * (
        self.ema_velocity as i128);
        self.ema_velocity = (sum / (ONE as i128)) as i64;
        self.ema_velocity
    }

    /// Tells whether the recent values are shaky.
    pub fn is_shaky(&self) -> (b: bool)
        ensures
            b == shaky(self.recent()),
    {
        let count: usize = self.shake_detection_buffer.len();
        if count < SHAKE_WINDOW {
            return false;
        }
        let mut direction_changes: usize = 0;
        let mut prev_diff: i128 = 0;
        let mut i: usize = 1;
        while i < count
            invariant
                1 <= i <= count,
                count == self.shake_detection_buffer@.len(),
                direction_changes < i,
                swings(self.shake_detection_buffer@.take(i as int)) == (
                    direction_changes as int,
                    prev_diff as int,
                ),
                -0xffff_ffff_ffff_ffff <= prev_diff <= 0xffff_ffff_ffff_ffff,
            decreases count - i,
        {
            proof {
                let longer = self.shake_detection_buffer@.take(i + 1);
                assert(longer.drop_last() =~= self.shake_detection_buffer@.take(i as int));
                assert(longer[longer.len() - 1] == self.shake_detection_buffer@[i as int]);
                assert(longer[longer.len() - 2] == self.shake_detection_buffer@[i - 1]);
            }
            let diff: i128 = self.shake_detection_buffer[i] as i128 - self.shake_detection_buffer[i
                - 1] as i128;
            let size: i128 = if diff < 0 {
                -diff
            } else {
                diff
            };
            if size > SHAKE_THRESHOLD as i128 {
                if (diff < 0 && prev_diff > 0) || (diff > 0 && prev_diff < 0) {
                    direction_changes += 1;
                }
                prev_diff = diff;
            }
            i += 1;
        }
        proof {
            assert(self.shake_detection_buffer@.take(count as int) =~= self.shake_detection_buffer@);
        }
        direction_changes > SHAKE_WINDOW / 2
    }
}

} // verus!
