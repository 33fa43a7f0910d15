//! The easing and tween evaluation engine.
//!
//! Pure, stateless and deterministic: the same `(tween, elapsed)` pair always
//! yields the same value. Progress runs through the fixed-point interval
//! `[0, SCALE]`, where `0` is the beginning of the animation and `SCALE` the
//! end.

use crate::scalar;
use crate::scalar::{HALF, SCALE};
use vstd::arithmetic::div_mod::{lemma_div_is_ordered, lemma_div_multiples_vanish};
use vstd::prelude::*;

verus! {

/// Curve shape for an easing function.
#[derive(Debug, Clone, Copy, PartialEq, Eq, Structural)]
pub enum Easing {
    /// The identity curve: shaped progress equals progress.
    Linear,
    /// Raise the progress to the given integer power.
    PowI(u32),
}

/// Fixed-point power `t ^ n`, with `SCALE` steps per unit and every
/// multiplication step truncated toward zero; the zeroth power is one unit.
pub open spec fn pow_scaled_spec(t: int, n: nat) -> int
    decreases n,
{
    if n == 0 {
        SCALE as int
    } else {
        pow_scaled_spec(t, (n - 1) as nat) * t / (SCALE as int)
    }
}

/// A full unit raised to any power is still a full unit.
pub proof fn lemma_pow_scaled_full(n: nat)
    ensures
        pow_scaled_spec(SCALE as int, n) == SCALE as int,
    decreases n,
{
    if n > 0 {
        lemma_pow_scaled_full((n - 1) as nat);
        lemma_div_multiples_vanish(SCALE as int, SCALE as int);
    }
}

/// Shaped progress produced by an easing curve on progress `t`.
pub open spec fn apply_spec(e: Easing, t: int) -> int {
    match e {
        Easing::Linear => t,
        Easing::PowI(n) => pow_scaled_spec(t, n as nat),
    }
}

/// Every easing curve maps full progress to full progress.
pub proof fn lemma_apply_full(e: Easing)
    ensures
        apply_spec(e, SCALE as int) == SCALE as int,
{
    match e {
        Easing::Linear => {
        },
        Easing::PowI(n) => {
            lemma_pow_scaled_full(n as nat);
        },
    }
}

/// Fixed-point power `t ^ n`, computed by repeated scaled multiplication.
fn pow_scaled(t: i64, n: u32) -> (r: i64)
    requires
        0 <= t <= SCALE,
    ensures
        r as int == pow_scaled_spec(t as int, n as nat),
        0 <= r <= SCALE,
{
    let mut acc: i64 = SCALE;
    let mut i: u32 = 0;
    while i < n
        invariant
            0 <= t <= SCALE,
            i <= n,
            0 <= acc <= SCALE,
            acc as int == pow_scaled_spec(t as int, i as nat),
        decreases n - i,
    {
        proof {
            assert(0 <= acc as int * t as int <= (SCALE as int) * (SCALE as int))
                by (nonlinear_arith)
                requires
                    0 <= acc as int <= SCALE as int,
                    0 <= t as int <= SCALE as int,
            ;
            lemma_div_is_ordered(0, acc as int * t as int, SCALE as int);
            lemma_div_is_ordered(
                acc as int * t as int,
                (SCALE as int) * (SCALE as int),
                SCALE as int,
            );
            lemma_div_multiples_vanish(SCALE as int, SCALE as int);
            lemma_div_multiples_vanish(0, SCALE as int);
        }
        acc = ((acc as u128) * (t as u128) / (SCALE as u128)) as i64;
        i = i + 1;
    }
    acc
}

impl Easing {
    /// Applies the easing curve to a relative position in an animation
    /// (where `0` is the beginning of the animation and `SCALE` is the end).
    pub fn apply(&self, t: i64) -> (r: i64)
        requires
            0 <= t <= SCALE,
        ensures
            r as int == apply_spec(*self, t as int),
            0 <= r <= SCALE,
    {
        match self {
            Easing::Linear => t,
            Easing::PowI(n) => pow_scaled(t, *n),
        }
    }
}

impl Default for Easing {
    /// The default curve is the identity.
    fn default() -> (r: Easing)
        ensures
            r == Easing::Linear,
    {
        Easing::Linear
    }
}

/// How an easing curve is applied over the course of a transition.
#[derive(Debug, Clone, Copy, PartialEq, Eq, Structural)]
pub enum EaseDirection {
    /// Apply the curve directly.
    In,
    /// Apply the curve to the complement of the progress and invert.
    Out,
    /// Run the `In` shape over the first half and the `Out` shape over the
    /// second, producing a curve symmetric about the midpoint.
    InOut,
}

impl Default for EaseDirection {
    /// The default direction applies the curve directly.
    fn default() -> (r: EaseDirection)
        ensures
            r == EaseDirection::In,
    {
        EaseDirection::In
    }
}

/// Represents a movement of one value to another over time: a duration in
/// time ticks, a curve shape, and a direction modifier.
#[derive(Debug, Clone, Copy, PartialEq, Eq, Structural)]
pub struct Tween {
    /// Length of the transition in time ticks. A duration of zero is a
    /// contract violation; callers must guard.
    pub duration: u64,
    /// Curve shape of the transition.
    pub easing: Easing,
    /// How the curve shape is applied.
    pub direction: EaseDirection,
}

impl Tween {
    /// The duration admits a well-defined progress ratio.
    pub open spec fn wf(self) -> bool {
        self.duration > 0
    }

    /// Shaped progress with the direction modifier applied.
    pub open spec fn ease_spec(self, t: int) -> int {
        match self.direction {
            EaseDirection::In => apply_spec(self.easing, t),
            EaseDirection::Out => SCALE as int - apply_spec(self.easing, SCALE as int - t),
            EaseDirection::InOut => if t < HALF as int {
                apply_spec(self.easing, 2 * t) / 2
            } else {
                SCALE as int - apply_spec(self.easing, 2 * (SCALE as int - t)) / 2
            },
        }
    }

    /// Value of an animation from `from` toward `to` after `elapsed` of the
    /// tween's `duration` ticks: normalized progress, shaped by the easing
    /// curve, then blended linearly between the endpoints.
    pub open spec fn tween_spec(self, from: int, to: int, elapsed: int) -> int {
        scalar::lerp_spec(
            from,
            to,
            self.ease_spec(scalar::progress_spec(elapsed, self.duration as int)),
        )
    }

    /// Construct a tween. A duration of zero is rejected by contract.
    pub fn new(duration: u64, easing: Easing, direction: EaseDirection) -> (r: Tween)
        requires
            duration > 0,
        ensures
            r == (Tween { duration, easing, direction }),
            r.wf(),
    {
        Tween { duration, easing, direction }
    }

    /// Applies the tween's easing curve (with easing direction) to a
    /// relative position in an animation (where `0` is the beginning of the
    /// animation and `SCALE` is the end).
    pub fn ease(&self, t: i64) -> (r: i64)
        requires
            0 <= t <= SCALE,
        ensures
            r as int == self.ease_spec(t as int),
            0 <= r <= SCALE,
    {
        match self.direction {
            EaseDirection::In => self.easing.apply(t),
            EaseDirection::Out => SCALE - self.easing.apply(SCALE - t),
            EaseDirection::InOut => {
                if t < HALF {
                    let a = self.easing.apply(2 * t);
                    ((a as u64) / 2) as i64
                } else {
                    let a = self.easing.apply(2 * (SCALE - t));
                    SCALE - (((a as u64) / 2) as i64)
                }
            },
        }
    }

    /// Gets the value of an animation from one point to another at the
    /// given elapsed time, with this tween's duration and easing curve.
    /// The result always lies between the two endpoints.
    pub fn tween(&self, from: i64, to: i64, elapsed: u64) -> (r: i64)
        requires
            self.wf(),
            elapsed <= self.duration,
            -SCALE <= from <= SCALE,
            -SCALE <= to <= SCALE,
        ensures
            r as int == self.tween_spec(from as int, to as int, elapsed as int),
            from <= to ==> from <= r <= to,
            to <= from ==> to <= r <= from,
    {
        let t = scalar::progress(elapsed, self.duration);
        let shaped = self.ease(t);
        scalar::lerp(from, to, shaped)
    }
}

impl From<u64> for Tween {
    /// A bare tick count is a linear tween of that duration, with the
    /// default curve applied directly.
    fn from(duration: u64) -> (r: Tween) {
        Tween { duration, easing: Easing::Linear, direction: EaseDirection::In }
    }
}

impl vstd::std_specs::convert::FromSpecImpl<u64> for Tween {
    open spec fn obeys_from_spec() -> bool {
        true
    }

    open spec fn from_spec(duration: u64) -> Tween {
        Tween { duration, easing: Easing::Linear, direction: EaseDirection::In }
    }
}

/// The `InOut` direction is continuous at the midpoint: the first-half
/// formula and the second-half formula both yield exactly `HALF` when the
/// progress reaches `HALF`, for every easing curve.
pub proof fn lemma_ease_inout_midpoint(tw: Tween)
    ensures
        apply_spec(tw.easing, 2 * (HALF as int)) / 2 == HALF as int,
        SCALE as int - apply_spec(tw.easing, 2 * (SCALE as int - HALF as int)) / 2 == HALF as int,
        tw.direction == EaseDirection::InOut ==> tw.ease_spec(HALF as int) == HALF as int,
{
    lemma_apply_full(tw.easing);
}

} // verus!
