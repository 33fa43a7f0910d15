//! An amount to blend the "dry" and "wet" outputs from an effect.

use crate::error::OutOfRangeError;
use crate::scalar;
use crate::scalar::SCALE;
use vstd::prelude::*;

verus! {

/// An amount to blend the "dry" and "wet" outputs from an effect, as a
/// fixed-point raw value.
///
/// The "dry" signal is the audio before the effect is applied, the "wet"
/// signal the audio after. Valid raw values range from `0` (the dry signal
/// only) to `SCALE` (the wet signal only); `HALF` is an equal mix of both.
#[derive(Debug, Clone, Copy, PartialEq, Eq, Structural)]
pub struct Mix {
    /// Raw fixed-point value: `SCALE` steps stand for one unit.
    pub raw: i64,
}

impl Mix {
    /// The value lies in the closed interval `[0, SCALE]`.
    pub open spec fn wf(self) -> bool {
        0 <= self.raw <= SCALE
    }

    /// Raw result of interpolating `a` toward `b`, endpoints clamped first.
    pub open spec fn interpolate_spec(a: Mix, b: Mix, amount: int) -> int {
        scalar::lerp_spec(
            scalar::clamp_spec(a.raw as int, 0, SCALE as int),
            scalar::clamp_spec(b.raw as int, 0, SCALE as int),
            amount,
        )
    }

    /// Only output the dry signal.
    pub fn dry() -> (r: Mix)
        ensures
            r.raw == 0,
            r.wf(),
    {
        Mix { raw: 0 }
    }

    /// Only output the wet signal.
    pub fn wet() -> (r: Mix)
        ensures
            r.raw == SCALE,
            r.wf(),
    {
        Mix { raw: SCALE }
    }

    /// Construct a mix value, clamping the raw value into range.
    pub fn new(raw: i64) -> (r: Mix)
        ensures
            r.raw as int == scalar::clamp_spec(raw as int, 0, SCALE as int),
            r.wf(),
    {
        Mix { raw: scalar::clamp(raw, 0, SCALE) }
    }

    /// Construct a mix value from a raw value already known to be in range.
    /// This is the unchecked path reserved for call sites that have just
    /// established the bound themselves.
    pub fn from_raw(raw: i64) -> (r: Mix)
        requires
            0 <= raw <= SCALE,
        ensures
            r.raw == raw,
            r.wf(),
    {
        Mix { raw }
    }

    /// Validate a raw value arriving from an external boundary: values
    /// outside `[0, SCALE]` are a hard error, never clamped.
    pub fn validated(raw: i64) -> (r: Result<Mix, OutOfRangeError>)
        ensures
            0 <= raw <= SCALE <==> r is Ok,
            r is Ok ==> r->Ok_0 == (Mix { raw }) && r->Ok_0.wf(),
            r is Err ==> r->Err_0.raw == raw && r->Err_0.lo == 0 && r->Err_0.hi == SCALE,
    {
        if 0 <= raw && raw <= SCALE {
            Ok(Mix { raw })
        } else {
            Err(OutOfRangeError { raw, lo: 0, hi: SCALE })
        }
    }

    /// Blend `a` toward `b` by the fixed-point factor `amount`
    /// (`0` yields `a` clamped, `SCALE` yields `b` clamped). The endpoints
    /// are clamped into range first; `amount` is expected already shaped
    /// into `[0, SCALE]` by the easing layer.
    pub fn interpolate(a: Mix, b: Mix, amount: i64) -> (r: Mix)
        requires
            0 <= amount <= SCALE,
        ensures
            r.raw as int == Mix::interpolate_spec(a, b, amount as int),
            r.wf(),
    {
        let ca: i64 = scalar::clamp(a.raw, 0, SCALE);
        let cb: i64 = scalar::clamp(b.raw, 0, SCALE);
        Mix { raw: scalar::lerp(ca, cb, amount) }
    }

    /// Saturating addition of a raw offset: the exact sum clamped into range.
    pub fn saturating_add(self, v: i64) -> (r: Mix)
        requires
            self.wf(),
        ensures
            r.raw as int == scalar::sat_add_spec(self.raw as int, v as int, 0, SCALE as int),
            r.wf(),
    {
        Mix { raw: scalar::sat_add(self.raw, v, 0, SCALE) }
    }

    /// Saturating subtraction of a raw offset.
    pub fn saturating_sub(self, v: i64) -> (r: Mix)
        requires
            self.wf(),
        ensures
            r.raw as int == scalar::sat_sub_spec(self.raw as int, v as int, 0, SCALE as int),
            r.wf(),
    {
        Mix { raw: scalar::sat_sub(self.raw, v, 0, SCALE) }
    }

    /// Saturating multiplication by a raw fixed-point factor.
    pub fn saturating_mul(self, v: i64) -> (r: Mix)
        requires
            self.wf(),
        ensures
            r.raw as int == scalar::sat_mul_spec(self.raw as int, v as int, 0, SCALE as int),
            r.wf(),
    {
        Mix { raw: scalar::sat_mul(self.raw, v, 0, SCALE) }
    }

    /// Saturating division by a raw fixed-point factor. A zero divisor is a
    /// contract violation; callers must guard.
    pub fn saturating_div(self, v: i64) -> (r: Mix)
        requires
            self.wf(),
            v != 0,
        ensures
            r.raw as int == scalar::sat_div_spec(self.raw as int, v as int, 0, SCALE as int),
            r.wf(),
    {
        Mix { raw: scalar::sat_div(self.raw, v, 0, SCALE) }
    }

    /// Saturating remainder by a raw divisor. A zero divisor is a contract
    /// violation; callers must guard.
    pub fn saturating_rem(self, v: i64) -> (r: Mix)
        requires
            self.wf(),
            v != 0,
        ensures
            r.raw as int == scalar::sat_rem_spec(self.raw as int, v as int, 0, SCALE as int),
            r.wf(),
    {
        Mix { raw: scalar::sat_rem(self.raw, v, 0, SCALE) }
    }

    /// Saturating negation: clamps to the dry end unless the value is zero.
    pub fn saturating_neg(self) -> (r: Mix)
        requires
            self.wf(),
        ensures
            r.raw as int == scalar::sat_neg_spec(self.raw as int, 0, SCALE as int),
            r.wf(),
    {
        Mix { raw: scalar::sat_neg(self.raw, 0, SCALE) }
    }
}

/// Blending all the way toward neither endpoint returns that endpoint
/// itself: `interpolate(a, b, 0)` is `a` clamped and
/// `interpolate(a, b, SCALE)` is `b` clamped, exactly.
pub proof fn lemma_mix_interpolate_endpoints(a: Mix, b: Mix)
    requires
        a.wf(),
        b.wf(),
    ensures
        Mix::interpolate_spec(a, b, 0) == a.raw as int,
        Mix::interpolate_spec(a, b, SCALE as int) == b.raw as int,
{
    let ar = a.raw as int;
    let br = b.raw as int;
    vstd::arithmetic::div_mod::lemma_div_multiples_vanish(0, SCALE as int);
    if br >= ar {
        vstd::arithmetic::div_mod::lemma_div_multiples_vanish(br - ar, SCALE as int);
        assert((br - ar) * 0 / (SCALE as int) == 0);
    } else {
        vstd::arithmetic::div_mod::lemma_div_multiples_vanish(ar - br, SCALE as int);
        assert((ar - br) * 0 / (SCALE as int) == 0);
    }
}

} // verus!
