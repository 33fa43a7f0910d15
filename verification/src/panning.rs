//! The stereo positioning of a sound.

use crate::error::OutOfRangeError;
use crate::scalar;
use crate::scalar::SCALE;
use vstd::prelude::*;

verus! {

/// The stereo positioning of a sound, as a fixed-point raw value.
///
/// Valid raw values range from `-SCALE` (the sound plays from the left
/// speaker only) through `0` (equal volume from both speakers) to `SCALE`
/// (the right speaker only). The raw field is exposed for direct
/// reconstruction of a value already known to be in range; every checked
/// operation requires and preserves `wf()`.
#[derive(Debug, Clone, Copy, PartialEq, Eq, Structural)]
pub struct Panning {
    /// Raw fixed-point value: `SCALE` steps stand for one unit.
    pub raw: i64,
}

impl Panning {
    /// The value lies in the closed interval `[-SCALE, SCALE]`.
    pub open spec fn wf(self) -> bool {
        -SCALE <= self.raw <= SCALE
    }

    /// Raw result of interpolating `a` toward `b`, endpoints clamped first.
    pub open spec fn interpolate_spec(a: Panning, b: Panning, amount: int) -> int {
        scalar::lerp_spec(
            scalar::clamp_spec(a.raw as int, -SCALE as int, SCALE as int),
            scalar::clamp_spec(b.raw as int, -SCALE as int, SCALE as int),
            amount,
        )
    }

    /// Play the sound from the left speaker only.
    pub fn left() -> (r: Panning)
        ensures
            r.raw == -SCALE,
            r.wf(),
    {
        Panning { raw: -SCALE }
    }

    /// Play the sound from both speakers at the same volume.
    pub fn center() -> (r: Panning)
        ensures
            r.raw == 0,
            r.wf(),
    {
        Panning { raw: 0 }
    }

    /// Play the sound from the right speaker only.
    pub fn right() -> (r: Panning)
        ensures
            r.raw == SCALE,
            r.wf(),
    {
        Panning { raw: SCALE }
    }

    /// Construct a panning value, clamping the raw value into range.
    pub fn new(raw: i64) -> (r: Panning)
        ensures
            r.raw as int == scalar::clamp_spec(raw as int, -SCALE as int, SCALE as int),
            r.wf(),
    {
        Panning { raw: scalar::clamp(raw, -SCALE, SCALE) }
    }

    /// Construct a panning value from a raw value already known to be in
    /// range. This is the unchecked path reserved for call sites that have
    /// just established the bound themselves.
    pub fn from_raw(raw: i64) -> (r: Panning)
        requires
            -SCALE <= raw <= SCALE,
        ensures
            r.raw == raw,
            r.wf(),
    {
        Panning { raw }
    }

    /// Validate a raw value arriving from an external boundary: values
    /// outside `[-SCALE, SCALE]` are a hard error, never clamped.
    pub fn validated(raw: i64) -> (r: Result<Panning, OutOfRangeError>)
        ensures
            -SCALE <= raw <= SCALE <==> r is Ok,
            r is Ok ==> r->Ok_0 == (Panning { raw }) && r->Ok_0.wf(),
            r is Err ==> r->Err_0.raw == raw && r->Err_0.lo == -SCALE && r->Err_0.hi == SCALE,
    {
        if -SCALE <= raw && raw <= SCALE {
            Ok(Panning { raw })
        } else {
            Err(OutOfRangeError { raw, lo: -SCALE, hi: SCALE })
        }
    }

    /// Blend `a` toward `b` by the fixed-point factor `amount`
    /// (`0` yields `a` clamped, `SCALE` yields `b` clamped). The endpoints
    /// are clamped into range first; `amount` is expected already shaped
    /// into `[0, SCALE]` by the easing layer.
    pub fn interpolate(a: Panning, b: Panning, amount: i64) -> (r: Panning)
        requires
            0 <= amount <= SCALE,
        ensures
            r.raw as int == Panning::interpolate_spec(a, b, amount as int),
            r.wf(),
    {
        let ca: i64 = scalar::clamp(a.raw, -SCALE, SCALE);
        let cb: i64 = scalar::clamp(b.raw, -SCALE, SCALE);
        Panning { raw: scalar::lerp(ca, cb, amount) }
    }

    /// Saturating addition of a raw offset: the exact sum clamped into range.
    pub fn saturating_add(self, v: i64) -> (r: Panning)
        requires
            self.wf(),
        ensures
            r.raw as int == scalar::sat_add_spec(self.raw as int, v as int, -SCALE as int, SCALE as int),
            r.wf(),
    {
        Panning { raw: scalar::sat_add(self.raw, v, -SCALE, SCALE) }
    }

    /// Saturating subtraction of a raw offset.
    pub fn saturating_sub(self, v: i64) -> (r: Panning)
        requires
            self.wf(),
        ensures
            r.raw as int == scalar::sat_sub_spec(self.raw as int, v as int, -SCALE as int, SCALE as int),
            r.wf(),
    {
        Panning { raw: scalar::sat_sub(self.raw, v, -SCALE, SCALE) }
    }

    /// Saturating multiplication by a raw fixed-point factor.
    pub fn saturating_mul(self, v: i64) -> (r: Panning)
        requires
            self.wf(),
        ensures
            r.raw as int == scalar::sat_mul_spec(self.raw as int, v as int, -SCALE as int, SCALE as int),
            r.wf(),
    {
        Panning { raw: scalar::sat_mul(self.raw, v, -SCALE, SCALE) }
    }

    /// Saturating division by a raw fixed-point factor. A zero divisor is a
    /// contract violation; callers must guard.
    pub fn saturating_div(self, v: i64) -> (r: Panning)
        requires
            self.wf(),
            v != 0,
        ensures
            r.raw as int == scalar::sat_div_spec(self.raw as int, v as int, -SCALE as int, SCALE as int),
            r.wf(),
    {
        Panning { raw: scalar::sat_div(self.raw, v, -SCALE, SCALE) }
    }

    /// Saturating remainder by a raw divisor. A zero divisor is a contract
    /// violation; callers must guard.
    pub fn saturating_rem(self, v: i64) -> (r: Panning)
        requires
            self.wf(),
            v != 0,
        ensures
            r.raw as int == scalar::sat_rem_spec(self.raw as int, v as int, -SCALE as int, SCALE as int),
            r.wf(),
    {
        Panning { raw: scalar::sat_rem(self.raw, v, -SCALE, SCALE) }
    }

    /// Saturating negation: mirrors the position about the center.
    pub fn saturating_neg(self) -> (r: Panning)
        requires
            self.wf(),
        ensures
            r.raw as int == scalar::sat_neg_spec(self.raw as int, -SCALE as int, SCALE as int),
            r.wf(),
    {
        Panning { raw: scalar::sat_neg(self.raw, -SCALE, SCALE) }
    }
}

impl Default for Panning {
    /// The default panning plays from both speakers at the same volume.
    fn default() -> (r: Panning)
        ensures
            r.raw == 0,
            r.wf(),
    {
        Panning { raw: 0 }
    }
}

/// Blending all the way toward neither endpoint returns that endpoint
/// itself: `interpolate(a, b, 0)` is `a` clamped and
/// `interpolate(a, b, SCALE)` is `b` clamped, exactly.
pub proof fn lemma_panning_interpolate_endpoints(a: Panning, b: Panning)
    requires
        a.wf(),
        b.wf(),
    ensures
        Panning::interpolate_spec(a, b, 0) == a.raw as int,
        Panning::interpolate_spec(a, b, SCALE as int) == b.raw as int,
{
    let ar = a.raw as int;
    let br = b.raw as int;
    vstd::arithmetic::div_mod::lemma_div_multiples_vanish(0, SCALE as int);
    if br >= ar {
        vstd::arithmetic::div_mod::lemma_div_multiples_vanish(br - ar, SCALE as int);
        assert((br - ar) * 0 / (SCALE as int) == 0);
    } else {
        vstd::arithmetic::div_mod::lemma_div_multiples_vanish(ar - br, SCALE as int);
        assert((ar - br) * 0 / (SCALE as int) == 0);
    }
}

} // verus!
