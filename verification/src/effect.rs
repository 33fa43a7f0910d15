//! The effect-processing contract and its supporting types.
//!
//! Every DSP unit implements [`Effect`]: a per-block lifecycle hook that
//! runs before any sample of the block is processed (used to drain pending
//! commands into owned parameters), and a per-frame transform. Nothing on
//! either path may block, allocate, or branch on recoverable errors; all
//! failures degrade to a deterministic clamped value.

use crate::panning::Panning;
use crate::scalar;
use crate::scalar::SCALE;
use vstd::prelude::*;

verus! {

/// A single stereo audio frame: one amplitude per channel, as raw
/// fixed-point values (`SCALE` steps per unit of amplitude).
#[derive(Debug, Clone, Copy, PartialEq, Eq, Structural)]
pub struct Frame {
    /// Left channel amplitude.
    pub left: i64,
    /// Right channel amplitude.
    pub right: i64,
}

/// Gain applied to the left channel at panning position `pan` under the
/// linear pan law: full at the left end, half at the center, zero at the
/// right end.
pub open spec fn left_gain_spec(pan: int) -> int {
    (SCALE as int - pan) / 2
}

/// Gain applied to the right channel at panning position `pan` under the
/// linear pan law.
pub open spec fn right_gain_spec(pan: int) -> int {
    (SCALE as int + pan) / 2
}

impl Frame {
    /// The frame with each channel scaled by its linear pan gain.
    pub open spec fn panned_spec(self, pan: int) -> Frame {
        Frame {
            left: scalar::sat_mul_spec(
                self.left as int,
                left_gain_spec(pan),
                i64::MIN as int,
                i64::MAX as int,
            ) as i64,
            right: scalar::sat_mul_spec(
                self.right as int,
                right_gain_spec(pan),
                i64::MIN as int,
                i64::MAX as int,
            ) as i64,
        }
    }

    /// Apply a stereo pan to the frame with a linear crossfade law (a
    /// policy choice of this library; a constant-power law would serve as
    /// well). Panning hard left passes the left channel through at full
    /// amplitude and silences the right channel, and symmetrically for hard
    /// right.
    pub fn panned(self, pan: Panning) -> (r: Frame)
        requires
            pan.wf(),
        ensures
            r == self.panned_spec(pan.raw as int),
            pan.raw == -SCALE ==> r.left == self.left && r.right == 0,
            pan.raw == SCALE ==> r.right == self.right && r.left == 0,
    {
        proof {
            scalar::lemma_scaled_mul_unit(self.left as int);
            scalar::lemma_scaled_mul_unit(self.right as int);
            scalar::lemma_scaled_mul_zero(self.left as int);
            scalar::lemma_scaled_mul_zero(self.right as int);
        }
        let gl: i64 = (((SCALE - pan.raw) as u64) / 2) as i64;
        let gr: i64 = (((SCALE + pan.raw) as u64) / 2) as i64;
        Frame {
            left: scalar::sat_mul(self.left, gl, i64::MIN, i64::MAX),
            right: scalar::sat_mul(self.right, gr, i64::MIN, i64::MAX),
        }
    }
}

/// Settings for an effect.
#[derive(Debug, Clone, Copy, PartialEq, Eq, Structural)]
pub struct EffectSettings {
    /// Whether the effect is initially enabled.
    pub enabled: bool,
}

impl Default for EffectSettings {
    /// Effects start out enabled.
    fn default() -> (r: EffectSettings)
        ensures
            r.enabled,
    {
        EffectSettings { enabled: true }
    }
}

/// Declares `uuid::Uuid` so effect identifiers can carry one; the library
/// never inspects its contents.
#[verifier::external_type_specification]
#[verifier::external_body]
pub struct ExUuid(uuid::Uuid);

/// Relies on `uuid::Uuid::new_v4` for a randomly generated version-4 UUID.
/// The result depends on a random source, so nothing is promised of it.
#[verifier::external_body]
fn generate_uuid() -> uuid::Uuid {
    uuid::Uuid::new_v4()
}

/// A unique identifier for an effect: a process-wide random token combined
/// with the index of the mixer track the effect applies to. Used only for
/// external addressing and removal, never consulted on the per-sample path.
#[derive(Debug, Clone, Copy, PartialEq, Eq, Hash)]
pub struct EffectId {
    uuid: uuid::Uuid,
    track_index: usize,
}

impl EffectId {
    /// The index of the mixer track this effect applies to.
    pub closed spec fn track_index_spec(self) -> int {
        self.track_index as int
    }

    /// Create an identifier for an effect on the given mixer track.
    pub fn new(track_index: usize) -> (r: EffectId)
        ensures
            r.track_index_spec() == track_index as int,
    {
        EffectId { uuid: generate_uuid(), track_index }
    }

    /// Gets the mixer track that this effect applies to.
    pub fn track_index(&self) -> (t: usize)
        ensures
            t as int == self.track_index_spec(),
    {
        self.track_index
    }
}

/// The interface every DSP unit implements.
///
/// `wf` is the unit's own well-formedness invariant, established at
/// construction. The surrounding audio pipeline must call
/// `on_start_processing` exactly once per block before processing any frame
/// of that block, then `process` once per frame in sample order.
pub trait Effect {
    /// Well-formedness invariant of the effect's state.
    spec fn wf(&self) -> bool;

    /// Per-block lifecycle hook, run before any sample of the block: drains
    /// pending commands into the effect's parameters. Must be cheap and
    /// allocation-free.
    fn on_start_processing(&mut self)
        requires
            old(self).wf(),
        ensures
            final(self).wf(),
    ;

    /// Transform one audio frame, advancing owned parameters by the block's
    /// `dt` ticks. Deterministic given the effect's current state; no
    /// blocking calls, no allocation.
    fn process(&mut self, input: Frame, dt: u64) -> (out: Frame)
        requires
            old(self).wf(),
        ensures
            final(self).wf(),
    ;
}

} // verus!
