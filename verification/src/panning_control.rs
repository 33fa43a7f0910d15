//! Adjusts the panning of audio.
//!
//! The reference effect: one [`Parameter`] bounded to the stereo-position
//! interval, default-centered, fed by its own command channel. The control
//! context enqueues changes through `set_immediate` / `set_tweened`; each
//! processing block the `on_start_processing` hook drains them into the
//! parameter, and each frame `process` advances the parameter by `dt` and
//! applies the linear stereo pan law of [`Frame::panned`].

use crate::command::{Command, CommandChannel};
use crate::effect::{Effect, Frame};
use crate::panning::Panning;
use crate::parameter::Parameter;
use crate::tween::{EaseDirection, Easing, Tween};
use vstd::prelude::*;

verus! {

/// An effect that smoothly adjusts the stereo position of the audio
/// passing through it.
pub struct PanningControl {
    channel: CommandChannel<Command>,
    panning: Parameter,
}

impl PanningControl {
    /// The pending, not yet drained commands, oldest first.
    pub closed spec fn pending(self) -> Seq<Command> {
        self.channel.contents()
    }

    /// The owned panning parameter.
    pub closed spec fn parameter_spec(self) -> Parameter {
        self.panning
    }

    /// The fixed capacity of the command channel.
    pub closed spec fn capacity_spec(self) -> int {
        self.channel.capacity_spec()
    }

    /// Construct the effect with an initial stereo position and a fixed
    /// command-channel capacity. All storage is reserved here; neither the
    /// control surface nor the audio path allocates afterwards.
    pub fn new(initial: Panning, capacity: usize) -> (r: PanningControl)
        requires
            initial.wf(),
        ensures
            r.wf(),
            r.parameter_spec().value == initial,
            r.parameter_spec().active is None,
            r.pending() == Seq::<Command>::empty(),
            r.capacity_spec() == capacity as int,
    {
        PanningControl {
            channel: CommandChannel::new(capacity),
            panning: Parameter::new(initial),
        }
    }

    /// The parameter's current stereo position.
    pub fn value(&self) -> (v: Panning)
        ensures
            v == self.parameter_spec().value,
    {
        self.panning.value()
    }

    /// Control surface: request that the panning take `value` at once,
    /// cancelling any in-flight tween. Returns immediately; the command is
    /// applied at the next block start. `false` reports that the channel
    /// was full and the command was dropped.
    pub fn set_immediate(&mut self, value: Panning) -> (accepted: bool)
        requires
            old(self).wf(),
            value.wf(),
        ensures
            final(self).wf(),
            accepted == (old(self).pending().len() < old(self).capacity_spec()),
            accepted ==> final(self).pending() == old(self).pending().push(
                Command::SetImmediate { value },
            ),
            !accepted ==> final(self).pending() == old(self).pending(),
            final(self).parameter_spec() == old(self).parameter_spec(),
            final(self).capacity_spec() == old(self).capacity_spec(),
    {
        self.channel.push(Command::SetImmediate { value })
    }

    /// Control surface: request a smooth transition of the panning toward
    /// `target` over `duration` ticks with the given curve. Returns
    /// immediately; the command is applied at the next block start. A zero
    /// duration is rejected by contract. `false` reports that the channel
    /// was full and the command was dropped.
    pub fn set_tweened(
        &mut self,
        target: Panning,
        duration: u64,
        easing: Easing,
        direction: EaseDirection,
    ) -> (accepted: bool)
        requires
            old(self).wf(),
            target.wf(),
            duration > 0,
        ensures
            final(self).wf(),
            accepted == (old(self).pending().len() < old(self).capacity_spec()),
            accepted ==> final(self).pending() == old(self).pending().push(
                Command::SetValue { target, tween: Tween { duration, easing, direction } },
            ),
            !accepted ==> final(self).pending() == old(self).pending(),
            final(self).parameter_spec() == old(self).parameter_spec(),
            final(self).capacity_spec() == old(self).capacity_spec(),
    {
        self.channel.push(
            Command::SetValue { target, tween: Tween { duration, easing, direction } },
        )
    }

    /// Drain every pending command into the parameter, oldest first, so the
    /// last command wins. The block-start half of the effect lifecycle.
    pub fn drain_commands(&mut self)
        requires
            old(self).wf(),
        ensures
            final(self).wf(),
            final(self).parameter_spec() == old(self).parameter_spec().after_commands(
                old(self).pending(),
            ),
            final(self).pending().len() == 0,
            final(self).capacity_spec() == old(self).capacity_spec(),
    {
        self.panning.drain(&mut self.channel);
    }

    /// Advance the parameter by `dt` ticks and pan the frame with the
    /// resulting stereo position. The per-frame half of the effect
    /// lifecycle.
    pub fn process_frame(&mut self, input: Frame, dt: u64) -> (out: Frame)
        requires
            old(self).wf(),
        ensures
            final(self).wf(),
            final(self).parameter_spec() == old(self).parameter_spec().after_update(dt as int),
            out == input.panned_spec(final(self).parameter_spec().value.raw as int),
            final(self).pending() == old(self).pending(),
            final(self).capacity_spec() == old(self).capacity_spec(),
    {
        self.panning.update(dt);
        input.panned(self.panning.value())
    }
}

impl Effect for PanningControl {
    /// The parameter is well-formed and every pending command is too.
    closed spec fn wf(&self) -> bool {
        &&& self.panning.wf()
        &&& forall|i: int|
            0 <= i < self.channel.contents().len() ==> (
            #[trigger] self.channel.contents()[i]).wf()
    }

    fn on_start_processing(&mut self)
        ensures
            final(self).parameter_spec() == old(self).parameter_spec().after_commands(
                old(self).pending(),
            ),
            final(self).pending().len() == 0,
    {
        self.drain_commands();
    }

    fn process(&mut self, input: Frame, dt: u64) -> (out: Frame)
        ensures
            final(self).parameter_spec() == old(self).parameter_spec().after_update(dt as int),
            out == input.panned_spec(final(self).parameter_spec().value.raw as int),
    {
        self.process_frame(input, dt)
    }
}

} // verus!
