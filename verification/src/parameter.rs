//! The parameter automation cell.
//!
//! A `Parameter` owns a current bounded value and an optional in-flight
//! tween. Once constructed it is owned exclusively by the audio context:
//! it changes only when drained commands are applied at block start, or when
//! the per-block `update` advances the tween by the block's `dt`.

use crate::command::{Command, CommandChannel};
use crate::panning::Panning;
use vstd::prelude::*;

verus! {

/// An in-flight transition of a parameter toward a target value.
#[derive(Debug, Clone, Copy, PartialEq, Eq)]
pub struct ActiveTween {
    /// The value the parameter held when the tween began.
    pub start: Panning,
    /// The value the parameter is moving toward.
    pub target: Panning,
    /// Duration, curve shape and direction of the transition.
    pub tween: crate::tween::Tween,
    /// Ticks elapsed since the tween began; always less than the duration.
    pub elapsed: u64,
}

/// A mutable automation cell: the current value of one audio parameter,
/// together with the tween it is following, if any. Idle means the value is
/// fixed; Tweening means elapsed time is accumulating toward a target.
#[derive(Debug, Clone, Copy, PartialEq, Eq)]
pub struct Parameter {
    /// The current value.
    pub value: Panning,
    /// The in-flight tween, or `None` when the parameter is idle.
    pub active: Option<ActiveTween>,
}

impl Parameter {
    /// The current value is in range and any in-flight tween is toward an
    /// in-range target, with a positive duration not yet elapsed.
    pub open spec fn wf(self) -> bool {
        &&& self.value.wf()
        &&& match self.active {
            Some(a) => a.start.wf() && a.target.wf() && a.tween.wf() && a.elapsed
                < a.tween.duration,
            None => true,
        }
    }

    /// State after one command is applied. `SetImmediate` assigns the value
    /// and cancels any tween; `SetValue` restarts the elapsed time at zero
    /// toward the new target, discarding any previous in-flight tween.
    pub open spec fn after_command(self, c: Command) -> Parameter {
        match c {
            Command::SetImmediate { value } => Parameter { value, active: None },
            Command::SetValue { target, tween } => Parameter {
                value: self.value,
                active: Some(
                    ActiveTween { start: self.value, target, tween, elapsed: 0 },
                ),
            },
        }
    }

    /// State after a sequence of commands is applied, oldest first.
    pub open spec fn after_commands(self, cmds: Seq<Command>) -> Parameter
        decreases cmds.len(),
    {
        if cmds.len() == 0 {
            self
        } else {
            self.after_command(cmds[0]).after_commands(cmds.drop_first())
        }
    }

    /// State after advancing the tween by `dt` ticks: elapsed time grows by
    /// `dt`; when it reaches the duration the parameter finalizes to the
    /// target and becomes idle, otherwise the value follows the tween curve.
    pub open spec fn after_update(self, dt: int) -> Parameter {
        match self.active {
            None => self,
            Some(a) => if a.elapsed + dt >= a.tween.duration {
                Parameter { value: a.target, active: None }
            } else {
                Parameter {
                    value: Panning {
                        raw: a.tween.tween_spec(
                            a.start.raw as int,
                            a.target.raw as int,
                            a.elapsed + dt,
                        ) as i64,
                    },
                    active: Some(
                        ActiveTween {
                            start: a.start,
                            target: a.target,
                            tween: a.tween,
                            elapsed: (a.elapsed + dt) as u64,
                        },
                    ),
                }
            },
        }
    }

    /// Construct an idle parameter holding `initial`.
    pub fn new(initial: Panning) -> (r: Parameter)
        requires
            initial.wf(),
        ensures
            r.value == initial,
            r.active is None,
            r.wf(),
    {
        Parameter { value: initial, active: None }
    }

    /// The current value.
    pub fn value(&self) -> (v: Panning)
        ensures
            v == self.value,
    {
        self.value
    }

    /// Whether the parameter is idle (no tween in flight).
    pub fn is_idle(&self) -> (r: bool)
        ensures
            r == (self.active is None),
    {
        self.active.is_none()
    }

    /// Apply one drained command.
    pub fn apply_command(&mut self, c: Command)
        requires
            old(self).wf(),
            c.wf(),
        ensures
            *final(self) == old(self).after_command(c),
            final(self).wf(),
    {
        match c {
            Command::SetImmediate { value } => {
                self.value = value;
                self.active = None;
            },
            Command::SetValue { target, tween } => {
                self.active = Some(
                    ActiveTween { start: self.value, target, tween, elapsed: 0 },
                );
            },
        }
    }

    /// Drain every pending command from the channel and apply each in FIFO
    /// order, so later commands in the same block override earlier ones
    /// exactly as if they had been applied one at a time. Called once at the
    /// start of each processing block.
    pub fn drain(&mut self, channel: &mut CommandChannel<Command>)
        requires
            old(self).wf(),
            forall|i: int|
                0 <= i < old(channel).contents().len() ==> (
                #[trigger] old(channel).contents()[i]).wf(),
        ensures
            *final(self) == old(self).after_commands(old(channel).contents()),
            final(self).wf(),
            final(channel).contents().len() == 0,
            final(channel).capacity_spec() == old(channel).capacity_spec(),
    {
        while channel.len() > 0
            invariant
                self.wf(),
                forall|i: int|
                    0 <= i < channel.contents().len() ==> (
                    #[trigger] channel.contents()[i]).wf(),
                channel.capacity_spec() == old(channel).capacity_spec(),
                self.after_commands(channel.contents()) == old(self).after_commands(
                    old(channel).contents(),
                ),
            decreases channel.contents().len(),
        {
            let c = channel.pop();
            if let Some(cmd) = c {
                self.apply_command(cmd);
            }
        }
    }

    /// Advance the in-flight tween by `dt` ticks. Idle parameters are left
    /// unchanged; a tween that reaches its duration finalizes exactly to its
    /// target. Calling this more than once per block double-advances elapsed
    /// time, which is a caller contract, not a checked error.
    pub fn update(&mut self, dt: u64)
        requires
            old(self).wf(),
        ensures
            *final(self) == old(self).after_update(dt as int),
            final(self).wf(),
    {
        let act = self.active;
        match act {
            None => {
            },
            Some(a) => {
                if dt >= a.tween.duration - a.elapsed {
                    self.value = a.target;
                    self.active = None;
                } else {
                    let e: u64 = a.elapsed + dt;
                    let raw = a.tween.tween(a.start.raw, a.target.raw, e);
                    self.value = Panning { raw };
                    self.active = Some(
                        ActiveTween {
                            start: a.start,
                            target: a.target,
                            tween: a.tween,
                            elapsed: e,
                        },
                    );
                }
            },
        }
    }
}

/// Last command wins: a `SetValue` followed by a `SetImmediate` drained in
/// the same block leaves exactly the idle state that the `SetImmediate`
/// alone would have left — the tween never starts.
pub proof fn lemma_last_command_wins(p: Parameter, c1: Command, v: Panning)
    ensures
        p.after_commands(
            seq![c1, Command::SetImmediate { value: v }],
        ) == (Parameter { value: v, active: None }),
        p.after_commands(seq![c1, Command::SetImmediate { value: v }]) == p.after_commands(
            seq![Command::SetImmediate { value: v }],
        ),
{
    let two = seq![c1, Command::SetImmediate { value: v }];
    let one = seq![Command::SetImmediate { value: v }];
    let empty = Seq::<Command>::empty();
    assert(two.drop_first() =~= one);
    assert(one.drop_first() =~= empty);
    let q1 = p.after_command(c1);
    assert(p.after_commands(two) == q1.after_commands(one));
    let q2 = q1.after_command(one[0]);
    assert(q1.after_commands(one) == q2.after_commands(empty));
    assert(q2.after_commands(empty) == q2);
    assert(one[0] == Command::SetImmediate { value: v });
}

} // verus!
