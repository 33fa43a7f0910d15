//! The command channel: the explicit hand-off boundary between the control
//! context and the audio context.
//!
//! A channel is a bounded, fixed-capacity FIFO queue of value-change
//! commands. Pushing never blocks: when the queue is full the new command is
//! dropped and the producer is told so. The consumer drains every pending
//! command once per processing block, oldest first, so later commands
//! override earlier ones exactly as if applied one at a time. All storage is
//! reserved at construction; neither hot path allocates afterwards.

use crate::panning::Panning;
use crate::tween::Tween;
use std::collections::VecDeque;
use vstd::prelude::*;

verus! {

/// A value-change request, produced on the control thread and consumed
/// exactly once on the audio thread, in FIFO order.
#[derive(Debug, Clone, Copy, PartialEq, Eq)]
pub enum Command {
    /// Begin a new tween toward `target` using `tween`, replacing any
    /// in-flight tween.
    SetValue {
        /// The value the parameter should move toward.
        target: Panning,
        /// Duration, curve shape and direction of the transition.
        tween: Tween,
    },
    /// Assign `value` at once, cancelling any in-flight tween.
    SetImmediate {
        /// The value the parameter should take.
        value: Panning,
    },
}

impl Command {
    /// The payload carries only in-range values and a positive duration.
    pub open spec fn wf(self) -> bool {
        match self {
            Command::SetValue { target, tween } => target.wf() && tween.wf(),
            Command::SetImmediate { value } => value.wf(),
        }
    }
}

/// A single-producer/single-consumer, fixed-capacity FIFO queue of
/// commands, parameterized by the command payload type.
pub struct CommandChannel<T> {
    buf: VecDeque<T>,
    cap: usize,
}

impl<T> CommandChannel<T> {
    /// The pending commands, oldest first.
    pub closed spec fn contents(self) -> Seq<T> {
        self.buf@
    }

    /// The fixed capacity chosen at construction.
    pub closed spec fn capacity_spec(self) -> int {
        self.cap as int
    }

    /// Construct a channel that holds at most `capacity` pending commands.
    /// All storage is reserved here.
    pub fn new(capacity: usize) -> (r: CommandChannel<T>)
        ensures
            r.contents() == Seq::<T>::empty(),
            r.capacity_spec() == capacity as int,
    {
        CommandChannel { buf: VecDeque::with_capacity(capacity), cap: capacity }
    }

    /// The fixed capacity chosen at construction.
    pub fn capacity(&self) -> (c: usize)
        ensures
            c as int == self.capacity_spec(),
    {
        self.cap
    }

    /// How many commands are pending.
    pub fn len(&self) -> (n: usize)
        ensures
            n as int == self.contents().len(),
    {
        self.buf.len()
    }

    /// Non-blocking push. When the queue is full the command is dropped and
    /// `false` reports the non-fatal overflow to the producer; the queue is
    /// left exactly as it was.
    pub fn push(&mut self, command: T) -> (accepted: bool)
        ensures
            accepted == (old(self).contents().len() < old(self).capacity_spec()),
            accepted ==> final(self).contents() == old(self).contents().push(command),
            !accepted ==> final(self).contents() == old(self).contents(),
            final(self).capacity_spec() == old(self).capacity_spec(),
    {
        if self.buf.len() < self.cap {
            self.buf.push_back(command);
            true
        } else {
            false
        }
    }

    /// Pop the oldest pending command, if any.
    pub fn pop(&mut self) -> (r: Option<T>)
        ensures
            final(self).capacity_spec() == old(self).capacity_spec(),
            old(self).contents().len() == 0 ==> r is None && final(self).contents()
                == old(self).contents(),
            old(self).contents().len() > 0 ==> r == Some(old(self).contents()[0])
                && final(self).contents() == old(self).contents().drop_first(),
    {
        self.buf.pop_front()
    }
}

} // verus!
