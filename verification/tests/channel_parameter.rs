use kira::{
    Command, CommandChannel, EaseDirection, Easing, Panning, Parameter, Tween, Value, HALF, SCALE,
};

fn set_immediate(raw: i64) -> Command {
    Command::SetImmediate { value: Panning::new(raw) }
}

fn set_value(raw: i64, duration: u64) -> Command {
    Command::SetValue {
        target: Panning::new(raw),
        tween: Tween { duration, easing: Easing::Linear, direction: EaseDirection::In },
    }
}

#[test]
fn channel_is_fifo_with_bounded_capacity() {
    let mut chan: CommandChannel<Command> = CommandChannel::new(3);
    assert_eq!(chan.capacity(), 3);
    assert_eq!(chan.len(), 0);
    assert!(chan.push(set_immediate(1)));
    assert!(chan.push(set_immediate(2)));
    assert!(chan.push(set_immediate(3)));
    // The channel is full: the most recent command is dropped, without
    // error propagation, and the pending ones are untouched.
    assert!(!chan.push(set_immediate(4)));
    assert_eq!(chan.len(), 3);
    // Pops come out oldest first.
    assert_eq!(chan.pop(), Some(set_immediate(1)));
    assert_eq!(chan.pop(), Some(set_immediate(2)));
    assert_eq!(chan.pop(), Some(set_immediate(3)));
    assert_eq!(chan.pop(), None);
}

#[test]
fn draining_applies_all_commands_in_push_order() {
    let mut chan: CommandChannel<Command> = CommandChannel::new(8);
    let mut param = Parameter::new(Panning::center());
    // An immediate assignment followed by a tween start: applied in push
    // order, the parameter ends tweening from the assigned value.
    assert!(chan.push(set_immediate(-1000)));
    assert!(chan.push(set_value(3000, 100)));
    param.drain(&mut chan);
    assert_eq!(chan.len(), 0);
    assert_eq!(param.value().raw, -1000);
    assert!(!param.is_idle());
    let active = param.active.unwrap();
    assert_eq!(active.start.raw, -1000);
    assert_eq!(active.target.raw, 3000);
    assert_eq!(active.elapsed, 0);
}

#[test]
fn draining_an_empty_channel_changes_nothing() {
    let mut chan: CommandChannel<Command> = CommandChannel::new(4);
    let mut param = Parameter::new(Panning::new(77));
    param.drain(&mut chan);
    assert_eq!(param.value().raw, 77);
    assert!(param.is_idle());
}

#[test]
fn last_command_wins_before_the_next_drain() {
    let mut chan: CommandChannel<Command> = CommandChannel::new(8);
    let mut param = Parameter::new(Panning::center());
    // A tween request immediately followed by an immediate assignment:
    // only the assignment is observed, the tween never starts.
    assert!(chan.push(set_value(SCALE, 1000)));
    assert!(chan.push(set_immediate(-2000)));
    param.drain(&mut chan);
    assert_eq!(param.value().raw, -2000);
    assert!(param.is_idle());
}

#[test]
fn tween_advances_to_target_in_four_quarter_steps() {
    // set_tweened(target = RIGHT, duration = 1.0, Linear, In), advanced with
    // dt = 0.25 four times: one second is SCALE ticks here.
    let mut chan: CommandChannel<Command> = CommandChannel::new(4);
    let mut param = Parameter::new(Panning::center());
    assert!(chan.push(Command::SetValue {
        target: Panning::right(),
        tween: Tween { duration: 4096, easing: Easing::Linear, direction: EaseDirection::In },
    }));
    param.drain(&mut chan);
    let dt: u64 = 1024;
    param.update(dt);
    assert_eq!(param.value().raw, 1024);
    assert!(!param.is_idle());
    // At the second advance, elapsed is half the duration: the value is the
    // exact midpoint between the start and RIGHT.
    param.update(dt);
    assert_eq!(param.value().raw, HALF);
    assert!(!param.is_idle());
    param.update(dt);
    assert_eq!(param.value().raw, 3072);
    assert!(!param.is_idle());
    // The fourth advance reaches the target exactly and the parameter
    // reports idle thereafter.
    param.update(dt);
    assert_eq!(param.value(), Panning::right());
    assert!(param.is_idle());
    param.update(dt);
    assert_eq!(param.value(), Panning::right());
    assert!(param.is_idle());
}

#[test]
fn update_while_idle_changes_nothing() {
    let mut param = Parameter::new(Panning::new(-42));
    param.update(100_000);
    assert_eq!(param.value().raw, -42);
    assert!(param.is_idle());
}

#[test]
fn overshooting_dt_finalizes_exactly_at_target() {
    let mut chan: CommandChannel<Command> = CommandChannel::new(4);
    let mut param = Parameter::new(Panning::center());
    assert!(chan.push(set_value(-3000, 10)));
    param.drain(&mut chan);
    param.update(u64::MAX);
    assert_eq!(param.value().raw, -3000);
    assert!(param.is_idle());
}

#[test]
fn value_resolution() {
    let fixed: Value<Panning> = Value::Fixed(Panning::new(5));
    // A fixed value ignores the registry lookup entirely.
    assert_eq!(fixed.resolve(Some(Panning::new(9)), Panning::center()).raw, 5);
    assert_eq!(fixed.resolve(None, Panning::center()).raw, 5);
    let linked: Value<Panning> = Value::FromParameter(7);
    // A linked value reads the referenced parameter when it exists...
    assert_eq!(linked.resolve(Some(Panning::new(9)), Panning::center()).raw, 9);
    // ...and degrades to the caller-supplied default when it is gone.
    assert_eq!(linked.resolve(None, Panning::new(-8)).raw, -8);
    // Bounded values convert into fixed value specifications.
    let from: Value<Panning> = Panning::new(5).into();
    assert_eq!(from, fixed);
}
