use kira::{
    EaseDirection, Easing, Effect, EffectId, EffectSettings, Frame, Panning, PanningControl, HALF,
    SCALE,
};

#[test]
fn frame_panned_hard_left_and_right() {
    let input = Frame { left: 1_000_000, right: 900_000 };
    let l = input.panned(Panning::left());
    assert_eq!(l.left, input.left);
    assert_eq!(l.right, 0);
    let r = input.panned(Panning::right());
    assert_eq!(r.right, input.right);
    assert_eq!(r.left, 0);
}

#[test]
fn frame_panned_center_halves_both_channels() {
    let input = Frame { left: SCALE, right: SCALE };
    let c = input.panned(Panning::center());
    assert_eq!(c.left, HALF);
    assert_eq!(c.right, HALF);
}

#[test]
fn panning_control_full_left_scenario() {
    // A panning-control effect initialized at the center; the control
    // context assigns hard left; after the next block-start hook and one
    // process call, the right channel contributes nothing and the left
    // channel carries the input's full amplitude.
    let mut control = PanningControl::new(Panning::center(), 8);
    assert!(control.set_immediate(Panning::left()));
    control.on_start_processing();
    let out = control.process(Frame { left: 123_456, right: 654_321 }, 64);
    assert_eq!(out.left, 123_456);
    assert_eq!(out.right, 0);
    assert_eq!(control.value(), Panning::left());
}

#[test]
fn panning_control_tweens_between_blocks() {
    let mut control = PanningControl::new(Panning::center(), 8);
    assert!(control.set_tweened(
        Panning::right(),
        4096,
        Easing::Linear,
        EaseDirection::In,
    ));
    control.on_start_processing();
    // Two quarter-duration frames: the parameter reaches the midpoint
    // between center and right.
    control.process(Frame { left: 0, right: 0 }, 1024);
    let out = control.process(Frame { left: SCALE, right: SCALE }, 1024);
    assert_eq!(control.value().raw, HALF);
    // Linear pan law at pan = 1/2: left gain 1/4, right gain 3/4.
    assert_eq!(out.left, 1024);
    assert_eq!(out.right, 3072);
}

#[test]
fn panning_control_drops_on_overflow() {
    let mut control = PanningControl::new(Panning::center(), 1);
    assert!(control.set_immediate(Panning::left()));
    // The channel is full: the later request is dropped, not queued.
    assert!(!control.set_immediate(Panning::right()));
    control.on_start_processing();
    assert_eq!(control.value(), Panning::left());
}

#[test]
fn effect_settings_default_enabled() {
    let settings = EffectSettings::default();
    assert!(settings.enabled);
}

#[test]
fn effect_id_reports_its_track() {
    let id = EffectId::new(3);
    assert_eq!(id.track_index(), 3);
    let copy = id;
    assert_eq!(id, copy);
}
