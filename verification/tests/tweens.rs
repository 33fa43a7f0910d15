use kira::{EaseDirection, Easing, Tween, HALF, SCALE};

#[test]
fn easing_defaults() {
    assert_eq!(Easing::default(), Easing::Linear);
    assert_eq!(EaseDirection::default(), EaseDirection::In);
}

#[test]
fn easing_apply_linear_is_identity() {
    assert_eq!(Easing::Linear.apply(0), 0);
    assert_eq!(Easing::Linear.apply(1234), 1234);
    assert_eq!(Easing::Linear.apply(SCALE), SCALE);
}

#[test]
fn easing_apply_powers() {
    // t^0 is one unit, t^1 is t.
    assert_eq!(Easing::PowI(0).apply(123), SCALE);
    assert_eq!(Easing::PowI(1).apply(123), 123);
    // (1/2)^2 = 1/4, computed in fixed point.
    assert_eq!(Easing::PowI(2).apply(HALF), 1024);
    // (1/2)^3 = 1/8.
    assert_eq!(Easing::PowI(3).apply(HALF), 512);
    // Full progress stays full for any power.
    assert_eq!(Easing::PowI(7).apply(SCALE), SCALE);
    // Zero progress stays zero for any positive power.
    assert_eq!(Easing::PowI(5).apply(0), 0);
}

#[test]
fn ease_directions() {
    let quad_in = Tween { duration: 100, easing: Easing::PowI(2), direction: EaseDirection::In };
    let quad_out = Tween { duration: 100, easing: Easing::PowI(2), direction: EaseDirection::Out };
    // In applies the curve directly: (1/4)^2 = 1/16 -> raw 256.
    assert_eq!(quad_in.ease(1024), 256);
    // Out inverts the complement: 1 - (3/4)^2 = 7/16 -> raw 1792.
    assert_eq!(quad_out.ease(1024), SCALE - 2304);
    // Both fix the ends of the animation.
    assert_eq!(quad_in.ease(0), 0);
    assert_eq!(quad_in.ease(SCALE), SCALE);
    assert_eq!(quad_out.ease(0), 0);
    assert_eq!(quad_out.ease(SCALE), SCALE);
}

#[test]
fn ease_in_out_is_continuous_at_midpoint() {
    for easing in [Easing::Linear, Easing::PowI(2), Easing::PowI(3), Easing::PowI(6)] {
        let tw = Tween { duration: 100, easing, direction: EaseDirection::InOut };
        // The second-half formula starts exactly where the first half ends:
        // the midpoint maps to exactly one half.
        assert_eq!(tw.ease(HALF), HALF);
        // Stepping one raw unit across the midpoint moves the output by no
        // more than the curve's slope there (at most the exponent, doubled
        // by the time dilation) plus truncation: no jump at the seam.
        let below = tw.ease(HALF - 1);
        let above = tw.ease(HALF + 1);
        assert!((HALF - below).abs() <= 16, "left of midpoint: {below}");
        assert!((above - HALF).abs() <= 16, "right of midpoint: {above}");
        // The ends are fixed.
        assert_eq!(tw.ease(0), 0);
        assert_eq!(tw.ease(SCALE), SCALE);
    }
}

#[test]
fn tween_values_are_exact() {
    let tw = Tween { duration: 100, easing: Easing::PowI(2), direction: EaseDirection::In };
    // Half the duration, squared: shaped progress 1/4 of the way.
    assert_eq!(tw.tween(0, SCALE, 50), 1024);
    // Linear tween hits the exact midpoint between its endpoints.
    let lin = Tween { duration: 4096, easing: Easing::Linear, direction: EaseDirection::In };
    assert_eq!(lin.tween(-SCALE, SCALE, 2048), 0);
    assert_eq!(lin.tween(0, SCALE, 0), 0);
    assert_eq!(lin.tween(0, SCALE, 4096), SCALE);
    // Descending endpoints work symmetrically.
    assert_eq!(lin.tween(SCALE, -SCALE, 2048), 0);
}

#[test]
fn tween_from_duration() {
    let tw = Tween::from(250u64);
    assert_eq!(tw.duration, 250);
    assert_eq!(tw.easing, Easing::Linear);
    assert_eq!(tw.direction, EaseDirection::In);
    assert_eq!(tw, Tween::new(250, Easing::default(), EaseDirection::default()));
}
