use birds::steer::{axis_wrap, rotation_sign, AxisWrap, Sign};

fn deg(d: f32) -> f32 {
    d.to_radians()
}

/// The proximity turn for a bird at height `y` (in the neighbours' frame)
/// heading `angle`, with turn gain `rot`.
fn turn(y: f32, angle: f32, rot: f32) -> f32 {
    let facing_back = angle > deg(90.0) && angle < deg(270.0);
    match rotation_sign(y.is_sign_positive(), facing_back) {
        Sign::Plus => rot,
        Sign::Minus => -rot,
    }
}

#[test]
fn rotation_sign_table() {
    assert_eq!(rotation_sign(true, false), Sign::Plus);
    assert_eq!(rotation_sign(true, true), Sign::Minus);
    assert_eq!(rotation_sign(false, true), Sign::Plus);
    assert_eq!(rotation_sign(false, false), Sign::Minus);
}

#[test]
fn rotation_delta_at_origin_heading_zero() {
    assert_eq!(turn(0.0, 0.0, deg(1.0)), deg(1.0));
    assert_eq!(turn(-1.0, 0.0, deg(1.0)), -deg(1.0));
    assert_eq!(turn(0.0, 0.0, -deg(1.0)), -deg(1.0));
    // negative zero counts as the negative side
    assert_eq!(turn(-0.0, 0.0, deg(1.0)), -deg(1.0));
}

#[test]
fn rotation_delta_by_quadrant() {
    let rot = deg(1.0);
    for i in 0..360 {
        let a = deg(i as f32);
        let back = i > 90 && i < 270;
        let expected_up = if back { -rot } else { rot };
        assert_eq!(turn(1.0, a, rot), expected_up, "heading {}", i);
        assert_eq!(turn(-1.0, a, rot), -expected_up, "heading {}", i);
        assert_eq!(turn(1.0, a, -rot), -expected_up, "heading {}", i);
    }
}

#[test]
fn axis_wrap_decisions() {
    assert_eq!(axis_wrap(false, false), AxisWrap::Stay);
    assert_eq!(axis_wrap(true, false), AxisWrap::Back);
    assert_eq!(axis_wrap(false, true), AxisWrap::Forward);
    assert_eq!(axis_wrap(true, true), AxisWrap::Back);
}
