use ecs_engine::movement_system::{FALL_LINE_BITS, LEVEL_LINE_BITS, SPAWN_Y_BITS};
use ecs_engine::physics::{FRICTION_BITS, GRAVITY_Y_BITS};
use ecs_engine::player_movement_system::{
    CAMERA_DEPTH_BITS, PLAYER_FALL_LINE_BITS, PLAYER_LEVEL_LINE_BITS, PLAYER_SPAWN_Y_BITS,
};
use ecs_engine::scalar::{Quaternion, Scalar, Vector2, Vector3, ONE_BITS, SIGN_BIT, ZERO_BITS};

fn s(x: f32) -> Scalar {
    Scalar::from_bits(x.to_bits())
}

fn samples() -> Vec<f32> {
    vec![
        0.0,
        -0.0,
        1.0,
        -1.0,
        0.5,
        -0.5,
        2.0,
        5.0,
        -5.0,
        -5.000001,
        -4.999999,
        10.0,
        -10.0,
        -10.000001,
        -9.999999,
        -15.0,
        -15.000002,
        -20.0,
        1.0e-40,
        -1.0e-40,
        f32::MIN_POSITIVE,
        f32::MAX,
        f32::MIN,
        f32::INFINITY,
        f32::NEG_INFINITY,
        f32::NAN,
        -f32::NAN,
    ]
}

#[test]
fn less_than_agrees_with_the_numbers() {
    for a in samples() {
        for b in samples() {
            assert_eq!(s(a).less_than(&s(b)), a < b, "{:?} < {:?}", a, b);
        }
    }
}

#[test]
fn is_nan_agrees_with_the_numbers() {
    for a in samples() {
        assert_eq!(s(a).is_nan(), a.is_nan(), "{:?}", a);
    }
}

#[test]
fn the_two_zeros_are_not_below_each_other() {
    assert!(!s(0.0).less_than(&s(-0.0)));
    assert!(!s(-0.0).less_than(&s(0.0)));
    assert!(s(-0.0).less_than(&s(f32::MIN_POSITIVE)));
    assert!(s(-f32::MIN_POSITIVE).less_than(&s(0.0)));
}

#[test]
fn nothing_is_below_or_above_a_nan() {
    for a in samples() {
        assert!(!s(a).less_than(&s(f32::NAN)));
        assert!(!s(f32::NAN).less_than(&s(a)));
    }
}

#[test]
fn bits_round_trip() {
    assert_eq!(Scalar::from_bits(0x4049_0FDB).to_bits(), 0x4049_0FDB);
    assert_eq!(s(3.5).to_bits(), 3.5f32.to_bits());
    assert_eq!(f32::from_bits(s(-7.25).to_bits()), -7.25);
}

#[test]
fn named_patterns_are_the_numbers_they_stand_for() {
    assert_eq!(ZERO_BITS, 0.0f32.to_bits());
    assert_eq!(ONE_BITS, 1.0f32.to_bits());
    assert_eq!(SIGN_BIT, (-0.0f32).to_bits());
    assert_eq!(FALL_LINE_BITS, (-10.0f32).to_bits());
    assert_eq!(LEVEL_LINE_BITS, (-5.0f32).to_bits());
    assert_eq!(SPAWN_Y_BITS, 5.0f32.to_bits());
    assert_eq!(PLAYER_FALL_LINE_BITS, (-15.0f32).to_bits());
    assert_eq!(PLAYER_LEVEL_LINE_BITS, (-5.0f32).to_bits());
    assert_eq!(PLAYER_SPAWN_Y_BITS, 2.0f32.to_bits());
    assert_eq!(CAMERA_DEPTH_BITS, 10.0f32.to_bits());
    assert_eq!(GRAVITY_Y_BITS, (-10.0f32).to_bits());
    assert_eq!(FRICTION_BITS, 0.3f32.to_bits());
}

#[test]
fn zero_and_one_and_identity() {
    assert_eq!(Scalar::zero(), s(0.0));
    assert_eq!(Scalar::one(), s(1.0));
    assert_eq!(Vector2::zero(), Vector2::new(s(0.0), s(0.0)));
    assert_eq!(Vector3::zero(), Vector3::new(s(0.0), s(0.0), s(0.0)));
    assert_eq!(Quaternion::identity(), Quaternion::new(s(1.0), Vector3::zero()));
}

#[test]
fn thresholds_split_the_line_where_they_should() {
    let fall = Scalar::from_bits(FALL_LINE_BITS);
    assert!(s(-20.0).less_than(&fall));
    assert!(s(-10.000001).less_than(&fall));
    assert!(!s(-10.0).less_than(&fall));
    assert!(!s(0.0).less_than(&fall));
    assert!(s(f32::NEG_INFINITY).less_than(&fall));
    assert!(!s(f32::NAN).less_than(&fall));
}
