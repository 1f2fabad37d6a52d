use pong::fixed::{integer_sqrt, Fixed, ONE};
use pong::vector::{Rotation, Vec2};

fn fx(v: f64) -> Fixed {
    Fixed::from_micro((v * 1e6).round() as i64)
}

#[test]
fn product_rounds_toward_zero() {
    let a = Fixed::from_micro(1_500_000);
    let b = Fixed::from_micro(-333_333);
    assert_eq!(a.times(b).to_micro(), -499_999);
    assert_eq!(b.times(a).to_micro(), -499_999);
    assert_eq!(a.times(b.negated()).to_micro(), 499_999);
}

#[test]
fn whole_numbers_are_millions() {
    assert_eq!(ONE, 1_000_000);
    assert_eq!(Fixed::from_int(7).to_micro(), 7_000_000);
    assert_eq!(Fixed::from_int(-3).to_micro(), -3_000_000);
    assert_eq!(Fixed::zero().to_micro(), 0);
    assert_eq!(Fixed::from_micro(42).to_micro(), 42);
}

#[test]
fn sums_and_differences_saturate() {
    let big = Fixed::from_micro(i64::MAX);
    let small = Fixed::from_micro(i64::MIN);
    assert_eq!(big.plus(Fixed::from_micro(1)).to_micro(), i64::MAX);
    assert_eq!(small.minus(Fixed::from_micro(1)).to_micro(), i64::MIN);
    assert_eq!(small.negated().to_micro(), i64::MAX);
    assert_eq!(fx(1.5).plus(fx(2.25)).to_micro(), 3_750_000);
    assert_eq!(fx(1.5).minus(fx(2.25)).to_micro(), -750_000);
}

#[test]
fn products_saturate() {
    let big = Fixed::from_micro(i64::MAX);
    assert_eq!(big.times(fx(2.0)).to_micro(), i64::MAX);
    assert_eq!(big.times(fx(-2.0)).to_micro(), i64::MIN);
    assert_eq!(big.times(fx(0.5)).to_micro(), i64::MAX / 2);
}

#[test]
fn quotient_rounds_toward_zero() {
    assert_eq!(fx(1.0).over(fx(3.0)).to_micro(), 333_333);
    assert_eq!(fx(-1.0).over(fx(3.0)).to_micro(), -333_333);
    assert_eq!(fx(1.0).over(fx(-3.0)).to_micro(), -333_333);
    assert_eq!(fx(-1.0).over(fx(-3.0)).to_micro(), 333_333);
    assert_eq!(fx(15.0).over(fx(1.2)).to_micro(), 12_500_000);
    assert_eq!(Fixed::from_micro(i64::MAX).over(Fixed::from_micro(1)).to_micro(), i64::MAX);
}

#[test]
fn clamp_holds_between_bounds() {
    let lo = fx(-150.0);
    let hi = fx(150.0);
    assert_eq!(fx(10.0).clamped(lo, hi), fx(10.0));
    assert_eq!(fx(151.0).clamped(lo, hi), hi);
    assert_eq!(fx(-151.0).clamped(lo, hi), lo);
    assert_eq!(hi.clamped(lo, hi), hi);
    assert_eq!(lo.clamped(lo, hi), lo);
}

#[test]
fn integer_square_root_is_the_floor() {
    assert_eq!(integer_sqrt(0), 0);
    assert_eq!(integer_sqrt(1), 1);
    assert_eq!(integer_sqrt(3), 1);
    assert_eq!(integer_sqrt(4), 2);
    assert_eq!(integer_sqrt(99), 9);
    assert_eq!(integer_sqrt(100), 10);
    assert_eq!(integer_sqrt(u128::MAX), u64::MAX);
    assert_eq!(integer_sqrt(1u128 << 126), 1u64 << 63);
}

#[test]
fn norm_of_three_four_is_five() {
    let v = Vec2::new(fx(3.0), fx(-4.0));
    assert_eq!(v.norm(), fx(5.0));
    assert_eq!(Vec2::new(fx(0.0), fx(0.0)).norm(), fx(0.0));
    assert_eq!(Vec2::new(Fixed::from_micro(1), Fixed::from_micro(1)).norm().to_micro(), 1);
    let huge = Vec2::new(Fixed::from_micro(i64::MAX), Fixed::from_micro(i64::MAX));
    assert_eq!(huge.norm().to_micro(), i64::MAX);
}

#[test]
fn vectors_add_and_scale() {
    let v = Vec2::new(fx(1.0), fx(2.0));
    let w = Vec2::new(fx(0.5), fx(-2.5));
    assert_eq!(v.plus(w), Vec2::new(fx(1.5), fx(-0.5)));
    assert_eq!(v.scaled(fx(1.1)), Vec2::new(fx(1.1), fx(2.2)));
}

#[test]
fn rotation_needs_unit_length() {
    assert!(Rotation::new(fx(1.0), fx(0.0)).is_some());
    assert!(Rotation::new(fx(0.6), fx(0.8)).is_some());
    assert!(Rotation::new(fx(0.766044), fx(0.642788)).is_some());
    assert!(Rotation::new(fx(1.0), fx(0.01)).is_none());
    assert!(Rotation::new(fx(0.0), fx(0.0)).is_none());
    assert!(Rotation::new(fx(0.99), fx(0.0)).is_none());
    assert_eq!(Rotation::new(fx(1.0), fx(0.0)), Some(Rotation::identity()));
}

#[test]
fn rotation_accepts_every_rounded_angle() {
    let mut i = 0;
    while i < 3600 {
        let angle = (i as f64) * std::f64::consts::PI / 1800.0;
        assert!(Rotation::new(fx(angle.cos()), fx(angle.sin())).is_some());
        i += 1;
    }
}

#[test]
fn rotation_turns_counter_clockwise() {
    let quarter = Rotation::new(fx(0.0), fx(1.0)).unwrap();
    assert_eq!(quarter.apply(Vec2::new(fx(2.0), fx(0.0))), Vec2::new(fx(0.0), fx(2.0)));
    assert_eq!(quarter.apply(Vec2::new(fx(0.0), fx(2.0))), Vec2::new(fx(-2.0), fx(0.0)));
    let same = Rotation::identity();
    assert_eq!(same.apply(Vec2::new(fx(1.25), fx(-7.5))), Vec2::new(fx(1.25), fx(-7.5)));
    let r = Rotation::new(fx(0.6), fx(0.8)).unwrap();
    assert_eq!(r.apply(Vec2::new(fx(10.0), fx(5.0))), Vec2::new(fx(2.0), fx(11.0)));
}
