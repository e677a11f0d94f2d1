use pnr_core::delay::{Delay, DelayPair, DelayQuad};

#[test]
fn delay_add() {
    let left = 420;
    let right = 42;

    let lhs = Delay::with_delay(left);
    let rhs = Delay::with_delay(right);
    let result = lhs + rhs;
    assert_eq!(result, Delay::with_delay(left + right));
}

#[test]
fn delay_sub() {
    let left = 42;
    let right = 420;

    let lhs = Delay::with_delay(left);
    let rhs = Delay::with_delay(right);
    let result = lhs - rhs;
    assert_eq!(result, Delay::with_delay(left - right));
}

#[test]
fn delay_eq() {
    let left = 420;
    let right = 420;

    let lhs = Delay::with_delay(left);
    let rhs = Delay::with_delay(right);
    let result = lhs == rhs;
    assert_eq!(result, true);

    let lhs = Delay::with_delay(left - 1);
    let result = lhs == rhs;
    assert_eq!(result, false)
}

#[test]
fn delay_pair_add() {
    let left_min = 2;
    let left_max = 7;

    let right_min = 1;
    let right_max = 9;

    let lhs = DelayPair::with_min_max(left_min.into(), left_max.into());
    let rhs = DelayPair::with_min_max(right_min.into(), right_max.into());
    let result = lhs + rhs;
    assert_eq!(
        result,
        DelayPair::with_min_max((left_min + right_min).into(), (left_max + right_max).into())
    );
}

#[test]
fn delay_pair_sub() {
    let lhs = DelayPair::with_min_max(9.into(), 21.into());
    let rhs = DelayPair::with_min_max(6.into(), 9.into());
    let result = lhs - rhs;
    assert_eq!(result, DelayPair::with_min_max(3.into(), 12.into()));
}

#[test]
fn delay_add_sub_cancels() {
    let a = Delay::with_delay(1234);
    let b = Delay::with_delay(-99);
    assert_eq!((a + b) - b, a);
}

#[test]
fn delay_pair_componentwise_law() {
    let a = Delay::with_delay(1);
    let b = Delay::with_delay(2);
    let c = Delay::with_delay(30);
    let d = Delay::with_delay(40);
    assert_eq!(
        DelayPair::with_min_max(a, b) + DelayPair::with_min_max(c, d),
        DelayPair::with_min_max(a + c, b + d)
    );
}

#[test]
fn delay_defaults_are_zero() {
    assert_eq!(Delay::<i64>::new(), Delay::with_delay(0));
    assert_eq!(Delay::<i64>::default(), Delay::with_delay(0));
    assert_eq!(DelayPair::<i64>::new(), DelayPair::with_min_max(0.into(), 0.into()));
}

#[test]
fn delay_quad_reductions() {
    let quad = DelayQuad::with_rise_fall_min_max(
        Delay::with_delay(3),
        Delay::with_delay(9),
        Delay::with_delay(1),
        Delay::with_delay(7),
    );
    assert_eq!(quad.min_rise_delay(), Delay::with_delay(3));
    assert_eq!(quad.max_rise_delay(), Delay::with_delay(9));
    assert_eq!(quad.min_fall_felay(), Delay::with_delay(1));
    assert_eq!(quad.max_fall_delay(), Delay::with_delay(7));
    assert_eq!(quad.min_delay(), Delay::with_delay(1));
    assert_eq!(quad.max_delay(), Delay::with_delay(9));
    assert_eq!(quad.delay_pair(), DelayPair::with_min_max(1.into(), 9.into()));
}

#[test]
fn delay_quad_arithmetic() {
    let a = DelayQuad::with_min_max(Delay::with_delay(2), Delay::with_delay(5));
    let b = DelayQuad::with_delay(Delay::with_delay(10));
    let sum = a + b;
    assert_eq!(sum.min_rise_delay(), Delay::with_delay(12));
    assert_eq!(sum.max_fall_delay(), Delay::with_delay(15));
    let diff = sum - b;
    assert_eq!(diff, a);
}
