use metric_video_player::ratio::Ratio;

#[test]
fn zero_is_zero_over_one() {
    assert_eq!(Ratio::zero(), Ratio { num: 0, den: 1 });
    assert!(Ratio::zero().is_zero());
    assert!(!Ratio::new(1, 3).is_zero());
    assert!(Ratio::new(0, 7).is_zero());
}

#[test]
fn new_keeps_the_parts() {
    let r = Ratio::new(30_000_000_000, 1_000_000_000);
    assert_eq!(r.num, 30_000_000_000);
    assert_eq!(r.den, 1_000_000_000);
}

#[test]
fn fractions_are_ordered_by_value() {
    let third = Ratio::new(1, 3);
    let half = Ratio::new(2, 4);
    assert!(third.at_most(&half));
    assert!(!half.at_most(&third));
    assert!(half.at_most(&Ratio::new(1, 2)));
    assert!(Ratio::new(1, 2).at_most(&half));
    assert!(Ratio::zero().at_most(&third));
    let big = Ratio::new(u64::MAX as u128, 1);
    assert!(third.at_most(&big));
    assert!(!big.at_most(&Ratio::new(u64::MAX as u128 - 1, 1)));
}

#[test]
fn scaled_floor_rounds_down() {
    assert_eq!(Ratio::new(1, 3).scaled_floor(1000), Some(333));
    assert_eq!(Ratio::new(2, 3).scaled_floor(1000), Some(666));
    assert_eq!(Ratio::new(30_000_000_000, 1_000_000_000).scaled_floor(1000), Some(30_000));
    assert_eq!(Ratio::zero().scaled_floor(u64::MAX), Some(0));
    assert_eq!(Ratio::new(7, 7).scaled_floor(1), Some(1));
}

#[test]
fn scaled_floor_reports_overflow() {
    assert_eq!(Ratio::new(u128::MAX, 1).scaled_floor(2), None);
    assert_eq!(Ratio::new(u128::MAX, 1).scaled_floor(1), Some(u128::MAX));
    assert_eq!(Ratio::new(u128::MAX, 2).scaled_floor(0), Some(0));
}
