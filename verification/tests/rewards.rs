use stake_program::errors::ErrorCode;
use stake_program::reward::{pow10_checked, reward};

#[test]
fn reward_at_zero_elapsed_is_zero_for_any_scale() {
    for scale in [0u8, 1, 6, 9, 19, 20, 255] {
        assert_eq!(reward(0, scale), Ok(0));
    }
}

#[test]
fn reward_exact_values() {
    assert_eq!(reward(10, 6), Ok(10_000_000));
    assert_eq!(reward(1, 0), Ok(1));
    assert_eq!(reward(3, 2), Ok(300));
    assert_eq!(reward(1, 19), Ok(10_000_000_000_000_000_000));
}

#[test]
fn reward_is_non_decreasing_in_elapsed_time() {
    let mut previous = 0u64;
    for elapsed in 0..100u64 {
        let r = reward(elapsed, 3).unwrap();
        assert!(r >= previous);
        previous = r;
    }
}

#[test]
fn reward_overflow_fails_arithmetic_overflow() {
    assert_eq!(reward(u64::MAX, 1), Err(ErrorCode::ArithmeticOverflow));
    assert_eq!(reward(1, 20), Err(ErrorCode::ArithmeticOverflow));
    assert_eq!(reward(2, 19), Err(ErrorCode::ArithmeticOverflow));
}

#[test]
fn pow10_checked_exact_values_and_limit() {
    assert_eq!(pow10_checked(0), Some(1));
    assert_eq!(pow10_checked(1), Some(10));
    assert_eq!(pow10_checked(6), Some(1_000_000));
    assert_eq!(pow10_checked(19), Some(10_000_000_000_000_000_000));
    assert_eq!(pow10_checked(20), None);
    assert_eq!(pow10_checked(255), None);
}
