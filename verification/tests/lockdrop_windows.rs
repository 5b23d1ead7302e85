use andromeda_lockdrop::lockdrop::{
    allowed_withdrawal_percent, is_deposit_open, is_withdraw_open, query_max_withdrawable_percent,
    Config,
};
use andromeda_lockdrop::math::{Decimal, DECIMAL_FRACTIONAL};

fn config() -> Config {
    Config {
        init_timestamp: 1_000,
        deposit_window: 100,
        withdrawal_window: 50,
        lockdrop_incentives: 0,
        incentive_token: "incentive".to_string(),
        native_denom: "uusd".to_string(),
    }
}

#[test]
fn deposit_window_bounds_are_inclusive() {
    let c = config();
    assert!(!is_deposit_open(999, &c));
    assert!(is_deposit_open(1_000, &c));
    assert!(is_deposit_open(1_100, &c));
    assert!(!is_deposit_open(1_101, &c));
}

#[test]
fn withdraw_window_bounds_are_inclusive() {
    let c = config();
    assert!(!is_withdraw_open(999, &c));
    assert!(is_withdraw_open(1_000, &c));
    assert!(is_withdraw_open(1_150, &c));
    assert!(!is_withdraw_open(1_151, &c));
}

#[test]
fn deposit_open_implies_withdraw_open() {
    let c = config();
    for t in 900..1_300u64 {
        if is_deposit_open(t, &c) {
            assert!(is_withdraw_open(t, &c));
        }
    }
}

#[test]
fn full_withdrawal_allowed_during_deposit_window() {
    let c = config();
    assert_eq!(allowed_withdrawal_percent(0, &c), Decimal { atomics: DECIMAL_FRACTIONAL });
    assert_eq!(allowed_withdrawal_percent(1_099, &c), Decimal { atomics: DECIMAL_FRACTIONAL });
    // The last second of the deposit window still belongs to it.
    assert_eq!(allowed_withdrawal_percent(1_100, &c), Decimal { atomics: DECIMAL_FRACTIONAL });
}

#[test]
fn half_withdrawal_in_first_half_of_withdrawal_window() {
    let c = config();
    assert_eq!(allowed_withdrawal_percent(1_101, &c), Decimal { atomics: DECIMAL_FRACTIONAL / 2 });
    assert_eq!(allowed_withdrawal_percent(1_125, &c), Decimal { atomics: DECIMAL_FRACTIONAL / 2 });
}

#[test]
fn withdrawal_limit_falls_linearly() {
    let c = config();
    // 10 of the 25 seconds of the second half left: 50% * 10 / 25 = 20%.
    assert_eq!(
        allowed_withdrawal_percent(1_140, &c),
        Decimal { atomics: 200_000_000_000_000_000 }
    );
    assert_eq!(
        allowed_withdrawal_percent(1_149, &c),
        Decimal { atomics: 20_000_000_000_000_000 }
    );
    assert_eq!(allowed_withdrawal_percent(1_150, &c), Decimal { atomics: 0 });
    assert_eq!(allowed_withdrawal_percent(5_000, &c), Decimal { atomics: 0 });
}

#[test]
fn withdrawal_limit_with_odd_window_rounds_down() {
    let mut c = config();
    c.withdrawal_window = 3;
    // midpoint 1_101, end 1_103, span 2: at 1_102 one second is left: 50% * 1 / 2.
    assert_eq!(
        allowed_withdrawal_percent(1_102, &c),
        Decimal { atomics: 250_000_000_000_000_000 }
    );
    c.withdrawal_window = 7;
    // midpoint 1_103, end 1_107, span 4, at 1_104 three left: 50 * 3 * 10^18 / 400.
    assert_eq!(
        allowed_withdrawal_percent(1_104, &c),
        Decimal { atomics: 375_000_000_000_000_000 }
    );
}

#[test]
fn withdrawal_limit_never_rises() {
    let c = config();
    let mut previous = allowed_withdrawal_percent(900, &c);
    for t in 901..1_300u64 {
        let now = allowed_withdrawal_percent(t, &c);
        assert!(now.atomics <= previous.atomics);
        assert!(now.atomics <= DECIMAL_FRACTIONAL);
        previous = now;
    }
}

#[test]
fn query_percent_uses_given_time_or_now() {
    let c = config();
    assert_eq!(query_max_withdrawable_percent(&c, 1_140, None).atomics, 200_000_000_000_000_000);
    assert_eq!(query_max_withdrawable_percent(&c, 1_140, Some(0)).atomics, DECIMAL_FRACTIONAL);
}
