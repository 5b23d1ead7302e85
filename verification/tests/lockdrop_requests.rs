use andromeda_lockdrop::error::{ContractError, PaymentError};
use andromeda_lockdrop::lockdrop::{
    execute_claim_rewards, execute_deposit_native, execute_enable_claims,
    execute_increase_incentives, execute_withdraw_native, execute_withdraw_proceeds, instantiate,
    migrate, nonpayable, withdrawal_fits, query_config, query_state, query_user_info, receive_cw20,
    withdraw_proceeds_amount, BlockInfo, Coin, Config, Cw20HookMsg, InstantiateMsg, State,
    UserInfo,
};

fn config() -> Config {
    Config {
        init_timestamp: 1_000,
        deposit_window: 100,
        withdrawal_window: 50,
        lockdrop_incentives: 1_000,
        incentive_token: "incentive".to_string(),
        native_denom: "uusd".to_string(),
    }
}

fn empty_state() -> State {
    State { total_native_locked: 0, are_claims_allowed: false }
}

fn user(locked: u128) -> UserInfo {
    UserInfo {
        total_native_locked: locked,
        delegated_incentives: 0,
        lockdrop_claimed: false,
        withdrawal_flag: false,
    }
}

fn coins(denom: &str, amount: u128) -> Vec<Coin> {
    vec![Coin { denom: denom.to_string(), amount }]
}

fn msg(init: u64, deposit: u64, withdrawal: u64) -> InstantiateMsg {
    InstantiateMsg {
        init_timestamp: init,
        deposit_window: deposit,
        withdrawal_window: withdrawal,
        incentive_token: "incentive".to_string(),
        native_denom: "uusd".to_string(),
    }
}

#[test]
fn instantiate_sets_up_an_empty_lockdrop() {
    let block = BlockInfo { height: 7, time_nanos: 1_000_000_000_000 };
    let (c, s) = instantiate(msg(1_000, 100, 50), block).unwrap();
    assert_eq!(c.init_timestamp, 1_000);
    assert_eq!(c.deposit_window, 100);
    assert_eq!(c.withdrawal_window, 50);
    assert_eq!(c.lockdrop_incentives, 0);
    assert_eq!(c.incentive_token, "incentive");
    assert_eq!(c.native_denom, "uusd");
    assert_eq!(s, empty_state());
}

#[test]
fn instantiate_refuses_a_start_in_the_past() {
    let block = BlockInfo { height: 7, time_nanos: 1_001_500_000_000 };
    assert_eq!(
        instantiate(msg(1_000, 100, 50), block),
        Err(ContractError::StartTimeInThePast { current_time: 1_001_500, current_block: 7 })
    );
}

#[test]
fn instantiate_refuses_invalid_windows() {
    let block = BlockInfo { height: 7, time_nanos: 0 };
    assert_eq!(instantiate(msg(1_000, 0, 0), block), Err(ContractError::InvalidWindow));
    assert_eq!(instantiate(msg(1_000, 100, 0), block), Err(ContractError::InvalidWindow));
    assert_eq!(instantiate(msg(1_000, 100, 100), block), Err(ContractError::InvalidWindow));
    assert!(instantiate(msg(1_000, 100, 99), block).is_ok());
}

#[test]
fn deposit_adds_to_user_and_total() {
    let c = config();
    let s = State { total_native_locked: 40, are_claims_allowed: false };
    let d = execute_deposit_native(&c, &s, Some(user(10)), 1_050, &coins("uusd", 5)).unwrap();
    assert_eq!(d.amount, 5);
    assert_eq!(d.state.total_native_locked, 45);
    assert_eq!(d.user_info.total_native_locked, 15);
    let first = execute_deposit_native(&c, &s, None, 1_050, &coins("uusd", 5)).unwrap();
    assert_eq!(first.user_info, user(5));
}

#[test]
fn deposit_refusals() {
    let c = config();
    let s = empty_state();
    assert_eq!(
        execute_deposit_native(&c, &s, None, 999, &coins("uusd", 5)),
        Err(ContractError::DepositWindowClosed)
    );
    assert_eq!(
        execute_deposit_native(&c, &s, None, 1_101, &coins("uusd", 5)),
        Err(ContractError::DepositWindowClosed)
    );
    assert_eq!(
        execute_deposit_native(&c, &s, None, 1_050, &vec![]),
        Err(ContractError::InvalidFunds { msg: "Must deposit a single fund".to_string() })
    );
    let mut two = coins("uusd", 5);
    two.push(Coin { denom: "uatom".to_string(), amount: 1 });
    assert_eq!(
        execute_deposit_native(&c, &s, None, 1_050, &two),
        Err(ContractError::InvalidFunds { msg: "Must deposit a single fund".to_string() })
    );
    assert_eq!(
        execute_deposit_native(&c, &s, None, 1_050, &coins("uatom", 5)),
        Err(ContractError::InvalidFunds { msg: "Only uusd accepted".to_string() })
    );
    assert_eq!(
        execute_deposit_native(&c, &s, None, 1_050, &coins("uusd", 0)),
        Err(ContractError::InvalidFunds { msg: "Amount must be greater than 0".to_string() })
    );
}

#[test]
fn withdraw_during_deposit_window_takes_all_allowed() {
    let c = config();
    let s = State { total_native_locked: 100, are_claims_allowed: false };
    let w = execute_withdraw_native(&c, &s, user(60), 1_050, None).unwrap();
    assert_eq!(w.amount, 60);
    assert_eq!(w.user_info.total_native_locked, 0);
    assert_eq!(w.state.total_native_locked, 40);
    assert!(!w.user_info.withdrawal_flag);
}

#[test]
fn withdraw_after_deposit_window_is_limited_and_once() {
    let c = config();
    let s = State { total_native_locked: 100, are_claims_allowed: false };
    let w = execute_withdraw_native(&c, &s, user(60), 1_110, Some(30)).unwrap();
    assert_eq!(w.amount, 30);
    assert!(w.user_info.withdrawal_flag);
    assert_eq!(w.state.total_native_locked, 70);
    assert_eq!(
        execute_withdraw_native(&c, &w.state, w.user_info, 1_120, Some(1)),
        Err(ContractError::InvalidWithdrawal { msg: Some("Max 1 withdrawal allowed".to_string()) })
    );
}

#[test]
fn withdraw_refusals() {
    let c = config();
    let s = State { total_native_locked: 100, are_claims_allowed: false };
    assert_eq!(
        execute_withdraw_native(&c, &s, user(60), 1_151, None),
        Err(ContractError::InvalidWithdrawal {
            msg: Some("Withdrawals not available".to_string())
        })
    );
    assert_eq!(
        execute_withdraw_native(&c, &s, user(60), 1_110, Some(31)),
        Err(ContractError::InvalidWithdrawal {
            msg: Some("Amount exceeds max allowed withdrawal limit of 30".to_string())
        })
    );
    // 10 of 25 seconds left: 20% of 61 is 12.2, rounded down.
    assert_eq!(
        execute_withdraw_native(&c, &s, user(61), 1_140, Some(13)),
        Err(ContractError::InvalidWithdrawal {
            msg: Some("Amount exceeds max allowed withdrawal limit of 12".to_string())
        })
    );
    assert_eq!(execute_withdraw_native(&c, &s, user(61), 1_140, None).unwrap().amount, 12);
}

#[test]
fn withdraw_undoes_deposit() {
    let c = config();
    let s = State { total_native_locked: 40, are_claims_allowed: false };
    let u = user(10);
    let d = execute_deposit_native(&c, &s, Some(u), 1_050, &coins("uusd", 25)).unwrap();
    let w = execute_withdraw_native(&c, &d.state, d.user_info, 1_050, Some(d.amount)).unwrap();
    assert_eq!(w.state, s);
    assert_eq!(w.user_info, u);
    // Also at the last second of the deposit window.
    let d = execute_deposit_native(&c, &s, Some(u), 1_100, &coins("uusd", 25)).unwrap();
    let w = execute_withdraw_native(&c, &d.state, d.user_info, 1_100, Some(d.amount)).unwrap();
    assert_eq!(w.state, s);
    assert_eq!(w.user_info, u);
}

#[test]
fn withdrawal_fits_tests_the_global_total() {
    let c = config();
    let small = State { total_native_locked: 10, are_claims_allowed: false };
    // An accepted request for more than the global total does not fit.
    assert!(!withdrawal_fits(&c, &small, &user(60), 1_050, Some(20)));
    assert!(withdrawal_fits(&c, &small, &user(60), 1_050, Some(10)));
    // A request refused anyway fits: it never reaches the subtraction.
    assert!(withdrawal_fits(&c, &small, &user(60), 1_200, Some(20)));
    assert!(withdrawal_fits(&c, &small, &user(60), 1_050, Some(61)));
    let mut marked = user(60);
    marked.withdrawal_flag = true;
    assert!(withdrawal_fits(&c, &small, &marked, 1_110, Some(20)));
    let s = State { total_native_locked: 100, are_claims_allowed: false };
    assert!(withdrawal_fits(&c, &s, &user(60), 1_050, None));
}

#[test]
fn claims_stay_within_incentives_over_a_run() {
    let block = BlockInfo { height: 1, time_nanos: 50_000_000_000 };
    let (mut c, mut s) = instantiate(msg(100, 100, 50), block).unwrap();
    assert_eq!(execute_enable_claims(&c, &s, &vec![], 60), Err(ContractError::PhaseOngoing));
    c = execute_increase_incentives(c, &"incentive".to_string(), 120, 100).unwrap();
    let a = execute_deposit_native(&c, &s, None, 130, &coins("uusd", 1)).unwrap();
    s = a.state;
    let b = execute_deposit_native(&c, &s, None, 140, &coins("uusd", 1)).unwrap();
    s = b.state;
    s = execute_enable_claims(&c, &s, &vec![], 251).unwrap();
    let paid = execute_claim_rewards(&c, &s, Some(a.user_info)).unwrap().amount
        + execute_claim_rewards(&c, &s, Some(b.user_info)).unwrap().amount;
    assert_eq!(paid, 100);
}

#[test]
fn incentives_grow_only_from_the_token_while_open() {
    let c = config();
    let sender = "incentive".to_string();
    let c2 = execute_increase_incentives(c.clone(), &sender, 1_150, 500).unwrap();
    assert_eq!(c2.lockdrop_incentives, 1_500);
    assert_eq!(c2.native_denom, c.native_denom);
    assert_eq!(
        execute_increase_incentives(c.clone(), &"other".to_string(), 1_050, 500),
        Err(ContractError::InvalidFunds { msg: "Only incentive tokens are valid".to_string() })
    );
    assert_eq!(
        execute_increase_incentives(c, &sender, 1_151, 500),
        Err(ContractError::TokenAlreadyBeingDistributed)
    );
}

#[test]
fn receive_cw20_checks_amount_and_hook() {
    let c = config();
    let sender = "incentive".to_string();
    assert_eq!(
        receive_cw20(c.clone(), &sender, 1_050, 0, Ok(Cw20HookMsg::IncreaseIncentives)),
        Err(ContractError::InvalidFunds { msg: "Number of tokens should be > 0".to_string() })
    );
    assert_eq!(
        receive_cw20(c.clone(), &sender, 1_050, 5, Err("bad json".to_string())),
        Err(ContractError::Std { msg: "bad json".to_string() })
    );
    let c2 = receive_cw20(c, &sender, 1_050, 5, Ok(Cw20HookMsg::IncreaseIncentives)).unwrap();
    assert_eq!(c2.lockdrop_incentives, 1_005);
}

#[test]
fn claims_are_enabled_once_after_the_windows() {
    let c = config();
    let s = State { total_native_locked: 100, are_claims_allowed: false };
    assert_eq!(execute_enable_claims(&c, &s, &vec![], 1_150), Err(ContractError::PhaseOngoing));
    assert_eq!(
        execute_enable_claims(&c, &s, &coins("uusd", 1), 1_200),
        Err(ContractError::Payment(PaymentError::NonPayable))
    );
    let s2 = execute_enable_claims(&c, &s, &vec![], 1_151).unwrap();
    assert!(s2.are_claims_allowed);
    assert_eq!(s2.total_native_locked, 100);
    assert_eq!(
        execute_enable_claims(&c, &s2, &vec![], 1_200),
        Err(ContractError::ClaimsAlreadyAllowed)
    );
}

#[test]
fn claims_cannot_be_enabled_before_the_lockdrop_starts() {
    let c = config();
    let s = empty_state();
    assert_eq!(execute_enable_claims(&c, &s, &vec![], 999), Err(ContractError::PhaseOngoing));
    assert_eq!(execute_enable_claims(&c, &s, &vec![], 0), Err(ContractError::PhaseOngoing));
}

#[test]
fn claim_pays_the_share_once() {
    let c = config();
    let s = State { total_native_locked: 300, are_claims_allowed: true };
    let cl = execute_claim_rewards(&c, &s, Some(user(100))).unwrap();
    assert_eq!(cl.amount, 333);
    assert!(cl.user_info.lockdrop_claimed);
    assert_eq!(
        execute_claim_rewards(&c, &s, Some(cl.user_info)),
        Err(ContractError::LockdropAlreadyClaimed)
    );
}

#[test]
fn claim_shares_stay_within_incentives() {
    let c = config();
    let locks = [100u128, 100, 100, 7, 1];
    let total: u128 = locks.iter().sum();
    let s = State { total_native_locked: total, are_claims_allowed: true };
    let paid: u128 =
        locks.iter().map(|l| execute_claim_rewards(&c, &s, Some(user(*l))).unwrap().amount).sum();
    assert!(paid <= c.lockdrop_incentives);
    assert_eq!(paid, 324 * 3 + 22 + 3);
}

#[test]
fn claim_refusals() {
    let c = config();
    let s = State { total_native_locked: 300, are_claims_allowed: true };
    assert_eq!(execute_claim_rewards(&c, &s, None), Err(ContractError::NoLockup));
    let closed = State { total_native_locked: 300, are_claims_allowed: false };
    assert_eq!(
        execute_claim_rewards(&c, &closed, Some(user(100))),
        Err(ContractError::ClaimsNotAllowed)
    );
}

#[test]
fn claim_subtracts_delegated_incentives() {
    let c = config();
    let s = State { total_native_locked: 300, are_claims_allowed: true };
    let mut u = user(150);
    u.delegated_incentives = 100;
    assert_eq!(execute_claim_rewards(&c, &s, Some(u)).unwrap().amount, 400);
}

#[test]
fn withdraw_proceeds_checks() {
    let c = config();
    let owner = "owner".to_string();
    assert_eq!(
        execute_withdraw_proceeds(&c, &coins("uusd", 1), owner.clone(), true, None, 1_200),
        Err(ContractError::Payment(PaymentError::NonPayable))
    );
    assert_eq!(
        execute_withdraw_proceeds(&c, &vec![], owner.clone(), false, None, 1_200),
        Err(ContractError::Unauthorized)
    );
    let not_concluded = Err(ContractError::InvalidWithdrawal {
        msg: Some("Lockdrop withdrawals haven't concluded yet".to_string()),
    });
    assert_eq!(
        execute_withdraw_proceeds(&c, &vec![], owner.clone(), true, None, 1_150),
        not_concluded
    );
    assert_eq!(
        execute_withdraw_proceeds(&c, &vec![], owner.clone(), true, None, 999),
        not_concluded
    );
    assert_eq!(
        execute_withdraw_proceeds(&c, &vec![], owner.clone(), true, None, 1_151),
        Ok(owner.clone())
    );
    assert_eq!(
        execute_withdraw_proceeds(&c, &vec![], owner, true, Some("treasury".to_string()), 1_151),
        Ok("treasury".to_string())
    );
}

#[test]
fn withdraw_proceeds_needs_the_balance() {
    let s = State { total_native_locked: 300, are_claims_allowed: true };
    assert_eq!(withdraw_proceeds_amount(&s, 300), Ok(300));
    assert_eq!(withdraw_proceeds_amount(&s, 1_000), Ok(300));
    assert_eq!(
        withdraw_proceeds_amount(&s, 299),
        Err(ContractError::InvalidWithdrawal { msg: Some("Already withdrew funds".to_string()) })
    );
}

#[test]
fn nonpayable_accepts_only_no_funds() {
    assert_eq!(nonpayable(&vec![]), Ok(()));
    assert_eq!(
        nonpayable(&coins("uusd", 0)),
        Err(ContractError::Payment(PaymentError::NonPayable))
    );
}

#[test]
fn queries_report_records() {
    let c = config();
    let r = query_config(c.clone());
    assert_eq!(r.init_timestamp, 1_000);
    assert_eq!(r.lockdrop_incentives, 1_000);
    assert_eq!(r.incentive_token, "incentive");
    let s = State { total_native_locked: 300, are_claims_allowed: true };
    let st = query_state(&s);
    assert_eq!(st.total_native_locked, 300);
    assert!(st.are_claims_allowed);
    let ui = query_user_info(&c, &s, Some(user(100)));
    assert_eq!(ui.total_native_locked, 100);
    assert_eq!(ui.total_incentives, 333);
    assert!(!ui.is_lockdrop_claimed);
    assert!(!ui.withdrawal_flag);
    assert_eq!(query_user_info(&c, &s, None).total_incentives, 0);
}

#[test]
fn user_query_before_any_deposit_reports_no_share() {
    let c = config();
    let r = query_user_info(&c, &empty_state(), None);
    assert_eq!(r.total_native_locked, 0);
    assert_eq!(r.total_incentives, 0);
    assert!(!r.is_lockdrop_claimed);
    assert!(!r.withdrawal_flag);
}

#[test]
fn lockdrop_migration() {
    let name = "andromeda-lockdrop".to_string();
    assert_eq!(migrate("2.0.0", &name, &"1.9.3".to_string()), Ok(()));
    assert_eq!(
        migrate("2.0.0", &name, &"2.0.0".to_string()),
        Err(ContractError::CannotMigrate { previous_contract: "2.0.0".to_string() })
    );
    assert_eq!(
        migrate("2.0.0", &name, &"2.0.1".to_string()),
        Err(ContractError::CannotMigrate { previous_contract: "2.0.1".to_string() })
    );
    assert_eq!(
        migrate("2.0.0", &"other".to_string(), &"1.0.0".to_string()),
        Err(ContractError::CannotMigrate { previous_contract: "other".to_string() })
    );
    assert_eq!(
        migrate("2.0.0", &name, &String::new()),
        Err(ContractError::Std {
            msg: "Semver: empty string, expected a semver version".to_string()
        })
    );
    assert!(matches!(migrate("x", &name, &"1.0.0".to_string()), Err(ContractError::Std { .. })));
    // A pre-release comes before its release.
    assert_eq!(migrate("2.0.0", &name, &"2.0.0-rc.1".to_string()), Ok(()));
}

#[test]
fn total_tracks_the_sum_of_user_locks() {
    let c = config();
    let mut state = empty_state();
    let mut users: Vec<Option<UserInfo>> = vec![None, None, None];
    let deposits = [(0usize, 1_010u64, 50u128), (1, 1_020, 70), (0, 1_030, 5), (2, 1_090, 1)];
    for (who, t, amount) in deposits {
        let d = execute_deposit_native(&c, &state, users[who], t, &coins("uusd", amount)).unwrap();
        state = d.state;
        users[who] = Some(d.user_info);
    }
    let sum = |users: &Vec<Option<UserInfo>>| -> u128 {
        users.iter().map(|u| u.map(|u| u.total_native_locked).unwrap_or(0)).sum()
    };
    assert_eq!(state.total_native_locked, sum(&users));
    assert_eq!(state.total_native_locked, 126);
    let w = execute_withdraw_native(&c, &state, users[1].unwrap(), 1_140, None).unwrap();
    state = w.state;
    users[1] = Some(w.user_info);
    assert_eq!(w.amount, 14);
    assert_eq!(state.total_native_locked, sum(&users));
}

#[test]
fn nothing_changes_once_claims_are_enabled() {
    let c = config();
    let s = State { total_native_locked: 100, are_claims_allowed: false };
    let s2 = execute_enable_claims(&c, &s, &vec![], 1_151).unwrap();
    assert_eq!(
        execute_deposit_native(&c, &s2, None, 1_200, &coins("uusd", 5)),
        Err(ContractError::DepositWindowClosed)
    );
    assert!(execute_withdraw_native(&c, &s2, user(50), 1_200, None).is_err());
    assert_eq!(
        execute_increase_incentives(c.clone(), &"incentive".to_string(), 1_200, 5),
        Err(ContractError::TokenAlreadyBeingDistributed)
    );
}
