//! The lockdrop: users lock a native token during a deposit window, may take
//! part of it back during a following withdrawal window, and afterwards claim
//! a share of the incentive tokens proportional to what they left locked.
//!
//! Each request is a function from the stored records (the configuration, the
//! global state and the sender's record) and the request to the records to
//! store and the reply; loading and saving is left to the caller.

use vstd::prelude::*;
use crate::error::{ContractError, ErrorView, PaymentError, view_result};
use crate::math::{
    Decimal, DECIMAL_FRACTIONAL, decimal_from_ratio, decimal_text, lemma_mul_div_le,
    mul_decimal, mul_div_floor, multiply_ratio, ratio_atomics, uint128_text,
};
use crate::version::{check_migration, spec_migration};

verus! {

/// The name under which the lockdrop records its version.
pub const CONTRACT_NAME: &'static str = "andromeda-lockdrop";

/// Nanoseconds per millisecond.
pub const MILLISECONDS_TO_NANOSECONDS_RATIO: u64 = 1_000_000u64;

/// Nanoseconds per second.
pub const NANOSECONDS_PER_SECOND: u64 = 1_000_000_000u64;

/// The lockdrop's configuration.
#[derive(Clone, Debug, PartialEq, Eq)]
pub struct Config {
    /// When the deposit window opens, in seconds.
    pub init_timestamp: u64,
    /// How long deposits are accepted, in seconds.
    pub deposit_window: u64,
    /// How long withdrawals are accepted after the deposit window, in seconds.
    pub withdrawal_window: u64,
    /// The incentive tokens to be shared out.
    pub lockdrop_incentives: u128,
    /// The address of the incentive token contract.
    pub incentive_token: String,
    /// The denomination of the native token that is locked.
    pub native_denom: String,
}

/// The lockdrop's global state.
#[derive(Clone, Copy, Debug, PartialEq, Eq, Structural)]
pub struct State {
    /// The native tokens locked by all users together.
    pub total_native_locked: u128,
    /// Whether users may claim their rewards.
    pub are_claims_allowed: bool,
}

/// One user's record.
#[derive(Clone, Copy, Debug, PartialEq, Eq, Structural)]
pub struct UserInfo {
    /// The native tokens this user has locked.
    pub total_native_locked: u128,
    /// Incentives already delegated away from this user's reward.
    pub delegated_incentives: u128,
    /// Whether the user has claimed the reward.
    pub lockdrop_claimed: bool,
    /// Whether the user has made the one withdrawal allowed after the deposit window.
    pub withdrawal_flag: bool,
}

/// An amount of a native token sent with a request.
#[derive(Clone, Debug, PartialEq, Eq)]
pub struct Coin {
    pub denom: String,
    pub amount: u128,
}

/// The block a request is executed in.
#[derive(Clone, Copy, Debug, PartialEq, Eq, Structural)]
pub struct BlockInfo {
    pub height: u64,
    /// The block time in nanoseconds.
    pub time_nanos: u64,
}

/// What the lockdrop is instantiated with.
#[derive(Clone, Debug, PartialEq, Eq)]
pub struct InstantiateMsg {
    pub init_timestamp: u64,
    pub deposit_window: u64,
    pub withdrawal_window: u64,
    pub incentive_token: String,
    pub native_denom: String,
}

/// The message a token contract forwards with incentive tokens.
#[derive(Clone, Copy, Debug, PartialEq, Eq, Structural)]
pub enum Cw20HookMsg {
    IncreaseIncentives,
}

/// The state before any deposit.
pub open spec fn initial_state() -> State {
    State { total_native_locked: 0, are_claims_allowed: false }
}

/// The record of a user who has never deposited.
pub open spec fn empty_user() -> UserInfo {
    UserInfo {
        total_native_locked: 0,
        delegated_incentives: 0,
        lockdrop_claimed: false,
        withdrawal_flag: false,
    }
}

/// A stored user record, or the empty one where there is none.
pub open spec fn user_or_empty(user: Option<UserInfo>) -> UserInfo {
    match user {
        Some(u) => u,
        None => empty_user(),
    }
}

/// The end of the deposit window.
pub open spec fn deposit_end(c: Config) -> int {
    c.init_timestamp + c.deposit_window
}

/// The middle of the withdrawal window (rounded down), where the 50% limit ends.
pub open spec fn withdrawal_midpoint(c: Config) -> int {
    deposit_end(c) + c.withdrawal_window / 2
}

/// The end of the withdrawal window.
pub open spec fn withdrawal_end(c: Config) -> int {
    deposit_end(c) + c.withdrawal_window
}

/// Deposits are accepted from the initial timestamp to the end of the deposit
/// window, both included.
pub open spec fn deposit_open(t: int, c: Config) -> bool {
    c.init_timestamp <= t && t <= deposit_end(c)
}

/// Withdrawals are accepted from the initial timestamp to the end of the
/// withdrawal window, both included.
pub open spec fn withdraw_open(t: int, c: Config) -> bool {
    c.init_timestamp <= t && t <= withdrawal_end(c)
}

/// The share of a user's lock that may be withdrawn at `t`, in atomic units
/// of a decimal: all of it up to the end of the deposit window, half of it up
/// to the middle of the withdrawal window, then falling linearly to nothing at
/// its end.
pub open spec fn withdrawal_percent(t: int, c: Config) -> int {
    if t <= deposit_end(c) {
        DECIMAL_FRACTIONAL as int
    } else if t <= withdrawal_midpoint(c) {
        (DECIMAL_FRACTIONAL / 2) as int
    } else if t < withdrawal_end(c) {
        ratio_atomics(
            50 * (withdrawal_end(c) - t),
            100 * (withdrawal_end(c) - withdrawal_midpoint(c)),
        )
    } else {
        0
    }
}

/// The time arithmetic of the withdrawal limit at `t` stays within 64 bits.
pub open spec fn percent_computable(t: int, c: Config) -> bool {
    &&& deposit_end(c) <= u64::MAX
    &&& t > deposit_end(c) ==> withdrawal_midpoint(c) <= u64::MAX
    &&& t > withdrawal_midpoint(c) ==> withdrawal_end(c) <= u64::MAX
    &&& (withdrawal_midpoint(c) < t && t < withdrawal_end(c)) ==> 100 * (withdrawal_end(c)
        - withdrawal_midpoint(c)) <= u64::MAX
}

/// Whether deposits are open at `current_timestamp`.
pub fn is_deposit_open(current_timestamp: u64, config: &Config) -> (r: bool)
    requires
        deposit_end(*config) <= u64::MAX,
    ensures
        r == deposit_open(current_timestamp as int, *config),
{
    let deposits_opened_till = config.init_timestamp + config.deposit_window;
    (current_timestamp >= config.init_timestamp) && (deposits_opened_till >= current_timestamp)
}

/// Whether withdrawals are open at `current_timestamp`.
pub fn is_withdraw_open(current_timestamp: u64, config: &Config) -> (r: bool)
    requires
        withdrawal_end(*config) <= u64::MAX,
    ensures
        r == withdraw_open(current_timestamp as int, *config),
{
    let withdrawals_opened_till = config.init_timestamp + config.deposit_window
        + config.withdrawal_window;
    (current_timestamp >= config.init_timestamp) && (withdrawals_opened_till >= current_timestamp)
}

/// The linear part of the withdrawal limit never exceeds one half.
pub proof fn lemma_linear_percent_bound(time_left: int, span: int)
    requires
        0 < time_left <= span,
    ensures
        0 <= ratio_atomics(50 * time_left, 100 * span) <= DECIMAL_FRACTIONAL / 2,
{
    let a: int = 50 * time_left * (DECIMAL_FRACTIONAL as int);
    let b: int = 100 * span;
    let c: int = (DECIMAL_FRACTIONAL / 2) as int;
    assert(a <= b * c) by (nonlinear_arith)
        requires
            a == 50 * time_left * (DECIMAL_FRACTIONAL as int),
            b == 100 * span,
            c == (DECIMAL_FRACTIONAL / 2) as int,
            time_left <= span,
    ;
    assert(0 <= a) by (nonlinear_arith)
        requires
            a == 50 * time_left * (DECIMAL_FRACTIONAL as int),
            0 < time_left,
    ;
    vstd::arithmetic::div_mod::lemma_multiply_divide_le(a, b, c);
    vstd::arithmetic::div_mod::lemma_div_pos_is_pos(a, b);
}

/// The share of a user's lock that may be withdrawn at `current_timestamp`.
pub fn allowed_withdrawal_percent(current_timestamp: u64, config: &Config) -> (r: Decimal)
    requires
        percent_computable(current_timestamp as int, *config),
    ensures
        r.atomics == withdrawal_percent(current_timestamp as int, *config),
        r.atomics <= DECIMAL_FRACTIONAL,
{
    let withdrawal_cutoff_init_point = config.init_timestamp + config.deposit_window;
    if current_timestamp <= withdrawal_cutoff_init_point {
        return decimal_from_ratio(100u128, 100u128);
    }
    let withdrawal_cutoff_second_point = withdrawal_cutoff_init_point + (config.withdrawal_window
        / 2u64);
    if current_timestamp <= withdrawal_cutoff_second_point {
        return decimal_from_ratio(50u128, 100u128);
    }
    let withdrawal_cutoff_final = withdrawal_cutoff_init_point + config.withdrawal_window;
    if current_timestamp < withdrawal_cutoff_final {
        let time_left = withdrawal_cutoff_final - current_timestamp;
        let span = withdrawal_cutoff_final - withdrawal_cutoff_second_point;
        proof {
            lemma_linear_percent_bound(time_left as int, span as int);
        }
        decimal_from_ratio((50u64 * time_left) as u128, (100u64 * span) as u128)
    } else {
        decimal_from_ratio(0u128, 100u128)
    }
}

/// The outcome of instantiating the lockdrop in `block`.
pub open spec fn spec_instantiate(msg: InstantiateMsg, block: BlockInfo) -> Result<
    (Config, State),
    ErrorView,
> {
    if msg.init_timestamp < block.time_nanos / NANOSECONDS_PER_SECOND {
        Err(
            ErrorView::StartTimeInThePast {
                current_time: (block.time_nanos / MILLISECONDS_TO_NANOSECONDS_RATIO) as u64,
                current_block: block.height,
            },
        )
    } else if !(msg.deposit_window > 0 && msg.withdrawal_window > 0 && msg.withdrawal_window
        < msg.deposit_window) {
        Err(ErrorView::InvalidWindow)
    } else {
        Ok(
            (
                Config {
                    init_timestamp: msg.init_timestamp,
                    deposit_window: msg.deposit_window,
                    withdrawal_window: msg.withdrawal_window,
                    lockdrop_incentives: 0,
                    incentive_token: msg.incentive_token,
                    native_denom: msg.native_denom,
                },
                initial_state(),
            ),
        )
    }
}

/// Sets the lockdrop up: the initial timestamp may not lie before the block,
/// and the withdrawal window must be shorter than the deposit window, both
/// non-empty. Starts with no incentives and nothing locked.
pub fn instantiate(msg: InstantiateMsg, block: BlockInfo) -> (r: Result<
    (Config, State),
    ContractError,
>)
    ensures
        view_result(r) == spec_instantiate(msg, block),
{
    if !(msg.init_timestamp >= block.time_nanos / NANOSECONDS_PER_SECOND) {
        return Err(
            ContractError::StartTimeInThePast {
                current_time: block.time_nanos / MILLISECONDS_TO_NANOSECONDS_RATIO,
                current_block: block.height,
            },
        );
    }
    if !(msg.deposit_window > 0 && msg.withdrawal_window > 0 && msg.withdrawal_window
        < msg.deposit_window) {
        return Err(ContractError::InvalidWindow);
    }
    let config = Config {
        init_timestamp: msg.init_timestamp,
        deposit_window: msg.deposit_window,
        withdrawal_window: msg.withdrawal_window,
        lockdrop_incentives: 0,
        incentive_token: msg.incentive_token,
        native_denom: msg.native_denom,
    };
    Ok((config, State { total_native_locked: 0, are_claims_allowed: false }))
}

/// Decides a migration of the lockdrop from the stored name and version to
/// `new_version`.
pub fn migrate(new_version: &str, stored_contract: &String, stored_version: &String) -> (r: Result<
    (),
    ContractError,
>)
    ensures
        view_result(r) == spec_migration(
            CONTRACT_NAME@,
            new_version@,
            stored_contract@,
            stored_version@,
        ),
        stored_version@ == new_version@ ==> r is Err,
{
    check_migration(CONTRACT_NAME, new_version, stored_contract, stored_version)
}

/// Refuses any funds sent with a request that takes none.
pub fn nonpayable(funds: &Vec<Coin>) -> (r: Result<(), ContractError>)
    ensures
        r is Ok <==> funds@.len() == 0,
        r is Err ==> r == Err::<(), ContractError>(ContractError::Payment(PaymentError::NonPayable)),
{
    if funds.len() == 0 {
        Ok(())
    } else {
        Err(ContractError::Payment(PaymentError::NonPayable))
    }
}

/// What a deposit leaves behind.
#[derive(Clone, Copy, Debug, PartialEq, Eq, Structural)]
pub struct Deposit {
    pub state: State,
    pub user_info: UserInfo,
    /// The amount locked by this deposit.
    pub amount: u128,
}

/// A deposit is accepted: the window is open and exactly one coin of the
/// native denomination, of a non-zero amount, was sent.
pub open spec fn deposit_accepted(c: Config, t: int, funds: Seq<Coin>) -> bool {
    &&& deposit_open(t, c)
    &&& funds.len() == 1
    &&& funds[0].denom@ == c.native_denom@
    &&& funds[0].amount != 0
}

/// The outcome of a deposit of `funds` at `t` by a user whose record is `u`.
pub open spec fn spec_deposit(c: Config, s: State, u: UserInfo, t: int, funds: Seq<Coin>) -> Result<
    Deposit,
    ErrorView,
> {
    if !deposit_open(t, c) {
        Err(ErrorView::DepositWindowClosed)
    } else if funds.len() != 1 {
        Err(ErrorView::InvalidFunds { msg: "Must deposit a single fund"@ })
    } else if funds[0].denom@ != c.native_denom@ {
        Err(ErrorView::InvalidFunds { msg: "Only "@ + c.native_denom@ + " accepted"@ })
    } else if funds[0].amount == 0 {
        Err(ErrorView::InvalidFunds { msg: "Amount must be greater than 0"@ })
    } else {
        let a = funds[0].amount;
        Ok(
            Deposit {
                state: State { total_native_locked: (s.total_native_locked + a) as u128, ..s },
                user_info: UserInfo {
                    total_native_locked: (u.total_native_locked + a) as u128,
                    ..u
                },
                amount: a,
            },
        )
    }
}

/// Locks the native token sent with the request for the sender, while the
/// deposit window is open.
pub fn execute_deposit_native(
    config: &Config,
    state: &State,
    user: Option<UserInfo>,
    current_timestamp: u64,
    funds: &Vec<Coin>,
) -> (r: Result<Deposit, ContractError>)
    requires
        deposit_end(*config) <= u64::MAX,
        deposit_accepted(*config, current_timestamp as int, funds@) ==> {
            &&& user_or_empty(user).total_native_locked + funds@[0].amount <= u128::MAX
            &&& state.total_native_locked + funds@[0].amount <= u128::MAX
        },
    ensures
        view_result(r) == spec_deposit(
            *config,
            *state,
            user_or_empty(user),
            current_timestamp as int,
            funds@,
        ),
{
    if !is_deposit_open(current_timestamp, config) {
        return Err(ContractError::DepositWindowClosed);
    }
    if funds.len() != 1 {
        return Err(ContractError::InvalidFunds { msg: String::from_str("Must deposit a single fund") });
    }
    let native_token = &funds[0];
    if !(native_token.denom == config.native_denom) {
        let mut msg = String::from_str("Only ");
        msg.append(config.native_denom.as_str());
        msg.append(" accepted");
        return Err(ContractError::InvalidFunds { msg });
    }
    if native_token.amount == 0 {
        return Err(ContractError::InvalidFunds { msg: String::from_str("Amount must be greater than 0") });
    }
    let mut user_info = match user {
        Some(u) => u,
        None => UserInfo {
            total_native_locked: 0,
            delegated_incentives: 0,
            lockdrop_claimed: false,
            withdrawal_flag: false,
        },
    };
    user_info.total_native_locked = user_info.total_native_locked + native_token.amount;
    let mut new_state = *state;
    new_state.total_native_locked = new_state.total_native_locked + native_token.amount;
    Ok(Deposit { state: new_state, user_info, amount: native_token.amount })
}

/// What a withdrawal leaves behind.
#[derive(Clone, Copy, Debug, PartialEq, Eq, Structural)]
pub struct Withdrawal {
    pub state: State,
    pub user_info: UserInfo,
    /// The amount handed back to the user.
    pub amount: u128,
}

/// The most a user with lock `locked` may withdraw at `t`.
pub open spec fn max_withdrawal(locked: int, t: int, c: Config) -> int {
    mul_div_floor(locked, withdrawal_percent(t, c), DECIMAL_FRACTIONAL as int)
}

/// The amount a withdrawal request asks for: the given one, or else the most
/// that may be withdrawn.
pub open spec fn requested_withdrawal(u: UserInfo, t: int, c: Config, amount: Option<u128>) -> int {
    match amount {
        Some(a) => a as int,
        None => max_withdrawal(u.total_native_locked as int, t, c),
    }
}

/// A withdrawal passes its checks: the window is open, the amount is within
/// the limit, and after the deposit window the user has not withdrawn yet.
pub open spec fn withdraw_accepted(c: Config, u: UserInfo, t: int, amount: Option<u128>) -> bool {
    &&& withdraw_open(t, c)
    &&& requested_withdrawal(u, t, c, amount) <= max_withdrawal(u.total_native_locked as int, t, c)
    &&& !(t > deposit_end(c) && u.withdrawal_flag)
}

/// The outcome of a withdrawal of `amount` (or of all that is allowed) at `t`.
pub open spec fn spec_withdraw(
    c: Config,
    s: State,
    u: UserInfo,
    t: int,
    amount: Option<u128>,
) -> Result<Withdrawal, ErrorView> {
    let max = max_withdrawal(u.total_native_locked as int, t, c);
    let a = requested_withdrawal(u, t, c, amount);
    if !withdraw_open(t, c) {
        Err(ErrorView::InvalidWithdrawal { msg: Some("Withdrawals not available"@) })
    } else if a > max {
        Err(
            ErrorView::InvalidWithdrawal {
                msg: Some(
                    "Amount exceeds max allowed withdrawal limit of "@ + decimal_text(max as nat),
                ),
            },
        )
    } else if t > deposit_end(c) && u.withdrawal_flag {
        Err(ErrorView::InvalidWithdrawal { msg: Some("Max 1 withdrawal allowed"@) })
    } else {
        Ok(
            Withdrawal {
                state: State { total_native_locked: (s.total_native_locked - a) as u128, ..s },
                user_info: UserInfo {
                    total_native_locked: (u.total_native_locked - a) as u128,
                    withdrawal_flag: if t > deposit_end(c) {
                        true
                    } else {
                        u.withdrawal_flag
                    },
                    ..u
                },
                amount: a as u128,
            },
        )
    }
}

/// Hands native tokens back from the sender's lock while the withdrawal window
/// is open, up to the share that the time allows; after the deposit window,
/// only once.
pub fn execute_withdraw_native(
    config: &Config,
    state: &State,
    user: UserInfo,
    current_timestamp: u64,
    withdraw_amount: Option<u128>,
) -> (r: Result<Withdrawal, ContractError>)
    requires
        withdrawal_end(*config) <= u64::MAX,
        withdraw_open(current_timestamp as int, *config) ==> percent_computable(
            current_timestamp as int,
            *config,
        ),
        withdraw_accepted(*config, user, current_timestamp as int, withdraw_amount)
            ==> requested_withdrawal(user, current_timestamp as int, *config, withdraw_amount)
            <= state.total_native_locked,
    ensures
        view_result(r) == spec_withdraw(
            *config,
            *state,
            user,
            current_timestamp as int,
            withdraw_amount,
        ),
        r matches Ok(w) ==> w.amount <= max_withdrawal(
            user.total_native_locked as int,
            current_timestamp as int,
            *config,
        ) <= user.total_native_locked,
{
    if !is_withdraw_open(current_timestamp, config) {
        return Err(
            ContractError::InvalidWithdrawal {
                msg: Some(String::from_str("Withdrawals not available")),
            },
        );
    }
    let max_withdrawal_percent = allowed_withdrawal_percent(current_timestamp, config);
    proof {
        lemma_mul_div_le(
            user.total_native_locked as nat,
            max_withdrawal_percent.atomics as nat,
            DECIMAL_FRACTIONAL as nat,
        );
    }
    let max_withdrawal_allowed = mul_decimal(user.total_native_locked, max_withdrawal_percent);
    let withdraw_amount = match withdraw_amount {
        Some(a) => a,
        None => max_withdrawal_allowed,
    };
    if withdraw_amount > max_withdrawal_allowed {
        let mut msg = String::from_str("Amount exceeds max allowed withdrawal limit of ");
        let limit = uint128_text(max_withdrawal_allowed);
        msg.append(limit.as_str());
        return Err(ContractError::InvalidWithdrawal { msg: Some(msg) });
    }
    let mut user_info = user;
    if current_timestamp > config.init_timestamp + config.deposit_window {
        if user_info.withdrawal_flag {
            return Err(
                ContractError::InvalidWithdrawal {
                    msg: Some(String::from_str("Max 1 withdrawal allowed")),
                },
            );
        }
        user_info.withdrawal_flag = true;
    }
    user_info.total_native_locked = user_info.total_native_locked - withdraw_amount;
    let mut new_state = *state;
    new_state.total_native_locked = new_state.total_native_locked - withdraw_amount;
    Ok(Withdrawal { state: new_state, user_info, amount: withdraw_amount })
}

/// Whether a withdrawal request can be settled against the global total: a
/// request that passes its checks asks for no more than is locked in all.
/// A caller holding records that may be inconsistent tests this before
/// `execute_withdraw_native`.
pub fn withdrawal_fits(
    config: &Config,
    state: &State,
    user: &UserInfo,
    current_timestamp: u64,
    withdraw_amount: Option<u128>,
) -> (r: bool)
    requires
        withdrawal_end(*config) <= u64::MAX,
        withdraw_open(current_timestamp as int, *config) ==> percent_computable(
            current_timestamp as int,
            *config,
        ),
    ensures
        r == (withdraw_accepted(*config, *user, current_timestamp as int, withdraw_amount)
            ==> requested_withdrawal(*user, current_timestamp as int, *config, withdraw_amount)
            <= state.total_native_locked),
{
    if !is_withdraw_open(current_timestamp, config) {
        return true;
    }
    let percent = allowed_withdrawal_percent(current_timestamp, config);
    proof {
        lemma_mul_div_le(
            user.total_native_locked as nat,
            percent.atomics as nat,
            DECIMAL_FRACTIONAL as nat,
        );
    }
    let max_withdrawal_allowed = mul_decimal(user.total_native_locked, percent);
    let amount = match withdraw_amount {
        Some(a) => a,
        None => max_withdrawal_allowed,
    };
    if amount > max_withdrawal_allowed {
        return true;
    }
    if current_timestamp > config.init_timestamp + config.deposit_window && user.withdrawal_flag {
        return true;
    }
    amount <= state.total_native_locked
}

/// The outcome of adding `amount` incentive tokens sent by `sender` at `t`.
pub open spec fn spec_increase_incentives(c: Config, sender: Seq<char>, t: int, amount: u128) -> Result<
    Config,
    ErrorView,
> {
    if sender != c.incentive_token@ {
        Err(ErrorView::InvalidFunds { msg: "Only incentive tokens are valid"@ })
    } else if !withdraw_open(t, c) {
        Err(ErrorView::TokenAlreadyBeingDistributed)
    } else {
        Ok(Config { lockdrop_incentives: (c.lockdrop_incentives + amount) as u128, ..c })
    }
}

/// The no-overflow condition of adding incentives.
pub open spec fn incentives_computable(c: Config, sender: Seq<char>, t: int, amount: u128) -> bool {
    &&& sender == c.incentive_token@ ==> withdrawal_end(c) <= u64::MAX
    &&& (sender == c.incentive_token@ && withdraw_open(t, c)) ==> c.lockdrop_incentives + amount
        <= u128::MAX
}

/// Adds incentive tokens to be shared out; only the incentive token contract
/// may do so, and only until the withdrawal window closes.
pub fn execute_increase_incentives(
    config: Config,
    sender: &String,
    current_timestamp: u64,
    amount: u128,
) -> (r: Result<Config, ContractError>)
    requires
        incentives_computable(config, sender@, current_timestamp as int, amount),
    ensures
        view_result(r) == spec_increase_incentives(
            config,
            sender@,
            current_timestamp as int,
            amount,
        ),
{
    if !(*sender == config.incentive_token) {
        return Err(
            ContractError::InvalidFunds { msg: String::from_str("Only incentive tokens are valid") },
        );
    }
    if !is_withdraw_open(current_timestamp, &config) {
        return Err(ContractError::TokenAlreadyBeingDistributed);
    }
    let mut config = config;
    config.lockdrop_incentives = config.lockdrop_incentives + amount;
    Ok(config)
}

/// The outcome of receiving `amount` tokens from the token contract `sender`
/// with the hook message `hook` (or the text of the error in decoding it).
pub open spec fn spec_receive_cw20(
    c: Config,
    sender: Seq<char>,
    t: int,
    amount: u128,
    hook: Result<Cw20HookMsg, Seq<char>>,
) -> Result<Config, ErrorView> {
    if amount == 0 {
        Err(ErrorView::InvalidFunds { msg: "Number of tokens should be > 0"@ })
    } else {
        match hook {
            Err(m) => Err(ErrorView::Std { msg: m }),
            Ok(Cw20HookMsg::IncreaseIncentives) => spec_increase_incentives(c, sender, t, amount),
        }
    }
}

/// Handles tokens sent by a token contract: the amount must not be zero, and
/// the hook message says what to do with them.
pub fn receive_cw20(
    config: Config,
    sender: &String,
    current_timestamp: u64,
    amount: u128,
    hook: Result<Cw20HookMsg, String>,
) -> (r: Result<Config, ContractError>)
    requires
        amount != 0 && hook is Ok ==> incentives_computable(
            config,
            sender@,
            current_timestamp as int,
            amount,
        ),
    ensures
        view_result(r) == spec_receive_cw20(
            config,
            sender@,
            current_timestamp as int,
            amount,
            match hook {
                Ok(h) => Ok(h),
                Err(m) => Err(m@),
            },
        ),
{
    if amount == 0 {
        return Err(
            ContractError::InvalidFunds { msg: String::from_str("Number of tokens should be > 0") },
        );
    }
    match hook {
        Err(msg) => Err(ContractError::Std { msg }),
        Ok(Cw20HookMsg::IncreaseIncentives) => execute_increase_incentives(
            config,
            sender,
            current_timestamp,
            amount,
        ),
    }
}

/// The outcome of enabling claims at `t`.
pub open spec fn spec_enable_claims(c: Config, s: State, funds: Seq<Coin>, t: int) -> Result<
    State,
    ErrorView,
> {
    if funds.len() != 0 {
        Err(ErrorView::Payment(PaymentError::NonPayable))
    } else if t <= withdrawal_end(c) {
        Err(ErrorView::PhaseOngoing)
    } else if s.are_claims_allowed {
        Err(ErrorView::ClaimsAlreadyAllowed)
    } else {
        Ok(State { are_claims_allowed: true, ..s })
    }
}

/// Lets users claim their rewards, once the deposit and withdrawal windows have
/// ended.
pub fn execute_enable_claims(
    config: &Config,
    state: &State,
    funds: &Vec<Coin>,
    current_timestamp: u64,
) -> (r: Result<State, ContractError>)
    requires
        funds@.len() == 0 ==> withdrawal_end(*config) <= u64::MAX,
    ensures
        view_result(r) == spec_enable_claims(*config, *state, funds@, current_timestamp as int),
{
    nonpayable(funds)?;
    let phase_end = config.init_timestamp + config.deposit_window + config.withdrawal_window;
    if current_timestamp <= phase_end {
        return Err(ContractError::PhaseOngoing);
    }
    if state.are_claims_allowed {
        return Err(ContractError::ClaimsAlreadyAllowed);
    }
    let mut new_state = *state;
    new_state.are_claims_allowed = true;
    Ok(new_state)
}

/// What a claim leaves behind.
#[derive(Clone, Copy, Debug, PartialEq, Eq, Structural)]
pub struct Claim {
    pub user_info: UserInfo,
    /// The incentive tokens sent to the user.
    pub amount: u128,
}

/// A user's share of the incentives: the incentives in the ratio of the
/// user's lock to the total lock, rounded down.
pub open spec fn incentive_share(c: Config, s: State, u: UserInfo) -> int {
    mul_div_floor(
        c.lockdrop_incentives as int,
        u.total_native_locked as int,
        s.total_native_locked as int,
    )
}

/// A claim passes its checks: not claimed yet, something locked, claims enabled.
pub open spec fn claim_accepted(s: State, u: UserInfo) -> bool {
    !u.lockdrop_claimed && u.total_native_locked != 0 && s.are_claims_allowed
}

/// The outcome of a claim by a user whose record is `u`.
pub open spec fn spec_claim(c: Config, s: State, u: UserInfo) -> Result<Claim, ErrorView> {
    if u.lockdrop_claimed {
        Err(ErrorView::LockdropAlreadyClaimed)
    } else if u.total_native_locked == 0 {
        Err(ErrorView::NoLockup)
    } else if !s.are_claims_allowed {
        Err(ErrorView::ClaimsNotAllowed)
    } else {
        Ok(
            Claim {
                user_info: UserInfo { lockdrop_claimed: true, ..u },
                amount: (incentive_share(c, s, u) - u.delegated_incentives) as u128,
            },
        )
    }
}

/// Sends the sender's share of the incentives, once, after claims are enabled.
pub fn execute_claim_rewards(config: &Config, state: &State, user: Option<UserInfo>) -> (r: Result<
    Claim,
    ContractError,
>)
    requires
        claim_accepted(*state, user_or_empty(user)) ==> {
            &&& state.total_native_locked > 0
            &&& incentive_share(*config, *state, user_or_empty(user)) <= u128::MAX
            &&& user_or_empty(user).delegated_incentives <= incentive_share(
                *config,
                *state,
                user_or_empty(user),
            )
        },
    ensures
        view_result(r) == spec_claim(*config, *state, user_or_empty(user)),
{
    let mut user_info = match user {
        Some(u) => u,
        None => UserInfo {
            total_native_locked: 0,
            delegated_incentives: 0,
            lockdrop_claimed: false,
            withdrawal_flag: false,
        },
    };
    if user_info.lockdrop_claimed {
        return Err(ContractError::LockdropAlreadyClaimed);
    }
    if user_info.total_native_locked == 0 {
        return Err(ContractError::NoLockup);
    }
    if !state.are_claims_allowed {
        return Err(ContractError::ClaimsNotAllowed);
    }
    let total_incentives = multiply_ratio(
        config.lockdrop_incentives,
        user_info.total_native_locked,
        state.total_native_locked,
    );
    let amount_to_transfer = total_incentives - user_info.delegated_incentives;
    user_info.lockdrop_claimed = true;
    Ok(Claim { user_info, amount: amount_to_transfer })
}

/// The outcome of the checks on a request by `sender` to withdraw the locked
/// native tokens to `recipient` (or to the sender) at `t`.
pub open spec fn spec_withdraw_proceeds(
    c: Config,
    funds: Seq<Coin>,
    sender: Seq<char>,
    sender_is_owner: bool,
    recipient: Option<Seq<char>>,
    t: int,
) -> Result<Seq<char>, ErrorView> {
    if funds.len() != 0 {
        Err(ErrorView::Payment(PaymentError::NonPayable))
    } else if !sender_is_owner {
        Err(ErrorView::Unauthorized)
    } else if !(t >= c.init_timestamp && !withdraw_open(t, c)) {
        Err(ErrorView::InvalidWithdrawal { msg: Some("Lockdrop withdrawals haven't concluded yet"@) })
    } else {
        match recipient {
            Some(r) => Ok(r),
            None => Ok(sender),
        }
    }
}

/// Checks a request of the owner to take the locked native tokens once the
/// lockdrop has started and its withdrawal window has closed; gives the
/// recipient, which is the sender unless another one is named.
pub fn execute_withdraw_proceeds(
    config: &Config,
    funds: &Vec<Coin>,
    sender: String,
    sender_is_owner: bool,
    recipient: Option<String>,
    current_timestamp: u64,
) -> (r: Result<String, ContractError>)
    requires
        (funds@.len() == 0 && sender_is_owner && current_timestamp >= config.init_timestamp)
            ==> withdrawal_end(*config) <= u64::MAX,
    ensures
        match r {
            Ok(x) => spec_withdraw_proceeds(
                *config,
                funds@,
                sender@,
                sender_is_owner,
                match recipient {
                    Some(x) => Some(x@),
                    None => None,
                },
                current_timestamp as int,
            ) == Ok::<Seq<char>, ErrorView>(x@),
            Err(e) => spec_withdraw_proceeds(
                *config,
                funds@,
                sender@,
                sender_is_owner,
                match recipient {
                    Some(x) => Some(x@),
                    None => None,
                },
                current_timestamp as int,
            ) == Err::<Seq<char>, ErrorView>(e@),
        },
{
    nonpayable(funds)?;
    let recipient = match recipient {
        Some(r) => r,
        None => sender,
    };
    if !sender_is_owner {
        return Err(ContractError::Unauthorized);
    }
    if !(current_timestamp >= config.init_timestamp && !is_withdraw_open(
        current_timestamp,
        config,
    )) {
        return Err(
            ContractError::InvalidWithdrawal {
                msg: Some(String::from_str("Lockdrop withdrawals haven't concluded yet")),
            },
        );
    }
    Ok(recipient)
}

/// The outcome of settling the proceeds against the contract's balance of the
/// native token.
pub open spec fn spec_proceeds_amount(s: State, balance: u128) -> Result<u128, ErrorView> {
    if balance >= s.total_native_locked {
        Ok(s.total_native_locked)
    } else {
        Err(ErrorView::InvalidWithdrawal { msg: Some("Already withdrew funds"@) })
    }
}

/// The amount the owner takes: everything locked, provided the contract still
/// holds at least that much.
pub fn withdraw_proceeds_amount(state: &State, balance: u128) -> (r: Result<u128, ContractError>)
    ensures
        view_result(r) == spec_proceeds_amount(*state, balance),
{
    if balance >= state.total_native_locked {
        Ok(state.total_native_locked)
    } else {
        Err(ContractError::InvalidWithdrawal { msg: Some(String::from_str("Already withdrew funds")) })
    }
}

/// The configuration as reported to queries.
#[derive(Clone, Debug, PartialEq, Eq)]
pub struct ConfigResponse {
    pub init_timestamp: u64,
    pub deposit_window: u64,
    pub withdrawal_window: u64,
    pub lockdrop_incentives: u128,
    pub incentive_token: String,
    pub native_denom: String,
}

/// The global state as reported to queries.
#[derive(Clone, Copy, Debug, PartialEq, Eq, Structural)]
pub struct StateResponse {
    pub total_native_locked: u128,
    pub are_claims_allowed: bool,
}

/// A user's record as reported to queries.
#[derive(Clone, Copy, Debug, PartialEq, Eq, Structural)]
pub struct UserInfoResponse {
    pub total_native_locked: u128,
    pub total_incentives: u128,
    pub is_lockdrop_claimed: bool,
    pub withdrawal_flag: bool,
}

/// Reports the configuration.
pub fn query_config(config: Config) -> (r: ConfigResponse)
    ensures
        r == (ConfigResponse {
            init_timestamp: config.init_timestamp,
            deposit_window: config.deposit_window,
            withdrawal_window: config.withdrawal_window,
            lockdrop_incentives: config.lockdrop_incentives,
            incentive_token: config.incentive_token,
            native_denom: config.native_denom,
        }),
{
    ConfigResponse {
        init_timestamp: config.init_timestamp,
        deposit_window: config.deposit_window,
        withdrawal_window: config.withdrawal_window,
        lockdrop_incentives: config.lockdrop_incentives,
        incentive_token: config.incentive_token,
        native_denom: config.native_denom,
    }
}

/// Reports the global state.
pub fn query_state(state: &State) -> (r: StateResponse)
    ensures
        r == (StateResponse {
            total_native_locked: state.total_native_locked,
            are_claims_allowed: state.are_claims_allowed,
        }),
{
    StateResponse {
        total_native_locked: state.total_native_locked,
        are_claims_allowed: state.are_claims_allowed,
    }
}

/// A user's share of the incentives as reported to queries: none while nothing
/// is locked at all.
pub open spec fn reported_share(c: Config, s: State, u: UserInfo) -> int {
    if s.total_native_locked == 0 {
        0
    } else {
        incentive_share(c, s, u)
    }
}

/// Reports a user's record with the user's current share of the incentives;
/// while nothing is locked the share is zero.
pub fn query_user_info(config: &Config, state: &State, user: Option<UserInfo>) -> (r:
    UserInfoResponse)
    requires
        reported_share(*config, *state, user_or_empty(user)) <= u128::MAX,
    ensures
        r == (UserInfoResponse {
            total_native_locked: user_or_empty(user).total_native_locked,
            total_incentives: reported_share(*config, *state, user_or_empty(user)) as u128,
            is_lockdrop_claimed: user_or_empty(user).lockdrop_claimed,
            withdrawal_flag: user_or_empty(user).withdrawal_flag,
        }),
{
    let user_info = match user {
        Some(u) => u,
        None => UserInfo {
            total_native_locked: 0,
            delegated_incentives: 0,
            lockdrop_claimed: false,
            withdrawal_flag: false,
        },
    };
    let total_incentives = if state.total_native_locked == 0 {
        0
    } else {
        multiply_ratio(
            config.lockdrop_incentives,
            user_info.total_native_locked,
            state.total_native_locked,
        )
    };
    UserInfoResponse {
        total_native_locked: user_info.total_native_locked,
        total_incentives,
        is_lockdrop_claimed: user_info.lockdrop_claimed,
        withdrawal_flag: user_info.withdrawal_flag,
    }
}

/// Reports the share of a lock that may be withdrawn at `timestamp`, or at the
/// current time when none is given.
pub fn query_max_withdrawable_percent(
    config: &Config,
    current_timestamp: u64,
    timestamp: Option<u64>,
) -> (r: Decimal)
    requires
        percent_computable(
            match timestamp {
                Some(t) => t as int,
                None => current_timestamp as int,
            },
            *config,
        ),
    ensures
        r.atomics == withdrawal_percent(
            match timestamp {
                Some(t) => t as int,
                None => current_timestamp as int,
            },
            *config,
        ),
{
    match timestamp {
        Some(t) => allowed_withdrawal_percent(t, config),
        None => allowed_withdrawal_percent(current_timestamp, config),
    }
}

} // verus!
