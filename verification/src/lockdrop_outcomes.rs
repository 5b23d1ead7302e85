//! What each lockdrop request answers, in terms of its inputs alone: when it
//! is accepted, and what the accepted request stores and hands out.

use vstd::prelude::*;
use crate::error::{ErrorView, PaymentError};
use crate::lockdrop::{
    BlockInfo, Claim, Coin, Config, Cw20HookMsg, Deposit, InstantiateMsg, State, UserInfo,
    Withdrawal, deposit_open, initial_state, user_or_empty,
    reported_share, spec_claim, spec_deposit, spec_enable_claims, spec_increase_incentives,
    spec_instantiate, spec_proceeds_amount, spec_receive_cw20, spec_withdraw,
    spec_withdraw_proceeds, withdraw_open, withdrawal_percent,
};
use crate::lockdrop_laws::lemma_percent_bounds;
use crate::math::{decimal_text, lemma_mul_div_le};
use crate::version::{semver_parse_error, semver_precedes, spec_migration};

verus! {

/// Deposits are open exactly from the initial timestamp through the last
/// second of the deposit window; withdrawals exactly from the initial
/// timestamp through the last second of the withdrawal window.
pub proof fn law_windows(t: int, c: Config)
    ensures
        deposit_open(t, c) <==> c.init_timestamp <= t <= c.init_timestamp + c.deposit_window,
        withdraw_open(t, c) <==> c.init_timestamp <= t <= c.init_timestamp + c.deposit_window
            + c.withdrawal_window,
{
}

/// The withdrawal limit: 100% through the deposit window, 50% up to the middle
/// of the withdrawal window, nothing from its end on (once the deposit window
/// is over), and in between a share
/// that falls from 50% in proportion to the time left.
pub proof fn law_withdrawal_percent_values(t: int, c: Config)
    ensures
        t <= c.init_timestamp + c.deposit_window ==> withdrawal_percent(t, c)
            == 1_000_000_000_000_000_000int,
        c.init_timestamp + c.deposit_window < t <= c.init_timestamp + c.deposit_window
            + c.withdrawal_window / 2 ==> withdrawal_percent(t, c) == 500_000_000_000_000_000int,
        t >= c.init_timestamp + c.deposit_window + c.withdrawal_window && t > c.init_timestamp
            + c.deposit_window ==> withdrawal_percent(t, c) == 0,
        c.init_timestamp + c.deposit_window + c.withdrawal_window / 2 < t < c.init_timestamp
            + c.deposit_window + c.withdrawal_window ==> {
            &&& 0 <= withdrawal_percent(t, c) <= 500_000_000_000_000_000int
            &&& withdrawal_percent(t, c) == 50 * (c.init_timestamp + c.deposit_window
                + c.withdrawal_window - t) * 1_000_000_000_000_000_000int / (100 * (
            c.withdrawal_window - c.withdrawal_window / 2))
        },
{
    lemma_percent_bounds(t, c);
    let e = c.init_timestamp + c.deposit_window + c.withdrawal_window;
    let m = c.init_timestamp + c.deposit_window + c.withdrawal_window / 2;
    if m < t < e {
        crate::lockdrop::lemma_linear_percent_bound(e - t, e - m);
    }
}

/// A successful instantiation stores the message's start, windows, token and
/// denomination unchanged, no incentives, nothing locked and claims closed; it
/// succeeds exactly when the start is not before the block's second and the
/// withdrawal window is non-empty and shorter than the deposit window.
pub proof fn law_instantiate_outcome(msg: InstantiateMsg, block: BlockInfo)
    ensures
        spec_instantiate(msg, block) is Ok <==> (msg.init_timestamp >= block.time_nanos
            / 1_000_000_000 && 0 < msg.withdrawal_window && msg.withdrawal_window
            < msg.deposit_window),
        spec_instantiate(msg, block) matches Ok((c, s)) ==> {
            &&& c.init_timestamp == msg.init_timestamp
            &&& c.deposit_window == msg.deposit_window
            &&& c.withdrawal_window == msg.withdrawal_window
            &&& c.lockdrop_incentives == 0
            &&& c.incentive_token == msg.incentive_token
            &&& c.native_denom == msg.native_denom
            &&& s.total_native_locked == 0
            &&& !s.are_claims_allowed
        },
{
}

/// A deposit is accepted exactly when the deposit window is open and one
/// non-zero coin of the native denomination was sent; it adds that coin's
/// amount to the user's lock and to the global total and changes nothing else.
pub proof fn law_deposit_outcome(c: Config, s: State, u: UserInfo, t: int, funds: Seq<Coin>)
    requires
        funds.len() == 1 ==> s.total_native_locked + funds[0].amount <= u128::MAX,
        funds.len() == 1 ==> u.total_native_locked + funds[0].amount <= u128::MAX,
    ensures
        spec_deposit(c, s, u, t, funds) is Ok <==> {
            &&& c.init_timestamp <= t <= c.init_timestamp + c.deposit_window
            &&& funds.len() == 1
            &&& funds[0].denom@ == c.native_denom@
            &&& funds[0].amount > 0
        },
        spec_deposit(c, s, u, t, funds) matches Ok(d) ==> {
            &&& d.amount == funds[0].amount
            &&& d.user_info.total_native_locked == u.total_native_locked + funds[0].amount
            &&& d.state.total_native_locked == s.total_native_locked + funds[0].amount
            &&& d.state.are_claims_allowed == s.are_claims_allowed
            &&& d.user_info.delegated_incentives == u.delegated_incentives
            &&& d.user_info.lockdrop_claimed == u.lockdrop_claimed
            &&& d.user_info.withdrawal_flag == u.withdrawal_flag
        },
{
}

/// A withdrawal is accepted exactly when the withdrawal window is open, the
/// amount (the named one, or else the limit) is within the limit
/// `lock * percent / 10^18`, and after the deposit window the user has not
/// withdrawn before. A named amount is handed back exactly; the user's lock and
/// the global total each fall by the amount handed back; after the deposit
/// window the withdrawal is marked; nothing else changes.
pub proof fn law_withdraw_outcome(c: Config, s: State, u: UserInfo, t: int, amount: Option<u128>)
    requires
        u.total_native_locked <= s.total_native_locked,
    ensures
        spec_withdraw(c, s, u, t, amount) is Ok <==> {
            &&& c.init_timestamp <= t <= c.init_timestamp + c.deposit_window + c.withdrawal_window
            &&& match amount {
                Some(a) => a <= u.total_native_locked * withdrawal_percent(t, c)
                    / 1_000_000_000_000_000_000int,
                None => true,
            }
            &&& !(t > c.init_timestamp + c.deposit_window && u.withdrawal_flag)
        },
        spec_withdraw(c, s, u, t, amount) matches Ok(w) ==> {
            &&& match amount {
                Some(a) => w.amount == a,
                None => w.amount == u.total_native_locked * withdrawal_percent(t, c)
                    / 1_000_000_000_000_000_000int,
            }
            &&& w.amount <= u.total_native_locked
            &&& w.user_info.total_native_locked == u.total_native_locked - w.amount
            &&& w.state.total_native_locked == s.total_native_locked - w.amount
            &&& w.state.are_claims_allowed == s.are_claims_allowed
            &&& w.user_info.withdrawal_flag == (u.withdrawal_flag || t > c.init_timestamp
                + c.deposit_window)
            &&& w.user_info.delegated_incentives == u.delegated_incentives
            &&& w.user_info.lockdrop_claimed == u.lockdrop_claimed
        },
{
    lemma_percent_bounds(t, c);
    lemma_mul_div_le(
        u.total_native_locked as nat,
        withdrawal_percent(t, c) as nat,
        1_000_000_000_000_000_000nat,
    );
}

/// Adding incentives is accepted exactly when the incentive token sends them
/// while withdrawals are open (from the initial timestamp through the end of
/// the withdrawal window); it adds the amount and changes nothing else.
pub proof fn law_increase_incentives_outcome(c: Config, sender: Seq<char>, t: int, amount: u128)
    requires
        c.lockdrop_incentives + amount <= u128::MAX,
    ensures
        spec_increase_incentives(c, sender, t, amount) is Ok <==> {
            &&& sender == c.incentive_token@
            &&& c.init_timestamp <= t <= c.init_timestamp + c.deposit_window + c.withdrawal_window
        },
        spec_increase_incentives(c, sender, t, amount) matches Ok(c2) ==> c2 == (Config {
            lockdrop_incentives: (c.lockdrop_incentives + amount) as u128,
            ..c
        }),
        spec_increase_incentives(c, sender, t, amount) matches Ok(c2) ==> c2.lockdrop_incentives
            == c.lockdrop_incentives + amount,
{
}

/// Receiving tokens: nothing is done for zero tokens, an undecodable hook is a
/// standard error with its text, and the incentive hook is exactly an increase
/// of the incentives by the amount received.
pub proof fn law_receive_cw20_outcome(
    c: Config,
    sender: Seq<char>,
    t: int,
    amount: u128,
    hook: Result<Cw20HookMsg, Seq<char>>,
)
    ensures
        amount == 0 ==> spec_receive_cw20(c, sender, t, amount, hook) is Err,
        amount != 0 ==> match hook {
            Ok(Cw20HookMsg::IncreaseIncentives) => spec_receive_cw20(c, sender, t, amount, hook)
                == spec_increase_incentives(c, sender, t, amount),
            Err(m) => spec_receive_cw20(c, sender, t, amount, hook) == Err::<Config, ErrorView>(
                ErrorView::Std { msg: m },
            ),
        },
{
}

/// Enabling claims is accepted exactly when no funds are sent, the withdrawal
/// window has ended and claims are not yet enabled; it enables them and keeps
/// the global total.
pub proof fn law_enable_claims_outcome(c: Config, s: State, funds: Seq<Coin>, t: int)
    ensures
        spec_enable_claims(c, s, funds, t) is Ok <==> {
            &&& funds.len() == 0
            &&& t > c.init_timestamp + c.deposit_window + c.withdrawal_window
            &&& !s.are_claims_allowed
        },
        spec_enable_claims(c, s, funds, t) matches Ok(s2) ==> s2 == (State {
            total_native_locked: s.total_native_locked,
            are_claims_allowed: true,
        }),
{
}

/// A claim is accepted exactly when the user has not claimed, has something
/// locked and claims are enabled, whatever else the record holds; it pays
/// `incentives * lock / total` (rounded down) less what was delegated, and
/// marks the record as claimed, changing nothing else in it.
pub proof fn law_claim_outcome(c: Config, s: State, u: UserInfo)
    requires
        u.total_native_locked <= s.total_native_locked,
        u.delegated_incentives == 0,
    ensures
        spec_claim(c, s, u) is Ok <==> {
            &&& !u.lockdrop_claimed
            &&& u.total_native_locked != 0
            &&& s.are_claims_allowed
        },
        spec_claim(c, s, u) matches Ok(cl) ==> {
            &&& cl.amount == c.lockdrop_incentives * u.total_native_locked
                / (s.total_native_locked as int)
            &&& cl.amount <= c.lockdrop_incentives
            &&& cl.user_info == (UserInfo { lockdrop_claimed: true, ..u })
        },
{
    if u.total_native_locked != 0 {
        lemma_mul_div_le(
            c.lockdrop_incentives as nat,
            u.total_native_locked as nat,
            s.total_native_locked as nat,
        );
    }
}

/// The share reported to queries is `incentives * lock / total` (rounded
/// down) whenever anything is locked, whether or not claims are enabled, and
/// zero while nothing is locked.
pub proof fn law_reported_share(c: Config, s: State, u: UserInfo)
    ensures
        s.total_native_locked != 0 ==> reported_share(c, s, u) == c.lockdrop_incentives
            * u.total_native_locked / (s.total_native_locked as int),
        s.total_native_locked == 0 ==> reported_share(c, s, u) == 0,
{
}

/// Taking the proceeds is accepted exactly when no funds are sent, the sender
/// is the owner, and the lockdrop has started and its withdrawal window has
/// ended; it goes to the named recipient or else to the sender, and takes
/// the whole global total exactly when the balance covers it.
pub proof fn law_proceeds_outcome(
    c: Config,
    s: State,
    funds: Seq<Coin>,
    sender: Seq<char>,
    sender_is_owner: bool,
    recipient: Option<Seq<char>>,
    t: int,
    balance: u128,
)
    ensures
        spec_withdraw_proceeds(c, funds, sender, sender_is_owner, recipient, t) is Ok <==> {
            &&& funds.len() == 0
            &&& sender_is_owner
            &&& c.init_timestamp <= t
            &&& t > c.init_timestamp + c.deposit_window + c.withdrawal_window
        },
        spec_withdraw_proceeds(c, funds, sender, sender_is_owner, recipient, t) matches Ok(r)
            ==> r == match recipient {
            Some(x) => x,
            None => sender,
        },
        spec_proceeds_amount(s, balance) is Ok <==> balance >= s.total_native_locked,
        spec_proceeds_amount(s, balance) matches Ok(a) ==> a == s.total_native_locked,
{
}

/// A migration is accepted only from a stored contract of the same name whose
/// version parses and precedes the new one, which must parse too.
pub proof fn law_migration_outcome(
    contract_name: Seq<char>,
    new_version: Seq<char>,
    stored_contract: Seq<char>,
    stored_version: Seq<char>,
)
    ensures
        spec_migration(contract_name, new_version, stored_contract, stored_version) is Ok <==> {
            &&& semver_parse_error(new_version) is None
            &&& semver_parse_error(stored_version) is None
            &&& stored_contract == contract_name
            &&& semver_precedes(stored_version, new_version)
        },
{
}

/// A user who never deposited has an empty record, and a stored record is
/// taken as it is.
pub proof fn law_empty_records(u: UserInfo)
    ensures
        user_or_empty(None) == (UserInfo {
            total_native_locked: 0,
            delegated_incentives: 0,
            lockdrop_claimed: false,
            withdrawal_flag: false,
        }),
        user_or_empty(Some(u)) == u,
        initial_state() == (State { total_native_locked: 0, are_claims_allowed: false }),
{
}

/// Why an instantiation is refused: a start before the block's second names
/// the block's time in milliseconds and its height; otherwise the windows are
/// invalid.
pub proof fn law_instantiate_refusals(msg: InstantiateMsg, block: BlockInfo)
    ensures
        msg.init_timestamp < block.time_nanos / 1_000_000_000 ==> spec_instantiate(msg, block)
            == Err::<(Config, State), ErrorView>(
            ErrorView::StartTimeInThePast {
                current_time: (block.time_nanos / 1_000_000) as u64,
                current_block: block.height,
            },
        ),
        msg.init_timestamp >= block.time_nanos / 1_000_000_000 && !(0 < msg.withdrawal_window
            < msg.deposit_window) ==> spec_instantiate(msg, block) == Err::<
            (Config, State),
            ErrorView,
        >(ErrorView::InvalidWindow),
{
}

/// Why a deposit is refused, checked in this order: the window is closed; not
/// exactly one coin was sent; the coin is of another denomination; it is zero.
pub proof fn law_deposit_refusals(c: Config, s: State, u: UserInfo, t: int, funds: Seq<Coin>)
    ensures
        !(c.init_timestamp <= t <= c.init_timestamp + c.deposit_window) ==> spec_deposit(
            c,
            s,
            u,
            t,
            funds,
        ) == Err::<Deposit, ErrorView>(ErrorView::DepositWindowClosed),
        c.init_timestamp <= t <= c.init_timestamp + c.deposit_window && funds.len() != 1
            ==> spec_deposit(c, s, u, t, funds) == Err::<Deposit, ErrorView>(
            ErrorView::InvalidFunds { msg: "Must deposit a single fund"@ },
        ),
        c.init_timestamp <= t <= c.init_timestamp + c.deposit_window && funds.len() == 1
            && funds[0].denom@ != c.native_denom@ ==> spec_deposit(c, s, u, t, funds) == Err::<
            Deposit,
            ErrorView,
        >(ErrorView::InvalidFunds { msg: "Only "@ + c.native_denom@ + " accepted"@ }),
        c.init_timestamp <= t <= c.init_timestamp + c.deposit_window && funds.len() == 1
            && funds[0].denom@ == c.native_denom@ && funds[0].amount == 0 ==> spec_deposit(
            c,
            s,
            u,
            t,
            funds,
        ) == Err::<Deposit, ErrorView>(
            ErrorView::InvalidFunds { msg: "Amount must be greater than 0"@ },
        ),
{
}

/// Why a withdrawal is refused, checked in this order: the window is closed;
/// the named amount exceeds the limit (the message names the limit in
/// decimal); after the deposit window the user has withdrawn already.
pub proof fn law_withdraw_refusals(c: Config, s: State, u: UserInfo, t: int, amount: Option<u128>)
    ensures
        !(c.init_timestamp <= t <= c.init_timestamp + c.deposit_window + c.withdrawal_window)
            ==> spec_withdraw(c, s, u, t, amount) == Err::<Withdrawal, ErrorView>(
            ErrorView::InvalidWithdrawal { msg: Some("Withdrawals not available"@) },
        ),
        ({
            let limit = u.total_native_locked * withdrawal_percent(t, c)
                / 1_000_000_000_000_000_000int;
            let over = match amount {
                Some(a) => a > limit,
                None => false,
            };
            c.init_timestamp <= t <= c.init_timestamp + c.deposit_window + c.withdrawal_window
                && over ==> spec_withdraw(c, s, u, t, amount)
                == Err::<Withdrawal, ErrorView>(
                ErrorView::InvalidWithdrawal {
                    msg: Some(
                        "Amount exceeds max allowed withdrawal limit of "@ + decimal_text(
                            limit as nat,
                        ),
                    ),
                },
            )
        }),
        ({
            let limit = u.total_native_locked * withdrawal_percent(t, c)
                / 1_000_000_000_000_000_000int;
            let over = match amount {
                Some(a) => a > limit,
                None => false,
            };
            c.init_timestamp + c.deposit_window < t <= c.init_timestamp + c.deposit_window
                + c.withdrawal_window && !over
                && u.withdrawal_flag ==> spec_withdraw(c, s, u, t, amount) == Err::<
                Withdrawal,
                ErrorView,
            >(ErrorView::InvalidWithdrawal { msg: Some("Max 1 withdrawal allowed"@) })
        }),
{
}

/// Why adding incentives is refused: another sender; or, from the incentive
/// token, the withdrawal window is not open.
pub proof fn law_increase_incentives_refusals(c: Config, sender: Seq<char>, t: int, amount: u128)
    ensures
        sender != c.incentive_token@ ==> spec_increase_incentives(c, sender, t, amount) == Err::<
            Config,
            ErrorView,
        >(ErrorView::InvalidFunds { msg: "Only incentive tokens are valid"@ }),
        sender == c.incentive_token@ && !(c.init_timestamp <= t <= c.init_timestamp
            + c.deposit_window + c.withdrawal_window) ==> spec_increase_incentives(
            c,
            sender,
            t,
            amount,
        ) == Err::<Config, ErrorView>(ErrorView::TokenAlreadyBeingDistributed),
        amount == 0 ==> spec_receive_cw20(c, sender, t, amount, Ok(Cw20HookMsg::IncreaseIncentives))
            == Err::<Config, ErrorView>(
            ErrorView::InvalidFunds { msg: "Number of tokens should be > 0"@ },
        ),
{
}

/// Why enabling claims is refused, checked in this order: funds were sent;
/// the withdrawal window has not ended; claims are already enabled.
pub proof fn law_enable_claims_refusals(c: Config, s: State, funds: Seq<Coin>, t: int)
    ensures
        funds.len() != 0 ==> spec_enable_claims(c, s, funds, t) == Err::<State, ErrorView>(
            ErrorView::Payment(PaymentError::NonPayable),
        ),
        funds.len() == 0 && t <= c.init_timestamp + c.deposit_window + c.withdrawal_window
            ==> spec_enable_claims(c, s, funds, t) == Err::<State, ErrorView>(
            ErrorView::PhaseOngoing,
        ),
        funds.len() == 0 && t > c.init_timestamp + c.deposit_window + c.withdrawal_window
            && s.are_claims_allowed ==> spec_enable_claims(c, s, funds, t) == Err::<
            State,
            ErrorView,
        >(ErrorView::ClaimsAlreadyAllowed),
{
}

/// Why a claim is refused, checked in this order: already claimed; nothing
/// locked; claims not enabled.
pub proof fn law_claim_refusals(c: Config, s: State, u: UserInfo)
    ensures
        u.lockdrop_claimed ==> spec_claim(c, s, u) == Err::<Claim, ErrorView>(
            ErrorView::LockdropAlreadyClaimed,
        ),
        !u.lockdrop_claimed && u.total_native_locked == 0 ==> spec_claim(c, s, u) == Err::<
            Claim,
            ErrorView,
        >(ErrorView::NoLockup),
        !u.lockdrop_claimed && u.total_native_locked != 0 && !s.are_claims_allowed
            ==> spec_claim(c, s, u) == Err::<Claim, ErrorView>(ErrorView::ClaimsNotAllowed),
{
}

/// Why taking the proceeds is refused, checked in this order: funds were
/// sent; the sender is not the owner; the lockdrop has not started or its
/// withdrawal window has not ended; the balance no longer covers the total.
pub proof fn law_proceeds_refusals(
    c: Config,
    s: State,
    funds: Seq<Coin>,
    sender: Seq<char>,
    sender_is_owner: bool,
    recipient: Option<Seq<char>>,
    t: int,
    balance: u128,
)
    ensures
        funds.len() != 0 ==> spec_withdraw_proceeds(
            c,
            funds,
            sender,
            sender_is_owner,
            recipient,
            t,
        ) == Err::<Seq<char>, ErrorView>(ErrorView::Payment(PaymentError::NonPayable)),
        funds.len() == 0 && !sender_is_owner ==> spec_withdraw_proceeds(
            c,
            funds,
            sender,
            sender_is_owner,
            recipient,
            t,
        ) == Err::<Seq<char>, ErrorView>(ErrorView::Unauthorized),
        funds.len() == 0 && sender_is_owner && !(c.init_timestamp <= t && t > c.init_timestamp
            + c.deposit_window + c.withdrawal_window) ==> spec_withdraw_proceeds(
            c,
            funds,
            sender,
            sender_is_owner,
            recipient,
            t,
        ) == Err::<Seq<char>, ErrorView>(
            ErrorView::InvalidWithdrawal { msg: Some("Lockdrop withdrawals haven't concluded yet"@) },
        ),
        balance < s.total_native_locked ==> spec_proceeds_amount(s, balance) == Err::<
            u128,
            ErrorView,
        >(ErrorView::InvalidWithdrawal { msg: Some("Already withdrew funds"@) }),
{
}

/// Why a migration is refused, checked in this order: a version does not parse
/// (the error carries the parser's text); the stored contract has another name
/// (named in the error); the stored version does not precede the new one
/// (named in the error).
pub proof fn law_migration_refusals(
    contract_name: Seq<char>,
    new_version: Seq<char>,
    stored_contract: Seq<char>,
    stored_version: Seq<char>,
)
    ensures
        semver_parse_error(new_version) matches Some(e) ==> spec_migration(
            contract_name,
            new_version,
            stored_contract,
            stored_version,
        ) == Err::<(), ErrorView>(ErrorView::Std { msg: "Semver: "@ + e }),
        semver_parse_error(new_version) is None ==> match semver_parse_error(stored_version) {
            Some(e) => spec_migration(contract_name, new_version, stored_contract, stored_version)
                == Err::<(), ErrorView>(ErrorView::Std { msg: "Semver: "@ + e }),
            None => true,
        },
        semver_parse_error(new_version) is None && semver_parse_error(stored_version) is None
            && stored_contract != contract_name ==> spec_migration(
            contract_name,
            new_version,
            stored_contract,
            stored_version,
        ) == Err::<(), ErrorView>(ErrorView::CannotMigrate { previous_contract: stored_contract }),
        semver_parse_error(new_version) is None && semver_parse_error(stored_version) is None
            && stored_contract == contract_name && !semver_precedes(stored_version, new_version)
            ==> spec_migration(contract_name, new_version, stored_contract, stored_version)
            == Err::<(), ErrorView>(ErrorView::CannotMigrate { previous_contract: stored_version }),
{
}

} // verus!
