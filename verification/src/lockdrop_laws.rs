//! What holds of the lockdrop across its requests: the windows, the falling
//! withdrawal limit, the global total that always equals the users' locks, the
//! one-time actions, and the rewards that never exceed the incentives.
//!
//! The users' records are taken as a sequence, one entry per address.

use vstd::prelude::*;
use crate::error::ErrorView;
use crate::lockdrop::{
    Claim, Coin, Config, State, UserInfo, Withdrawal, claim_accepted, deposit_accepted,
    deposit_end, deposit_open, empty_user, incentive_share, lemma_linear_percent_bound,
    max_withdrawal, spec_claim, spec_deposit, spec_enable_claims, spec_increase_incentives,
    spec_withdraw, spec_withdraw_proceeds, withdraw_open, withdrawal_end, withdrawal_midpoint,
    withdrawal_percent,
};
use crate::math::{DECIMAL_FRACTIONAL, lemma_mul_div_le, mul_div_floor};

verus! {

/// The native tokens locked by all the users together.
pub open spec fn total_locked(users: Seq<UserInfo>) -> int
    decreases users.len(),
{
    if users.len() == 0 {
        0
    } else {
        total_locked(users.drop_last()) + users.last().total_native_locked
    }
}

/// The users' shares of `incentives` against the global lock `total`, added up.
pub open spec fn total_shares(incentives: int, users: Seq<UserInfo>, total: int) -> int
    decreases users.len(),
{
    if users.len() == 0 {
        0
    } else {
        total_shares(incentives, users.drop_last(), total) + mul_div_floor(
            incentives,
            users.last().total_native_locked as int,
            total,
        )
    }
}

/// Replacing one user's record changes the sum of the locks by the change of
/// that record's lock.
pub proof fn lemma_total_locked_update(users: Seq<UserInfo>, i: int, u: UserInfo)
    requires
        0 <= i < users.len(),
    ensures
        total_locked(users.update(i, u)) == total_locked(users) - users[i].total_native_locked
            + u.total_native_locked,
    decreases users.len(),
{
    let updated = users.update(i, u);
    if i == users.len() - 1 {
        assert(updated.drop_last() =~= users.drop_last());
    } else {
        lemma_total_locked_update(users.drop_last(), i, u);
        assert(updated.drop_last() =~= users.drop_last().update(i, u));
    }
}

/// Appending a record adds its lock to the sum.
pub proof fn lemma_total_locked_push(users: Seq<UserInfo>, u: UserInfo)
    ensures
        total_locked(users.push(u)) == total_locked(users) + u.total_native_locked,
{
    assert(users.push(u).drop_last() =~= users);
}

/// Every lock is part of the sum, and the sum is never negative.
pub proof fn lemma_lock_within_total(users: Seq<UserInfo>, i: int)
    requires
        0 <= i < users.len(),
    ensures
        0 <= users[i].total_native_locked <= total_locked(users),
    decreases users.len(),
{
    lemma_total_locked_nonnegative(users.drop_last());
    if i < users.len() - 1 {
        lemma_lock_within_total(users.drop_last(), i);
    }
}

/// The sum of the locks is never negative.
pub proof fn lemma_total_locked_nonnegative(users: Seq<UserInfo>)
    ensures
        0 <= total_locked(users),
    decreases users.len(),
{
    if users.len() > 0 {
        lemma_total_locked_nonnegative(users.drop_last());
    }
}

/// The share that may be withdrawn lies between nothing and everything.
pub proof fn lemma_percent_bounds(t: int, c: Config)
    ensures
        0 <= withdrawal_percent(t, c) <= DECIMAL_FRACTIONAL,
{
    if t > deposit_end(c) && t > withdrawal_midpoint(c) && t < withdrawal_end(c) {
        lemma_linear_percent_bound(withdrawal_end(c) - t, withdrawal_end(c) - withdrawal_midpoint(c));
    }
}

/// Deposits are only open while withdrawals are open too.
pub proof fn law_deposit_window_within_withdraw_window(t: int, c: Config)
    ensures
        deposit_open(t, c) ==> withdraw_open(t, c),
{
}

/// The share of a lock that may be withdrawn never rises as time goes on.
pub proof fn law_withdrawal_percent_never_rises(c: Config, t1: int, t2: int)
    requires
        t1 <= t2,
    ensures
        withdrawal_percent(t2, c) <= withdrawal_percent(t1, c),
{
    lemma_percent_bounds(t1, c);
    lemma_percent_bounds(t2, c);
    let e = withdrawal_end(c);
    let m = withdrawal_midpoint(c);
    if t1 > deposit_end(c) && t1 > m && t2 < e {
        let d: int = 100 * (e - m);
        let n1: int = 50 * (e - t1) * (DECIMAL_FRACTIONAL as int);
        let n2: int = 50 * (e - t2) * (DECIMAL_FRACTIONAL as int);
        assert(n2 <= n1) by (nonlinear_arith)
            requires
                n1 == 50 * (e - t1) * (DECIMAL_FRACTIONAL as int),
                n2 == 50 * (e - t2) * (DECIMAL_FRACTIONAL as int),
                t1 <= t2,
        ;
        vstd::arithmetic::div_mod::lemma_div_is_ordered(n2, n1, d);
    } else if t2 > deposit_end(c) && t2 > m && t2 < e && t1 <= m {
        lemma_linear_percent_bound(e - t2, e - m);
    }
}

/// A deposit by a user already on record keeps the global total equal to the
/// sum of all the users' locks.
pub proof fn law_deposit_keeps_total_consistent(
    c: Config,
    s: State,
    users: Seq<UserInfo>,
    i: int,
    t: int,
    funds: Seq<Coin>,
)
    requires
        s.total_native_locked == total_locked(users),
        0 <= i < users.len(),
        deposit_accepted(c, t, funds) ==> s.total_native_locked + funds[0].amount <= u128::MAX,
        spec_deposit(c, s, users[i], t, funds) is Ok,
    ensures
        ({
            let d = spec_deposit(c, s, users[i], t, funds)->Ok_0;
            d.state.total_native_locked == total_locked(users.update(i, d.user_info))
        }),
{
    let d = spec_deposit(c, s, users[i], t, funds)->Ok_0;
    lemma_lock_within_total(users, i);
    lemma_total_locked_update(users, i, d.user_info);
}

/// A first deposit by a new user keeps the global total equal to the sum of
/// all the users' locks, the new record included.
pub proof fn law_first_deposit_keeps_total_consistent(
    c: Config,
    s: State,
    users: Seq<UserInfo>,
    t: int,
    funds: Seq<Coin>,
)
    requires
        s.total_native_locked == total_locked(users),
        deposit_accepted(c, t, funds) ==> s.total_native_locked + funds[0].amount <= u128::MAX,
        spec_deposit(c, s, empty_user(), t, funds) is Ok,
    ensures
        ({
            let d = spec_deposit(c, s, empty_user(), t, funds)->Ok_0;
            d.state.total_native_locked == total_locked(users.push(d.user_info))
        }),
{
    let d = spec_deposit(c, s, empty_user(), t, funds)->Ok_0;
    lemma_total_locked_push(users, d.user_info);
}

/// A withdrawal keeps the global total equal to the sum of all the users'
/// locks, and never takes more than the user's lock.
pub proof fn law_withdraw_keeps_total_consistent(
    c: Config,
    s: State,
    users: Seq<UserInfo>,
    i: int,
    t: int,
    amount: Option<u128>,
)
    requires
        s.total_native_locked == total_locked(users),
        0 <= i < users.len(),
        spec_withdraw(c, s, users[i], t, amount) is Ok,
    ensures
        ({
            let w = spec_withdraw(c, s, users[i], t, amount)->Ok_0;
            &&& w.amount <= users[i].total_native_locked
            &&& w.user_info.total_native_locked == users[i].total_native_locked - w.amount
            &&& w.state.total_native_locked == total_locked(users.update(i, w.user_info))
        }),
{
    let u = users[i];
    let w = spec_withdraw(c, s, u, t, amount)->Ok_0;
    lemma_lock_within_total(users, i);
    lemma_percent_bounds(t, c);
    lemma_mul_div_le(
        u.total_native_locked as nat,
        withdrawal_percent(t, c) as nat,
        DECIMAL_FRACTIONAL as nat,
    );
    lemma_total_locked_update(users, i, w.user_info);
}

/// A claim changes no lock, so the global total stays equal to the sum of the
/// users' locks.
pub proof fn law_claim_keeps_total_consistent(c: Config, s: State, users: Seq<UserInfo>, i: int)
    requires
        s.total_native_locked == total_locked(users),
        0 <= i < users.len(),
        spec_claim(c, s, users[i]) is Ok,
    ensures
        s.total_native_locked == total_locked(
            users.update(i, spec_claim(c, s, users[i])->Ok_0.user_info),
        ),
{
    lemma_total_locked_update(users, i, spec_claim(c, s, users[i])->Ok_0.user_info);
}

/// In a consistent state (the global total is the sum of the users' locks and
/// no incentives were delegated), a claim never divides by zero, overflows or
/// runs below zero: the conditions that `execute_claim_rewards` asks for hold.
pub proof fn law_claim_computable_when_consistent(
    c: Config,
    s: State,
    users: Seq<UserInfo>,
    i: int,
)
    requires
        s.total_native_locked == total_locked(users),
        0 <= i < users.len(),
        users[i].delegated_incentives == 0,
    ensures
        claim_accepted(s, users[i]) ==> {
            &&& s.total_native_locked > 0
            &&& 0 <= incentive_share(c, s, users[i]) <= c.lockdrop_incentives
            &&& users[i].delegated_incentives <= incentive_share(c, s, users[i])
        },
{
    lemma_lock_within_total(users, i);
    if claim_accepted(s, users[i]) {
        lemma_mul_div_le(
            c.lockdrop_incentives as nat,
            users[i].total_native_locked as nat,
            s.total_native_locked as nat,
        );
    }
}

/// One share is at most the value scaled by its exact ratio.
proof fn lemma_share_scaled(incentives: int, lock: int, total: int)
    requires
        0 <= incentives,
        0 <= lock,
        0 < total,
    ensures
        total * mul_div_floor(incentives, lock, total) <= incentives * lock,
{
    let x = incentives * lock;
    vstd::arithmetic::div_mod::lemma_fundamental_div_mod(x, total);
    vstd::arithmetic::div_mod::lemma_mod_pos_bound(x, total);
}

/// The shares, scaled by the total, add up to at most the incentives scaled
/// by the sum of the locks.
proof fn lemma_total_shares_scaled(incentives: int, users: Seq<UserInfo>, total: int)
    requires
        0 <= incentives,
        0 < total,
    ensures
        total * total_shares(incentives, users, total) <= incentives * total_locked(users),
    decreases users.len(),
{
    if users.len() > 0 {
        let rest = users.drop_last();
        let lock = users.last().total_native_locked as int;
        lemma_total_shares_scaled(incentives, rest, total);
        lemma_share_scaled(incentives, lock, total);
        let r = total_shares(incentives, rest, total);
        let q = mul_div_floor(incentives, lock, total);
        let l = total_locked(rest);
        assert(total * (r + q) <= incentives * (l + lock)) by (nonlinear_arith)
            requires
                total * r <= incentives * l,
                total * q <= incentives * lock,
        ;
    }
}

/// Whatever the users' locks, their shares of the incentives add up to no
/// more than the incentives, as long as the global total is their sum.
pub proof fn law_shares_within_incentives(c: Config, s: State, users: Seq<UserInfo>)
    requires
        s.total_native_locked == total_locked(users),
        s.total_native_locked > 0,
    ensures
        total_shares(c.lockdrop_incentives as int, users, s.total_native_locked as int)
            <= c.lockdrop_incentives,
{
    let t = s.total_native_locked as int;
    let i = c.lockdrop_incentives as int;
    lemma_total_shares_scaled(i, users, t);
    let r = total_shares(i, users, t);
    assert(r <= i) by (nonlinear_arith)
        requires
            t * r <= i * t,
            t > 0,
    ;
}

/// A claim pays at most the incentives, when the user's lock is part of the
/// global total.
pub proof fn law_claim_within_incentives(c: Config, s: State, u: UserInfo)
    requires
        u.total_native_locked <= s.total_native_locked,
        u.delegated_incentives <= incentive_share(c, s, u),
        spec_claim(c, s, u) is Ok,
    ensures
        spec_claim(c, s, u)->Ok_0.amount <= c.lockdrop_incentives,
{
    lemma_mul_div_le(
        c.lockdrop_incentives as nat,
        u.total_native_locked as nat,
        s.total_native_locked as nat,
    );
}

/// After the deposit window a user withdraws at most once: the withdrawal
/// marks the record, and a marked record is refused later on.
pub proof fn law_one_withdrawal_after_deposit_window(
    c: Config,
    s: State,
    u: UserInfo,
    t: int,
    amount: Option<u128>,
    s2: State,
    t2: int,
    amount2: Option<u128>,
)
    requires
        spec_withdraw(c, s, u, t, amount) is Ok,
        t > deposit_end(c),
        t2 > deposit_end(c),
    ensures
        spec_withdraw(c, s, u, t, amount)->Ok_0.user_info.withdrawal_flag,
        spec_withdraw(c, s2, spec_withdraw(c, s, u, t, amount)->Ok_0.user_info, t2, amount2) is Err,
{
}

/// The mark of the one withdrawal after the deposit window stays: a deposit or
/// a claim keeps it, so over any run of requests a user withdraws at most once
/// after the deposit window.
pub proof fn law_withdrawal_mark_persists(
    c: Config,
    s: State,
    u: UserInfo,
    t: int,
    funds: Seq<Coin>,
    amount: Option<u128>,
)
    requires
        u.withdrawal_flag,
    ensures
        spec_deposit(c, s, u, t, funds) is Ok ==> spec_deposit(
            c,
            s,
            u,
            t,
            funds,
        )->Ok_0.user_info.withdrawal_flag,
        spec_claim(c, s, u) is Ok ==> spec_claim(c, s, u)->Ok_0.user_info.withdrawal_flag,
        spec_withdraw(c, s, u, t, amount) is Ok ==> spec_withdraw(
            c,
            s,
            u,
            t,
            amount,
        )->Ok_0.user_info.withdrawal_flag,
{
}

/// A user claims at most once: the claim marks the record, and a marked
/// record is refused.
pub proof fn law_claim_at_most_once(c: Config, s: State, u: UserInfo, c2: Config, s2: State)
    requires
        spec_claim(c, s, u) is Ok,
    ensures
        spec_claim(c, s, u)->Ok_0.user_info.lockdrop_claimed,
        spec_claim(c2, s2, spec_claim(c, s, u)->Ok_0.user_info) == Err::<Claim, ErrorView>(
            ErrorView::LockdropAlreadyClaimed,
        ),
{
}

/// Claims are enabled at most once.
pub proof fn law_claims_enabled_once(
    c: Config,
    s: State,
    funds: Seq<Coin>,
    t: int,
    funds2: Seq<Coin>,
    t2: int,
)
    requires
        spec_enable_claims(c, s, funds, t) is Ok,
    ensures
        spec_enable_claims(c, s, funds, t)->Ok_0.are_claims_allowed,
        spec_enable_claims(c, spec_enable_claims(c, s, funds, t)->Ok_0, funds2, t2) is Err,
{
}

/// Once claims are enabled, no later deposit, withdrawal or addition of
/// incentives is accepted, so the locks and the incentives no longer change.
pub proof fn law_closed_once_claims_enabled(
    c: Config,
    s: State,
    funds: Seq<Coin>,
    t: int,
    t2: int,
    s2: State,
    u2: UserInfo,
    funds2: Seq<Coin>,
    amount2: Option<u128>,
    sender: Seq<char>,
    incentives2: u128,
)
    requires
        spec_enable_claims(c, s, funds, t) is Ok,
        t <= t2,
    ensures
        spec_deposit(c, s2, u2, t2, funds2) is Err,
        spec_withdraw(c, s2, u2, t2, amount2) is Err,
        spec_increase_incentives(c, sender, t2, incentives2) is Err,
{
}

/// During the deposit window, withdrawing what was just deposited gives back
/// the records as they were before the deposit.
pub proof fn law_withdraw_undoes_deposit(c: Config, s: State, u: UserInfo, t: int, funds: Seq<Coin>)
    requires
        c.init_timestamp <= t <= deposit_end(c),
        spec_deposit(c, s, u, t, funds) is Ok,
        deposit_accepted(c, t, funds) ==> {
            &&& s.total_native_locked + funds[0].amount <= u128::MAX
            &&& u.total_native_locked + funds[0].amount <= u128::MAX
        },
    ensures
        ({
            let d = spec_deposit(c, s, u, t, funds)->Ok_0;
            spec_withdraw(c, d.state, d.user_info, t, Some(d.amount)) == Ok::<
                Withdrawal,
                ErrorView,
            >(Withdrawal { state: s, user_info: u, amount: d.amount })
        }),
{
    let d = spec_deposit(c, s, u, t, funds)->Ok_0;
    let x = d.user_info.total_native_locked as int;
    let f = DECIMAL_FRACTIONAL as int;
    assert(x * f / f == x) by (nonlinear_arith)
        requires
            f > 0,
    ;
    assert(max_withdrawal(x, t, c) == x);
}

/// Only the owner can take the proceeds, and never before the lockdrop has
/// started or while withdrawals are open.
pub proof fn law_only_owner_takes_proceeds_after_windows(
    c: Config,
    funds: Seq<Coin>,
    sender: Seq<char>,
    sender_is_owner: bool,
    recipient: Option<Seq<char>>,
    t: int,
)
    ensures
        spec_withdraw_proceeds(c, funds, sender, sender_is_owner, recipient, t) is Ok ==> {
            &&& sender_is_owner
            &&& c.init_timestamp <= t
            &&& !withdraw_open(t, c)
        },
{
}

} // verus!
