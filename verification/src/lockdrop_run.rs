//! The lockdrop over a whole run of requests.
//!
//! A `Ledger` holds every stored record: the configuration, the global state
//! and one record per address. A request that is refused, or on which the
//! arithmetic would overflow (the contract aborts the transaction then), leaves
//! the records as they were; an accepted one stores what the request functions
//! of `lockdrop` give. Over any run started from a fresh lockdrop, the global
//! total stays the sum of the users' locks and the incentives paid out never
//! exceed the incentives.

use vstd::prelude::*;
use crate::lockdrop::{
    Coin, Config, State, UserInfo, claim_accepted, deposit_accepted, deposit_end, empty_user,
    incentive_share, incentives_computable, initial_state, percent_computable,
    requested_withdrawal, spec_claim, spec_deposit, spec_enable_claims, spec_increase_incentives,
    spec_withdraw, withdraw_accepted, withdraw_open, withdrawal_end,
};
use crate::lockdrop_laws::{
    law_deposit_keeps_total_consistent, law_shares_within_incentives,
    law_withdraw_keeps_total_consistent, lemma_lock_within_total, lemma_total_locked_update,
    total_locked, total_shares,
};
use crate::math::{lemma_mul_div_le, mul_div_floor};

verus! {

/// Every stored record of the lockdrop, with the incentives paid out so far
/// and the time of the last request.
pub struct Ledger {
    pub config: Config,
    pub state: State,
    /// One record per address; an address that never deposited has the empty record.
    pub users: Seq<UserInfo>,
    /// The incentive tokens sent out by claims so far.
    pub paid: int,
    /// The block time of the last request.
    pub now: int,
}

/// A request to the lockdrop, by the address at index `user` where it names one.
pub enum Request {
    Deposit { user: int, funds: Seq<Coin> },
    Withdraw { user: int, amount: Option<u128> },
    IncreaseIncentives { sender: Seq<char>, amount: u128 },
    EnableClaims { funds: Seq<Coin> },
    Claim { user: int },
}

/// The effect of one request at time `t` on the records.
pub open spec fn step(l: Ledger, r: Request, t: int) -> Ledger {
    let c = l.config;
    let s = l.state;
    let next = match r {
        Request::Deposit { user, funds } => {
            if 0 <= user < l.users.len() && deposit_end(c) <= u64::MAX && (deposit_accepted(
                c,
                t,
                funds,
            ) ==> s.total_native_locked + funds[0].amount <= u128::MAX) {
                match spec_deposit(c, s, l.users[user], t, funds) {
                    Ok(d) => Ledger {
                        state: d.state,
                        users: l.users.update(user, d.user_info),
                        ..l
                    },
                    Err(_) => l,
                }
            } else {
                l
            }
        },
        Request::Withdraw { user, amount } => {
            if 0 <= user < l.users.len() && withdrawal_end(c) <= u64::MAX && (withdraw_open(t, c)
                ==> percent_computable(t, c)) && (withdraw_accepted(c, l.users[user], t, amount)
                ==> requested_withdrawal(l.users[user], t, c, amount) <= s.total_native_locked) {
                match spec_withdraw(c, s, l.users[user], t, amount) {
                    Ok(w) => Ledger {
                        state: w.state,
                        users: l.users.update(user, w.user_info),
                        ..l
                    },
                    Err(_) => l,
                }
            } else {
                l
            }
        },
        Request::IncreaseIncentives { sender, amount } => {
            if incentives_computable(c, sender, t, amount) {
                match spec_increase_incentives(c, sender, t, amount) {
                    Ok(c2) => Ledger { config: c2, ..l },
                    Err(_) => l,
                }
            } else {
                l
            }
        },
        Request::EnableClaims { funds } => {
            if funds.len() == 0 ==> withdrawal_end(c) <= u64::MAX {
                match spec_enable_claims(c, s, funds, t) {
                    Ok(s2) => Ledger { state: s2, ..l },
                    Err(_) => l,
                }
            } else {
                l
            }
        },
        Request::Claim { user } => {
            if 0 <= user < l.users.len() && (claim_accepted(s, l.users[user]) ==> {
                &&& s.total_native_locked > 0
                &&& incentive_share(c, s, l.users[user]) <= u128::MAX
                &&& l.users[user].delegated_incentives <= incentive_share(c, s, l.users[user])
            }) {
                match spec_claim(c, s, l.users[user]) {
                    Ok(cl) => Ledger {
                        users: l.users.update(user, cl.user_info),
                        paid: l.paid + cl.amount,
                        ..l
                    },
                    Err(_) => l,
                }
            } else {
                l
            }
        },
    };
    Ledger { now: t, ..next }
}

/// The records after a run of requests, each with its block time.
pub open spec fn run(l: Ledger, requests: Seq<(Request, int)>) -> Ledger
    decreases requests.len(),
{
    if requests.len() == 0 {
        l
    } else {
        step(run(l, requests.drop_last()), requests.last().0, requests.last().1)
    }
}

/// A fresh lockdrop: nothing locked, claims not enabled, no address on
/// record, nothing paid.
pub open spec fn fresh(l: Ledger) -> bool {
    &&& l.state == initial_state()
    &&& forall|i: int| 0 <= i < l.users.len() ==> #[trigger] l.users[i] == empty_user()
    &&& l.paid == 0
}

/// The block times of a run never go back.
pub open spec fn times_ordered(l: Ledger, requests: Seq<(Request, int)>) -> bool {
    &&& forall|i: int| 0 <= i < requests.len() ==> l.now <= #[trigger] requests[i].1
    &&& forall|i: int, j: int|
        0 <= i < j < requests.len() ==> #[trigger] requests[i].1 <= #[trigger] requests[j].1
}

/// The shares of the users who have claimed, added up.
pub open spec fn claimed_shares(incentives: int, users: Seq<UserInfo>, total: int) -> int
    decreases users.len(),
{
    if users.len() == 0 {
        0
    } else {
        claimed_shares(incentives, users.drop_last(), total) + if users.last().lockdrop_claimed {
            mul_div_floor(incentives, users.last().total_native_locked as int, total)
        } else {
            0
        }
    }
}

/// What every reachable ledger satisfies.
pub open spec fn consistent(l: Ledger) -> bool {
    &&& l.state.total_native_locked == total_locked(l.users)
    &&& forall|i: int|
        0 <= i < l.users.len() ==> (#[trigger] l.users[i]).delegated_incentives == 0
    &&& forall|i: int|
        0 <= i < l.users.len() ==> (#[trigger] l.users[i]).lockdrop_claimed
            ==> l.users[i].total_native_locked > 0
    &&& !l.state.are_claims_allowed ==> forall|i: int|
        0 <= i < l.users.len() ==> !(#[trigger] l.users[i]).lockdrop_claimed
    &&& l.state.are_claims_allowed ==> l.now > withdrawal_end(l.config)
    &&& l.paid == claimed_shares(
        l.config.lockdrop_incentives as int,
        l.users,
        l.state.total_native_locked as int,
    )
}

/// Where nobody has claimed, nothing is counted as claimed.
proof fn lemma_no_claims(incentives: int, users: Seq<UserInfo>, total: int)
    requires
        forall|i: int| 0 <= i < users.len() ==> !(#[trigger] users[i]).lockdrop_claimed,
    ensures
        claimed_shares(incentives, users, total) == 0,
    decreases users.len(),
{
    if users.len() > 0 {
        let rest = users.drop_last();
        assert forall|i: int| 0 <= i < rest.len() implies !(
        #[trigger] rest[i]).lockdrop_claimed by {
            assert(rest[i] == users[i]);
        }
        lemma_no_claims(incentives, rest, total);
    }
}

/// Marking an unclaimed user as claimed, lock unchanged, adds that user's
/// share to the claimed shares.
proof fn lemma_claimed_shares_mark(
    incentives: int,
    users: Seq<UserInfo>,
    total: int,
    i: int,
    u: UserInfo,
)
    requires
        0 <= i < users.len(),
        !users[i].lockdrop_claimed,
        u.lockdrop_claimed,
        u.total_native_locked == users[i].total_native_locked,
    ensures
        claimed_shares(incentives, users.update(i, u), total) == claimed_shares(
            incentives,
            users,
            total,
        ) + mul_div_floor(incentives, u.total_native_locked as int, total),
    decreases users.len(),
{
    let updated = users.update(i, u);
    if i == users.len() - 1 {
        assert(updated.drop_last() =~= users.drop_last());
    } else {
        lemma_claimed_shares_mark(incentives, users.drop_last(), total, i, u);
        assert(updated.drop_last() =~= users.drop_last().update(i, u));
    }
}

/// The claimed shares are part of all the shares.
proof fn lemma_claimed_within_shares(incentives: int, users: Seq<UserInfo>, total: int)
    requires
        0 <= incentives,
        0 < total,
    ensures
        claimed_shares(incentives, users, total) <= total_shares(incentives, users, total),
    decreases users.len(),
{
    if users.len() > 0 {
        lemma_claimed_within_shares(incentives, users.drop_last(), total);
        let lock = users.last().total_native_locked as int;
        assert(0 <= incentives * lock) by (nonlinear_arith)
            requires
                0 <= incentives,
                0 <= lock,
        ;
        vstd::arithmetic::div_mod::lemma_div_pos_is_pos(incentives * lock, total);
    }
}

/// Where every lock is zero, nobody has claimed and nothing is counted.
proof fn lemma_empty_total_no_claims(l: Ledger)
    requires
        consistent(l),
        l.state.total_native_locked == 0,
    ensures
        l.paid == 0,
{
    assert forall|i: int| 0 <= i < l.users.len() implies !(
    #[trigger] l.users[i]).lockdrop_claimed by {
        lemma_lock_within_total(l.users, i);
    }
    lemma_no_claims(
        l.config.lockdrop_incentives as int,
        l.users,
        l.state.total_native_locked as int,
    );
}

/// One request keeps a ledger consistent.
proof fn lemma_step_consistent(l: Ledger, r: Request, t: int)
    requires
        consistent(l),
        l.now <= t,
    ensures
        consistent(step(l, r, t)),
{
    let c = l.config;
    let s = l.state;
    let n = step(l, r, t);
    let inc = c.lockdrop_incentives as int;
    let total = s.total_native_locked as int;
    match r {
        Request::Deposit { user, funds } => {
            if n.users != l.users || n.state != s {
                let d = spec_deposit(c, s, l.users[user], t, funds)->Ok_0;
                law_deposit_keeps_total_consistent(c, s, l.users, user, t, funds);
                assert(!s.are_claims_allowed);
                assert forall|i: int| 0 <= i < n.users.len() implies !(
                #[trigger] n.users[i]).lockdrop_claimed by {
                    if i != user {
                        assert(n.users[i] == l.users[i]);
                    }
                }
                lemma_no_claims(inc, n.users, d.state.total_native_locked as int);
                lemma_no_claims(inc, l.users, total);
            }
        },
        Request::Withdraw { user, amount } => {
            if n.users != l.users || n.state != s {
                let w = spec_withdraw(c, s, l.users[user], t, amount)->Ok_0;
                law_withdraw_keeps_total_consistent(c, s, l.users, user, t, amount);
                assert(!s.are_claims_allowed);
                assert forall|i: int| 0 <= i < n.users.len() implies !(
                #[trigger] n.users[i]).lockdrop_claimed by {
                    if i != user {
                        assert(n.users[i] == l.users[i]);
                    }
                }
                lemma_no_claims(inc, n.users, w.state.total_native_locked as int);
                lemma_no_claims(inc, l.users, total);
            }
        },
        Request::IncreaseIncentives { sender, amount } => {
            if n.config != c {
                assert(!s.are_claims_allowed);
                lemma_no_claims(n.config.lockdrop_incentives as int, l.users, total);
                lemma_no_claims(inc, l.users, total);
            }
        },
        Request::EnableClaims { funds } => {
        },
        Request::Claim { user } => {
            if n.users != l.users {
                let u = l.users[user];
                let cl = spec_claim(c, s, u)->Ok_0;
                lemma_total_locked_update(l.users, user, cl.user_info);
                lemma_claimed_shares_mark(inc, l.users, total, user, cl.user_info);
                assert forall|i: int| 0 <= i < n.users.len() implies (
                #[trigger] n.users[i]).delegated_incentives == 0 by {
                    if i != user {
                        assert(n.users[i] == l.users[i]);
                    }
                }
                assert forall|i: int| 0 <= i < n.users.len() implies (
                #[trigger] n.users[i]).lockdrop_claimed ==> n.users[i].total_native_locked
                    > 0 by {
                    if i != user {
                        assert(n.users[i] == l.users[i]);
                    }
                }
            }
        },
    }
}

/// Every ledger reached from a consistent one by a run in time order is consistent.
proof fn lemma_run_consistent(l: Ledger, requests: Seq<(Request, int)>)
    requires
        consistent(l),
        times_ordered(l, requests),
    ensures
        consistent(run(l, requests)),
        requests.len() > 0 ==> run(l, requests).now == requests.last().1,
        requests.len() == 0 ==> run(l, requests).now == l.now,
    decreases requests.len(),
{
    if requests.len() > 0 {
        let prefix = requests.drop_last();
        assert(times_ordered(l, prefix)) by {
            assert forall|i: int, j: int| 0 <= i < j < prefix.len() implies #[trigger] prefix[i].1
                <= #[trigger] prefix[j].1 by {
                assert(prefix[i] == requests[i] && prefix[j] == requests[j]);
            }
            assert forall|i: int| 0 <= i < prefix.len() implies l.now <= #[trigger] prefix[i].1 by {
                assert(prefix[i] == requests[i]);
            }
        }
        lemma_run_consistent(l, prefix);
        let last = requests.len() - 1;
        if prefix.len() > 0 {
            assert(requests[last - 1].1 <= requests[last].1);
        } else {
            assert(l.now <= requests[last].1);
        }
        lemma_step_consistent(run(l, prefix), requests.last().0, requests.last().1);
    }
}

/// Over any run of requests in time order from a fresh lockdrop, the global
/// total stays the sum of the users' locks, and the incentive tokens paid out
/// by all claims together never exceed the incentives.
pub proof fn law_claims_never_exceed_incentives(l: Ledger, requests: Seq<(Request, int)>)
    requires
        fresh(l),
        times_ordered(l, requests),
    ensures
        run(l, requests).state.total_native_locked == total_locked(run(l, requests).users),
        run(l, requests).paid <= run(l, requests).config.lockdrop_incentives,
{
    assert(total_locked(l.users) == 0) by {
        lemma_all_empty_total(l.users);
    }
    lemma_no_claims(l.config.lockdrop_incentives as int, l.users, 0);
    lemma_run_consistent(l, requests);
    let e = run(l, requests);
    if e.state.total_native_locked == 0 {
        lemma_empty_total_no_claims(e);
    } else {
        lemma_claimed_within_shares(
            e.config.lockdrop_incentives as int,
            e.users,
            e.state.total_native_locked as int,
        );
        law_shares_within_incentives(e.config, e.state, e.users);
    }
}

/// Records that are all empty lock nothing.
proof fn lemma_all_empty_total(users: Seq<UserInfo>)
    requires
        forall|i: int| 0 <= i < users.len() ==> #[trigger] users[i] == empty_user(),
    ensures
        total_locked(users) == 0,
    decreases users.len(),
{
    if users.len() > 0 {
        let rest = users.drop_last();
        assert forall|i: int| 0 <= i < rest.len() implies #[trigger] rest[i] == empty_user() by {
            assert(rest[i] == users[i]);
        }
        lemma_all_empty_total(rest);
        assert(users[users.len() - 1] == empty_user());
    }
}

} // verus!
