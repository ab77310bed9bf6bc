//! The registry's aggregate counters, related to the escrows it serves.
use vstd::prelude::*;
use crate::battle::{
    complete_error, completed_deposit, initial_pool, join_error, join_fits, joined_deposit,
    joined_pool, new_deposit, paid_out_deposit, paid_out_pool, payout_error,
};
use crate::identity::Identity;
use crate::state::{BattleDeposit, BattlePool, BattleStatus};

verus! {

/// Sum of the deposits of all escrows in `s`.
pub open spec fn sum_deposited(s: Seq<BattleDeposit>) -> int
    decreases s.len(),
{
    if s.len() == 0 {
        0
    } else {
        sum_deposited(s.drop_last()) + s.last().total_deposited
    }
}

/// Sum of the deposits of the escrows in `s` that are paid out.
pub open spec fn sum_paid_out(s: Seq<BattleDeposit>) -> int
    decreases s.len(),
{
    if s.len() == 0 {
        0
    } else {
        sum_paid_out(s.drop_last()) + if s.last().status == BattleStatus::PaidOut {
            s.last().total_deposited as int
        } else {
            0
        }
    }
}

/// The registry's counters agree with the escrows `s` that it serves: it has
/// received their deposits and paid out exactly those of the paid-out ones.
pub open spec fn registry_consistent(p: BattlePool, s: Seq<BattleDeposit>) -> bool {
    &&& p.total_deposited == sum_deposited(s)
    &&& p.total_paid_out == sum_paid_out(s)
}

proof fn lemma_sum_paid_within(s: Seq<BattleDeposit>)
    ensures
        0 <= sum_paid_out(s) <= sum_deposited(s),
    decreases s.len(),
{
    if s.len() > 0 {
        lemma_sum_paid_within(s.drop_last());
    }
}

proof fn lemma_sums_update(s: Seq<BattleDeposit>, i: int, d: BattleDeposit)
    requires
        0 <= i < s.len(),
    ensures
        sum_deposited(s.update(i, d)) == sum_deposited(s) - s[i].total_deposited
            + d.total_deposited,
        sum_paid_out(s.update(i, d)) == sum_paid_out(s) - (if s[i].status
            == BattleStatus::PaidOut {
            s[i].total_deposited as int
        } else {
            0
        }) + (if d.status == BattleStatus::PaidOut {
            d.total_deposited as int
        } else {
            0
        }),
    decreases s.len(),
{
    let t = s.update(i, d);
    if i == s.len() - 1 {
        assert(t.drop_last() =~= s.drop_last());
    } else {
        assert(t.drop_last() =~= s.drop_last().update(i, d));
        lemma_sums_update(s.drop_last(), i, d);
    }
}

/// A registry just created serves no escrow, and is consistent with none.
pub proof fn lemma_registry_initialize(dev_wallet: Identity, bump: u8)
    ensures
        registry_consistent(initial_pool(dev_wallet, bump), Seq::<BattleDeposit>::empty()),
{
}

/// Opening an escrow keeps the registry consistent with the escrows it serves.
pub proof fn lemma_registry_create(
    p: BattlePool,
    s: Seq<BattleDeposit>,
    creator: Identity,
    bump: u8,
    battle_id: String,
    entry_fee: u64,
    max_participants: u8,
)
    requires
        registry_consistent(p, s),
    ensures
        registry_consistent(
            p,
            s.push(new_deposit(creator, bump, battle_id, entry_fee, max_participants)),
        ),
{
    let t = s.push(new_deposit(creator, bump, battle_id, entry_fee, max_participants));
    assert(t.drop_last() =~= s);
}

/// A successful join to the escrow at `i` keeps the registry consistent.
pub proof fn lemma_registry_join(p: BattlePool, s: Seq<BattleDeposit>, i: int)
    requires
        registry_consistent(p, s),
        0 <= i < s.len(),
        join_error(s[i]) is None,
        join_fits(s[i], p),
    ensures
        registry_consistent(joined_pool(p, s[i]), s.update(i, joined_deposit(s[i]))),
{
    lemma_sums_update(s, i, joined_deposit(s[i]));
}

/// A successful completion of the escrow at `i` keeps the registry consistent.
pub proof fn lemma_registry_complete(
    p: BattlePool,
    s: Seq<BattleDeposit>,
    i: int,
    caller: Identity,
    winner: Identity,
)
    requires
        registry_consistent(p, s),
        0 <= i < s.len(),
        complete_error(s[i], p, caller) is None,
    ensures
        registry_consistent(p, s.update(i, completed_deposit(s[i], winner))),
{
    lemma_sums_update(s, i, completed_deposit(s[i], winner));
}

/// A successful payout of the escrow at `i` keeps the registry consistent;
/// its new payout total still fits, being within the deposits received.
pub proof fn lemma_registry_payout(
    p: BattlePool,
    s: Seq<BattleDeposit>,
    i: int,
    caller: Identity,
    winner_owner: Identity,
)
    requires
        registry_consistent(p, s),
        0 <= i < s.len(),
        payout_error(s[i], p, caller, winner_owner) is None,
    ensures
        p.total_paid_out + s[i].total_deposited <= p.total_deposited,
        registry_consistent(paid_out_pool(p, s[i]), s.update(i, paid_out_deposit(s[i]))),
{
    let t = s.update(i, paid_out_deposit(s[i]));
    lemma_sums_update(s, i, paid_out_deposit(s[i]));
    lemma_sum_paid_within(t);
}

/// A consistent registry never has paid out more than it received.
pub proof fn lemma_registry_paid_within_deposited(p: BattlePool, s: Seq<BattleDeposit>)
    requires
        registry_consistent(p, s),
    ensures
        p.total_paid_out <= p.total_deposited,
{
    lemma_sum_paid_within(s);
}

} // verus!
