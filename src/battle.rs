//! The operations on the registry and on battle escrows, with the spec
//! functions that their contracts are stated over.
use vstd::prelude::*;
use crate::identity::Identity;
use crate::state::{
    BattleDeposit, BattlePool, BattleStatus, CompleteBattle, CreateBattleDeposit, ErrorCode,
    Initialize, JoinBattle, PayoutSplit, PayoutWinner,
};

verus! {

/// The registry as `initialize` creates it.
pub open spec fn initial_pool(dev_wallet: Identity, bump: u8) -> BattlePool {
    BattlePool { dev_wallet, total_deposited: 0, total_paid_out: 0, bump }
}

/// Creates the registry with the given operator and zeroed counters. That it
/// is created only once is the record store's create-once rule.
pub fn initialize(accounts: &Initialize, dev_wallet: Identity) -> (r: BattlePool)
    ensures
        r == initial_pool(dev_wallet, accounts.bump),
{
    BattlePool { dev_wallet, total_deposited: 0, total_paid_out: 0, bump: accounts.bump }
}

/// The escrow as `create_battle_deposit` opens it.
pub open spec fn new_deposit(
    creator: Identity,
    bump: u8,
    battle_id: String,
    entry_fee: u64,
    max_participants: u8,
) -> BattleDeposit {
    BattleDeposit {
        battle_id,
        creator,
        entry_fee,
        max_participants,
        current_participants: 0,
        total_deposited: 0,
        status: BattleStatus::WaitingForPlayers,
        winner: None,
        bump,
    }
}

/// Opens an escrow: no participants, nothing deposited, waiting for players,
/// no winner. Fee and capacity are taken as given, zero included.
pub fn create_battle_deposit(
    accounts: &CreateBattleDeposit,
    battle_id: String,
    entry_fee: u64,
    max_participants: u8,
) -> (r: BattleDeposit)
    ensures
        r == new_deposit(accounts.creator, accounts.bump, battle_id, entry_fee, max_participants),
        r.wf(),
{
    BattleDeposit {
        battle_id,
        creator: accounts.creator,
        entry_fee,
        max_participants,
        current_participants: 0,
        total_deposited: 0,
        status: BattleStatus::WaitingForPlayers,
        winner: None,
        bump: accounts.bump,
    }
}

/// The error that a join meets, checked in this order, if any.
pub open spec fn join_error(d: BattleDeposit) -> Option<ErrorCode> {
    if d.status != BattleStatus::WaitingForPlayers {
        Some(ErrorCode::BattleNotJoinable)
    } else if d.current_participants >= d.max_participants {
        Some(ErrorCode::BattleFull)
    } else {
        None
    }
}

/// Whether the counters that a join raises stay within `u64`.
pub open spec fn join_fits(d: BattleDeposit, p: BattlePool) -> bool {
    &&& d.total_deposited + d.entry_fee <= u64::MAX
    &&& p.total_deposited + d.entry_fee <= u64::MAX
}

/// The escrow after a successful join: one more participant, one more fee,
/// and ready to start once full.
pub open spec fn joined_deposit(d: BattleDeposit) -> BattleDeposit {
    let n = (d.current_participants + 1) as u8;
    BattleDeposit {
        current_participants: n,
        total_deposited: (d.total_deposited + d.entry_fee) as u64,
        status: if n >= d.max_participants {
            BattleStatus::ReadyToStart
        } else {
            d.status
        },
        ..d
    }
}

/// The registry after a successful join to `d`.
pub open spec fn joined_pool(p: BattlePool, d: BattleDeposit) -> BattlePool {
    BattlePool { total_deposited: (p.total_deposited + d.entry_fee) as u64, ..p }
}

/// Decides a join: whether it is admitted, and the amount, the entry fee,
/// that the host moves from the participant to the pool before the join is
/// recorded by `join_battle`.
pub fn plan_join(accounts: &JoinBattle) -> (r: Result<u64, ErrorCode>)
    ensures
        r == match join_error(accounts.battle_deposit) {
            Some(e) => Err(e),
            None => Ok(accounts.battle_deposit.entry_fee),
        },
{
    if accounts.battle_deposit.status != BattleStatus::WaitingForPlayers {
        return Err(ErrorCode::BattleNotJoinable);
    }
    if accounts.battle_deposit.current_participants >= accounts.battle_deposit.max_participants {
        return Err(ErrorCode::BattleFull);
    }
    Ok(accounts.battle_deposit.entry_fee)
}

/// Records a join: checks as `plan_join` does, then counts the participant
/// and the fee in the escrow and in the registry.
pub fn join_battle(accounts: &mut JoinBattle) -> (r: Result<(), ErrorCode>)
    requires
        join_error(old(accounts).battle_deposit) is None ==> join_fits(
            old(accounts).battle_deposit,
            old(accounts).battle_pool,
        ),
    ensures
        match join_error(old(accounts).battle_deposit) {
            Some(e) => r == Err::<(), ErrorCode>(e) && *final(accounts) == *old(accounts),
            None => {
                &&& r == Ok::<(), ErrorCode>(())
                &&& final(accounts).battle_deposit == joined_deposit(old(accounts).battle_deposit)
                &&& final(accounts).battle_pool == joined_pool(
                    old(accounts).battle_pool,
                    old(accounts).battle_deposit,
                )
            },
        },
        old(accounts).battle_deposit.wf() ==> final(accounts).battle_deposit.wf(),
{
    let fee = match plan_join(accounts) {
        Err(e) => return Err(e),
        Ok(fee) => fee,
    };
    proof {
        let c = accounts.battle_deposit.current_participants as int;
        let f = fee as int;
        assert((c + 1) * f == c * f + f) by (nonlinear_arith);
    }
    accounts.battle_deposit.current_participants = accounts.battle_deposit.current_participants + 1;
    accounts.battle_deposit.total_deposited = accounts.battle_deposit.total_deposited + fee;
    accounts.battle_pool.total_deposited = accounts.battle_pool.total_deposited + fee;
    if accounts.battle_deposit.current_participants >= accounts.battle_deposit.max_participants {
        accounts.battle_deposit.status = BattleStatus::ReadyToStart;
    }
    Ok(())
}

/// The escrow after `complete_battle` names `winner`.
pub open spec fn completed_deposit(d: BattleDeposit, winner: Identity) -> BattleDeposit {
    BattleDeposit { winner: Some(winner), status: BattleStatus::Completed, ..d }
}

/// The error that completing meets, checked in this order, if any. An
/// escrow is settled once a winner is named: a paid-out or completed escrow
/// cannot be completed again.
pub open spec fn complete_error(d: BattleDeposit, p: BattlePool, caller: Identity) -> Option<
    ErrorCode,
> {
    if caller@ != p.dev_wallet@ {
        Some(ErrorCode::UnauthorizedDev)
    } else if d.status == BattleStatus::PaidOut || d.winner is Some {
        Some(ErrorCode::BattleAlreadySettled)
    } else {
        None
    }
}

/// Declares the winner. Only the operator may, and only once. Whether the
/// battle filled is not examined, so a battle that never filled can be
/// completed too.
pub fn complete_battle(
    accounts: &mut CompleteBattle,
    winner: Identity,
) -> (r: Result<(), ErrorCode>)
    ensures
        match complete_error(
            old(accounts).battle_deposit,
            old(accounts).battle_pool,
            old(accounts).dev_wallet,
        ) {
            Some(e) => r == Err::<(), ErrorCode>(e) && *final(accounts) == *old(accounts),
            None => {
                &&& r == Ok::<(), ErrorCode>(())
                &&& final(accounts).battle_deposit == completed_deposit(
                    old(accounts).battle_deposit,
                    winner,
                )
                &&& final(accounts).battle_pool == old(accounts).battle_pool
                &&& final(accounts).dev_wallet == old(accounts).dev_wallet
            },
        },
        old(accounts).battle_deposit.wf() ==> final(accounts).battle_deposit.wf(),
{
    if !accounts.dev_wallet.same(&accounts.battle_pool.dev_wallet) {
        return Err(ErrorCode::UnauthorizedDev);
    }
    if accounts.battle_deposit.status == BattleStatus::PaidOut
        || accounts.battle_deposit.winner.is_some() {
        return Err(ErrorCode::BattleAlreadySettled);
    }
    accounts.battle_deposit.winner = Some(winner);
    accounts.battle_deposit.status = BattleStatus::Completed;
    Ok(())
}

/// The operator's fee on a prize: five percent, rounded down.
pub open spec fn dev_fee_of(total_prize: int) -> int {
    total_prize * 5 / 100
}

/// The split of a prize: the fee to the operator, the rest to the winner, so
/// that rounding favours the winner.
pub open spec fn prize_split(total_prize: u64) -> PayoutSplit {
    PayoutSplit {
        winner_payout: (total_prize - dev_fee_of(total_prize as int)) as u64,
        dev_fee: dev_fee_of(total_prize as int) as u64,
    }
}

/// The error that a payout meets, checked in this order, if any.
pub open spec fn payout_error(
    deposit: BattleDeposit,
    pool: BattlePool,
    caller: Identity,
    winner_owner: Identity,
) -> Option<ErrorCode> {
    if caller@ != pool.dev_wallet@ {
        Some(ErrorCode::UnauthorizedDev)
    } else if deposit.status != BattleStatus::Completed {
        Some(ErrorCode::BattleNotCompleted)
    } else {
        match deposit.winner {
            None => Some(ErrorCode::NoWinner),
            Some(w) => if winner_owner@ != w@ {
                Some(ErrorCode::InvalidWinner)
            } else {
                None
            },
        }
    }
}

/// The escrow after a successful payout.
pub open spec fn paid_out_deposit(d: BattleDeposit) -> BattleDeposit {
    BattleDeposit { status: BattleStatus::PaidOut, ..d }
}

/// The registry after a successful payout of `d`.
pub open spec fn paid_out_pool(p: BattlePool, d: BattleDeposit) -> BattlePool {
    BattlePool { total_paid_out: (p.total_paid_out + d.total_deposited) as u64, ..p }
}

/// Splits a prize into the winner's share and the operator's fee.
pub fn split_prize(total_prize: u64) -> (r: PayoutSplit)
    ensures
        r == prize_split(total_prize),
        r.dev_fee == total_prize as int * 5 / 100,
        r.dev_fee + r.winner_payout == total_prize,
{
    let dev_fee = ((total_prize as u128) * 5 / 100) as u64;
    let winner_payout = total_prize - dev_fee;
    PayoutSplit { winner_payout, dev_fee }
}

/// Decides a payout: whether it may happen, and how much goes to the winner
/// and to the operator. The host makes both transfers, from the pool under
/// its derived authority, before the new state is recorded by `payout_winner`.
pub fn plan_payout(accounts: &PayoutWinner) -> (r: Result<PayoutSplit, ErrorCode>)
    ensures
        r == match payout_error(
            accounts.battle_deposit,
            accounts.battle_pool,
            accounts.dev_wallet,
            accounts.winner_token_account_owner,
        ) {
            Some(e) => Err(e),
            None => Ok(prize_split(accounts.battle_deposit.total_deposited)),
        },
{
    if !accounts.dev_wallet.same(&accounts.battle_pool.dev_wallet) {
        return Err(ErrorCode::UnauthorizedDev);
    }
    if accounts.battle_deposit.status != BattleStatus::Completed {
        return Err(ErrorCode::BattleNotCompleted);
    }
    match &accounts.battle_deposit.winner {
        None => Err(ErrorCode::NoWinner),
        Some(w) => {
            if !accounts.winner_token_account_owner.same(w) {
                Err(ErrorCode::InvalidWinner)
            } else {
                Ok(split_prize(accounts.battle_deposit.total_deposited))
            }
        },
    }
}

/// Pays out a completed battle: checks as `plan_payout` does, then marks the
/// escrow paid out and adds its whole deposit to the registry's payouts.
/// Returns the split that the host transfers.
pub fn payout_winner(accounts: &mut PayoutWinner) -> (r: Result<PayoutSplit, ErrorCode>)
    requires
        payout_error(
            old(accounts).battle_deposit,
            old(accounts).battle_pool,
            old(accounts).dev_wallet,
            old(accounts).winner_token_account_owner,
        ) is None ==> old(accounts).battle_pool.total_paid_out
            + old(accounts).battle_deposit.total_deposited <= u64::MAX,
    ensures
        match payout_error(
            old(accounts).battle_deposit,
            old(accounts).battle_pool,
            old(accounts).dev_wallet,
            old(accounts).winner_token_account_owner,
        ) {
            Some(e) => r == Err::<PayoutSplit, ErrorCode>(e) && *final(accounts) == *old(accounts),
            None => {
                &&& r == Ok::<PayoutSplit, ErrorCode>(
                    prize_split(old(accounts).battle_deposit.total_deposited),
                )
                &&& final(accounts).battle_deposit == paid_out_deposit(old(accounts).battle_deposit)
                &&& final(accounts).battle_pool == paid_out_pool(
                    old(accounts).battle_pool,
                    old(accounts).battle_deposit,
                )
                &&& final(accounts).dev_wallet == old(accounts).dev_wallet
                &&& final(accounts).winner_token_account_owner
                    == old(accounts).winner_token_account_owner
            },
        },
        old(accounts).battle_deposit.wf() ==> final(accounts).battle_deposit.wf(),
{
    let split = match plan_payout(accounts) {
        Err(e) => return Err(e),
        Ok(s) => s,
    };
    let total_prize = accounts.battle_deposit.total_deposited;
    accounts.battle_deposit.status = BattleStatus::PaidOut;
    accounts.battle_pool.total_paid_out = accounts.battle_pool.total_paid_out + total_prize;
    Ok(split)
}

} // verus!
