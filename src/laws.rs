//! Laws of a single escrow across operations.
use vstd::prelude::*;
use crate::battle::{
    complete_error, completed_deposit, join_error, join_fits, joined_deposit, paid_out_deposit,
    paid_out_pool, payout_error,
};
use crate::identity::Identity;
use crate::state::{BattleDeposit, BattlePool, BattleStatus, ErrorCode};

verus! {

/// An escrow's status only moves forward: a successful join leaves it
/// waiting or makes it ready to start, a successful completion moves it to
/// completed from a status short of paid out, and a successful payout moves
/// completed to paid out. Paid out is terminal: no join, completion or
/// payout succeeds against a paid-out escrow.
pub proof fn lemma_status_moves_forward(
    d: BattleDeposit,
    p: BattlePool,
    caller: Identity,
    winner_owner: Identity,
    winner: Identity,
)
    ensures
        join_error(d) is None ==> {
            &&& d.status == BattleStatus::WaitingForPlayers
            &&& joined_deposit(d).status == BattleStatus::WaitingForPlayers
                || joined_deposit(d).status == BattleStatus::ReadyToStart
            &&& joined_deposit(d).status.rank() >= d.status.rank()
        },
        complete_error(d, p, caller) is None ==> {
            &&& d.status != BattleStatus::PaidOut
            &&& completed_deposit(d, winner).status == BattleStatus::Completed
            &&& completed_deposit(d, winner).status.rank() >= d.status.rank()
        },
        payout_error(d, p, caller, winner_owner) is None ==> {
            &&& d.status == BattleStatus::Completed
            &&& paid_out_deposit(d).status == BattleStatus::PaidOut
            &&& paid_out_deposit(d).status.rank() > d.status.rank()
        },
        d.status == BattleStatus::PaidOut ==> {
            &&& join_error(d) == Some(ErrorCode::BattleNotJoinable)
            &&& complete_error(d, p, caller) is Some
            &&& payout_error(d, p, caller, winner_owner) is Some
        },
{
}

/// Once an escrow has a winner, no operation changes it: completing fails,
/// and joining and paying out keep the winner as it is.
pub proof fn lemma_winner_fixed_once_set(
    d: BattleDeposit,
    p: BattlePool,
    caller: Identity,
    winner: Identity,
)
    requires
        d.winner is Some,
    ensures
        complete_error(d, p, caller) is Some,
        joined_deposit(d).winner == d.winner,
        paid_out_deposit(d).winner == d.winner,
{
}

/// A successful join keeps the escrow's invariant: one more participant, one
/// more entry fee, never past capacity, and ready to start exactly when full.
pub proof fn lemma_join_keeps_escrow_invariant(d: BattleDeposit, p: BattlePool)
    requires
        d.wf(),
        join_error(d) is None,
        join_fits(d, p),
    ensures
        joined_deposit(d).wf(),
        joined_deposit(d).current_participants == d.current_participants + 1,
        joined_deposit(d).total_deposited == d.total_deposited + d.entry_fee,
        joined_deposit(d).entry_fee == d.entry_fee,
        joined_deposit(d).max_participants == d.max_participants,
        (joined_deposit(d).status == BattleStatus::ReadyToStart) <==> (
        joined_deposit(d).current_participants == joined_deposit(d).max_participants),
{
    let c = d.current_participants as int;
    let f = d.entry_fee as int;
    assert((c + 1) * f == c * f + f) by (nonlinear_arith);
}

/// A payout happens at most once: after one succeeds, every further payout
/// of the same escrow fails, and for the operator it fails with
/// `BattleNotCompleted`.
pub proof fn lemma_payout_at_most_once(
    d: BattleDeposit,
    p: BattlePool,
    caller: Identity,
    winner_owner: Identity,
    next_caller: Identity,
    next_winner_owner: Identity,
)
    requires
        payout_error(d, p, caller, winner_owner) is None,
    ensures
        payout_error(paid_out_deposit(d), paid_out_pool(p, d), next_caller, next_winner_owner) is Some,
        next_caller@ == p.dev_wallet@ ==> payout_error(
            paid_out_deposit(d),
            paid_out_pool(p, d),
            next_caller,
            next_winner_owner,
        ) == Some(ErrorCode::BattleNotCompleted),
{
}

} // verus!
