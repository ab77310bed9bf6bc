//! The records: registry, escrow, their status and errors, and what each
//! operation reads.
use vstd::prelude::*;
use crate::identity::Identity;

verus! {

/// Lifecycle of a battle escrow.
#[derive(Clone, Copy, Debug, PartialEq, Eq, Structural)]
pub enum BattleStatus {
    WaitingForPlayers,
    ReadyToStart,
    /// Reserved for gameplay signalled by the host; no operation here sets it.
    InProgress,
    Completed,
    PaidOut,
}

impl BattleStatus {
    /// Position in the lifecycle. Successful operations never lower it.
    pub open spec fn rank(self) -> nat {
        match self {
            BattleStatus::WaitingForPlayers => 0,
            BattleStatus::ReadyToStart => 1,
            BattleStatus::InProgress => 2,
            BattleStatus::Completed => 3,
            BattleStatus::PaidOut => 4,
        }
    }
}

/// Why an operation was rejected. A rejected operation changes nothing.
#[derive(Clone, Copy, Debug, PartialEq, Eq, Structural)]
pub enum ErrorCode {
    /// `join` on an escrow that is not waiting for players.
    BattleNotJoinable,
    /// `join` on an escrow that already holds its maximum of participants.
    BattleFull,
    /// `complete` or `payout` called by someone other than the operator.
    UnauthorizedDev,
    /// `payout` on an escrow that is not completed.
    BattleNotCompleted,
    /// `payout` on an escrow with no recorded winner.
    NoWinner,
    /// `payout` to a destination that the recorded winner does not own.
    InvalidWinner,
    /// `complete` on an escrow that already has a winner or is paid out.
    BattleAlreadySettled,
}

/// The pool registry: one per program, owner of the custodial funds.
#[derive(Clone, Copy, Debug, PartialEq, Eq)]
pub struct BattlePool {
    /// The operator, who alone may complete battles and trigger payouts.
    pub dev_wallet: Identity,
    /// Sum of all entry fees ever received, across all battles.
    pub total_deposited: u64,
    /// Sum of the deposits of all battles paid out.
    pub total_paid_out: u64,
    /// Derivation witness that lets the registry sign for the pool's funds.
    pub bump: u8,
}

/// One battle's escrow record.
#[derive(Clone, Debug, PartialEq, Eq)]
pub struct BattleDeposit {
    pub battle_id: String,
    pub creator: Identity,
    pub entry_fee: u64,
    pub max_participants: u8,
    pub current_participants: u8,
    pub total_deposited: u64,
    pub status: BattleStatus,
    pub winner: Option<Identity>,
    /// Derivation witness of this escrow's record.
    pub bump: u8,
}

impl BattleDeposit {
    /// The escrow's invariant: its deposit is exactly one entry fee per
    /// participant, and it never holds more participants than its capacity.
    pub open spec fn wf(&self) -> bool {
        &&& self.total_deposited as int == self.current_participants as int * self.entry_fee as int
        &&& self.current_participants <= self.max_participants
    }
}

/// What `initialize` reads besides its argument: the registry's derivation witness.
pub struct Initialize {
    pub bump: u8,
}

/// What `create_battle_deposit` reads: who opens the battle, and the
/// derivation witness of the new escrow.
pub struct CreateBattleDeposit {
    pub creator: Identity,
    pub bump: u8,
}

/// The records that a join reads and updates.
pub struct JoinBattle {
    pub battle_deposit: BattleDeposit,
    pub battle_pool: BattlePool,
}

/// The records that `complete_battle` reads and updates, and its caller.
pub struct CompleteBattle {
    pub battle_deposit: BattleDeposit,
    pub battle_pool: BattlePool,
    /// The identity that signed the call.
    pub dev_wallet: Identity,
}

/// The records that a payout reads and updates, its caller, and the owner of
/// the account that is to receive the winner's share.
pub struct PayoutWinner {
    pub battle_deposit: BattleDeposit,
    pub battle_pool: BattlePool,
    /// Owner of the destination account of the winner's share.
    pub winner_token_account_owner: Identity,
    /// The identity that signed the call.
    pub dev_wallet: Identity,
}

/// How a payout splits an escrow's deposit.
#[derive(Clone, Copy, Debug, PartialEq, Eq, Structural)]
pub struct PayoutSplit {
    /// Moved from the pool to the winner's destination account.
    pub winner_payout: u64,
    /// Moved from the pool to the operator's destination account.
    pub dev_fee: u64,
}

} // verus!
