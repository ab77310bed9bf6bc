//! Escrow and settlement state machine for multiplayer wager battles.
//!
//! Participants deposit a fixed entry fee into a shared pool, an operator
//! declares a winner, and the pool is split between the winner and an
//! operator fee. Fund movement itself belongs to the host ledger: this crate
//! decides whether a transfer happens, how much moves, and to whom.
//!
//! Where funds move, an operation has two steps. `plan_join` and
//! `plan_payout` check the operation and give the amounts; the host makes the
//! transfers; only then do `join_battle` and `payout_winner` record the new
//! state, so a failed transfer leaves every counter as it was.
pub mod battle;
pub mod identity;
pub mod laws;
pub mod registry;
pub mod state;

pub use battle::{
    complete_battle, create_battle_deposit, initialize, join_battle, payout_winner, plan_join,
    plan_payout, split_prize,
};
pub use identity::Identity;
pub use state::{
    BattleDeposit, BattlePool, BattleStatus, CompleteBattle, CreateBattleDeposit, ErrorCode,
    Initialize, JoinBattle, PayoutSplit, PayoutWinner,
};
