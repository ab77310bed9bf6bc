use nuked_world_battles::{
    complete_battle, create_battle_deposit, initialize, join_battle, payout_winner, plan_join,
    plan_payout, split_prize, BattleDeposit, BattlePool, BattleStatus, CompleteBattle,
    CreateBattleDeposit, ErrorCode, Identity, Initialize, JoinBattle, PayoutSplit, PayoutWinner,
};

fn id(b: u8) -> Identity {
    Identity::new([b; 32])
}

fn operator() -> Identity {
    id(1)
}

fn pool() -> BattlePool {
    initialize(&Initialize { bump: 254 }, operator())
}

fn battle(entry_fee: u64, max_participants: u8) -> BattleDeposit {
    create_battle_deposit(
        &CreateBattleDeposit { creator: id(2), bump: 253 },
        "battle-1".to_string(),
        entry_fee,
        max_participants,
    )
}

fn join(d: BattleDeposit, p: BattlePool) -> (Result<(), ErrorCode>, BattleDeposit, BattlePool) {
    let mut acc = JoinBattle { battle_deposit: d, battle_pool: p };
    let r = join_battle(&mut acc);
    (r, acc.battle_deposit, acc.battle_pool)
}

fn complete(
    d: BattleDeposit,
    p: BattlePool,
    caller: Identity,
    winner: Identity,
) -> (Result<(), ErrorCode>, BattleDeposit) {
    let mut acc = CompleteBattle { battle_deposit: d, battle_pool: p, dev_wallet: caller };
    let r = complete_battle(&mut acc, winner);
    (r, acc.battle_deposit)
}

fn payout(
    d: BattleDeposit,
    p: BattlePool,
    caller: Identity,
    owner: Identity,
) -> (Result<PayoutSplit, ErrorCode>, BattleDeposit, BattlePool) {
    let mut acc = PayoutWinner {
        battle_deposit: d,
        battle_pool: p,
        winner_token_account_owner: owner,
        dev_wallet: caller,
    };
    let r = payout_winner(&mut acc);
    (r, acc.battle_deposit, acc.battle_pool)
}

/// Two joins to a battle of fee 100 and capacity 2.
fn filled() -> (BattleDeposit, BattlePool) {
    let (r, d, p) = join(battle(100, 2), pool());
    assert_eq!(r, Ok(()));
    let (r, d, p) = join(d, p);
    assert_eq!(r, Ok(()));
    (d, p)
}

#[test]
fn initialize_zeroes_counters() {
    let p = pool();
    assert_eq!(p.dev_wallet, operator());
    assert_eq!(p.total_deposited, 0);
    assert_eq!(p.total_paid_out, 0);
    assert_eq!(p.bump, 254);
}

#[test]
fn create_opens_waiting_battle() {
    let d = battle(100, 2);
    assert_eq!(d.battle_id, "battle-1");
    assert_eq!(d.creator, id(2));
    assert_eq!(d.entry_fee, 100);
    assert_eq!(d.max_participants, 2);
    assert_eq!(d.current_participants, 0);
    assert_eq!(d.total_deposited, 0);
    assert_eq!(d.status, BattleStatus::WaitingForPlayers);
    assert_eq!(d.winner, None);
    assert_eq!(d.bump, 253);
}

#[test]
fn two_joins_fill_battle() {
    let (r, d, p) = join(battle(100, 2), pool());
    assert_eq!(r, Ok(()));
    assert_eq!(d.current_participants, 1);
    assert_eq!(d.total_deposited, 100);
    assert_eq!(d.status, BattleStatus::WaitingForPlayers);
    assert_eq!(p.total_deposited, 100);
    let (r, d, p) = join(d, p);
    assert_eq!(r, Ok(()));
    assert_eq!(d.current_participants, 2);
    assert_eq!(d.total_deposited, 200);
    assert_eq!(d.status, BattleStatus::ReadyToStart);
    assert_eq!(p.total_deposited, 200);
}

#[test]
fn complete_then_payout_splits_prize() {
    let (d, p) = filled();
    let w = id(7);
    let (r, d) = complete(d, p, operator(), w);
    assert_eq!(r, Ok(()));
    assert_eq!(d.status, BattleStatus::Completed);
    assert_eq!(d.winner, Some(w));
    let (r, d, p2) = payout(d, p, operator(), w);
    assert_eq!(r, Ok(PayoutSplit { winner_payout: 190, dev_fee: 10 }));
    assert_eq!(d.status, BattleStatus::PaidOut);
    assert_eq!(p2.total_paid_out, p.total_paid_out + 200);
    assert_eq!(p2.total_deposited, 200);
}

#[test]
fn join_full_battle_fails() {
    let d = BattleDeposit {
        battle_id: "full".to_string(),
        creator: id(2),
        entry_fee: 100,
        max_participants: 2,
        current_participants: 2,
        total_deposited: 200,
        status: BattleStatus::WaitingForPlayers,
        winner: None,
        bump: 1,
    };
    let p = pool();
    let (r, d2, p2) = join(d.clone(), p);
    assert_eq!(r, Err(ErrorCode::BattleFull));
    assert_eq!(d2, d);
    assert_eq!(p2, p);
}

#[test]
fn join_zero_capacity_battle_fails() {
    let (r, d, _) = join(battle(100, 0), pool());
    assert_eq!(r, Err(ErrorCode::BattleFull));
    assert_eq!(d.current_participants, 0);
}

#[test]
fn join_ready_battle_not_joinable() {
    let (d, p) = filled();
    assert_eq!(
        plan_join(&JoinBattle { battle_deposit: d.clone(), battle_pool: p }),
        Err(ErrorCode::BattleNotJoinable)
    );
    let (r, d2, _) = join(d.clone(), p);
    assert_eq!(r, Err(ErrorCode::BattleNotJoinable));
    assert_eq!(d2, d);
}

#[test]
fn plan_join_gives_entry_fee() {
    let acc = JoinBattle { battle_deposit: battle(75, 3), battle_pool: pool() };
    assert_eq!(plan_join(&acc), Ok(75));
}

#[test]
fn payout_by_non_operator_fails() {
    let (d, p) = filled();
    let w = id(7);
    let (_, d) = complete(d, p, operator(), w);
    let (r, d2, p2) = payout(d.clone(), p, id(9), w);
    assert_eq!(r, Err(ErrorCode::UnauthorizedDev));
    assert_eq!(d2, d);
    assert_eq!(d2.status, BattleStatus::Completed);
    assert_eq!(p2, p);
}

#[test]
fn payout_to_other_owner_fails() {
    let (d, p) = filled();
    let w = id(7);
    let (_, d) = complete(d, p, operator(), w);
    let (r, d2, p2) = payout(d.clone(), p, operator(), id(8));
    assert_eq!(r, Err(ErrorCode::InvalidWinner));
    assert_eq!(d2.status, BattleStatus::Completed);
    assert_eq!(d2, d);
    assert_eq!(p2, p);
}

#[test]
fn complete_by_non_operator_fails() {
    let (d, p) = filled();
    let (r, d2) = complete(d.clone(), p, id(9), id(7));
    assert_eq!(r, Err(ErrorCode::UnauthorizedDev));
    assert_eq!(d2, d);
}

#[test]
fn complete_unfilled_battle_is_allowed() {
    let (r, d, p) = join(battle(100, 4), pool());
    assert_eq!(r, Ok(()));
    assert_eq!(d.status, BattleStatus::WaitingForPlayers);
    let (r, d) = complete(d, p, operator(), id(7));
    assert_eq!(r, Ok(()));
    assert_eq!(d.status, BattleStatus::Completed);
    let (r, d, p) = payout(d, p, operator(), id(7));
    assert_eq!(r, Ok(PayoutSplit { winner_payout: 95, dev_fee: 5 }));
    assert_eq!(d.status, BattleStatus::PaidOut);
    assert_eq!(p.total_paid_out, 100);
}

#[test]
fn payout_before_complete_fails() {
    let (d, p) = filled();
    let (r, d2, _) = payout(d.clone(), p, operator(), id(7));
    assert_eq!(r, Err(ErrorCode::BattleNotCompleted));
    assert_eq!(d2, d);
}

#[test]
fn payout_twice_fails() {
    let (d, p) = filled();
    let w = id(7);
    let (_, d) = complete(d, p, operator(), w);
    let (r, d, p) = payout(d, p, operator(), w);
    assert!(r.is_ok());
    let (r, d2, p2) = payout(d.clone(), p, operator(), w);
    assert_eq!(r, Err(ErrorCode::BattleNotCompleted));
    assert_eq!(d2, d);
    assert_eq!(p2.total_paid_out, 200);
}

#[test]
fn payout_without_winner_fails() {
    let d = BattleDeposit {
        battle_id: "no-winner".to_string(),
        creator: id(2),
        entry_fee: 10,
        max_participants: 1,
        current_participants: 1,
        total_deposited: 10,
        status: BattleStatus::Completed,
        winner: None,
        bump: 1,
    };
    let (r, d2, _) = payout(d.clone(), pool(), operator(), id(7));
    assert_eq!(r, Err(ErrorCode::NoWinner));
    assert_eq!(d2, d);
}

#[test]
fn plan_payout_matches_payout() {
    let (d, p) = filled();
    let (_, d) = complete(d, p, operator(), id(7));
    let acc = PayoutWinner {
        battle_deposit: d,
        battle_pool: p,
        winner_token_account_owner: id(7),
        dev_wallet: operator(),
    };
    assert_eq!(plan_payout(&acc), Ok(PayoutSplit { winner_payout: 190, dev_fee: 10 }));
}

#[test]
fn split_rounds_in_favour_of_winner() {
    assert_eq!(split_prize(0), PayoutSplit { winner_payout: 0, dev_fee: 0 });
    assert_eq!(split_prize(19), PayoutSplit { winner_payout: 19, dev_fee: 0 });
    assert_eq!(split_prize(20), PayoutSplit { winner_payout: 19, dev_fee: 1 });
    assert_eq!(split_prize(199), PayoutSplit { winner_payout: 190, dev_fee: 9 });
    let s = split_prize(u64::MAX);
    assert_eq!(s.dev_fee, 922337203685477580);
    assert_eq!(s.dev_fee + s.winner_payout, u64::MAX);
}

#[test]
fn escrow_total_tracks_participants() {
    let mut d = battle(33, 5);
    let mut p = pool();
    for n in 1..=5u8 {
        let (r, d2, p2) = join(d, p);
        assert_eq!(r, Ok(()));
        assert_eq!(d2.total_deposited, d2.current_participants as u64 * d2.entry_fee);
        assert_eq!(d2.current_participants, n);
        d = d2;
        p = p2;
    }
    assert_eq!(d.status, BattleStatus::ReadyToStart);
    let (r, d2, _) = join(d.clone(), p);
    assert_eq!(r, Err(ErrorCode::BattleNotJoinable));
    assert_eq!(d2.current_participants, 5);
}

#[test]
fn registry_counts_two_battles() {
    let p = pool();
    let (_, a, p) = join(battle(100, 1), p);
    let (_, b, p) = join(battle(40, 2), p);
    assert_eq!(p.total_deposited, 140);
    let (_, a) = complete(a, p, operator(), id(7));
    let (r, a, p) = payout(a, p, operator(), id(7));
    assert!(r.is_ok());
    assert_eq!(a.status, BattleStatus::PaidOut);
    assert_eq!(b.status, BattleStatus::WaitingForPlayers);
    assert_eq!(p.total_paid_out, 100);
    assert!(p.total_paid_out <= p.total_deposited);
}

#[test]
fn identity_same_compares_bytes() {
    let mut bytes = [3u8; 32];
    let a = Identity::new(bytes);
    bytes[31] = 4;
    let b = Identity::new(bytes);
    assert!(a.same(&a));
    assert!(!a.same(&b));
}

#[test]
fn complete_settled_battle_fails() {
    let (d, p) = filled();
    let w = id(7);
    let (r, d) = complete(d, p, operator(), w);
    assert_eq!(r, Ok(()));

    let (r, d2) = complete(d.clone(), p, operator(), id(8));
    assert_eq!(r, Err(ErrorCode::BattleAlreadySettled));
    assert_eq!(d2, d);
    assert_eq!(d2.winner, Some(w));

    let (r, paid, p2) = payout(d, p, operator(), w);
    assert!(r.is_ok());
    let (r, paid2) = complete(paid.clone(), p2, operator(), id(8));
    assert_eq!(r, Err(ErrorCode::BattleAlreadySettled));
    assert_eq!(paid2, paid);
    assert_eq!(paid2.status, BattleStatus::PaidOut);
    let (r, _, p3) = payout(paid2, p2, operator(), w);
    assert_eq!(r, Err(ErrorCode::BattleNotCompleted));
    assert_eq!(p3.total_paid_out, 200);
}

#[test]
fn complete_paid_out_battle_by_stranger_is_unauthorized() {
    let (d, p) = filled();
    let (_, d) = complete(d, p, operator(), id(7));
    let (_, paid, p) = payout(d, p, operator(), id(7));
    let (r, d2) = complete(paid.clone(), p, id(9), id(8));
    assert_eq!(r, Err(ErrorCode::UnauthorizedDev));
    assert_eq!(d2, paid);
}
