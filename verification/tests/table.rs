use solana_poker::address::Address;
use solana_poker::authority::{authorize, role_for, Operation, Role};
use solana_poker::create_table;
use solana_poker::error::{ErrorKind, PokerError};
use solana_poker::join_table;
use solana_poker::leave_table;
use solana_poker::ledger::{Payout, Vault};
use solana_poker::start_game;
use solana_poker::state::{GameMode, PlayerSeat, PokerTable};

fn addr(n: u8) -> Address {
    Address::new([n; 32])
}

fn table(mode: GameMode) -> PokerTable {
    create_table::handler(addr(1), addr(2), 7, mode, 5, 10, 100, 5, addr(3)).unwrap()
}

#[test]
fn create_table_initial_state() {
    let t = table(GameMode::Staged);
    assert_eq!(t.key, addr(1));
    assert_eq!(t.admin, addr(2));
    assert_eq!(t.backend, addr(3));
    assert_eq!(t.table_id, 7);
    assert_eq!(t.mode, GameMode::Staged);
    assert_eq!(t.max_players, 5);
    assert_eq!(t.buy_in_min, 10);
    assert_eq!(t.buy_in_max, 100);
    assert_eq!(t.small_blind, 5);
    assert_eq!(t.current_game, None);
    assert_eq!(t.player_count, 0);
    assert_eq!(t.seat_mask, 0);
    assert_eq!(t.vault.balance(), 0);
    assert!(t.is_well_formed());
}

#[test]
fn create_table_rejects_bad_config() {
    let bad = [
        (1u8, 10u64, 100u64, 5u64),
        (6, 10, 100, 5),
        (0, 10, 100, 5),
        (5, 101, 100, 5),
        (5, 10, 100, 0),
    ];
    for (max_players, lo, hi, blind) in bad {
        let r = create_table::handler(
            addr(1),
            addr(2),
            7,
            GameMode::Staged,
            max_players,
            lo,
            hi,
            blind,
            addr(3),
        );
        assert_eq!(r, Err(PokerError::InvalidBuyIn));
    }
}

#[test]
fn create_table_accepts_a_lowest_buy_in_of_zero() {
    let mut t =
        create_table::handler(addr(1), addr(2), 7, GameMode::Staged, 5, 0, 100, 5, addr(3))
            .unwrap();
    assert_eq!(t.buy_in_min, 0);
    assert!(t.is_well_formed());
    let s = join_table::handler(&mut t, addr(10), 0).unwrap();
    assert_eq!(s.chips, 0);
    assert_eq!(t.player_count, 1);
    let all =
        create_table::handler(addr(1), addr(2), 7, GameMode::Staged, 2, 0, 0, 1, addr(3)).unwrap();
    assert!(all.is_well_formed());
}

#[test]
fn create_table_accepts_the_limits() {
    for max_players in 2u8..=5 {
        let r = create_table::handler(
            addr(1),
            addr(2),
            7,
            GameMode::Delegated,
            max_players,
            1,
            1,
            1,
            addr(3),
        );
        assert!(r.is_ok());
    }
}

#[test]
fn two_players_join_a_new_table() {
    let mut t = table(GameMode::Staged);
    let s0 = join_table::handler(&mut t, addr(10), 50).unwrap();
    let s1 = join_table::handler(&mut t, addr(11), 50).unwrap();
    assert_eq!(t.player_count, 2);
    assert_eq!(t.seat_mask, 0b11);
    assert!(t.is_occupied(0) && t.is_occupied(1) && !t.is_occupied(2));
    assert_eq!(t.vault.balance(), 100);
    assert_eq!(s0.seat_index, 0);
    assert_eq!(s1.seat_index, 1);
    assert_eq!(s0.chips, 50);
    assert_eq!(s1.chips, 50);
    assert_eq!(s0.player, addr(10));
    assert_eq!(s0.table, addr(1));
    assert!(s0.game.is_zero());
    assert_eq!(s0.current_bet, 0);
    assert_eq!(s0.total_bet, 0);
    assert!(!s0.is_folded && !s0.is_all_in && !s0.has_acted);
}

#[test]
fn join_rejects_buy_in_out_of_range() {
    let mut t = table(GameMode::Staged);
    let before = t;
    assert_eq!(join_table::handler(&mut t, addr(10), 9), Err(PokerError::InvalidBuyIn));
    assert_eq!(join_table::handler(&mut t, addr(10), 101), Err(PokerError::InvalidBuyIn));
    assert_eq!(t, before);
    assert!(join_table::handler(&mut t, addr(10), 10).is_ok());
    assert!(join_table::handler(&mut t, addr(11), 100).is_ok());
    assert_eq!(t.vault.balance(), 110);
}

#[test]
fn join_rejects_full_table() {
    let mut t =
        create_table::handler(addr(1), addr(2), 7, GameMode::Staged, 2, 10, 100, 5, addr(3))
            .unwrap();
    join_table::handler(&mut t, addr(10), 50).unwrap();
    join_table::handler(&mut t, addr(11), 50).unwrap();
    let before = t;
    assert_eq!(join_table::handler(&mut t, addr(12), 50), Err(PokerError::TableFull));
    assert_eq!(t, before);
    assert!(t.player_count <= t.max_players);
}

#[test]
fn join_rejects_during_game() {
    let mut t = table(GameMode::Staged);
    join_table::handler(&mut t, addr(10), 50).unwrap();
    join_table::handler(&mut t, addr(11), 50).unwrap();
    let mut none: Vec<PlayerSeat> = Vec::new();
    start_game::handler(&mut t, addr(20), 1, addr(2), addr(4), 0, 0, &mut none).unwrap();
    assert_eq!(join_table::handler(&mut t, addr(12), 50), Err(PokerError::GameInProgress));
    assert_eq!(t.player_count, 2);
    assert_eq!(t.vault.balance(), 100);
}

#[test]
fn join_rejects_vault_overflow() {
    let mut t = create_table::handler(
        addr(1),
        addr(2),
        7,
        GameMode::Staged,
        5,
        1,
        u64::MAX,
        5,
        addr(3),
    )
    .unwrap();
    join_table::handler(&mut t, addr(10), u64::MAX).unwrap();
    let before = t;
    assert_eq!(join_table::handler(&mut t, addr(11), 1), Err(PokerError::VaultOutOfRange));
    assert_eq!(t, before);
}

#[test]
fn join_rejects_broken_table() {
    let mut t = table(GameMode::Staged);
    t.player_count = 6;
    assert_eq!(join_table::handler(&mut t, addr(10), 50), Err(PokerError::InconsistentState));
    let mut t = table(GameMode::Staged);
    t.seat_mask = 0b1;
    assert_eq!(join_table::handler(&mut t, addr(10), 50), Err(PokerError::InconsistentState));
    let mut t = table(GameMode::Staged);
    t.player_count = 1;
    t.seat_mask = 0b10_0000;
    assert_eq!(join_table::handler(&mut t, addr(10), 50), Err(PokerError::InconsistentState));
}

#[test]
fn join_takes_the_lowest_free_seat() {
    let mut t = table(GameMode::Staged);
    t.player_count = 3;
    t.seat_mask = 0b1_0101;
    assert!(t.is_well_formed());
    let s = join_table::handler(&mut t, addr(10), 50).unwrap();
    assert_eq!(s.seat_index, 1);
    assert_eq!(t.seat_mask, 0b1_0111);
    let s = join_table::handler(&mut t, addr(11), 50).unwrap();
    assert_eq!(s.seat_index, 3);
    assert_eq!(t.seat_mask, 0b1_1111);
    assert_eq!(t.player_count, 5);
    assert_eq!(join_table::handler(&mut t, addr(12), 50), Err(PokerError::TableFull));
}

#[test]
fn leave_pays_and_keeps_seat() {
    let mut t = table(GameMode::Staged);
    let mut s = join_table::handler(&mut t, addr(10), 50).unwrap();
    let p = leave_table::handler(&mut t, &mut s, addr(10), 20).unwrap();
    assert_eq!(p, Payout { to: addr(10), amount: 20 });
    assert_eq!(s.chips, 30);
    assert_eq!(t.vault.balance(), 30);
    assert_eq!(t.player_count, 1);
}

#[test]
fn leave_clamps_to_chips() {
    let mut t = table(GameMode::Staged);
    let mut s0 = join_table::handler(&mut t, addr(10), 50).unwrap();
    join_table::handler(&mut t, addr(11), 60).unwrap();
    let p = leave_table::handler(&mut t, &mut s0, addr(10), 1000).unwrap();
    assert_eq!(p.amount, 50);
    assert_eq!(s0.chips, 0);
    assert_eq!(t.vault.balance(), 60);
    assert_eq!(t.player_count, 2);
    // A seat without chips is paid nothing.
    let p = leave_table::handler(&mut t, &mut s0, addr(10), 1).unwrap();
    assert_eq!(p, Payout { to: addr(10), amount: 0 });
    assert_eq!(s0.chips, 0);
    assert_eq!(t.vault.balance(), 60);
}

#[test]
fn leave_during_a_game_is_refused() {
    let mut t = table(GameMode::Staged);
    let mut s0 = join_table::handler(&mut t, addr(10), 50).unwrap();
    join_table::handler(&mut t, addr(11), 50).unwrap();
    let mut none: Vec<PlayerSeat> = Vec::new();
    start_game::handler(&mut t, addr(20), 1, addr(2), addr(4), 0, 0, &mut none).unwrap();
    let table_before = t;
    let seat_before = s0;
    let r = leave_table::handler(&mut t, &mut s0, addr(10), 10);
    assert_eq!(r, Err(PokerError::CannotLeaveDuringGame));
    assert_eq!(r.unwrap_err().kind(), ErrorKind::State);
    assert_eq!(t, table_before);
    assert_eq!(s0, seat_before);
    assert_eq!(t.vault.balance(), 100);
}

#[test]
fn leave_rejects_strangers() {
    let mut t = table(GameMode::Staged);
    let mut s = join_table::handler(&mut t, addr(10), 50).unwrap();
    assert_eq!(
        leave_table::handler(&mut t, &mut s, addr(10), 0),
        Ok(Payout { to: addr(10), amount: 0 })
    );
    assert_eq!(
        leave_table::handler(&mut t, &mut s, addr(11), 10),
        Err(PokerError::PlayerNotAtTable)
    );
    let mut other = s;
    other.table = addr(99);
    assert_eq!(
        leave_table::handler(&mut t, &mut other, addr(10), 10),
        Err(PokerError::PlayerNotAtTable)
    );
    assert_eq!(s.chips, 50);
    assert_eq!(t.vault.balance(), 50);
}

#[test]
fn leave_rejects_underfunded_vault() {
    let mut t = table(GameMode::Staged);
    let mut s = join_table::handler(&mut t, addr(10), 50).unwrap();
    t.vault = Vault::holding(5);
    assert_eq!(
        leave_table::handler(&mut t, &mut s, addr(10), 10),
        Err(PokerError::VaultOutOfRange)
    );
    assert_eq!(s.chips, 50);
    assert_eq!(t.vault.balance(), 5);
}

#[test]
fn vault_moves_amounts() {
    let mut v = Vault::holding(10);
    assert!(v.can_pay(10));
    assert!(!v.can_pay(11));
    assert!(v.can_hold(u64::MAX - 10));
    assert!(!v.can_hold(u64::MAX - 9));
    assert_eq!(v.deposit(5), Ok(()));
    assert_eq!(v.balance(), 15);
    assert_eq!(v.withdraw(15), Ok(()));
    assert_eq!(v.balance(), 0);
    assert_eq!(v.withdraw(1), Err(PokerError::VaultOutOfRange));
    assert_eq!(v.balance(), 0);
    assert_eq!(v.deposit(u64::MAX), Ok(()));
    assert_eq!(v.deposit(1), Err(PokerError::VaultOutOfRange));
    assert_eq!(v.balance(), u64::MAX);
}

#[test]
fn policy_roles() {
    assert_eq!(role_for(Operation::CreateTable), Role::Anyone);
    assert_eq!(role_for(Operation::JoinTable), Role::SeatOwner);
    assert_eq!(role_for(Operation::LeaveTable), Role::SeatOwner);
    for op in [
        Operation::StartGame,
        Operation::ProcessCards,
        Operation::RevealHand,
        Operation::RevealShuffleSeed,
        Operation::RevealCardOffset,
        Operation::RevealCommunity,
        Operation::UpdateRound,
        Operation::AdvanceStage,
        Operation::SettleGame,
        Operation::RefundAll,
    ] {
        assert_eq!(role_for(op), Role::Authority);
    }
}

#[test]
fn policy_by_mode() {
    let staged = table(GameMode::Staged);
    let delegated = table(GameMode::Delegated);
    let admin = addr(2);
    let backend = addr(3);
    assert_eq!(authorize(Operation::StartGame, &staged, &admin, &admin), Ok(()));
    assert_eq!(
        authorize(Operation::StartGame, &staged, &backend, &backend),
        Err(PokerError::NotAdmin)
    );
    assert_eq!(authorize(Operation::StartGame, &delegated, &backend, &backend), Ok(()));
    assert_eq!(
        authorize(Operation::StartGame, &delegated, &admin, &admin),
        Err(PokerError::NotBackend)
    );
    assert_eq!(
        authorize(Operation::UpdateRound, &delegated, &backend, &backend),
        Err(PokerError::WrongMode)
    );
    assert_eq!(
        authorize(Operation::AdvanceStage, &delegated, &backend, &backend),
        Err(PokerError::WrongMode)
    );
    assert_eq!(authorize(Operation::AdvanceStage, &staged, &admin, &admin), Ok(()));
    assert_eq!(authorize(Operation::CreateTable, &staged, &addr(77), &addr(78)), Ok(()));
    assert_eq!(authorize(Operation::LeaveTable, &staged, &addr(77), &addr(77)), Ok(()));
    assert_eq!(
        authorize(Operation::LeaveTable, &staged, &addr(77), &addr(78)),
        Err(PokerError::PlayerNotAtTable)
    );
}
