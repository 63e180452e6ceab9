use solana_poker::address::Address;
use solana_poker::advance_stage::{self, find_first_to_act};
use solana_poker::create_table;
use solana_poker::error::{ErrorKind, PokerError};
use solana_poker::handle::EncryptedHandle;
use solana_poker::join_table;
use solana_poker::ledger::Grant;
use solana_poker::process_cards::{self, Bootstrap};
use solana_poker::start_game;
use solana_poker::state::{GameMode, GameStage, PlayerSeat, PokerGame, PokerTable, RoundSummary};
use solana_poker::update_round;

fn addr(n: u8) -> Address {
    Address::new([n; 32])
}

const ADMIN: u8 = 2;
const BACKEND: u8 = 3;
const VIEWER: u8 = 4;

fn card(slot: u8) -> EncryptedHandle {
    EncryptedHandle::wrap(100 + slot as u128)
}

fn seated(mode: GameMode, players: u8) -> (PokerTable, Vec<PlayerSeat>) {
    let mut t =
        create_table::handler(addr(1), addr(ADMIN), 7, mode, 5, 10, 100, 5, addr(BACKEND)).unwrap();
    let mut seats = Vec::new();
    for i in 0..players {
        seats.push(join_table::handler(&mut t, addr(10 + i), 50).unwrap());
    }
    (t, seats)
}

fn deal(t: &PokerTable, g: &mut PokerGame, caller: Address) {
    for b in 0..8u8 {
        let bootstrap = if b == 0 {
            Some(Bootstrap {
                seed: 0,
                seed_handle: EncryptedHandle::wrap(900),
                offset: EncryptedHandle::wrap(901),
            })
        } else {
            None
        };
        process_cards::handler(t, g, caller, b, bootstrap, card(2 * b), card(2 * b + 1)).unwrap();
    }
}

/// A staged table with a dealt game in `PreFlop`.
fn dealt(players: u8) -> (PokerTable, PokerGame, Vec<PlayerSeat>) {
    let (mut t, seats) = seated(GameMode::Staged, players);
    let mut none: Vec<PlayerSeat> = Vec::new();
    let mut g =
        start_game::handler(&mut t, addr(20), 1, addr(ADMIN), addr(VIEWER), 0, 0, &mut none)
            .unwrap();
    deal(&t, &mut g, addr(ADMIN));
    (t, g, seats)
}

fn summary(round_id: u8, bets: [u64; 5], pot_delta: u64) -> RoundSummary {
    RoundSummary {
        round_id,
        bets_by_player: bets,
        folded_mask: 0,
        all_in_mask: 0,
        pot_delta,
        current_bet: 0,
        last_raiser: 0,
        acted_mask: 0,
        action_on: 0,
    }
}

#[test]
fn start_with_two_players() {
    let (mut t, _) = seated(GameMode::Staged, 2);
    let mut none: Vec<PlayerSeat> = Vec::new();
    let g = start_game::handler(&mut t, addr(20), 9, addr(ADMIN), addr(VIEWER), 0, 0, &mut none)
        .unwrap();
    assert_eq!(g.stage, GameStage::Waiting);
    assert_eq!(g.pot, 0);
    assert_eq!(g.dealer_position, 0);
    assert_eq!(g.current_bet, 0);
    assert_eq!(g.key, addr(20));
    assert_eq!(g.table, addr(1));
    assert_eq!(g.game_id, 9);
    assert_eq!(g.player_count, 2);
    assert_eq!(g.players_remaining, 2);
    assert_eq!(g.players_acted, 0);
    assert_eq!(g.folded_mask, 0);
    assert_eq!(g.all_in_mask, 0);
    assert_eq!(g.acted_mask, 0);
    assert_eq!(g.blinds_posted, 0);
    assert_eq!(g.round_bets, [0; 5]);
    assert_eq!(g.shuffled_indices, [0, 1, 2, 3, 4]);
    assert_eq!(g.deal_cards, [EncryptedHandle::empty(); 10]);
    assert_eq!(g.community_cards, [EncryptedHandle::empty(); 5]);
    assert!(!g.cards_processed);
    assert_eq!(g.batches_done, 0);
    assert_eq!(g.community_revealed, 0);
    assert_eq!(g.winner_seat, None);
    assert!(!g.settled);
    assert_eq!(g.frontend_account, addr(VIEWER));
    assert_eq!(t.current_game, Some(addr(20)));
    assert!(g.is_well_formed());
    assert!(g.is_played_at(&t));
}

#[test]
fn start_refusals() {
    let (mut t, _) = seated(GameMode::Staged, 1);
    let mut none: Vec<PlayerSeat> = Vec::new();
    assert_eq!(
        start_game::handler(&mut t, addr(20), 1, addr(ADMIN), addr(VIEWER), 0, 0, &mut none),
        Err(PokerError::NotEnoughPlayers)
    );
    join_table::handler(&mut t, addr(11), 50).unwrap();
    assert_eq!(
        start_game::handler(&mut t, addr(20), 1, addr(BACKEND), addr(VIEWER), 0, 0, &mut none),
        Err(PokerError::NotAdmin)
    );
    assert_eq!(t.current_game, None);
    start_game::handler(&mut t, addr(20), 1, addr(ADMIN), addr(VIEWER), 0, 0, &mut none).unwrap();
    let before = t;
    assert_eq!(
        start_game::handler(&mut t, addr(21), 2, addr(ADMIN), addr(VIEWER), 0, 0, &mut none),
        Err(PokerError::GameInProgress)
    );
    assert_eq!(t, before);
}

#[test]
fn start_collects_blinds() {
    let (mut t, seats) = seated(GameMode::Staged, 3);
    let mut blinds = vec![seats[1], seats[2], seats[0]];
    let g = start_game::handler(&mut t, addr(20), 1, addr(ADMIN), addr(VIEWER), 5, 10, &mut blinds)
        .unwrap();
    assert_eq!(g.pot, 15);
    assert_eq!(blinds[0].chips, 45);
    assert_eq!(blinds[1].chips, 40);
    assert_eq!(blinds[2], seats[0]);
    assert_eq!(t.vault.balance(), 150);
    // Chips and pot together are what they were.
    assert_eq!(blinds.iter().map(|s| s.chips).sum::<u64>() + g.pot, 150);
}

#[test]
fn start_with_one_blind_seat_collects_nothing() {
    let (mut t, seats) = seated(GameMode::Staged, 2);
    let mut blinds = vec![seats[0]];
    let g = start_game::handler(&mut t, addr(20), 1, addr(ADMIN), addr(VIEWER), 5, 10, &mut blinds)
        .unwrap();
    assert_eq!(g.pot, 0);
    assert_eq!(blinds[0], seats[0]);
}

#[test]
fn start_blind_refusals() {
    let (mut t, seats) = seated(GameMode::Staged, 2);
    let before = t;
    let mut poor = vec![seats[0], seats[1]];
    assert_eq!(
        start_game::handler(&mut t, addr(20), 1, addr(ADMIN), addr(VIEWER), 51, 10, &mut poor),
        Err(PokerError::InsufficientChips)
    );
    assert_eq!(
        start_game::handler(&mut t, addr(20), 1, addr(ADMIN), addr(VIEWER), 5, 51, &mut poor),
        Err(PokerError::InsufficientChips)
    );
    assert_eq!(poor, vec![seats[0], seats[1]]);
    let mut twice = vec![seats[0], seats[0]];
    assert_eq!(
        start_game::handler(&mut t, addr(20), 1, addr(ADMIN), addr(VIEWER), 5, 10, &mut twice),
        Err(PokerError::InvalidSeatIndex)
    );
    let mut stranger = seats[1];
    stranger.table = addr(99);
    let mut strangers = vec![seats[0], stranger];
    assert_eq!(
        start_game::handler(&mut t, addr(20), 1, addr(ADMIN), addr(VIEWER), 5, 10, &mut strangers),
        Err(PokerError::PlayerNotAtTable)
    );
    let mut far = seats[1];
    far.seat_index = 3;
    let mut fars = vec![seats[0], far];
    assert_eq!(
        start_game::handler(&mut t, addr(20), 1, addr(ADMIN), addr(VIEWER), 5, 10, &mut fars),
        Err(PokerError::InvalidSeatIndex)
    );
    let mut rich0 = seats[0];
    rich0.chips = u64::MAX;
    let mut rich1 = seats[1];
    rich1.chips = u64::MAX;
    let mut rich = vec![rich0, rich1];
    assert_eq!(
        start_game::handler(&mut t, addr(20), 1, addr(ADMIN), addr(VIEWER), u64::MAX, 1, &mut rich),
        Err(PokerError::InvalidBetAmount)
    );
    assert_eq!(t, before);
}

#[test]
fn advance_from_preflop_to_flop() {
    let (t, mut g, _) = dealt(2);
    assert_eq!(g.stage, GameStage::PreFlop);
    assert_eq!(g.players_remaining, 2);
    let grants = advance_stage::handler(&t, &mut g, addr(ADMIN), addr(VIEWER), 3).unwrap();
    assert_eq!(g.stage, GameStage::Flop);
    assert_eq!(g.community_revealed & 0b111, 0b111);
    assert_eq!(g.community_revealed, 0b0000_0111);
    assert_eq!(
        grants,
        vec![
            Grant { handle: card(10), grantee: addr(VIEWER) },
            Grant { handle: card(11), grantee: addr(VIEWER) },
            Grant { handle: card(12), grantee: addr(VIEWER) },
        ]
    );
}

#[test]
fn advance_walks_all_stages() {
    let (t, mut g, _) = dealt(3);
    let mut seen = vec![g.stage];
    let grants = advance_stage::handler(&t, &mut g, addr(ADMIN), addr(VIEWER), 3).unwrap();
    assert_eq!(grants.len(), 3);
    seen.push(g.stage);
    let grants = advance_stage::handler(&t, &mut g, addr(ADMIN), addr(VIEWER), 1).unwrap();
    assert_eq!(grants, vec![Grant { handle: card(13), grantee: addr(VIEWER) }]);
    assert_eq!(g.community_revealed, 0b0000_1111);
    seen.push(g.stage);
    let grants = advance_stage::handler(&t, &mut g, addr(ADMIN), addr(VIEWER), 1).unwrap();
    assert_eq!(grants, vec![Grant { handle: card(14), grantee: addr(VIEWER) }]);
    assert_eq!(g.community_revealed, 0b0001_1111);
    seen.push(g.stage);
    let grants = advance_stage::handler(&t, &mut g, addr(ADMIN), addr(VIEWER), 0).unwrap();
    assert!(grants.is_empty());
    seen.push(g.stage);
    let grants = advance_stage::handler(&t, &mut g, addr(ADMIN), addr(VIEWER), 0).unwrap();
    assert!(grants.is_empty());
    seen.push(g.stage);
    assert_eq!(
        seen,
        vec![
            GameStage::PreFlop,
            GameStage::Flop,
            GameStage::Turn,
            GameStage::River,
            GameStage::Showdown,
            GameStage::Finished,
        ]
    );
    assert!(!seen[1..].contains(&GameStage::Waiting));
    let before = g;
    assert_eq!(
        advance_stage::handler(&t, &mut g, addr(ADMIN), addr(VIEWER), 3),
        Err(PokerError::InvalidGameStage)
    );
    assert_eq!(g, before);
}

#[test]
fn advance_resets_the_betting_round() {
    let (t, mut g, mut seats) = dealt(3);
    let mut s = summary(1, [10, 20, 20, 0, 0], 50);
    s.current_bet = 20;
    s.last_raiser = 1;
    s.acted_mask = 0b111;
    s.action_on = 2;
    update_round::handler(&t, &mut g, addr(ADMIN), s, &mut seats).unwrap();
    g.last_raise_amount = 10;
    advance_stage::handler(&t, &mut g, addr(ADMIN), addr(VIEWER), 3).unwrap();
    assert_eq!(g.current_bet, 0);
    assert_eq!(g.players_acted, 0);
    assert_eq!(g.last_raiser, 0);
    assert_eq!(g.last_raise_amount, 0);
    assert_eq!(g.round_bets, [0; 5]);
    assert_eq!(g.acted_mask, 0);
    assert_eq!(g.action_on, 1);
    assert_eq!(g.pot, 50);
    assert_eq!(g.players_remaining, 3);
}

#[test]
fn advance_shortcut_to_showdown() {
    let (t, mut g, mut seats) = dealt(3);
    let mut s = summary(1, [10, 0, 0, 0, 0], 10);
    s.folded_mask = 0b110;
    s.current_bet = 10;
    update_round::handler(&t, &mut g, addr(ADMIN), s, &mut seats).unwrap();
    assert_eq!(g.players_remaining, 1);
    let before = g;
    // The shortcut asks for no viewer and no grant record.
    let grants = advance_stage::handler(&t, &mut g, addr(ADMIN), addr(99), 0).unwrap();
    assert!(grants.is_empty());
    assert_eq!(g.stage, GameStage::Showdown);
    let mut expected = before;
    expected.stage = GameStage::Showdown;
    assert_eq!(g, expected);
    // From Showdown the shortcut stays in Showdown.
    advance_stage::handler(&t, &mut g, addr(ADMIN), addr(99), 0).unwrap();
    assert_eq!(g.stage, GameStage::Showdown);
}

#[test]
fn advance_refusals() {
    let (mut t, _) = seated(GameMode::Staged, 2);
    let mut none: Vec<PlayerSeat> = Vec::new();
    let mut g =
        start_game::handler(&mut t, addr(20), 1, addr(ADMIN), addr(VIEWER), 0, 0, &mut none)
            .unwrap();
    assert_eq!(
        advance_stage::handler(&t, &mut g, addr(ADMIN), addr(VIEWER), 3),
        Err(PokerError::InvalidGameStage)
    );
    deal(&t, &mut g, addr(ADMIN));
    let before = g;
    assert_eq!(
        advance_stage::handler(&t, &mut g, addr(BACKEND), addr(VIEWER), 3),
        Err(PokerError::NotAdmin)
    );
    assert_eq!(
        advance_stage::handler(&t, &mut g, addr(ADMIN), addr(99), 3),
        Err(PokerError::FrontendAccountNotSet)
    );
    assert_eq!(
        advance_stage::handler(&t, &mut g, addr(ADMIN), addr(VIEWER), 2),
        Err(PokerError::MissingAllowanceAccounts)
    );
    assert_eq!(g, before);
    let mut unseen = g;
    unseen.frontend_account = Address::zero();
    assert_eq!(
        advance_stage::handler(&t, &mut unseen, addr(ADMIN), Address::zero(), 3),
        Err(PokerError::FrontendAccountNotSet)
    );
    let mut idle = t;
    idle.current_game = None;
    assert_eq!(
        advance_stage::handler(&idle, &mut g, addr(ADMIN), addr(VIEWER), 3),
        Err(PokerError::NoActiveGame)
    );
}

#[test]
fn delegated_table_has_no_stages_and_no_rounds() {
    let (mut t, mut seats) = seated(GameMode::Delegated, 2);
    let mut none: Vec<PlayerSeat> = Vec::new();
    let mut g =
        start_game::handler(&mut t, addr(20), 1, addr(BACKEND), addr(BACKEND), 0, 0, &mut none)
            .unwrap();
    deal(&t, &mut g, addr(BACKEND));
    let before = g;
    let r = advance_stage::handler(&t, &mut g, addr(BACKEND), addr(BACKEND), 3);
    assert_eq!(r, Err(PokerError::WrongMode));
    assert_eq!(r.unwrap_err().kind(), ErrorKind::State);
    assert_eq!(
        update_round::handler(&t, &mut g, addr(BACKEND), summary(1, [0; 5], 0), &mut seats),
        Err(PokerError::WrongMode)
    );
    assert_eq!(g, before);
}

#[test]
fn first_to_act_skips_folded_and_all_in() {
    let (_, mut g, _) = dealt(5);
    assert_eq!(find_first_to_act(&g), 1);
    g.folded_mask = 0b0_0010;
    assert_eq!(find_first_to_act(&g), 2);
    g.all_in_mask = 0b0_0100;
    assert_eq!(find_first_to_act(&g), 3);
    g.folded_mask = 0b1_1010;
    assert_eq!(find_first_to_act(&g), 0);
    g.dealer_position = 4;
    g.folded_mask = 0b0_0001;
    g.all_in_mask = 0;
    assert_eq!(find_first_to_act(&g), 1);
    // No seat can act: the scan ends where it began.
    g.dealer_position = 2;
    g.folded_mask = 0b1_1111;
    assert_eq!(find_first_to_act(&g), 3);
    g.folded_mask = 0b0_0111;
    g.all_in_mask = 0b1_1000;
    assert_eq!(find_first_to_act(&g), 3);
    // A dealer at the far end of the range.
    g.dealer_position = 255;
    g.folded_mask = 0;
    g.all_in_mask = 0;
    assert_eq!(find_first_to_act(&g), 1);
}

#[test]
fn active_seats_are_counted() {
    let (_, mut g, _) = dealt(5);
    assert_eq!(g.active_player_count(), 5);
    g.folded_mask = 0b0_0011;
    assert!(g.is_folded(0) && g.is_folded(1) && !g.is_folded(2));
    assert_eq!(g.active_player_count(), 3);
    g.all_in_mask = 0b0_0110;
    assert!(g.is_all_in(1) && g.is_all_in(2) && !g.is_all_in(0));
    assert!(!g.is_active(0) && !g.is_active(1) && !g.is_active(2) && g.is_active(3));
    assert_eq!(g.active_player_count(), 2);
    // Bits beyond the seats of the game do not count.
    g.folded_mask = 0b1110_0000;
    g.all_in_mask = 0;
    assert_eq!(g.active_player_count(), 5);
    assert!(!g.is_folded(8));
    g.player_count = 2;
    g.folded_mask = 0b0_0100;
    assert_eq!(g.active_player_count(), 2);
}

#[test]
fn update_round_replays_the_summary() {
    let (t, mut g, mut seats) = dealt(3);
    let s = RoundSummary {
        round_id: 1,
        bets_by_player: [10, 20, 50, 0, 0],
        folded_mask: 0b001,
        all_in_mask: 0b100,
        pot_delta: 80,
        current_bet: 50,
        last_raiser: 2,
        acted_mask: 0b111,
        action_on: 1,
    };
    assert_eq!(update_round::handler(&t, &mut g, addr(ADMIN), s, &mut seats), Ok(()));
    assert_eq!(g.round_id, 1);
    assert_eq!(g.round_bets, [10, 20, 50, 0, 0]);
    assert_eq!(g.folded_mask, 0b001);
    assert_eq!(g.all_in_mask, 0b100);
    assert_eq!(g.pot, 80);
    assert_eq!(g.current_bet, 50);
    assert_eq!(g.last_raiser, 2);
    assert_eq!(g.acted_mask, 0b111);
    assert_eq!(g.action_on, 1);
    assert_eq!(g.players_acted, 3);
    assert_eq!(g.players_remaining, 2);
    assert_eq!(g.stage, GameStage::PreFlop);
    let chips: Vec<u64> = seats.iter().map(|s| s.chips).collect();
    assert_eq!(chips, vec![40, 30, 0]);
    let totals: Vec<u64> = seats.iter().map(|s| s.total_bet).collect();
    assert_eq!(totals, vec![10, 20, 50]);
    let bets: Vec<u64> = seats.iter().map(|s| s.current_bet).collect();
    assert_eq!(bets, vec![10, 20, 50]);
    assert!(seats[0].is_folded && !seats[1].is_folded && !seats[2].is_folded);
    assert!(!seats[0].is_all_in && !seats[1].is_all_in && seats[2].is_all_in);
    assert!(seats.iter().all(|s| s.has_acted));
    assert!(seats.iter().all(|s| s.game == addr(20)));
    assert!(seats.iter().all(|s| s.current_bet <= s.total_bet));
    // Chips and pot together are what was bought in.
    assert_eq!(chips.iter().sum::<u64>() + g.pot, 150);
}

#[test]
fn update_round_uses_the_difference_to_the_previous_bets() {
    let (t, mut g, mut seats) = dealt(2);
    update_round::handler(&t, &mut g, addr(ADMIN), summary(1, [10, 10, 0, 0, 0], 20), &mut seats)
        .unwrap();
    update_round::handler(&t, &mut g, addr(ADMIN), summary(1, [30, 10, 0, 0, 0], 20), &mut seats)
        .unwrap();
    assert_eq!(seats[0].chips, 20);
    assert_eq!(seats[0].total_bet, 30);
    assert_eq!(seats[0].current_bet, 30);
    assert_eq!(seats[1].chips, 40);
    assert_eq!(seats[1].total_bet, 10);
    assert_eq!(g.pot, 40);
    // A bet that shrinks moves nothing back.
    update_round::handler(&t, &mut g, addr(ADMIN), summary(1, [5, 10, 0, 0, 0], 0), &mut seats)
        .unwrap();
    assert_eq!(seats[0].chips, 20);
    assert_eq!(seats[0].total_bet, 30);
    assert_eq!(seats[0].current_bet, 5);
}

#[test]
fn update_round_twice_moves_no_more_chips() {
    let (t, mut g, mut seats) = dealt(3);
    let mut s = summary(1, [10, 20, 30, 0, 0], 60);
    s.folded_mask = 0b010;
    s.acted_mask = 0b111;
    update_round::handler(&t, &mut g, addr(ADMIN), s, &mut seats).unwrap();
    let seats_once = seats.clone();
    let game_once = g;
    update_round::handler(&t, &mut g, addr(ADMIN), s, &mut seats).unwrap();
    assert_eq!(seats, seats_once);
    let mut expected = game_once;
    expected.pot = 120;
    assert_eq!(g, expected);
}

#[test]
fn update_round_holds_amounts_in_range() {
    let (t, mut g, mut seats) = dealt(2);
    g.pot = u64::MAX - 5;
    seats[0].total_bet = u64::MAX - 1;
    update_round::handler(&t, &mut g, addr(ADMIN), summary(1, [60, 0, 0, 0, 0], 60), &mut seats)
        .unwrap();
    assert_eq!(g.pot, u64::MAX);
    assert_eq!(seats[0].chips, 0);
    assert_eq!(seats[0].total_bet, u64::MAX);
    assert_eq!(seats[0].current_bet, 60);
    let mut s = summary(1, [60, 0, 0, 0, 0], 0);
    s.folded_mask = 0xff;
    s.acted_mask = 0xff;
    update_round::handler(&t, &mut g, addr(ADMIN), s, &mut seats).unwrap();
    assert_eq!(g.players_remaining, 0);
    assert_eq!(g.players_acted, 8);
}

#[test]
fn update_round_refusals() {
    let (mut t, mut seats) = seated(GameMode::Staged, 2);
    let mut none: Vec<PlayerSeat> = Vec::new();
    let mut g =
        start_game::handler(&mut t, addr(20), 1, addr(ADMIN), addr(VIEWER), 0, 0, &mut none)
            .unwrap();
    assert_eq!(
        update_round::handler(&t, &mut g, addr(ADMIN), summary(0, [0; 5], 0), &mut seats),
        Err(PokerError::InvalidGameStage)
    );
    deal(&t, &mut g, addr(ADMIN));
    let game_before = g;
    let seats_before = seats.clone();
    assert_eq!(
        update_round::handler(&t, &mut g, addr(ADMIN), summary(2, [5; 5], 10), &mut seats),
        Err(PokerError::InvalidGameStage)
    );
    assert_eq!(
        update_round::handler(&t, &mut g, addr(BACKEND), summary(1, [5; 5], 10), &mut seats),
        Err(PokerError::NotAdmin)
    );
    let mut elsewhere = seats.clone();
    elsewhere[1].game = addr(77);
    assert_eq!(
        update_round::handler(&t, &mut g, addr(ADMIN), summary(1, [5; 5], 10), &mut elsewhere),
        Err(PokerError::PlayerNotAtTable)
    );
    assert_eq!(elsewhere[0], seats[0]);
    let mut far = seats.clone();
    far[1].seat_index = 2;
    assert_eq!(
        update_round::handler(&t, &mut g, addr(ADMIN), summary(1, [5; 5], 10), &mut far),
        Err(PokerError::InvalidSeatIndex)
    );
    let mut broken = seats.clone();
    broken[0].seat_index = 9;
    assert_eq!(
        update_round::handler(&t, &mut g, addr(ADMIN), summary(1, [5; 5], 10), &mut broken),
        Err(PokerError::InconsistentState)
    );
    assert_eq!(g, game_before);
    assert_eq!(seats, seats_before);
    let mut other = g;
    other.key = addr(88);
    assert_eq!(
        update_round::handler(&t, &mut other, addr(ADMIN), summary(1, [5; 5], 10), &mut seats),
        Err(PokerError::NoActiveGame)
    );
}
