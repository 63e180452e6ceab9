use crate::address::Address;
use crate::authority::{authorize, permitted, Operation};
use crate::constants::MIN_PLAYERS;
use crate::error::PokerError;
use crate::handle::EncryptedHandle;
use crate::state::{GameStage, PlayerSeat, PokerGame, PokerTable};
use vstd::prelude::*;

verus! {

/// Whether blinds are collected at the start: they are where the caller
/// names at least two seats, the first for the small blind and the second
/// for the big blind. Seats named after these two play no part.
pub open spec fn blinds_due(seats: Seq<PlayerSeat>) -> bool {
    seats.len() >= 2
}

/// The pot with which the game starts: the two blinds, or nothing.
pub open spec fn initial_pot(seats: Seq<PlayerSeat>, small_blind: u64, big_blind: u64) -> int {
    if blinds_due(seats) {
        small_blind + big_blind
    } else {
        0
    }
}

/// The decision on one blind: the seat is sound, sits at the table, is one
/// of the seats taken and holds the blind.
pub open spec fn blind_accepted(table: PokerTable, seat: PlayerSeat, amount: u64) -> Result<
    (),
    PokerError,
> {
    if !seat.wf() {
        Err(PokerError::InconsistentState)
    } else if seat.table != table.key {
        Err(PokerError::PlayerNotAtTable)
    } else if !table.occupied(seat.seat_index) {
        Err(PokerError::InvalidSeatIndex)
    } else if seat.chips < amount {
        Err(PokerError::InsufficientChips)
    } else {
        Ok(())
    }
}

/// The decision on a start: the first check that fails names the refusal.
pub open spec fn outcome(
    table: PokerTable,
    caller: Address,
    viewer: Address,
    small_blind: u64,
    big_blind: u64,
    seats: Seq<PlayerSeat>,
) -> Result<(), PokerError> {
    if !table.wf() {
        Err(PokerError::InconsistentState)
    } else if permitted(Operation::StartGame, table, caller, caller) is Err {
        permitted(Operation::StartGame, table, caller, caller)
    } else if table.current_game is Some {
        Err(PokerError::GameInProgress)
    } else if table.player_count < MIN_PLAYERS {
        Err(PokerError::NotEnoughPlayers)
    } else if !blinds_due(seats) {
        Ok(())
    } else if blind_accepted(table, seats[0], small_blind) is Err {
        blind_accepted(table, seats[0], small_blind)
    } else if blind_accepted(table, seats[1], big_blind) is Err {
        blind_accepted(table, seats[1], big_blind)
    } else if seats[0].seat_index == seats[1].seat_index {
        Err(PokerError::InvalidSeatIndex)
    } else if small_blind + big_blind > u64::MAX {
        Err(PokerError::InvalidBetAmount)
    } else {
        Ok(())
    }
}

/// Whether `game` is the game that starts at `table`: in `Waiting`, with
/// the pot given, the dealer at seat 0, every seat of the table playing, no
/// bet, no mask bit, no card, the permutation in order, and no winner.
pub open spec fn is_fresh(
    game: PokerGame,
    table: PokerTable,
    game_key: Address,
    game_id: u64,
    viewer: Address,
    pot: u64,
) -> bool {
    &&& game.round_bets@ == seq![0u64, 0u64, 0u64, 0u64, 0u64]
    &&& game.shuffled_indices@ == seq![0u8, 1u8, 2u8, 3u8, 4u8]
    &&& game.deal_cards@ == Seq::new(10, |i: int| EncryptedHandle::empty_spec())
    &&& game.community_cards@ == Seq::new(5, |i: int| EncryptedHandle::empty_spec())
    &&& game == PokerGame {
        key: game_key,
        table: table.key,
        game_id,
        mode: table.mode,
        stage: GameStage::Waiting,
        round_id: 0,
        pot,
        current_bet: 0,
        dealer_position: 0,
        action_on: 0,
        players_remaining: table.player_count,
        players_acted: 0,
        player_count: table.player_count,
        folded_mask: 0,
        all_in_mask: 0,
        blinds_posted: 0,
        last_raiser: 0,
        last_raise_amount: 0,
        round_bets: game.round_bets,
        acted_mask: 0,
        shuffle_random: EncryptedHandle::empty_spec(),
        shuffle_seed: 0,
        card_offset: EncryptedHandle::empty_spec(),
        shuffled_indices: game.shuffled_indices,
        deal_cards: game.deal_cards,
        community_cards: game.community_cards,
        batches_done: 0,
        cards_processed: false,
        frontend_account: viewer,
        community_revealed: 0,
        winner_seat: None,
        settled: false,
    }
}

/// The seats after the blinds: the first has paid the small blind and the
/// second the big blind, where blinds are due.
pub open spec fn seats_after(seats: Seq<PlayerSeat>, small_blind: u64, big_blind: u64) -> Seq<
    PlayerSeat,
> {
    if blinds_due(seats) {
        seats.update(
            0,
            PlayerSeat { chips: (seats[0].chips - small_blind) as u64, ..seats[0] },
        ).update(1, PlayerSeat { chips: (seats[1].chips - big_blind) as u64, ..seats[1] })
    } else {
        seats
    }
}

fn check_blind(table: &PokerTable, seat: &PlayerSeat, amount: u64) -> (r: Result<(), PokerError>)
    ensures
        r == blind_accepted(*table, *seat, amount),
{
    if !seat.is_well_formed() {
        return Err(PokerError::InconsistentState);
    }
    if seat.table != table.key {
        return Err(PokerError::PlayerNotAtTable);
    }
    if !table.is_occupied(seat.seat_index) {
        return Err(PokerError::InvalidSeatIndex);
    }
    if seat.chips < amount {
        return Err(PokerError::InsufficientChips);
    }
    Ok(())
}

/// Starts a game at the table and makes it the table's active game. The
/// record of the new game is the result; `game_key` is where the ledger
/// will keep it, and `viewer` the identity off the table that may be
/// granted the community cards.
///
/// Where `blind_seats` names two seats or more, the first pays
/// `small_blind_amount` and the second `big_blind_amount` into the pot.
pub fn handler(
    table: &mut PokerTable,
    game_key: Address,
    game_id: u64,
    caller: Address,
    viewer: Address,
    small_blind_amount: u64,
    big_blind_amount: u64,
    blind_seats: &mut Vec<PlayerSeat>,
) -> (r: Result<PokerGame, PokerError>)
    ensures
        match r {
            Ok(game) => outcome(
                *old(table),
                caller,
                viewer,
                small_blind_amount,
                big_blind_amount,
                old(blind_seats)@,
            ) is Ok && is_fresh(
                game,
                *old(table),
                game_key,
                game_id,
                viewer,
                initial_pot(old(blind_seats)@, small_blind_amount, big_blind_amount) as u64,
            ) && *final(table) == (PokerTable { current_game: Some(game_key), ..*old(table) })
                && final(blind_seats)@ == seats_after(
                old(blind_seats)@,
                small_blind_amount,
                big_blind_amount,
            ) && game.wf() && final(table).wf() && game.played_at(*final(table)),
            Err(e) => outcome(
                *old(table),
                caller,
                viewer,
                small_blind_amount,
                big_blind_amount,
                old(blind_seats)@,
            ) == Err::<(), PokerError>(e) && *final(table) == *old(table) && final(blind_seats)@
                == old(blind_seats)@,
        },
{
    if !table.is_well_formed() {
        return Err(PokerError::InconsistentState);
    }
    match authorize(Operation::StartGame, table, &caller, &caller) {
        Err(e) => {
            return Err(e);
        },
        Ok(()) => {},
    }
    if table.current_game.is_some() {
        return Err(PokerError::GameInProgress);
    }
    if table.player_count < MIN_PLAYERS {
        return Err(PokerError::NotEnoughPlayers);
    }
    let mut pot: u64 = 0;
    if blind_seats.len() >= 2 {
        let small = blind_seats[0];
        let big = blind_seats[1];
        match check_blind(table, &small, small_blind_amount) {
            Err(e) => {
                return Err(e);
            },
            Ok(()) => {},
        }
        match check_blind(table, &big, big_blind_amount) {
            Err(e) => {
                return Err(e);
            },
            Ok(()) => {},
        }
        if small.seat_index == big.seat_index {
            return Err(PokerError::InvalidSeatIndex);
        }
        if small_blind_amount > u64::MAX - big_blind_amount {
            return Err(PokerError::InvalidBetAmount);
        }
        pot = small_blind_amount + big_blind_amount;
        blind_seats[0] = PlayerSeat { chips: small.chips - small_blind_amount, ..small };
        blind_seats[1] = PlayerSeat { chips: big.chips - big_blind_amount, ..big };
    }
    let empty = EncryptedHandle::empty();
    let game = PokerGame {
        key: game_key,
        table: table.key,
        game_id,
        mode: table.mode,
        stage: GameStage::Waiting,
        round_id: 0,
        pot,
        current_bet: 0,
        dealer_position: 0,
        action_on: 0,
        players_remaining: table.player_count,
        players_acted: 0,
        player_count: table.player_count,
        folded_mask: 0,
        all_in_mask: 0,
        blinds_posted: 0,
        last_raiser: 0,
        last_raise_amount: 0,
        round_bets: [0, 0, 0, 0, 0],
        acted_mask: 0,
        shuffle_random: empty,
        shuffle_seed: 0,
        card_offset: empty,
        shuffled_indices: [0, 1, 2, 3, 4],
        deal_cards: [empty, empty, empty, empty, empty, empty, empty, empty, empty, empty],
        community_cards: [empty, empty, empty, empty, empty],
        batches_done: 0,
        cards_processed: false,
        frontend_account: viewer,
        community_revealed: 0,
        winner_seat: None,
        settled: false,
    };
    table.current_game = Some(game_key);
    assert(game.round_bets@ =~= seq![0u64, 0u64, 0u64, 0u64, 0u64]);
    assert(game.shuffled_indices@ =~= seq![0u8, 1u8, 2u8, 3u8, 4u8]);
    assert(game.deal_cards@ =~= Seq::new(10, |i: int| EncryptedHandle::empty_spec()));
    assert(game.community_cards@ =~= Seq::new(5, |i: int| EncryptedHandle::empty_spec()));
    Ok(game)
}

} // verus!
