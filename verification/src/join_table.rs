use crate::address::Address;
use crate::authority::{authorize, permitted, Operation};
use crate::bits::{
    first_clear, lemma_first_clear, lemma_ones_grow, lemma_ones_with_bit, lemma_with_bit,
    lowest_clear, set_bit, with_bit,
};
use crate::error::PokerError;
use crate::ledger::Vault;
use crate::state::{PlayerSeat, PokerTable};
use vstd::prelude::*;

verus! {

/// The decision on a request to join: the first check that fails names the
/// refusal.
pub open spec fn outcome(table: PokerTable, player: Address, buy_in: u64) -> Result<
    (),
    PokerError,
> {
    if !table.wf() {
        Err(PokerError::InconsistentState)
    } else if permitted(Operation::JoinTable, table, player, player) is Err {
        permitted(Operation::JoinTable, table, player, player)
    } else if !(table.buy_in_min <= buy_in <= table.buy_in_max) {
        Err(PokerError::InvalidBuyIn)
    } else if table.player_count >= table.max_players {
        Err(PokerError::TableFull)
    } else if table.current_game is Some {
        Err(PokerError::GameInProgress)
    } else if table.vault.amount() + buy_in > u64::MAX {
        Err(PokerError::VaultOutOfRange)
    } else {
        Ok(())
    }
}

/// The seat index that the next player gets: the lowest that is free.
pub open spec fn free_seat(table: PokerTable) -> u8 {
    first_clear(table.seat_mask, 0, table.max_players)
}

/// A table that is not full has a free seat, and the lowest free seat is
/// one of the table's seats, is free, and has no free seat below it.
pub proof fn lemma_free_seat(table: PokerTable)
    requires
        table.wf(),
        table.player_count < table.max_players,
    ensures
        free_seat(table) < table.max_players,
        !table.occupied(free_seat(table)),
        forall|i: u8| i < free_seat(table) ==> table.occupied(i),
{
    lemma_ones_grow(table.seat_mask, table.max_players as nat, 8);
    lemma_first_clear(table.seat_mask, 0, table.max_players);
}

/// A table that takes a player stays within its invariant.
pub proof fn lemma_join_keeps_invariant(table: PokerTable, player: Address, buy_in: u64)
    requires
        outcome(table, player, buy_in) is Ok,
    ensures
        table_after(table, buy_in).wf(),
{
    lemma_free_seat(table);
    lemma_ones_with_bit(table.seat_mask, free_seat(table), 8);
    assert forall|i: u8| table.max_players <= i < 8 implies !crate::bits::bit(
        with_bit(table.seat_mask, free_seat(table)),
        i,
    ) by {
        lemma_with_bit(table.seat_mask, free_seat(table), i);
    }
}

/// The table after `player` has joined with `buy_in`.
pub open spec fn table_after(table: PokerTable, buy_in: u64) -> PokerTable {
    PokerTable {
        player_count: (table.player_count + 1) as u8,
        seat_mask: with_bit(table.seat_mask, free_seat(table)),
        vault: Vault::of((table.vault.amount() + buy_in) as u64),
        ..table
    }
}

/// Whether `seat` is the seat that a player gets who joins `table` with
/// `buy_in`: the lowest free index, the buy-in as chips, no bet, no flag,
/// no game.
pub open spec fn is_new_seat(seat: PlayerSeat, table: PokerTable, player: Address, buy_in: u64)
    -> bool {
    &&& seat.table == table.key
    &&& seat.game.is_unset()
    &&& seat.player == player
    &&& seat.seat_index == free_seat(table)
    &&& seat.chips == buy_in
    &&& seat.current_bet == 0
    &&& seat.total_bet == 0
    &&& !seat.is_folded
    &&& !seat.is_all_in
    &&& !seat.has_acted
}

/// Seats `player` at the table. The buy-in moves into the table's vault; the
/// caller has the ledger move the same amount from the player's account.
pub fn handler(table: &mut PokerTable, player: Address, buy_in: u64) -> (r: Result<
    PlayerSeat,
    PokerError,
>)
    ensures
        match r {
            Ok(seat) => outcome(*old(table), player, buy_in) is Ok && is_new_seat(
                seat,
                *old(table),
                player,
                buy_in,
            ) && *final(table) == table_after(*old(table), buy_in) && final(table).wf()
                && seat.wf(),
            Err(e) => outcome(*old(table), player, buy_in) == Err::<(), PokerError>(e) && *final(table) == *old(table),
        },
{
    broadcast use crate::ledger::group_vault;

    if !table.is_well_formed() {
        return Err(PokerError::InconsistentState);
    }
    match authorize(Operation::JoinTable, table, &player, &player) {
        Err(e) => {
            return Err(e);
        },
        Ok(()) => {},
    }
    if !(buy_in >= table.buy_in_min && buy_in <= table.buy_in_max) {
        return Err(PokerError::InvalidBuyIn);
    }
    if table.player_count >= table.max_players {
        return Err(PokerError::TableFull);
    }
    if table.current_game.is_some() {
        return Err(PokerError::GameInProgress);
    }
    let index = lowest_clear(table.seat_mask, table.max_players);
    proof {
        lemma_free_seat(*table);
        lemma_ones_with_bit(table.seat_mask, index, 8);
        assert forall|i: u8| table.max_players <= i < 8 implies !crate::bits::bit(
            with_bit(table.seat_mask, index),
            i,
        ) by {
            lemma_with_bit(table.seat_mask, index, i);
        }
    }
    match table.vault.deposit(buy_in) {
        Err(e) => {
            return Err(e);
        },
        Ok(()) => {},
    }
    let seat = PlayerSeat {
        table: table.key,
        game: Address::zero(),
        player,
        seat_index: index,
        chips: buy_in,
        current_bet: 0,
        total_bet: 0,
        is_folded: false,
        is_all_in: false,
        has_acted: false,
    };
    table.player_count = table.player_count + 1;
    table.seat_mask = set_bit(table.seat_mask, index);
    Ok(seat)
}

} // verus!
