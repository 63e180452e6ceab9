use crate::address::Address;
use crate::authority::{authorize, permitted, Operation};
use crate::error::PokerError;
use crate::ledger::{Payout, Vault};
use crate::state::{GameMode, GameStage, PlayerSeat, PokerGame, PokerTable};
use vstd::prelude::*;

verus! {

/// The stages from which a game can be settled: `Showdown` at a staged
/// table; at a delegated table any stage in which the game is played.
pub open spec fn settles_from(mode: GameMode, stage: GameStage) -> bool {
    match mode {
        GameMode::Staged => stage == GameStage::Showdown,
        GameMode::Delegated => stage.is_active(),
    }
}

/// What a settlement pays: the final pot where the caller supplies one,
/// because bets were taken off the table, and else the pot of the game.
pub open spec fn payout_amount(game: PokerGame, final_pot: Option<u64>) -> u64 {
    match final_pot {
        Some(p) => p,
        None => game.pot,
    }
}

/// The decision on the seat that is named as the winner: it is the seat of
/// the index given, sits at the table, is attached to this game or to none,
/// is one of the seats taken, and belongs to the wallet to be paid.
pub open spec fn winner_accepted(
    table: PokerTable,
    game: PokerGame,
    seat: PlayerSeat,
    wallet: Address,
    winner_seat_index: u8,
) -> Result<(), PokerError> {
    if seat.seat_index != winner_seat_index {
        Err(PokerError::PlayerNotAtTable)
    } else if seat.table != table.key || (!seat.game.is_unset() && seat.game != game.key) {
        Err(PokerError::PlayerNotAtTable)
    } else if !table.occupied(winner_seat_index) {
        Err(PokerError::InvalidSeatIndex)
    } else if wallet != seat.player {
        Err(PokerError::PlayerNotAtTable)
    } else {
        Ok(())
    }
}

/// The decision on a settlement: the first check that fails names the
/// refusal. A game that has been settled is refused before anything else is
/// looked at.
pub open spec fn outcome(
    table: PokerTable,
    game: PokerGame,
    seat: PlayerSeat,
    wallet: Address,
    caller: Address,
    winner_seat_index: u8,
    final_pot: Option<u64>,
) -> Result<(), PokerError> {
    if !table.wf() || !game.wf() || !seat.wf() {
        Err(PokerError::InconsistentState)
    } else if game.settled || game.winner_seat is Some {
        Err(PokerError::AlreadySettled)
    } else if game.stage == GameStage::Finished {
        Err(PokerError::InvalidGameStage)
    } else if !game.played_at(table) {
        Err(PokerError::NoActiveGame)
    } else if permitted(Operation::SettleGame, table, caller, caller) is Err {
        permitted(Operation::SettleGame, table, caller, caller)
    } else if !settles_from(game.mode, game.stage) {
        Err(PokerError::InvalidGameStage)
    } else if winner_accepted(table, game, seat, wallet, winner_seat_index) is Err {
        winner_accepted(table, game, seat, wallet, winner_seat_index)
    } else if payout_amount(game, final_pot) > table.vault.amount() {
        Err(PokerError::VaultOutOfRange)
    } else {
        Ok(())
    }
}

/// The game after its settlement: finished, the pot paid, the winner
/// recorded.
pub open spec fn game_after(game: PokerGame, winner_seat_index: u8) -> PokerGame {
    PokerGame {
        winner_seat: Some(winner_seat_index),
        settled: true,
        stage: GameStage::Finished,
        pot: 0,
        ..game
    }
}

/// The table after the settlement: without an active game, the payout gone
/// from its vault.
pub open spec fn table_after(table: PokerTable, game: PokerGame, final_pot: Option<u64>)
    -> PokerTable {
    PokerTable {
        current_game: None,
        vault: Vault::of((table.vault.amount() - payout_amount(game, final_pot)) as u64),
        ..table
    }
}

/// A game is settled once. After a settlement the game has a winner, which
/// it had not before, and every further settlement is refused with
/// `AlreadySettled`, whatever table, seat, caller or amount it names.
pub proof fn lemma_settled_once(
    table: PokerTable,
    game: PokerGame,
    seat: PlayerSeat,
    wallet: Address,
    caller: Address,
    winner_seat_index: u8,
    final_pot: Option<u64>,
    table_2: PokerTable,
    seat_2: PlayerSeat,
    wallet_2: Address,
    caller_2: Address,
    winner_seat_index_2: u8,
    final_pot_2: Option<u64>,
)
    requires
        outcome(table, game, seat, wallet, caller, winner_seat_index, final_pot) is Ok,
        table_2.wf(),
        seat_2.wf(),
    ensures
        game.winner_seat is None,
        game_after(game, winner_seat_index).winner_seat == Some(winner_seat_index),
        game_after(game, winner_seat_index).wf(),
        outcome(
            table_2,
            game_after(game, winner_seat_index),
            seat_2,
            wallet_2,
            caller_2,
            winner_seat_index_2,
            final_pot_2,
        ) == Err::<(), PokerError>(PokerError::AlreadySettled),
{
}

/// A settlement by the table's authority of the table's active game, from a
/// stage from which the game can be settled, for a seat of the game and the
/// wallet of its owner, and of an amount that the vault holds, is accepted.
/// It takes the amount from the vault, finishes the game, records the
/// winner, and frees the table.
pub proof fn lemma_settle_pays(
    table: PokerTable,
    game: PokerGame,
    seat: PlayerSeat,
    wallet: Address,
    caller: Address,
    winner_seat_index: u8,
    final_pot: Option<u64>,
)
    requires
        table.wf(),
        game.wf(),
        seat.wf(),
        game.winner_seat is None,
        game.played_at(table),
        permitted(Operation::SettleGame, table, caller, caller) is Ok,
        settles_from(game.mode, game.stage),
        winner_accepted(table, game, seat, wallet, winner_seat_index) is Ok,
        payout_amount(game, final_pot) <= table.vault.amount(),
    ensures
        outcome(table, game, seat, wallet, caller, winner_seat_index, final_pot) is Ok,
        table_after(table, game, final_pot).vault.amount() == table.vault.amount() - payout_amount(
            game,
            final_pot,
        ),
        table_after(table, game, final_pot).current_game is None,
        table_after(table, game, final_pot).wf(),
        game_after(game, winner_seat_index).stage == GameStage::Finished,
        game_after(game, winner_seat_index).winner_seat == Some(winner_seat_index),
        game_after(game, winner_seat_index).pot == 0,
        game_after(game, winner_seat_index).wf(),
{
    broadcast use crate::ledger::group_vault;

}

fn check_winner(
    table: &PokerTable,
    game: &PokerGame,
    seat: &PlayerSeat,
    wallet: &Address,
    winner_seat_index: u8,
) -> (r: Result<(), PokerError>)
    ensures
        r == winner_accepted(*table, *game, *seat, *wallet, winner_seat_index),
{
    if seat.seat_index != winner_seat_index {
        return Err(PokerError::PlayerNotAtTable);
    }
    if seat.table != table.key || (!seat.game.is_zero() && seat.game != game.key) {
        return Err(PokerError::PlayerNotAtTable);
    }
    if !table.is_occupied(winner_seat_index) {
        return Err(PokerError::InvalidSeatIndex);
    }
    if *wallet != seat.player {
        return Err(PokerError::PlayerNotAtTable);
    }
    Ok(())
}

/// Settles the game: pays the winner out of the table's vault, records the
/// winner, finishes the game and frees the table for the next one. The
/// result tells the ledger what to pay to the winner's wallet.
pub fn handler(
    table: &mut PokerTable,
    game: &mut PokerGame,
    winner_seat: &PlayerSeat,
    winner_wallet: Address,
    caller: Address,
    winner_seat_index: u8,
    final_pot: Option<u64>,
) -> (r: Result<Payout, PokerError>)
    ensures
        match r {
            Ok(p) => outcome(
                *old(table),
                *old(game),
                *winner_seat,
                winner_wallet,
                caller,
                winner_seat_index,
                final_pot,
            ) is Ok && p == (Payout {
                to: winner_wallet,
                amount: payout_amount(*old(game), final_pot),
            }) && *final(game) == game_after(*old(game), winner_seat_index) && *final(table)
                == table_after(*old(table), *old(game), final_pot) && final(game).wf() && final(table).wf(),
            Err(e) => outcome(
                *old(table),
                *old(game),
                *winner_seat,
                winner_wallet,
                caller,
                winner_seat_index,
                final_pot,
            ) == Err::<(), PokerError>(e) && *final(game) == *old(game) && *final(table) == *old(table),
        },
{
    broadcast use crate::ledger::group_vault;

    if !table.is_well_formed() || !game.is_well_formed() || !winner_seat.is_well_formed() {
        return Err(PokerError::InconsistentState);
    }
    if game.settled || game.winner_seat.is_some() {
        return Err(PokerError::AlreadySettled);
    }
    if matches!(game.stage, GameStage::Finished) {
        return Err(PokerError::InvalidGameStage);
    }
    if !game.is_played_at(table) {
        return Err(PokerError::NoActiveGame);
    }
    match authorize(Operation::SettleGame, table, &caller, &caller) {
        Err(e) => {
            return Err(e);
        },
        Ok(()) => {},
    }
    let stage_fits = match game.mode {
        GameMode::Staged => matches!(game.stage, GameStage::Showdown),
        GameMode::Delegated => game.stage.is_playable(),
    };
    if !stage_fits {
        return Err(PokerError::InvalidGameStage);
    }
    match check_winner(table, game, winner_seat, &winner_wallet, winner_seat_index) {
        Err(e) => {
            return Err(e);
        },
        Ok(()) => {},
    }
    let payout = match final_pot {
        Some(p) => p,
        None => game.pot,
    };
    match table.vault.withdraw(payout) {
        Err(e) => {
            return Err(e);
        },
        Ok(()) => {},
    }
    game.winner_seat = Some(winner_seat_index);
    game.settled = true;
    game.stage = GameStage::Finished;
    game.pot = 0;
    table.current_game = None;
    Ok(Payout { to: winner_wallet, amount: payout })
}

} // verus!
