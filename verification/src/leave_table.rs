use crate::address::Address;
use crate::authority::{authorize, permitted, Operation};
use crate::error::PokerError;
use crate::ledger::{Payout, Vault};
use crate::state::{PlayerSeat, PokerTable};
use vstd::prelude::*;

verus! {

/// What a withdrawal of `amount` pays to a seat: the amount, but never more
/// than the seat's chips.
pub open spec fn paid(seat: PlayerSeat, amount: u64) -> u64 {
    if amount <= seat.chips {
        amount
    } else {
        seat.chips
    }
}

/// The decision on a withdrawal: the first check that fails names the
/// refusal.
pub open spec fn outcome(table: PokerTable, seat: PlayerSeat, player: Address, amount: u64)
    -> Result<(), PokerError> {
    if !table.wf() || !seat.wf() {
        Err(PokerError::InconsistentState)
    } else if table.current_game is Some {
        Err(PokerError::CannotLeaveDuringGame)
    } else if seat.table != table.key {
        Err(PokerError::PlayerNotAtTable)
    } else if permitted(Operation::LeaveTable, table, player, seat.player) is Err {
        permitted(Operation::LeaveTable, table, player, seat.player)
    } else if paid(seat, amount) > table.vault.amount() {
        Err(PokerError::VaultOutOfRange)
    } else {
        Ok(())
    }
}

/// The table after the withdrawal.
pub open spec fn table_after(table: PokerTable, seat: PlayerSeat, amount: u64) -> PokerTable {
    PokerTable {
        vault: Vault::of((table.vault.amount() - paid(seat, amount)) as u64),
        ..table
    }
}

/// The seat after the withdrawal: it stays open, with fewer chips.
pub open spec fn seat_after(seat: PlayerSeat, amount: u64) -> PlayerSeat {
    PlayerSeat { chips: (seat.chips - paid(seat, amount)) as u64, ..seat }
}

/// Withdraws chips from a seat while no game is active. A request for more
/// than the seat holds pays what the seat holds, which may be nothing. The
/// seat stays at the table, also when it is left without chips. The result
/// tells the ledger what to pay the player.
pub fn handler(table: &mut PokerTable, seat: &mut PlayerSeat, player: Address, amount: u64) -> (r:
    Result<Payout, PokerError>)
    ensures
        match r {
            Ok(p) => outcome(*old(table), *old(seat), player, amount) is Ok && p == (Payout {
                to: player,
                amount: paid(*old(seat), amount),
            }) && *final(table) == table_after(*old(table), *old(seat), amount) && *final(seat)
                == seat_after(*old(seat), amount) && final(table).wf(),
            Err(e) => outcome(*old(table), *old(seat), player, amount) == Err::<(), PokerError>(e)
                && *final(table) == *old(table) && *final(seat) == *old(seat),
        },
{
    broadcast use crate::ledger::group_vault;

    if !table.is_well_formed() || !seat.is_well_formed() {
        return Err(PokerError::InconsistentState);
    }
    if table.current_game.is_some() {
        return Err(PokerError::CannotLeaveDuringGame);
    }
    if seat.table != table.key {
        return Err(PokerError::PlayerNotAtTable);
    }
    match authorize(Operation::LeaveTable, table, &player, &seat.player) {
        Err(e) => {
            return Err(e);
        },
        Ok(()) => {},
    }
    let pay = if amount <= seat.chips {
        amount
    } else {
        seat.chips
    };
    match table.vault.withdraw(pay) {
        Err(e) => {
            return Err(e);
        },
        Ok(()) => {},
    }
    seat.chips = seat.chips - pay;
    Ok(Payout { to: player, amount: pay })
}

} // verus!
