use crate::address::Address;
use crate::authority::{authorize, permitted, Operation};
use crate::error::PokerError;
use crate::handle::EncryptedHandle;
use crate::ledger::Grant;
use crate::state::{PokerGame, PokerTable};
use vstd::prelude::*;

verus! {

/// The decision on a request to reveal one of the handles of the deal for
/// an audit: the first check that fails names the refusal. The cards must
/// be dealt, the caller must bring a grant record, and the handle must
/// refer to a value.
pub open spec fn audit_outcome(
    op: Operation,
    table: PokerTable,
    game: PokerGame,
    caller: Address,
    handle: EncryptedHandle,
    allowances: usize,
) -> Result<(), PokerError> {
    if !table.wf() || !game.wf() {
        Err(PokerError::InconsistentState)
    } else if !game.belongs_to(table) {
        Err(PokerError::NoActiveGame)
    } else if permitted(op, table, caller, caller) is Err {
        permitted(op, table, caller, caller)
    } else if !game.cards_processed {
        Err(PokerError::CardsNotProcessed)
    } else if allowances < 1 {
        Err(PokerError::MissingAllowanceAccounts)
    } else if handle.raw() == 0 {
        Err(PokerError::HandleNotInitialized)
    } else {
        Ok(())
    }
}

/// Decides on the reveal of one handle of the deal, and names the grant to
/// request. No record changes.
pub fn audit_grant(
    op: Operation,
    table: &PokerTable,
    game: &PokerGame,
    caller: Address,
    target: Address,
    handle: EncryptedHandle,
    allowances: usize,
) -> (r: Result<Grant, PokerError>)
    ensures
        match r {
            Ok(g) => audit_outcome(op, *table, *game, caller, handle, allowances) is Ok && g == (
            Grant { handle, grantee: target }),
            Err(e) => audit_outcome(op, *table, *game, caller, handle, allowances) == Err::<
                (),
                PokerError,
            >(e),
        },
{
    if !table.is_well_formed() || !game.is_well_formed() {
        return Err(PokerError::InconsistentState);
    }
    if !game.is_game_of(table) {
        return Err(PokerError::NoActiveGame);
    }
    match authorize(op, table, &caller, &caller) {
        Err(e) => {
            return Err(e);
        },
        Ok(()) => {},
    }
    if !game.cards_processed {
        return Err(PokerError::CardsNotProcessed);
    }
    if allowances < 1 {
        return Err(PokerError::MissingAllowanceAccounts);
    }
    if !handle.is_initialized() {
        return Err(PokerError::HandleNotInitialized);
    }
    Ok(Grant { handle, grantee: target })
}

/// The decision on a request to reveal the offset of the deal.
pub open spec fn outcome(table: PokerTable, game: PokerGame, caller: Address, allowances: usize)
    -> Result<(), PokerError> {
    audit_outcome(Operation::RevealCardOffset, table, game, caller, game.card_offset, allowances)
}

/// Lets `target` decrypt the offset that was added to every card, so that
/// the deal can be audited. The result is the grant to request from the
/// service; no record changes.
pub fn handler(
    table: &PokerTable,
    game: &PokerGame,
    caller: Address,
    target: Address,
    allowances: usize,
) -> (r: Result<Grant, PokerError>)
    ensures
        match r {
            Ok(g) => outcome(*table, *game, caller, allowances) is Ok && g == (Grant {
                handle: game.card_offset,
                grantee: target,
            }),
            Err(e) => outcome(*table, *game, caller, allowances) == Err::<(), PokerError>(e),
        },
{
    audit_grant(
        Operation::RevealCardOffset,
        table,
        game,
        caller,
        target,
        game.card_offset,
        allowances,
    )
}

} // verus!
