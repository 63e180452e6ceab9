use crate::address::Address;
use crate::authority::Operation;
use crate::error::PokerError;
use crate::ledger::Grant;
use crate::reveal_card_offset::{audit_grant, audit_outcome};
use crate::state::{PokerGame, PokerTable};
use vstd::prelude::*;

verus! {

/// The decision on a request to reveal the seed of the deal.
pub open spec fn outcome(table: PokerTable, game: PokerGame, caller: Address, allowances: usize)
    -> Result<(), PokerError> {
    audit_outcome(
        Operation::RevealShuffleSeed,
        table,
        game,
        caller,
        game.shuffle_random,
        allowances,
    )
}

/// Lets `target` decrypt the seed from which the deal was drawn, so that
/// the deal can be audited. The result is the grant to request from the
/// service; no record changes.
pub fn handler(
    table: &PokerTable,
    game: &PokerGame,
    caller: Address,
    target: Address,
    allowances: usize,
) -> (r: Result<Grant, PokerError>)
    ensures
        match r {
            Ok(g) => outcome(*table, *game, caller, allowances) is Ok && g == (Grant {
                handle: game.shuffle_random,
                grantee: target,
            }),
            Err(e) => outcome(*table, *game, caller, allowances) == Err::<(), PokerError>(e),
        },
{
    audit_grant(
        Operation::RevealShuffleSeed,
        table,
        game,
        caller,
        target,
        game.shuffle_random,
        allowances,
    )
}

} // verus!
