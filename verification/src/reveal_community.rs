use crate::address::Address;
use crate::authority::{authorize, permitted, Operation};
use crate::constants::COMMUNITY_CARDS;
use crate::error::PokerError;
use crate::ledger::Grant;
use crate::state::{PokerGame, PokerTable};
use vstd::prelude::*;

verus! {

/// Whether each of the five community handles refers to a value.
pub open spec fn community_dealt(game: PokerGame) -> bool {
    forall|i: int| 0 <= i < 5 ==> (#[trigger] game.community_cards[i]).raw() != 0
}

/// The decision on a request to reveal the community cards: the first
/// check that fails names the refusal.
pub open spec fn outcome(
    table: PokerTable,
    game: PokerGame,
    caller: Address,
    frontend: Address,
    allowances: usize,
) -> Result<(), PokerError> {
    if !table.wf() || !game.wf() {
        Err(PokerError::InconsistentState)
    } else if !game.belongs_to(table) {
        Err(PokerError::NoActiveGame)
    } else if permitted(Operation::RevealCommunity, table, caller, caller) is Err {
        permitted(Operation::RevealCommunity, table, caller, caller)
    } else if !game.cards_processed {
        Err(PokerError::CardsNotProcessed)
    } else if game.frontend_account.is_unset() || frontend != game.frontend_account {
        Err(PokerError::FrontendAccountNotSet)
    } else if allowances < COMMUNITY_CARDS {
        Err(PokerError::MissingAllowanceAccounts)
    } else if !community_dealt(game) {
        Err(PokerError::HandleNotInitialized)
    } else {
        Ok(())
    }
}

/// The grants of a reveal: one for each community card, in the order of
/// the cards, to the viewer that the game has registered.
pub open spec fn grants(game: PokerGame) -> Seq<Grant> {
    Seq::new(
        5,
        |i: int| Grant { handle: game.community_cards[i], grantee: game.frontend_account },
    )
}

/// Lets the viewer that the game has registered decrypt all five community
/// cards, to show them as the hand goes on. `frontend` is the viewer that
/// the caller means. The result lists the grants to request from the
/// service; no record changes.
#[verifier::loop_isolation(false)]
pub fn handler(
    table: &PokerTable,
    game: &PokerGame,
    caller: Address,
    frontend: Address,
    allowances: usize,
) -> (r: Result<Vec<Grant>, PokerError>)
    ensures
        match r {
            Ok(g) => outcome(*table, *game, caller, frontend, allowances) is Ok && g@ == grants(
                *game,
            ),
            Err(e) => outcome(*table, *game, caller, frontend, allowances) == Err::<
                (),
                PokerError,
            >(e),
        },
{
    if !table.is_well_formed() || !game.is_well_formed() {
        return Err(PokerError::InconsistentState);
    }
    if !game.is_game_of(table) {
        return Err(PokerError::NoActiveGame);
    }
    match authorize(Operation::RevealCommunity, table, &caller, &caller) {
        Err(e) => {
            return Err(e);
        },
        Ok(()) => {},
    }
    if !game.cards_processed {
        return Err(PokerError::CardsNotProcessed);
    }
    if game.frontend_account.is_zero() || frontend != game.frontend_account {
        return Err(PokerError::FrontendAccountNotSet);
    }
    if allowances < COMMUNITY_CARDS as usize {
        return Err(PokerError::MissingAllowanceAccounts);
    }
    let mut list: Vec<Grant> = Vec::new();
    let mut i: usize = 0;
    while i < 5
        invariant
            i <= 5,
            list@.len() == i,
            forall|j: int| 0 <= j < i ==> (#[trigger] game.community_cards[j]).raw() != 0,
            forall|j: int| 0 <= j < i ==> #[trigger] list@[j] == grants(*game)[j],
        decreases 5 - i,
    {
        let handle = game.community_cards[i];
        if !handle.is_initialized() {
            assert(game.community_cards[i as int].raw() == 0);
            return Err(PokerError::HandleNotInitialized);
        }
        list.push(Grant { handle, grantee: game.frontend_account });
        i += 1;
    }
    assert(list@ =~= grants(*game));
    Ok(list)
}

} // verus!
