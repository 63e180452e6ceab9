use crate::address::Address;
use crate::authority::{authorize, permitted, Operation};
use crate::error::PokerError;
use crate::handle::EncryptedHandle;
use crate::ledger::Grant;
use crate::state::poker_game::lemma_pair_exists;
use crate::state::{PlayerSeat, PokerGame, PokerTable};
use vstd::prelude::*;

verus! {

/// The hole cards that a reveal grants: both, or as many as the caller
/// brings grant records for.
pub open spec fn granted_count(allowances: usize) -> int {
    if allowances >= 2 {
        2
    } else {
        allowances as int
    }
}

/// The handles of the seat's hole cards, first and second. The seat's pair
/// is the position `p` at which the permutation holds the seat's index, and
/// its cards are kept at `2 * p` and `2 * p + 1`.
pub open spec fn hand_of(game: PokerGame, seat: PlayerSeat) -> Seq<EncryptedHandle> {
    match game.hole_cards(seat.seat_index) {
        Some((first, second)) => seq![first, second],
        None => Seq::<EncryptedHandle>::empty(),
    }
}

/// The decision on a request to reveal a hand: the first check that fails
/// names the refusal. Each handle to be granted must refer to a value.
pub open spec fn outcome(
    table: PokerTable,
    game: PokerGame,
    seat: PlayerSeat,
    caller: Address,
    player: Address,
    allowances: usize,
) -> Result<(), PokerError> {
    if !table.wf() || !game.wf() || !seat.wf() {
        Err(PokerError::InconsistentState)
    } else if !game.belongs_to(table) {
        Err(PokerError::NoActiveGame)
    } else if permitted(Operation::RevealHand, table, caller, caller) is Err {
        permitted(Operation::RevealHand, table, caller, caller)
    } else if !game.cards_processed {
        Err(PokerError::CardsNotProcessed)
    } else if seat.table != table.key || seat.player != player {
        Err(PokerError::PlayerNotAtTable)
    } else if seat.is_folded {
        Err(PokerError::PlayerFolded)
    } else if !table.occupied(seat.seat_index) {
        Err(PokerError::InvalidSeatIndex)
    } else if exists|k: int|
        0 <= k < granted_count(allowances) && (#[trigger] hand_of(game, seat)[k]).raw() == 0 {
        Err(PokerError::HandleNotInitialized)
    } else {
        Ok(())
    }
}

/// The grants of a reveal: the seat's hole cards, in their order, to the
/// seat's own player.
pub open spec fn grants(game: PokerGame, seat: PlayerSeat, allowances: usize) -> Seq<Grant> {
    Seq::new(
        granted_count(allowances) as nat,
        |k: int| Grant { handle: hand_of(game, seat)[k], grantee: seat.player },
    )
}

/// Lets the player of a seat decrypt the seat's hole cards. The result
/// lists the grants to request from the service; no record changes.
pub fn handler(
    table: &PokerTable,
    game: &PokerGame,
    seat: &PlayerSeat,
    caller: Address,
    player: Address,
    allowances: usize,
) -> (r: Result<Vec<Grant>, PokerError>)
    ensures
        match r {
            Ok(g) => outcome(*table, *game, *seat, caller, player, allowances) is Ok && g@
                == grants(*game, *seat, allowances),
            Err(e) => outcome(*table, *game, *seat, caller, player, allowances) == Err::<
                (),
                PokerError,
            >(e),
        },
{
    if !table.is_well_formed() || !game.is_well_formed() || !seat.is_well_formed() {
        return Err(PokerError::InconsistentState);
    }
    if !game.is_game_of(table) {
        return Err(PokerError::NoActiveGame);
    }
    match authorize(Operation::RevealHand, table, &caller, &caller) {
        Err(e) => {
            return Err(e);
        },
        Ok(()) => {},
    }
    if !game.cards_processed {
        return Err(PokerError::CardsNotProcessed);
    }
    if seat.table != table.key || seat.player != player {
        return Err(PokerError::PlayerNotAtTable);
    }
    if seat.is_folded {
        return Err(PokerError::PlayerFolded);
    }
    if !table.is_occupied(seat.seat_index) {
        return Err(PokerError::InvalidSeatIndex);
    }
    proof {
        lemma_pair_exists(game.shuffled_indices@, seat.seat_index);
    }
    let (first, second) = match game.get_player_hole_cards(seat.seat_index) {
        Some(cards) => cards,
        None => {
            return Err(PokerError::InvalidSeatIndex);
        },
    };
    assert(hand_of(*game, *seat) =~= seq![first, second]);
    let mut list: Vec<Grant> = Vec::new();
    if allowances >= 1 {
        if !first.is_initialized() {
            assert(hand_of(*game, *seat)[0].raw() == 0);
            return Err(PokerError::HandleNotInitialized);
        }
        list.push(Grant { handle: first, grantee: seat.player });
    }
    if allowances >= 2 {
        if !second.is_initialized() {
            assert(hand_of(*game, *seat)[1].raw() == 0);
            return Err(PokerError::HandleNotInitialized);
        }
        list.push(Grant { handle: second, grantee: seat.player });
    }
    assert(list@ =~= grants(*game, *seat, allowances));
    Ok(list)
}

} // verus!
