use crate::address::Address;
use crate::constants::MAX_PLAYERS;
use vstd::prelude::*;

verus! {

/// One player's place at a table: the chips and the flags of the hand.
#[derive(Clone, Copy, Debug, PartialEq, Eq)]
pub struct PlayerSeat {
    /// The table that the seat belongs to.
    pub table: Address,
    /// The game that the seat is attached to, or the all-zero address.
    pub game: Address,
    /// The player who owns the seat.
    pub player: Address,
    pub seat_index: u8,
    pub chips: u64,
    /// The seat's bet in the current betting round.
    pub current_bet: u64,
    /// The seat's bets of all rounds of the hand.
    pub total_bet: u64,
    pub is_folded: bool,
    pub is_all_in: bool,
    pub has_acted: bool,
}

impl PlayerSeat {
    /// The invariant of a seat record.
    pub open spec fn wf(&self) -> bool {
        self.seat_index < MAX_PLAYERS
    }

    pub fn is_well_formed(&self) -> (r: bool)
        ensures
            r == self.wf(),
    {
        self.seat_index < MAX_PLAYERS
    }
}

/// The chips of a list of seats, added up.
pub open spec fn chips_total(seats: Seq<PlayerSeat>) -> nat
    decreases seats.len(),
{
    if seats.len() == 0 {
        0
    } else {
        chips_total(seats.drop_last()) + seats.last().chips as nat
    }
}

} // verus!
