use crate::address::Address;
use crate::bits::{bit, bit_is_set, count_ones, popcount};
use crate::constants::{MAX_PLAYERS, MIN_PLAYERS};
use crate::ledger::Vault;
use crate::state::GameMode;
use vstd::prelude::*;

verus! {

/// The configuration of one table, its seat count and its pooled balance.
#[derive(Clone, Copy, Debug, PartialEq, Eq)]
pub struct PokerTable {
    /// Where the ledger keeps this record.
    pub key: Address,
    /// The operator, who created the table.
    pub admin: Address,
    /// The backend that runs a delegated table.
    pub backend: Address,
    pub table_id: u64,
    pub mode: GameMode,
    /// Seats the table has, 2 to 5.
    pub max_players: u8,
    pub buy_in_min: u64,
    pub buy_in_max: u64,
    pub small_blind: u64,
    /// The active game, if there is one.
    pub current_game: Option<Address>,
    /// Seats taken.
    pub player_count: u8,
    /// Bit `i` is set where the seat with index `i` is taken.
    pub seat_mask: u8,
    /// What the players have paid in and not been paid out.
    pub vault: Vault,
}

impl PokerTable {
    /// The invariant of a table record: the configuration is one that a
    /// table can have, no more seats are taken than the table has, and the
    /// seats taken are as many as `player_count` says, with indices below
    /// `max_players`.
    pub open spec fn wf(&self) -> bool {
        &&& MIN_PLAYERS <= self.max_players <= MAX_PLAYERS
        &&& self.player_count <= self.max_players
        &&& self.buy_in_min <= self.buy_in_max
        &&& self.small_blind > 0
        &&& popcount(self.seat_mask) == self.player_count
        &&& forall|i: u8| self.max_players <= i < 8 ==> !bit(self.seat_mask, i)
    }

    /// Whether the seat with index `i` is taken.
    pub open spec fn occupied(&self, i: u8) -> bool {
        bit(self.seat_mask, i)
    }

    /// Tests the invariant.
    pub fn is_well_formed(&self) -> (r: bool)
        ensures
            r == self.wf(),
    {
        if !(MIN_PLAYERS <= self.max_players && self.max_players <= MAX_PLAYERS
            && self.player_count <= self.max_players && self.buy_in_min <= self.buy_in_max
            && self.small_blind > 0 && count_ones(self.seat_mask) == self.player_count) {
            return false;
        }
        let mut i: u8 = self.max_players;
        while i < 8
            invariant
                self.max_players <= i <= 8,
                forall|j: u8| self.max_players <= j < i ==> !bit(self.seat_mask, j),
            decreases 8 - i,
        {
            if bit_is_set(self.seat_mask, i) {
                return false;
            }
            i += 1;
        }
        true
    }

    pub fn is_occupied(&self, i: u8) -> (r: bool)
        ensures
            r == self.occupied(i),
    {
        bit_is_set(self.seat_mask, i)
    }

    /// Whether `game` is the table's active game.
    pub open spec fn plays(&self, game: Address) -> bool {
        self.current_game == Some(game)
    }

    pub fn is_playing(&self, game: &Address) -> (r: bool)
        ensures
            r == self.plays(*game),
    {
        match &self.current_game {
            Some(g) => *g == *game,
            None => false,
        }
    }
}

} // verus!
