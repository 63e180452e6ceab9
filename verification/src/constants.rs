use vstd::prelude::*;

verus! {

/// Largest number of seats a table can be configured with.
pub const MAX_PLAYERS: u8 = 5;

/// Smallest number of seated players with which a hand can start.
pub const MIN_PLAYERS: u8 = 2;

/// Hole cards dealt to every seat.
pub const HOLE_CARDS_PER_PLAYER: u8 = 2;

/// Community cards dealt per hand.
pub const COMMUNITY_CARDS: u8 = 5;

/// Card slots used by one hand: ten hole cards and five community cards.
pub const TOTAL_CARDS_NEEDED: u8 = 15;

/// Small blind as a multiple of the table's configured small blind.
pub const SMALL_BLIND_MULTIPLIER: u64 = 1;

/// Big blind as a multiple of the table's configured small blind.
pub const BIG_BLIND_MULTIPLIER: u64 = 2;

} // verus!
