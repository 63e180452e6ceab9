//! The rules of a poker table with confidential cards.
//!
//! A table seats two to five players, who buy in with currency that the
//! table pools in its vault. A game deals fifteen encrypted cards in eight
//! batches, routes the hole cards to the seats through a permutation drawn
//! from a seed, and ends with a settlement that pays the pot once, or with
//! a refund of the seats that are named.
//!
//! Every operation is a function from the records it is given to the
//! records as they are afterwards, together with what the caller has to ask
//! of the ledger (a payment) or of the confidential-compute service (a
//! grant). An operation that is refused changes nothing.
//!
//! A table runs in one of two modes, chosen at its creation:
//! `GameMode::Staged` walks through the seven stages of `GameStage` under
//! the authority of the table's operator, and `GameMode::Delegated` leaves
//! the betting to the table's backend and shows the three stages of
//! `SimpleStage`.
//!
//! The module `raffle` holds the rules of a number raffle that uses the
//! same handles.

pub mod address;
pub mod advance_stage;
pub mod authority;
pub mod bits;
pub mod conservation;
pub mod constants;
pub mod create_table;
pub mod error;
pub mod handle;
pub mod join_table;
pub mod leave_table;
pub mod ledger;
pub mod process_cards;
pub mod raffle;
pub mod refund_all;
pub mod reveal_card_offset;
pub mod reveal_community;
pub mod reveal_hand;
pub mod reveal_shuffle_random;
pub mod settle_game;
pub mod start_game;
pub mod state;
pub mod update_round;
