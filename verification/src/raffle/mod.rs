use crate::address::Address;
use crate::handle::EncryptedHandle;
use vstd::prelude::*;

pub mod buy_ticket;
pub mod check_winner;
pub mod create_raffle;
pub mod draw_winner;
pub mod withdraw_prize;

verus! {

/// Why an operation of a raffle was refused. Every refusal leaves all
/// records as they were.
#[derive(Clone, Copy, Debug, PartialEq, Eq, Structural)]
pub enum RaffleError {
    /// The raffle takes no more tickets, or has been drawn already.
    RaffleClosed,
    /// The raffle has not been drawn.
    RaffleStillOpen,
    /// The raffle has no winning number.
    NoWinningNumber,
    /// The raffle has no participants.
    NoParticipants,
    /// The caller does not own the ticket.
    NotOwner,
    /// The ticket, or the prize, has been claimed already.
    AlreadyClaimed,
    /// The ticket has not been compared with the winning number.
    NotChecked,
    /// The ticket has not been claimed.
    NotClaimed,
    /// The ticket did not win.
    NotWinner,
    /// The caller is not the raffle's authority.
    Unauthorized,
    /// The vault holds nothing.
    NoFunds,
}

/// The lowest number that can be guessed and drawn.
pub const LOWEST_NUMBER: u128 = 1;

/// How many numbers can be guessed and drawn: those from 1 to 100.
pub const NUMBER_COUNT: u128 = 100;

/// A raffle: players buy tickets with an encrypted guess, the authority has
/// a number drawn, and the first ticket that proves its guess right takes
/// the vault.
#[derive(Clone, Copy, Debug, PartialEq, Eq)]
pub struct Raffle {
    pub authority: Address,
    pub raffle_id: u64,
    pub ticket_price: u64,
    pub participant_count: u32,
    /// Whether tickets can still be bought.
    pub is_open: bool,
    /// Whether a winner has taken the prize.
    pub prize_claimed: bool,
    /// The handle of the winning number, once it is drawn.
    pub winning_number_handle: EncryptedHandle,
}

/// A ticket of a raffle.
#[derive(Clone, Copy, Debug, PartialEq, Eq)]
pub struct Ticket {
    /// The address of the raffle that the ticket belongs to.
    pub raffle: Address,
    pub owner: Address,
    /// The handle of the guess.
    pub guess_handle: EncryptedHandle,
    /// The handle of the comparison of the guess with the winning number,
    /// once it is made.
    pub is_winner_handle: EncryptedHandle,
    /// Whether the ticket has taken the prize.
    pub claimed: bool,
}

} // verus!
