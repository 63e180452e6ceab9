use crate::handle::EncryptedHandle;
use crate::raffle::{Raffle, RaffleError, Ticket};
use vstd::prelude::*;

verus! {

/// The decision on a comparison: the raffle must be closed and drawn.
pub open spec fn outcome(raffle: Raffle) -> Result<(), RaffleError> {
    if raffle.is_open {
        Err(RaffleError::RaffleStillOpen)
    } else if raffle.winning_number_handle.raw() == 0 {
        Err(RaffleError::NoWinningNumber)
    } else {
        Ok(())
    }
}

/// Names the two handles that the service has to compare for a ticket:
/// the guess first, the winning number second. Nothing changes.
pub fn operands(raffle: &Raffle, ticket: &Ticket) -> (r: Result<
    (EncryptedHandle, EncryptedHandle),
    RaffleError,
>)
    ensures
        match r {
            Ok(pair) => outcome(*raffle) is Ok && pair == (
                ticket.guess_handle,
                raffle.winning_number_handle,
            ),
            Err(e) => outcome(*raffle) == Err::<(), RaffleError>(e),
        },
{
    if raffle.is_open {
        return Err(RaffleError::RaffleStillOpen);
    }
    if !raffle.winning_number_handle.is_initialized() {
        return Err(RaffleError::NoWinningNumber);
    }
    Ok((ticket.guess_handle, raffle.winning_number_handle))
}

/// Records on the ticket the handle of the comparison of its guess with
/// the winning number.
pub fn handler(raffle: &Raffle, ticket: &mut Ticket, is_winner: EncryptedHandle) -> (r: Result<
    (),
    RaffleError,
>)
    ensures
        r == outcome(*raffle),
        r is Ok ==> *final(ticket) == (Ticket { is_winner_handle: is_winner, ..*old(ticket) }),
        r is Err ==> *final(ticket) == *old(ticket),
{
    if raffle.is_open {
        return Err(RaffleError::RaffleStillOpen);
    }
    if !raffle.winning_number_handle.is_initialized() {
        return Err(RaffleError::NoWinningNumber);
    }
    ticket.is_winner_handle = is_winner;
    Ok(())
}

} // verus!
