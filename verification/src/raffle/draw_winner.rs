use crate::address::Address;
use crate::handle::EncryptedHandle;
use crate::raffle::{Raffle, RaffleError};
use vstd::prelude::*;

verus! {

/// The decision on a draw: the authority alone draws, and an open raffle
/// alone is drawn.
pub open spec fn outcome(raffle: Raffle, caller: Address) -> Result<(), RaffleError> {
    if raffle.authority != caller {
        Err(RaffleError::Unauthorized)
    } else if !raffle.is_open {
        Err(RaffleError::RaffleClosed)
    } else {
        Ok(())
    }
}

/// Tells whether `caller` can have the raffle drawn now. Nothing changes.
pub fn check(raffle: &Raffle, caller: Address) -> (r: Result<(), RaffleError>)
    ensures
        r == outcome(*raffle, caller),
{
    if raffle.authority != caller {
        return Err(RaffleError::Unauthorized);
    }
    if !raffle.is_open {
        return Err(RaffleError::RaffleClosed);
    }
    Ok(())
}

/// Closes the raffle and records the winning number. `winning_number` is
/// the handle of a number from `LOWEST_NUMBER` on, of which there are
/// `NUMBER_COUNT`, that the service has drawn at random: neither the
/// authority nor anyone else chooses or sees it.
pub fn handler(raffle: &mut Raffle, caller: Address, winning_number: EncryptedHandle) -> (r: Result<
    (),
    RaffleError,
>)
    ensures
        r == outcome(*old(raffle), caller),
        r is Ok ==> *final(raffle) == (Raffle {
            is_open: false,
            winning_number_handle: winning_number,
            ..*old(raffle)
        }),
        r is Err ==> *final(raffle) == *old(raffle),
{
    match check(raffle, caller) {
        Err(e) => {
            return Err(e);
        },
        Ok(()) => {},
    }
    raffle.is_open = false;
    raffle.winning_number_handle = winning_number;
    Ok(())
}

} // verus!
