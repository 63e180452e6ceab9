use crate::address::Address;
use crate::handle::EncryptedHandle;
use crate::raffle::{Raffle, RaffleError, Ticket};
use vstd::prelude::*;

verus! {

/// The ticket that a buyer gets: it names the raffle, the buyer and the
/// guess, and is neither compared nor claimed.
pub open spec fn issued(raffle_key: Address, buyer: Address, guess: EncryptedHandle) -> Ticket {
    Ticket {
        raffle: raffle_key,
        owner: buyer,
        guess_handle: guess,
        is_winner_handle: EncryptedHandle::empty_spec(),
        claimed: false,
    }
}

/// Tells whether the raffle sells tickets: it does while it is open.
pub fn check_open(raffle: &Raffle) -> (r: Result<(), RaffleError>)
    ensures
        raffle.is_open ==> r is Ok,
        !raffle.is_open ==> r == Err::<(), RaffleError>(RaffleError::RaffleClosed),
{
    if raffle.is_open {
        Ok(())
    } else {
        Err(RaffleError::RaffleClosed)
    }
}

/// Sells a ticket of an open raffle and counts the buyer. `guess` is the
/// handle that the service has made of the buyer's encrypted guess; the
/// caller has the ledger move the ticket price into the vault.
pub fn handler(raffle: &mut Raffle, raffle_key: Address, buyer: Address, guess: EncryptedHandle)
    -> (r: Result<Ticket, RaffleError>)
    requires
        old(raffle).participant_count < u32::MAX,
    ensures
        old(raffle).is_open ==> r == Ok::<Ticket, RaffleError>(issued(raffle_key, buyer, guess))
            && *final(raffle) == (Raffle {
            participant_count: (old(raffle).participant_count + 1) as u32,
            ..*old(raffle)
        }),
        !old(raffle).is_open ==> r == Err::<Ticket, RaffleError>(RaffleError::RaffleClosed)
            && *final(raffle) == *old(raffle),
{
    if !raffle.is_open {
        return Err(RaffleError::RaffleClosed);
    }
    raffle.participant_count = raffle.participant_count + 1;
    Ok(
        Ticket {
            raffle: raffle_key,
            owner: buyer,
            guess_handle: guess,
            is_winner_handle: EncryptedHandle::empty(),
            claimed: false,
        },
    )
}

} // verus!
