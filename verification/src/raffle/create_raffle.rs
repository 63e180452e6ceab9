use crate::address::Address;
use crate::handle::EncryptedHandle;
use crate::raffle::Raffle;
use vstd::prelude::*;

verus! {

/// The raffle that `handler` creates: open, without participants, without
/// a winning number, its prize unclaimed.
pub open spec fn created(authority: Address, raffle_id: u64, ticket_price: u64) -> Raffle {
    Raffle {
        authority,
        raffle_id,
        ticket_price,
        participant_count: 0,
        is_open: true,
        prize_claimed: false,
        winning_number_handle: EncryptedHandle::empty_spec(),
    }
}

/// Creates a raffle that `authority` runs.
pub fn handler(authority: Address, raffle_id: u64, ticket_price: u64) -> (r: Raffle)
    ensures
        r == created(authority, raffle_id, ticket_price),
{
    Raffle {
        authority,
        raffle_id,
        ticket_price,
        participant_count: 0,
        is_open: true,
        prize_claimed: false,
        winning_number_handle: EncryptedHandle::empty(),
    }
}

} // verus!
