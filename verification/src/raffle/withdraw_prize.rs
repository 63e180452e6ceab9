use crate::address::Address;
use crate::raffle::{Raffle, RaffleError, Ticket};
use vstd::prelude::*;

verus! {

/// The text `false`.
pub open spec fn text_false() -> Seq<u8> {
    seq![102u8, 97u8, 108u8, 115u8, 101u8]
}

/// The text `true`.
pub open spec fn text_true() -> Seq<u8> {
    seq![116u8, 114u8, 117u8, 101u8]
}

/// Whether a byte counts as set: it is neither the zero byte nor the digit
/// `0`.
pub open spec fn counts(b: u8) -> bool {
    b != 0 && b != 48
}

/// What a decrypted truth value says. The texts `0` and `false` say no,
/// the texts `1` and `true` say yes, and any other plaintext says yes if
/// one of its bytes counts as set; a number in little-endian order is read
/// this way.
pub open spec fn plaintext_says_yes(plaintext: Seq<u8>) -> bool {
    if plaintext == seq![48u8] || plaintext == text_false() {
        false
    } else if plaintext == seq![49u8] || plaintext == text_true() {
        true
    } else {
        exists|i: int| 0 <= i < plaintext.len() && counts(#[trigger] plaintext[i])
    }
}

/// The checks on a claim that need no plaintext: the caller owns the
/// ticket, the ticket has been compared, and neither ticket nor prize has
/// been claimed.
pub open spec fn eligible(raffle: Raffle, ticket: Ticket, caller: Address) -> Result<
    (),
    RaffleError,
> {
    if ticket.owner != caller {
        Err(RaffleError::NotOwner)
    } else if ticket.is_winner_handle.raw() == 0 {
        Err(RaffleError::NotChecked)
    } else if ticket.claimed || raffle.prize_claimed {
        Err(RaffleError::AlreadyClaimed)
    } else {
        Ok(())
    }
}

/// The decision on a claim: the first check that fails names the refusal.
pub open spec fn outcome(
    raffle: Raffle,
    ticket: Ticket,
    caller: Address,
    plaintext: Seq<u8>,
    vault_balance: u64,
) -> Result<(), RaffleError> {
    if eligible(raffle, ticket, caller) is Err {
        eligible(raffle, ticket, caller)
    } else if !plaintext_says_yes(plaintext) {
        Err(RaffleError::NotWinner)
    } else if vault_balance == 0 {
        Err(RaffleError::NoFunds)
    } else {
        Ok(())
    }
}

fn matches_text(plaintext: &[u8], text: &Vec<u8>) -> (r: bool)
    ensures
        r == (plaintext@ == text@),
{
    if plaintext.len() != text.len() {
        return false;
    }
    let mut i: usize = 0;
    while i < plaintext.len()
        invariant
            i <= plaintext@.len(),
            plaintext@.len() == text@.len(),
            forall|j: int| 0 <= j < i ==> plaintext@[j] == text@[j],
        decreases plaintext@.len() - i,
    {
        if plaintext[i] != text[i] {
            return false;
        }
        i += 1;
    }
    assert(plaintext@ =~= text@);
    true
}

/// Reads a decrypted truth value.
#[verifier::loop_isolation(false)]
pub fn parse_plaintext_to_bool(plaintext: &[u8]) -> (r: bool)
    ensures
        r == plaintext_says_yes(plaintext@),
{
    let zero: Vec<u8> = vec![48u8];
    let one: Vec<u8> = vec![49u8];
    let no: Vec<u8> = vec![102u8, 97u8, 108u8, 115u8, 101u8];
    let yes: Vec<u8> = vec![116u8, 114u8, 117u8, 101u8];
    assert(zero@ =~= seq![48u8]);
    assert(one@ =~= seq![49u8]);
    assert(no@ =~= text_false());
    assert(yes@ =~= text_true());
    if matches_text(plaintext, &zero) || matches_text(plaintext, &no) {
        return false;
    }
    if matches_text(plaintext, &one) || matches_text(plaintext, &yes) {
        return true;
    }
    let mut i: usize = 0;
    while i < plaintext.len()
        invariant
            i <= plaintext@.len(),
            forall|j: int| 0 <= j < i ==> !counts(#[trigger] plaintext@[j]),
        decreases plaintext@.len() - i,
    {
        if plaintext[i] != 0 && plaintext[i] != 48 {
            assert(counts(plaintext@[i as int]));
            return true;
        }
        i += 1;
    }
    false
}

/// Tells whether `caller` may claim with this ticket, before any plaintext
/// is looked at. Nothing changes.
pub fn check(raffle: &Raffle, ticket: &Ticket, caller: Address) -> (r: Result<(), RaffleError>)
    ensures
        r == eligible(*raffle, *ticket, caller),
{
    if ticket.owner != caller {
        return Err(RaffleError::NotOwner);
    }
    if !ticket.is_winner_handle.is_initialized() {
        return Err(RaffleError::NotChecked);
    }
    if ticket.claimed || raffle.prize_claimed {
        return Err(RaffleError::AlreadyClaimed);
    }
    Ok(())
}

/// Pays the prize to the first ticket that won. `plaintext` is the
/// decryption of the ticket's comparison, which the caller has had the
/// service verify; `vault_balance` is what the vault holds. The result is
/// the prize, the whole of the vault, which the caller has the ledger pay
/// to the ticket's owner.
pub fn handler(
    raffle: &mut Raffle,
    ticket: &mut Ticket,
    caller: Address,
    plaintext: &[u8],
    vault_balance: u64,
) -> (r: Result<u64, RaffleError>)
    ensures
        match r {
            Ok(prize) => outcome(*old(raffle), *old(ticket), caller, plaintext@, vault_balance)
                is Ok && prize == vault_balance && *final(raffle) == (Raffle {
                prize_claimed: true,
                ..*old(raffle)
            }) && *final(ticket) == (Ticket { claimed: true, ..*old(ticket) }),
            Err(e) => outcome(*old(raffle), *old(ticket), caller, plaintext@, vault_balance)
                == Err::<(), RaffleError>(e) && *final(raffle) == *old(raffle) && *final(ticket)
                == *old(ticket),
        },
{
    match check(raffle, ticket, caller) {
        Err(e) => {
            return Err(e);
        },
        Ok(()) => {},
    }
    if !parse_plaintext_to_bool(plaintext) {
        return Err(RaffleError::NotWinner);
    }
    if vault_balance == 0 {
        return Err(RaffleError::NoFunds);
    }
    ticket.claimed = true;
    raffle.prize_claimed = true;
    Ok(vault_balance)
}

} // verus!
