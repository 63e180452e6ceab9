use crate::address::Address;
use crate::error::PokerError;
use crate::handle::EncryptedHandle;
use vstd::prelude::*;

verus! {

/// The pooled balance of one table: what its players have paid in and not
/// yet been paid out. It changes through `deposit` and `withdraw` alone.
#[derive(Clone, Copy, Debug, PartialEq, Eq, Structural)]
pub struct Vault {
    balance: u64,
}

impl Vault {
    /// The currency held.
    pub closed spec fn amount(&self) -> nat {
        self.balance as nat
    }

    /// The vault that holds `balance`.
    pub closed spec fn of(balance: u64) -> Vault {
        Vault { balance }
    }

    pub broadcast proof fn lemma_of_amount(balance: u64)
        ensures
            #[trigger] Vault::of(balance).amount() == balance,
    {
    }

    pub broadcast proof fn lemma_amount_bounded(self)
        ensures
            #[trigger] self.amount() <= u64::MAX,
    {
    }

    /// Two vaults that hold the same are the same.
    pub broadcast proof fn lemma_amount_injective(a: Vault, b: Vault)
        requires
            #[trigger] a.amount() == #[trigger] b.amount(),
        ensures
            a == b,
    {
    }

    /// A vault that holds what the ledger reports.
    pub fn holding(balance: u64) -> (v: Vault)
        ensures
            v == Vault::of(balance),
            v.amount() == balance,
    {
        Vault { balance }
    }

    pub fn balance(&self) -> (b: u64)
        ensures
            b == self.amount(),
    {
        self.balance
    }

    /// Whether the vault can take `amount` more.
    pub fn can_hold(&self, amount: u64) -> (r: bool)
        ensures
            r == (self.amount() + amount <= u64::MAX),
    {
        amount <= u64::MAX - self.balance
    }

    /// Whether the vault can pay `amount`.
    pub fn can_pay(&self, amount: u64) -> (r: bool)
        ensures
            r == (amount <= self.amount()),
    {
        amount <= self.balance
    }

    /// Moves `amount` into the vault, unless the balance would leave the
    /// range of the ledger's currency.
    pub fn deposit(&mut self, amount: u64) -> (r: Result<(), PokerError>)
        ensures
            old(self).amount() + amount <= u64::MAX ==> r is Ok && *final(self) == Vault::of(
                (old(self).amount() + amount) as u64,
            ),
            old(self).amount() + amount > u64::MAX ==> r == Err::<(), PokerError>(
                PokerError::VaultOutOfRange,
            ) && *final(self) == *old(self),
    {
        if amount > u64::MAX - self.balance {
            return Err(PokerError::VaultOutOfRange);
        }
        self.balance = self.balance + amount;
        Ok(())
    }

    /// Moves `amount` out of the vault, unless it holds less: the balance
    /// never falls below zero.
    pub fn withdraw(&mut self, amount: u64) -> (r: Result<(), PokerError>)
        ensures
            amount <= old(self).amount() ==> r is Ok && *final(self) == Vault::of(
                (old(self).amount() - amount) as u64,
            ),
            amount > old(self).amount() ==> r == Err::<(), PokerError>(
                PokerError::VaultOutOfRange,
            ) && *final(self) == *old(self),
    {
        if amount > self.balance {
            return Err(PokerError::VaultOutOfRange);
        }
        self.balance = self.balance - amount;
        Ok(())
    }
}

/// An instruction to the ledger: pay `amount` from the table's pooled balance
/// to the account `to`. The library has taken the amount out of its vault
/// already.
#[derive(Clone, Copy, Debug, PartialEq, Eq)]
pub struct Payout {
    pub to: Address,
    pub amount: u64,
}

/// An instruction to the confidential-compute service: let `grantee` decrypt
/// the value behind `handle`.
#[derive(Clone, Copy, Debug, PartialEq, Eq)]
pub struct Grant {
    pub handle: EncryptedHandle,
    pub grantee: Address,
}

pub broadcast group group_vault {
    Vault::lemma_of_amount,
    Vault::lemma_amount_bounded,
    Vault::lemma_amount_injective,
}

} // verus!
