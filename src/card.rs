use vstd::prelude::*;
use crate::key::Key;

verus! {

/// The four card tiers on sale.
#[derive(Clone, Copy, Debug, PartialEq, Eq, Structural)]
pub enum CardType {
    Bronze,
    Silver,
    Gold,
    Platinum,
}

/// Whether a card is still in use; a fresh card is `Active`.
#[derive(Clone, Copy, Debug, PartialEq, Eq, Structural)]
pub enum AccountStatus {
    Active,
    Inactive,
}

/// Every way an operation of the program can fail. A failed operation
/// changes nothing.
#[derive(Clone, Copy, Debug, PartialEq, Eq, Structural)]
pub enum ErrorCode {
    /// The caller is not the signer the operation needs: the card's owner or
    /// the administrator.
    Unauthorized,
    /// The payment is below the price of the chosen tier.
    InsufficientPayment,
    /// A balance is too small for the amount to be moved out of it.
    InsufficientFunds,
    /// A balance would overflow.
    ArithmeticError,
    /// A card account already exists for this owner.
    DuplicateAccount,
    /// No card account exists at the given address.
    AccountNotInitialized,
}

pub const BRONZE_PRICE: u64 = 125_000_000;

pub const SILVER_PRICE: u64 = 250_000_000;

pub const GOLD_PRICE: u64 = 500_000_000;

pub const PLATINUM_PRICE: u64 = 1_000_000_000;

/// The payment, in lamports, that a tier requires.
pub open spec fn price_of(card_type: CardType) -> u64 {
    match card_type {
        CardType::Bronze => BRONZE_PRICE,
        CardType::Silver => SILVER_PRICE,
        CardType::Gold => GOLD_PRICE,
        CardType::Platinum => PLATINUM_PRICE,
    }
}

/// Looks up the price of a tier.
pub fn price_for(card_type: CardType) -> (r: u64)
    ensures
        r == price_of(card_type),
{
    match card_type {
        CardType::Bronze => BRONZE_PRICE,
        CardType::Silver => SILVER_PRICE,
        CardType::Gold => GOLD_PRICE,
        CardType::Platinum => PLATINUM_PRICE,
    }
}

/// The record stored for each owner: what was bought and what was paid and
/// minted for it. `amount_paid` and `tokens_minted` are written at purchase
/// and never changed afterwards, a withdrawal included.
#[derive(Clone, Copy, Debug)]
pub struct UserCardAccount {
    pub owner: Key,
    pub card_type: CardType,
    pub amount_paid: u64,
    pub tokens_minted: u64,
    pub status: AccountStatus,
}

impl UserCardAccount {
    /// Stored size of the record: an 8-byte discriminator, the 32-byte
    /// owner, the tier tag, the two amounts and the status tag.
    pub const SPACE: usize = 58;

    /// The outcome of `upgrade` by `caller`.
    pub open spec fn upgrade_spec(self, caller: Key, new_type: CardType) -> Result<UserCardAccount, ErrorCode> {
        if caller@ != self.owner@ {
            Err(ErrorCode::Unauthorized)
        } else {
            Ok(UserCardAccount { card_type: new_type, ..self })
        }
    }

    /// The outcome of `deactivate` by `caller`.
    pub open spec fn deactivate_spec(self, caller: Key) -> Result<UserCardAccount, ErrorCode> {
        if caller@ != self.owner@ {
            Err(ErrorCode::Unauthorized)
        } else {
            Ok(UserCardAccount { status: AccountStatus::Inactive, ..self })
        }
    }

    /// Sets the tier, if `caller` is the owner. The new tier is not charged
    /// for: no payment is checked or taken.
    pub fn upgrade(&mut self, caller: &Key, new_type: CardType) -> (r: Result<(), ErrorCode>)
        ensures
            match old(self).upgrade_spec(*caller, new_type) {
                Ok(a) => r == Ok::<(), ErrorCode>(()) && *final(self) == a,
                Err(e) => r == Err::<(), ErrorCode>(e) && *final(self) == *old(self),
            },
    {
        if *caller != self.owner {
            return Err(ErrorCode::Unauthorized);
        }
        self.card_type = new_type;
        Ok(())
    }

    /// Marks the card `Inactive`, if `caller` is the owner. Deactivating an
    /// inactive card succeeds and changes nothing.
    pub fn deactivate(&mut self, caller: &Key) -> (r: Result<(), ErrorCode>)
        ensures
            match old(self).deactivate_spec(*caller) {
                Ok(a) => r == Ok::<(), ErrorCode>(()) && *final(self) == a,
                Err(e) => r == Err::<(), ErrorCode>(e) && *final(self) == *old(self),
            },
    {
        if *caller != self.owner {
            return Err(ErrorCode::Unauthorized);
        }
        self.status = AccountStatus::Inactive;
        Ok(())
    }
}

} // verus!
