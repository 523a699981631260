//! The record of one stablecoin: what it is called, what backs it, and how
//! much of it is in circulation.

use vstd::prelude::*;
use crate::collateral::{checked_sizing, required_collateral};
use crate::error::StablecoinError;
use crate::identity::Identity;

verus! {

/// The most bytes that a display name may have.
pub const MAX_NAME_LEN: usize = 32;

/// The most bytes that a symbol may have.
pub const MAX_SYMBOL_LEN: usize = 8;

/// The collateral ratio that a new stablecoin is given, in basis points:
/// 102%.
pub const DEFAULT_COLLATERAL_RATIO: u64 = 10200;

/// The bytes of the length prefix that precedes each stored string.
pub const LENGTH_PREFIX_LEN: usize = 4;

/// The number of bytes that `text` takes once it is encoded.
pub open spec fn byte_len(text: Seq<char>) -> nat {
    vstd::utf8::encode_utf8(text).len()
}

/// What the check of a new stablecoin's name and symbol comes to. The name
/// is looked at first, so a name that is too long hides a symbol that is
/// too long.
pub open spec fn metadata_verdict(name: Seq<char>, symbol: Seq<char>) -> Result<
    (),
    StablecoinError,
> {
    if byte_len(name) > MAX_NAME_LEN {
        Err(StablecoinError::NameTooLong)
    } else if byte_len(symbol) > MAX_SYMBOL_LEN {
        Err(StablecoinError::SymbolTooLong)
    } else {
        Ok(())
    }
}

/// Checks the name and the symbol of a stablecoin that is about to be
/// created: at most 32 bytes of name and 8 bytes of symbol.
pub fn validate_initialize_stablecoin(name: &str, symbol: &str) -> (r: Result<(), StablecoinError>)
    ensures
        r == metadata_verdict(name@, symbol@),
{
    if name.as_bytes().len() > MAX_NAME_LEN {
        return Err(StablecoinError::NameTooLong);
    }
    if symbol.as_bytes().len() > MAX_SYMBOL_LEN {
        return Err(StablecoinError::SymbolTooLong);
    }
    Ok(())
}

/// The supply after `amount` is added to it, or `MathOverflow` where the sum
/// leaves the 64-bit range.
pub open spec fn supply_after_mint(supply: u64, amount: u64) -> Result<u64, StablecoinError> {
    if supply + amount <= u64::MAX {
        Ok((supply + amount) as u64)
    } else {
        Err(StablecoinError::MathOverflow)
    }
}

/// The supply after `amount` is taken from it, or `MathOverflow` where more
/// is taken than there is.
pub open spec fn supply_after_redeem(supply: u64, amount: u64) -> Result<u64, StablecoinError> {
    if amount <= supply {
        Ok((supply - amount) as u64)
    } else {
        Err(StablecoinError::MathOverflow)
    }
}

/// The durable record of one stablecoin.
#[derive(Clone, Debug, PartialEq, Eq)]
pub struct StablecoinData {
    /// The principal that set the stablecoin up.
    pub authority: Identity,
    /// The token that is issued.
    pub mint: Identity,
    pub name: String,
    pub symbol: String,
    pub target_currency: String,
    pub icon: String,
    /// The stablecoin that is minted and not yet redeemed.
    pub total_supply: u64,
    /// The collateral ratio in basis points, fixed when the record is made.
    pub collateral_ratio: u64,
    /// The token that is accepted as collateral.
    pub stablebond_mint: Identity,
    /// The oracle record that is consulted for the price.
    pub price_feed: Identity,
    /// The custody account that holds the collateral.
    pub vault: Identity,
    /// The derived authority over the custody account.
    pub vault_authority: Identity,
}

impl StablecoinData {
    /// The bytes set aside for a record: six identities and two numbers, and
    /// for the four strings their longest expected contents with a length
    /// prefix of four bytes each.
    pub const LEN: usize = 32 + 32 + 36 + 12 + 36 + 204 + 8 + 8 + 32 + 32 + 32 + 32;

    /// Whether the name and the symbol are as short as creation demands.
    pub open spec fn well_formed(&self) -> bool {
        byte_len(self.name@) <= MAX_NAME_LEN && byte_len(self.symbol@) <= MAX_SYMBOL_LEN
    }

    /// The bytes that the record takes when it is stored: 32 for each of the
    /// six identities, 8 for each of the two numbers, and for each of the
    /// four strings its bytes behind a length prefix of four.
    pub open spec fn encoded_len(&self) -> nat {
        6 * 32 + 2 * 8 + 4 * LENGTH_PREFIX_LEN as nat + byte_len(self.name@) + byte_len(
            self.symbol@,
        ) + byte_len(self.target_currency@) + byte_len(self.icon@)
    }

    /// Whether the record fits in the bytes that are set aside for it. One
    /// that does not cannot be stored.
    pub fn fits_reserved_space(&self) -> (fits: bool)
        ensures
            fits == (self.encoded_len() <= Self::LEN),
    {
        let name: usize = self.name.as_str().as_bytes().len();
        let symbol: usize = self.symbol.as_str().as_bytes().len();
        let target_currency: usize = self.target_currency.as_str().as_bytes().len();
        let icon: usize = self.icon.as_str().as_bytes().len();
        if name > Self::LEN || symbol > Self::LEN || target_currency > Self::LEN || icon
            > Self::LEN {
            return false;
        }
        6 * 32 + 2 * 8 + 4 * LENGTH_PREFIX_LEN + name + symbol + target_currency + icon
            <= Self::LEN
    }

    /// A record whose name and symbol passed the check at creation fits in
    /// the reserved space as long as its target currency has at most 32
    /// bytes and its icon at most 200.
    pub proof fn lemma_expected_metadata_fits(&self)
        requires
            self.well_formed(),
            byte_len(self.target_currency@) <= 32,
            byte_len(self.icon@) <= 200,
        ensures
            self.encoded_len() <= Self::LEN,
    {
    }

    /// Whether `other` is this record with nothing but the supply changed.
    pub open spec fn same_but_supply(&self, other: &StablecoinData) -> bool {
        *other == (StablecoinData { total_supply: other.total_supply, ..*self })
    }

    /// The collateral that stands behind `amount` units at this record's
    /// ratio, or `MathOverflow` where it does not fit in 64 bits.
    pub fn required_collateral(&self, amount: u64) -> (r: Result<u64, StablecoinError>)
        ensures
            r == checked_sizing(amount, self.collateral_ratio),
    {
        required_collateral(amount, self.collateral_ratio)
    }

    /// Adds `amount` to the supply. Where the sum would leave the 64-bit
    /// range the record is left as it was and `MathOverflow` is reported.
    pub fn record_mint(&mut self, amount: u64) -> (r: Result<(), StablecoinError>)
        ensures
            old(self).same_but_supply(final(self)),
            match supply_after_mint(old(self).total_supply, amount) {
                Ok(supply) => r == Ok::<(), StablecoinError>(()) && final(self).total_supply
                    == supply,
                Err(e) => r == Err::<(), StablecoinError>(e) && final(self).total_supply == old(
                    self,
                ).total_supply,
            },
    {
        match self.total_supply.checked_add(amount) {
            Some(supply) => {
                self.total_supply = supply;
                Ok(())
            },
            None => Err(StablecoinError::MathOverflow),
        }
    }

    /// Takes `amount` from the supply. Where more is taken than there is the
    /// record is left as it was and `MathOverflow` is reported.
    pub fn record_redeem(&mut self, amount: u64) -> (r: Result<(), StablecoinError>)
        ensures
            old(self).same_but_supply(final(self)),
            match supply_after_redeem(old(self).total_supply, amount) {
                Ok(supply) => r == Ok::<(), StablecoinError>(()) && final(self).total_supply
                    == supply,
                Err(e) => r == Err::<(), StablecoinError>(e) && final(self).total_supply == old(
                    self,
                ).total_supply,
            },
    {
        match self.total_supply.checked_sub(amount) {
            Some(supply) => {
                self.total_supply = supply;
                Ok(())
            },
            None => Err(StablecoinError::MathOverflow),
        }
    }
}

} // verus!
