//! Setting a stablecoin up.

use vstd::prelude::*;
use crate::error::StablecoinError;
use crate::identity::Identity;
use crate::registry::{
    metadata_verdict, validate_initialize_stablecoin, StablecoinData, DEFAULT_COLLATERAL_RATIO,
};

verus! {

/// The accounts that take part in the creation of a stablecoin.
#[derive(Clone, Debug, PartialEq, Eq)]
pub struct InitializeStablecoin {
    /// The principal that pays for the creation and is recorded as the
    /// stablecoin's controller.
    pub authority: Identity,
    /// The record that the creation fills in.
    pub stablecoin: StablecoinData,
    /// The token that the stablecoin issues.
    pub mint: Identity,
    /// The token that is accepted as collateral.
    pub stablebond_mint: Identity,
    /// The oracle record that prices the collateral.
    pub price_feed: Identity,
    /// The custody account that will hold the collateral.
    pub vault: Identity,
    /// The derived authority over the custody account.
    pub vault_authority: Identity,
    /// The derived authority that issues the stablecoin.
    pub mint_authority: Identity,
    pub system_program: Identity,
    pub token_program: Identity,
    pub rent: Identity,
}

impl InitializeStablecoin {
    /// The record of a stablecoin that is created with these accounts and
    /// this metadata: nothing in circulation yet, and the ratio at its
    /// fixed value.
    pub open spec fn new_record(
        &self,
        name: String,
        symbol: String,
        target_currency: String,
        icon: String,
    ) -> StablecoinData {
        StablecoinData {
            authority: self.authority,
            mint: self.mint,
            name,
            symbol,
            target_currency,
            icon,
            total_supply: 0,
            collateral_ratio: DEFAULT_COLLATERAL_RATIO,
            stablebond_mint: self.stablebond_mint,
            price_feed: self.price_feed,
            vault: self.vault,
            vault_authority: self.vault_authority,
        }
    }
}

/// Creates the record of a new stablecoin in `ctx.stablecoin`.
///
/// The name and the symbol are checked first. Where either is too long the
/// error says which, and `ctx` is left as it was: no record is created.
/// Otherwise the record is filled in from the accounts and the metadata,
/// with a supply of zero and a collateral ratio of 102%.
pub fn initialize_stablecoin(
    ctx: &mut InitializeStablecoin,
    name: String,
    symbol: String,
    target_currency: String,
    icon: String,
) -> (r: Result<(), StablecoinError>)
    ensures
        match metadata_verdict(name@, symbol@) {
            Ok(()) => {
                &&& r == Ok::<(), StablecoinError>(())
                &&& *final(ctx) == (InitializeStablecoin {
                    stablecoin: old(ctx).new_record(name, symbol, target_currency, icon),
                    ..*old(ctx)
                })
                &&& final(ctx).stablecoin.well_formed()
            },
            Err(e) => r == Err::<(), StablecoinError>(e) && *final(ctx) == *old(ctx),
        },
{
    match validate_initialize_stablecoin(name.as_str(), symbol.as_str()) {
        Ok(()) => {},
        Err(e) => {
            return Err(e);
        },
    }
    ctx.stablecoin.authority = ctx.authority;
    ctx.stablecoin.mint = ctx.mint;
    ctx.stablecoin.name = name;
    ctx.stablecoin.symbol = symbol;
    ctx.stablecoin.target_currency = target_currency;
    ctx.stablecoin.icon = icon;
    ctx.stablecoin.total_supply = 0;
    ctx.stablecoin.collateral_ratio = DEFAULT_COLLATERAL_RATIO;
    ctx.stablecoin.stablebond_mint = ctx.stablebond_mint;
    ctx.stablecoin.price_feed = ctx.price_feed;
    ctx.stablecoin.vault = ctx.vault;
    ctx.stablecoin.vault_authority = ctx.vault_authority;
    Ok(())
}

} // verus!
