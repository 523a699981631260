//! Redeeming: stablecoin is burned, collateral comes back.
//!
//! A redeem reads the price, has the ledger burn the stablecoin, takes the
//! amount from the supply, sizes the collateral and has the ledger release
//! it from custody. The two ledger instructions are not performed here.
//! `redeem_stablecoin` begins the redeem and names the first instruction;
//! `resume_redeem` takes the ledger's answer and names the next one, or
//! ends the redeem. The registry is written once, at the very end, so a
//! redeem that ends in any other way leaves it untouched.

use vstd::prelude::*;
use crate::collateral::checked_sizing;
use crate::error::StablecoinError;
use crate::identity::Identity;
use crate::ledger::{AuthorityDomain, LedgerReply, SignerSeeds, TokenInstruction};
use crate::oracle::{is_feed_record, is_price_of, read_price, OraclePrice};
use crate::registry::{supply_after_redeem, StablecoinData};

verus! {

/// The accounts that take part in a redeem.
#[derive(Clone, Debug, PartialEq, Eq)]
pub struct RedeemStablecoin {
    /// The caller, who owns the stablecoin that is burned.
    pub authority: Identity,
    /// The record of the stablecoin that is redeemed.
    pub stablecoin: StablecoinData,
    /// The identity under which the ledger keeps that record.
    pub stablecoin_key: Identity,
    /// The token that is burned.
    pub mint: Identity,
    /// The caller's account that the stablecoin is burned from.
    pub user_stablecoin: Identity,
    /// The caller's account that receives the collateral.
    pub user_stablebond: Identity,
    /// The custody account that the collateral is released from.
    pub vault_stablebond: Identity,
    /// The derived authority over the custody account.
    pub vault_authority: Identity,
    /// The bump with which that authority is derived.
    pub vault_authority_bump: u8,
    /// The oracle record that is read.
    pub price_feed: Identity,
    pub token_program: Identity,
}

/// Where a redeem stands while the ledger works.
#[derive(Clone, Copy, Debug, PartialEq, Eq)]
pub enum RedeemStage {
    /// The ledger was asked to burn the stablecoin.
    BurnRequested { amount: u64, price: OraclePrice },
    /// The stablecoin is burned and the ledger was asked to release the
    /// collateral.
    ReleaseRequested { amount: u64, collateral: u64, price: OraclePrice },
}

/// What a completed redeem did.
#[derive(Clone, Copy, Debug, PartialEq, Eq)]
pub struct RedeemReceipt {
    /// The stablecoin that was burned.
    pub amount: u64,
    /// The collateral that came out of custody.
    pub collateral: u64,
    /// The price that was read at the start.
    pub price: OraclePrice,
    /// The supply as the redeem left it.
    pub total_supply: u64,
}

/// What comes next in a redeem.
#[derive(Clone, Copy, Debug, PartialEq, Eq)]
pub enum RedeemStep {
    /// Perform `instruction` on the ledger and resume from `stage` with the
    /// ledger's answer.
    Invoke { instruction: TokenInstruction, stage: RedeemStage },
    /// The redeem is complete and the supply is lowered.
    Complete(RedeemReceipt),
    /// The redeem is refused with this error. The registry is as it was,
    /// and whatever the ledger has done for this redeem must be undone.
    Reject(StablecoinError),
    /// The ledger refused an instruction, and its error is the redeem's.
    /// The registry is as it was.
    Abandon,
}

impl RedeemStablecoin {
    /// The instruction that burns `amount` of the caller's stablecoin,
    /// signed by the caller.
    pub open spec fn burn(&self, amount: u64) -> TokenInstruction {
        TokenInstruction::Burn {
            mint: self.mint,
            from: self.user_stablecoin,
            authority: self.authority,
            amount,
        }
    }

    /// The instruction that moves `collateral` out of custody to the
    /// caller, in the name of the derived custody authority.
    pub open spec fn release(&self, collateral: u64) -> TokenInstruction {
        TokenInstruction::Transfer {
            from: self.vault_stablebond,
            to: self.user_stablebond,
            authority: self.vault_authority,
            amount: collateral,
            signer: Some(
                SignerSeeds {
                    domain: AuthorityDomain::Vault,
                    registry: self.stablecoin_key,
                    bump: self.vault_authority_bump,
                },
            ),
        }
    }

    /// How a redeem of `amount` begins, given what the read of the oracle
    /// came to: refused where the read failed, and otherwise with the burn.
    pub open spec fn begin(
        &self,
        reading: Result<OraclePrice, StablecoinError>,
        amount: u64,
    ) -> RedeemStep {
        match reading {
            Err(e) => RedeemStep::Reject(e),
            Ok(price) => RedeemStep::Invoke {
                instruction: self.burn(amount),
                stage: RedeemStage::BurnRequested { amount, price },
            },
        }
    }

    /// How a redeem goes on from `stage` once the ledger has answered.
    pub open spec fn resume(&self, stage: RedeemStage, reply: LedgerReply) -> RedeemStep {
        match reply {
            LedgerReply::Refused => RedeemStep::Abandon,
            LedgerReply::Completed => match stage {
                RedeemStage::BurnRequested { amount, price } => match supply_after_redeem(
                    self.stablecoin.total_supply,
                    amount,
                ) {
                    Ok(_) => match checked_sizing(amount, self.stablecoin.collateral_ratio) {
                        Ok(collateral) => RedeemStep::Invoke {
                            instruction: self.release(collateral),
                            stage: RedeemStage::ReleaseRequested { amount, collateral, price },
                        },
                        Err(e) => RedeemStep::Reject(e),
                    },
                    Err(e) => RedeemStep::Reject(e),
                },
                RedeemStage::ReleaseRequested { amount, collateral, price } => match supply_after_redeem(
                    self.stablecoin.total_supply,
                    amount,
                ) {
                    Ok(total_supply) => RedeemStep::Complete(
                        RedeemReceipt { amount, collateral, price, total_supply },
                    ),
                    Err(e) => RedeemStep::Reject(e),
                },
            },
        }
    }

    /// How a redeem of `amount` ends where the ledger performs every
    /// instruction that it is asked for.
    pub open spec fn carried_through(
        &self,
        reading: Result<OraclePrice, StablecoinError>,
        amount: u64,
    ) -> RedeemStep {
        match self.begin(reading, amount) {
            RedeemStep::Invoke { stage, .. } => match self.resume(stage, LedgerReply::Completed) {
                RedeemStep::Invoke { stage, .. } => self.resume(stage, LedgerReply::Completed),
                end => end,
            },
            end => end,
        }
    }

    /// The accounts as a step leaves them: with the supply of the receipt
    /// where the step completes the redeem, and unchanged otherwise.
    pub open spec fn after(&self, step: RedeemStep) -> RedeemStablecoin {
        match step {
            RedeemStep::Complete(receipt) => RedeemStablecoin {
                stablecoin: StablecoinData {
                    total_supply: receipt.total_supply,
                    ..self.stablecoin
                },
                ..*self
            },
            _ => *self,
        }
    }
}

/// Begins a redeem of `amount`, given what the read of the oracle came to.
pub fn begin_redeem(
    ctx: &RedeemStablecoin,
    reading: Result<OraclePrice, StablecoinError>,
    amount: u64,
) -> (step: RedeemStep)
    ensures
        step == ctx.begin(reading, amount),
{
    match reading {
        Ok(price) => RedeemStep::Invoke {
            instruction: TokenInstruction::Burn {
                mint: ctx.mint,
                from: ctx.user_stablecoin,
                authority: ctx.authority,
                amount,
            },
            stage: RedeemStage::BurnRequested { amount, price },
        },
        Err(e) => RedeemStep::Reject(e),
    }
}

/// Begins a redeem of `amount` units of stablecoin: reads the price out of
/// the oracle record `price_feed` and asks for the burn. The price is read
/// and handed on; it does not enter the sizing of what is released.
///
/// A record of the wrong shape ends the redeem with `PriceFeedParseError`
/// before anything is asked of the ledger. Otherwise the redeem begins as
/// `begin` says for the record's current price, or is refused with that
/// same error where the oracle crate would not read the record.
pub fn redeem_stablecoin(ctx: &RedeemStablecoin, price_feed: &mut [u8], amount: u64) -> (step:
    RedeemStep)
    ensures
        final(price_feed)@ == old(price_feed)@,
        !is_feed_record(old(price_feed)@) ==> step == RedeemStep::Reject(
            StablecoinError::PriceFeedParseError,
        ),
        step == RedeemStep::Reject(StablecoinError::PriceFeedParseError) || exists|
            price: OraclePrice,
        |
            is_price_of(price, old(price_feed)@) && step == #[trigger] ctx.begin(
                Ok(price),
                amount,
            ),
{
    let reading = read_price(price_feed);
    begin_redeem(ctx, reading, amount)
}

/// Takes a redeem on from `stage` with the ledger's answer to the
/// instruction that was asked of it.
///
/// After the burn the amount is held against the supply: where it is more
/// than the supply the redeem is refused with `MathOverflow`. Otherwise the
/// collateral is sized at the registry's ratio; where it does not fit in 64
/// bits the redeem is refused with `MathOverflow` too, and otherwise its
/// release is asked for. After the release the amount is taken from the supply, and the
/// redeem is complete. Where the ledger refused, the redeem is abandoned.
/// The registry changes only where the redeem completes.
pub fn resume_redeem(ctx: &mut RedeemStablecoin, stage: RedeemStage, reply: LedgerReply) -> (step:
    RedeemStep)
    ensures
        step == old(ctx).resume(stage, reply),
        *final(ctx) == old(ctx).after(step),
{
    match reply {
        LedgerReply::Refused => {
            return RedeemStep::Abandon;
        },
        LedgerReply::Completed => {},
    }
    match stage {
        RedeemStage::BurnRequested { amount, price } => {
            if amount > ctx.stablecoin.total_supply {
                return RedeemStep::Reject(StablecoinError::MathOverflow);
            }
            let collateral: u64 = match ctx.stablecoin.required_collateral(amount) {
                Ok(collateral) => collateral,
                Err(e) => {
                    return RedeemStep::Reject(e);
                },
            };
            RedeemStep::Invoke {
                instruction: TokenInstruction::Transfer {
                    from: ctx.vault_stablebond,
                    to: ctx.user_stablebond,
                    authority: ctx.vault_authority,
                    amount: collateral,
                    signer: Some(
                        SignerSeeds {
                            domain: AuthorityDomain::Vault,
                            registry: ctx.stablecoin_key,
                            bump: ctx.vault_authority_bump,
                        },
                    ),
                },
                stage: RedeemStage::ReleaseRequested { amount, collateral, price },
            }
        },
        RedeemStage::ReleaseRequested { amount, collateral, price } => {
            match ctx.stablecoin.record_redeem(amount) {
                Ok(()) => RedeemStep::Complete(
                    RedeemReceipt {
                        amount,
                        collateral,
                        price,
                        total_supply: ctx.stablecoin.total_supply,
                    },
                ),
                Err(e) => RedeemStep::Reject(e),
            }
        },
    }
}

} // verus!
