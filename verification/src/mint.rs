//! Minting: collateral goes into custody, stablecoin comes out.
//!
//! A mint reads the price, sizes the collateral, has the ledger move the
//! collateral into custody and issue the stablecoin, and then adds the
//! amount to the supply. The two ledger instructions are not performed
//! here. `mint_stablecoin` begins the mint and names the first instruction;
//! `resume_mint` takes the ledger's answer and names the next one, or ends
//! the mint. The registry is written once, at the very end, so a mint that
//! ends in any other way leaves it untouched.

use vstd::prelude::*;
use crate::collateral::checked_sizing;
use crate::error::StablecoinError;
use crate::identity::Identity;
use crate::ledger::{AuthorityDomain, LedgerReply, SignerSeeds, TokenInstruction};
use crate::oracle::{is_feed_record, is_price_of, read_price, OraclePrice};
use crate::registry::{supply_after_mint, StablecoinData};

verus! {

/// The accounts that take part in a mint.
#[derive(Clone, Debug, PartialEq, Eq)]
pub struct MintStablecoin {
    /// The caller, who owns the collateral that is deposited.
    pub authority: Identity,
    /// The record of the stablecoin that is minted.
    pub stablecoin: StablecoinData,
    /// The identity under which the ledger keeps that record.
    pub stablecoin_key: Identity,
    /// The token that is issued.
    pub mint: Identity,
    /// The caller's account that receives the stablecoin.
    pub user_stablecoin: Identity,
    /// The caller's account that the collateral is taken from.
    pub user_stablebond: Identity,
    /// The custody account that the collateral goes into.
    pub vault_stablebond: Identity,
    /// The oracle record that is read.
    pub price_feed: Identity,
    /// The derived authority that issues the stablecoin.
    pub mint_authority: Identity,
    /// The bump with which that authority is derived.
    pub mint_authority_bump: u8,
    pub token_program: Identity,
}

/// A mint that has begun: what is minted, against how much collateral, and
/// the price that was read.
#[derive(Clone, Copy, Debug, PartialEq, Eq)]
pub struct PendingMint {
    pub amount: u64,
    pub collateral: u64,
    pub price: OraclePrice,
}

/// Where a mint stands while the ledger works.
#[derive(Clone, Copy, Debug, PartialEq, Eq)]
pub enum MintStage {
    /// The ledger was asked to move the collateral into custody.
    CollateralRequested(PendingMint),
    /// The collateral is in custody and the ledger was asked to issue the
    /// stablecoin.
    IssueRequested(PendingMint),
}

/// What a completed mint did.
#[derive(Clone, Copy, Debug, PartialEq, Eq)]
pub struct MintReceipt {
    /// The stablecoin that was issued.
    pub amount: u64,
    /// The collateral that went into custody.
    pub collateral: u64,
    /// The price that was read at the start.
    pub price: OraclePrice,
    /// The supply as the mint left it.
    pub total_supply: u64,
}

/// What comes next in a mint.
#[derive(Clone, Copy, Debug, PartialEq, Eq)]
pub enum MintStep {
    /// Perform `instruction` on the ledger and resume from `stage` with the
    /// ledger's answer.
    Invoke { instruction: TokenInstruction, stage: MintStage },
    /// The mint is complete and the supply is raised.
    Complete(MintReceipt),
    /// The mint is refused with this error. The registry is as it was, and
    /// whatever the ledger has done for this mint must be undone.
    Reject(StablecoinError),
    /// The ledger refused an instruction, and its error is the mint's. The
    /// registry is as it was.
    Abandon,
}

impl MintStablecoin {
    /// The instruction that moves `collateral` from the caller into
    /// custody, signed by the caller.
    pub open spec fn deposit(&self, collateral: u64) -> TokenInstruction {
        TokenInstruction::Transfer {
            from: self.user_stablebond,
            to: self.vault_stablebond,
            authority: self.authority,
            amount: collateral,
            signer: None,
        }
    }

    /// The instruction that issues `amount` of stablecoin to the caller, in
    /// the name of the derived mint authority.
    pub open spec fn issue(&self, amount: u64) -> TokenInstruction {
        TokenInstruction::MintTo {
            mint: self.mint,
            to: self.user_stablecoin,
            authority: self.mint_authority,
            amount,
            signer: SignerSeeds {
                domain: AuthorityDomain::Mint,
                registry: self.stablecoin_key,
                bump: self.mint_authority_bump,
            },
        }
    }

    /// How a mint of `amount` begins, given what the read of the oracle
    /// came to: refused where the read failed, refused with `MathOverflow`
    /// where the collateral that the amount calls for does not fit in 64
    /// bits, and otherwise with the deposit of that collateral.
    pub open spec fn begin(
        &self,
        reading: Result<OraclePrice, StablecoinError>,
        amount: u64,
    ) -> MintStep {
        match reading {
            Err(e) => MintStep::Reject(e),
            Ok(price) => match checked_sizing(amount, self.stablecoin.collateral_ratio) {
                Ok(collateral) => MintStep::Invoke {
                    instruction: self.deposit(collateral),
                    stage: MintStage::CollateralRequested(PendingMint { amount, collateral, price }),
                },
                Err(e) => MintStep::Reject(e),
            },
        }
    }

    /// How a mint goes on from `stage` once the ledger has answered.
    pub open spec fn resume(&self, stage: MintStage, reply: LedgerReply) -> MintStep {
        match reply {
            LedgerReply::Refused => MintStep::Abandon,
            LedgerReply::Completed => match stage {
                MintStage::CollateralRequested(pending) => MintStep::Invoke {
                    instruction: self.issue(pending.amount),
                    stage: MintStage::IssueRequested(pending),
                },
                MintStage::IssueRequested(pending) => match supply_after_mint(
                    self.stablecoin.total_supply,
                    pending.amount,
                ) {
                    Ok(total_supply) => MintStep::Complete(
                        MintReceipt {
                            amount: pending.amount,
                            collateral: pending.collateral,
                            price: pending.price,
                            total_supply,
                        },
                    ),
                    Err(e) => MintStep::Reject(e),
                },
            },
        }
    }

    /// How a mint of `amount` ends where the ledger performs every
    /// instruction that it is asked for.
    pub open spec fn carried_through(
        &self,
        reading: Result<OraclePrice, StablecoinError>,
        amount: u64,
    ) -> MintStep {
        match self.begin(reading, amount) {
            MintStep::Invoke { stage, .. } => match self.resume(stage, LedgerReply::Completed) {
                MintStep::Invoke { stage, .. } => self.resume(stage, LedgerReply::Completed),
                end => end,
            },
            end => end,
        }
    }

    /// The accounts as a step leaves them: with the supply of the receipt
    /// where the step completes the mint, and unchanged otherwise.
    pub open spec fn after(&self, step: MintStep) -> MintStablecoin {
        match step {
            MintStep::Complete(receipt) => MintStablecoin {
                stablecoin: StablecoinData {
                    total_supply: receipt.total_supply,
                    ..self.stablecoin
                },
                ..*self
            },
            _ => *self,
        }
    }
}

/// Begins a mint of `amount`, given what the read of the oracle came to.
pub fn begin_mint(
    ctx: &MintStablecoin,
    reading: Result<OraclePrice, StablecoinError>,
    amount: u64,
) -> (step: MintStep)
    ensures
        step == ctx.begin(reading, amount),
{
    let price = match reading {
        Ok(price) => price,
        Err(e) => {
            return MintStep::Reject(e);
        },
    };
    let collateral: u64 = match ctx.stablecoin.required_collateral(amount) {
        Ok(collateral) => collateral,
        Err(e) => {
            return MintStep::Reject(e);
        },
    };
    MintStep::Invoke {
        instruction: TokenInstruction::Transfer {
            from: ctx.user_stablebond,
            to: ctx.vault_stablebond,
            authority: ctx.authority,
            amount: collateral,
            signer: None,
        },
        stage: MintStage::CollateralRequested(PendingMint { amount, collateral, price }),
    }
}

/// Begins a mint of `amount` units of stablecoin: reads the price out of
/// the oracle record `price_feed` and sizes the collateral at the
/// registry's ratio. The price is read and handed on; it does not enter the
/// sizing.
///
/// A record of the wrong shape ends the mint with `PriceFeedParseError`
/// before anything is asked of the ledger. Otherwise the mint begins as
/// `begin` says for the record's current price, or is refused with that
/// same error where the oracle crate would not read the record. A mint
/// whose collateral does not fit in 64 bits is thus refused with
/// `MathOverflow` before anything is asked of the ledger.
pub fn mint_stablecoin(ctx: &MintStablecoin, price_feed: &mut [u8], amount: u64) -> (step:
    MintStep)
    ensures
        final(price_feed)@ == old(price_feed)@,
        !is_feed_record(old(price_feed)@) ==> step == MintStep::Reject(
            StablecoinError::PriceFeedParseError,
        ),
        step == MintStep::Reject(StablecoinError::PriceFeedParseError) || exists|
            price: OraclePrice,
        |
            is_price_of(price, old(price_feed)@) && step == #[trigger] ctx.begin(
                Ok(price),
                amount,
            ),
{
    let reading = read_price(price_feed);
    begin_mint(ctx, reading, amount)
}

/// Takes a mint on from `stage` with the ledger's answer to the
/// instruction that was asked of it.
///
/// After the deposit the stablecoin is issued; after the issue the amount
/// is added to the supply, and the mint is complete. Where that sum leaves
/// the 64-bit range the mint is refused with `MathOverflow`. Where the
/// ledger refused, the mint is abandoned. The registry changes only where
/// the mint completes.
pub fn resume_mint(ctx: &mut MintStablecoin, stage: MintStage, reply: LedgerReply) -> (step:
    MintStep)
    ensures
        step == old(ctx).resume(stage, reply),
        *final(ctx) == old(ctx).after(step),
{
    match reply {
        LedgerReply::Refused => {
            return MintStep::Abandon;
        },
        LedgerReply::Completed => {},
    }
    match stage {
        MintStage::CollateralRequested(pending) => MintStep::Invoke {
            instruction: TokenInstruction::MintTo {
                mint: ctx.mint,
                to: ctx.user_stablecoin,
                authority: ctx.mint_authority,
                amount: pending.amount,
                signer: SignerSeeds {
                    domain: AuthorityDomain::Mint,
                    registry: ctx.stablecoin_key,
                    bump: ctx.mint_authority_bump,
                },
            },
            stage: MintStage::IssueRequested(pending),
        },
        MintStage::IssueRequested(pending) => match ctx.stablecoin.record_mint(pending.amount) {
            Ok(()) => MintStep::Complete(
                MintReceipt {
                    amount: pending.amount,
                    collateral: pending.collateral,
                    price: pending.price,
                    total_supply: ctx.stablecoin.total_supply,
                },
            ),
            Err(e) => MintStep::Reject(e),
        },
    }
}

} // verus!
