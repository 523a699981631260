//! What holds of a stablecoin over a whole run of mints and redeems.
//!
//! The supply is the only thing that a mint or a redeem changes in the
//! registry. This module follows it through any sequence of operations and
//! proves that it is what was minted less what was redeemed, that a redeem
//! gives back no more than the mint of the same amount took, and that
//! mints add up whatever the order in which they are served.

use vstd::prelude::*;
use crate::collateral::{checked_sizing, sizing};
use crate::error::StablecoinError;
use crate::ledger::LedgerReply;
use crate::mint::{MintStablecoin, MintStage, MintStep};
use crate::oracle::OraclePrice;
use crate::redeem::{RedeemStablecoin, RedeemStage, RedeemStep};
use crate::registry::{supply_after_mint, supply_after_redeem};

verus! {

/// An operation that is tried on a stablecoin, with its amount.
#[derive(Clone, Copy, Debug, PartialEq, Eq)]
pub enum Operation {
    Mint(u64),
    Redeem(u64),
}

/// Whether `operation` goes through on a supply of `supply` at a ratio of
/// `ratio_bps`: its collateral must fit in 64 bits, and a mint must keep
/// the supply in the 64-bit range, a redeem must not take more than there
/// is.
pub open spec fn goes_through(supply: u64, ratio_bps: u64, operation: Operation) -> bool {
    match operation {
        Operation::Mint(amount) => checked_sizing(amount, ratio_bps) is Ok && supply_after_mint(
            supply,
            amount,
        ) is Ok,
        Operation::Redeem(amount) => checked_sizing(amount, ratio_bps) is Ok
            && supply_after_redeem(supply, amount) is Ok,
    }
}

/// The supply after `operation` was tried on it. An operation that does not
/// go through leaves the supply as it was.
pub open spec fn supply_after_operation(supply: u64, ratio_bps: u64, operation: Operation) -> u64 {
    if goes_through(supply, ratio_bps, operation) {
        match operation {
            Operation::Mint(amount) => (supply + amount) as u64,
            Operation::Redeem(amount) => (supply - amount) as u64,
        }
    } else {
        supply
    }
}

/// The supply after the operations of `history` were tried one after the
/// other, starting from `supply`.
pub open spec fn supply_after(supply: u64, ratio_bps: u64, history: Seq<Operation>) -> u64
    decreases history.len(),
{
    if history.len() == 0 {
        supply
    } else {
        supply_after_operation(
            supply_after(supply, ratio_bps, history.drop_last()),
            ratio_bps,
            history.last(),
        )
    }
}

/// The sum of the amounts of the mints of `history` that went through.
pub open spec fn minted(supply: u64, ratio_bps: u64, history: Seq<Operation>) -> nat
    decreases history.len(),
{
    if history.len() == 0 {
        0
    } else {
        let before = supply_after(supply, ratio_bps, history.drop_last());
        let earlier = minted(supply, ratio_bps, history.drop_last());
        match history.last() {
            Operation::Mint(amount) if goes_through(before, ratio_bps, history.last()) => earlier
                + amount as nat,
            _ => earlier,
        }
    }
}

/// The sum of the amounts of the redeems of `history` that went through.
pub open spec fn redeemed(supply: u64, ratio_bps: u64, history: Seq<Operation>) -> nat
    decreases history.len(),
{
    if history.len() == 0 {
        0
    } else {
        let before = supply_after(supply, ratio_bps, history.drop_last());
        let earlier = redeemed(supply, ratio_bps, history.drop_last());
        match history.last() {
            Operation::Redeem(amount) if goes_through(before, ratio_bps, history.last()) => earlier
                + amount as nat,
            _ => earlier,
        }
    }
}

/// The sum of `amounts`.
pub open spec fn total(amounts: Seq<u64>) -> nat {
    amounts.fold_left(0nat, |sum: nat, amount: u64| sum + amount as nat)
}

/// One mint for each of `amounts`, in their order.
pub open spec fn mints_of(amounts: Seq<u64>) -> Seq<Operation> {
    Seq::new(amounts.len(), |i: int| Operation::Mint(amounts[i]))
}

/// A mint that the ledger carries through moves the supply as
/// `supply_after_operation` says, whatever the accounts and whatever price
/// was read. It completes exactly where the operation goes through, and is
/// refused with `MathOverflow` where it does not.
pub proof fn lemma_mint_follows_model(ctx: MintStablecoin, price: OraclePrice, amount: u64)
    ensures
        ctx.after(ctx.carried_through(Ok(price), amount)).stablecoin.total_supply
            == supply_after_operation(
            ctx.stablecoin.total_supply,
            ctx.stablecoin.collateral_ratio,
            Operation::Mint(amount),
        ),
        ctx.carried_through(Ok(price), amount) is Complete <==> goes_through(
            ctx.stablecoin.total_supply,
            ctx.stablecoin.collateral_ratio,
            Operation::Mint(amount),
        ),
        !(ctx.carried_through(Ok(price), amount) is Complete) ==> ctx.carried_through(
            Ok(price),
            amount,
        ) == MintStep::Reject(StablecoinError::MathOverflow),
{
}

/// A redeem that the ledger carries through moves the supply as
/// `supply_after_operation` says, whatever the accounts and whatever price
/// was read. It completes exactly where the operation goes through, and is
/// refused with `MathOverflow` where it does not.
pub proof fn lemma_redeem_follows_model(ctx: RedeemStablecoin, price: OraclePrice, amount: u64)
    ensures
        ctx.after(ctx.carried_through(Ok(price), amount)).stablecoin.total_supply
            == supply_after_operation(
            ctx.stablecoin.total_supply,
            ctx.stablecoin.collateral_ratio,
            Operation::Redeem(amount),
        ),
        ctx.carried_through(Ok(price), amount) is Complete <==> goes_through(
            ctx.stablecoin.total_supply,
            ctx.stablecoin.collateral_ratio,
            Operation::Redeem(amount),
        ),
        !(ctx.carried_through(Ok(price), amount) is Complete) ==> ctx.carried_through(
            Ok(price),
            amount,
        ) == RedeemStep::Reject(StablecoinError::MathOverflow),
{
}

/// A mint whose collateral does not fit in 64 bits is refused with
/// `MathOverflow` when it begins: no instruction is named, and so no
/// collateral is moved and no stablecoin is issued.
pub proof fn lemma_mint_beyond_sizing_is_refused(
    ctx: MintStablecoin,
    price: OraclePrice,
    amount: u64,
)
    requires
        sizing(amount as nat, ctx.stablecoin.collateral_ratio as nat) > u64::MAX,
    ensures
        ctx.begin(Ok(price), amount) == MintStep::Reject(StablecoinError::MathOverflow),
        ctx.carried_through(Ok(price), amount) == MintStep::Reject(StablecoinError::MathOverflow),
        ctx.after(ctx.carried_through(Ok(price), amount)) == ctx,
{
}

/// Whatever a mint or a redeem has the ledger move as collateral is the
/// sizing of its amount at the registry's ratio, never another number.
pub proof fn lemma_collateral_is_the_sizing(
    minting: MintStablecoin,
    redeeming: RedeemStablecoin,
    price: OraclePrice,
    amount: u64,
)
    ensures
        minting.begin(Ok(price), amount) matches MintStep::Invoke { instruction, .. }
            ==> instruction.spec_amount() == sizing(
            amount as nat,
            minting.stablecoin.collateral_ratio as nat,
        ),
        redeeming.resume(RedeemStage::BurnRequested { amount, price }, LedgerReply::Completed)
            matches RedeemStep::Invoke { instruction, .. } ==> instruction.spec_amount() == sizing(
            amount as nat,
            redeeming.stablecoin.collateral_ratio as nat,
        ),
{
}

/// No step of a mint changes anything in the accounts but the supply, and
/// no step but the one that completes the mint changes even that. The
/// collateral ratio in particular stays what creation made it.
pub proof fn lemma_mint_step_changes_supply_only(
    ctx: MintStablecoin,
    stage: MintStage,
    reply: LedgerReply,
)
    ensures
        ctx.stablecoin.same_but_supply(&ctx.after(ctx.resume(stage, reply)).stablecoin),
        ctx.after(ctx.resume(stage, reply)).stablecoin.collateral_ratio
            == ctx.stablecoin.collateral_ratio,
        ctx.stablecoin.well_formed() ==> ctx.after(
            ctx.resume(stage, reply),
        ).stablecoin.well_formed(),
        !(ctx.resume(stage, reply) is Complete) ==> ctx.after(ctx.resume(stage, reply)) == ctx,
{
}

/// No step of a redeem changes anything in the accounts but the supply, and
/// no step but the one that completes the redeem changes even that. The
/// collateral ratio in particular stays what creation made it.
pub proof fn lemma_redeem_step_changes_supply_only(
    ctx: RedeemStablecoin,
    stage: RedeemStage,
    reply: LedgerReply,
)
    ensures
        ctx.stablecoin.same_but_supply(&ctx.after(ctx.resume(stage, reply)).stablecoin),
        ctx.after(ctx.resume(stage, reply)).stablecoin.collateral_ratio
            == ctx.stablecoin.collateral_ratio,
        ctx.stablecoin.well_formed() ==> ctx.after(
            ctx.resume(stage, reply),
        ).stablecoin.well_formed(),
        !(ctx.resume(stage, reply) is Complete) ==> ctx.after(ctx.resume(stage, reply)) == ctx,
{
}

/// After any sequence of mints and redeems the supply is what it was at the
/// start, plus what was minted, less what was redeemed. For a stablecoin
/// that starts at zero it is what was minted less what was redeemed.
pub proof fn lemma_supply_is_minted_less_redeemed(
    supply: u64,
    ratio_bps: u64,
    history: Seq<Operation>,
)
    ensures
        supply_after(supply, ratio_bps, history) == supply + minted(supply, ratio_bps, history)
            - redeemed(supply, ratio_bps, history),
    decreases history.len(),
{
    if history.len() > 0 {
        lemma_supply_is_minted_less_redeemed(supply, ratio_bps, history.drop_last());
    }
}

/// A redeem of more than the supply is refused with `MathOverflow` once the
/// burn is done, before any collateral is released, and the accounts are
/// left as they were.
pub proof fn lemma_redeem_beyond_supply_is_refused(
    ctx: RedeemStablecoin,
    price: OraclePrice,
    amount: u64,
)
    requires
        amount > ctx.stablecoin.total_supply,
    ensures
        ctx.resume(RedeemStage::BurnRequested { amount, price }, LedgerReply::Completed)
            == RedeemStep::Reject(StablecoinError::MathOverflow),
        ctx.carried_through(Ok(price), amount) == RedeemStep::Reject(
            StablecoinError::MathOverflow,
        ),
        ctx.after(ctx.carried_through(Ok(price), amount)) == ctx,
        supply_after_operation(
            ctx.stablecoin.total_supply,
            ctx.stablecoin.collateral_ratio,
            Operation::Redeem(amount),
        ) == ctx.stablecoin.total_supply,
{
}

/// A mint that is at once followed by a redeem of the same amount gets back
/// the collateral that it deposited, never more, and leaves the supply
/// where it was before the mint. The redeem cannot fail for want of supply.
pub proof fn lemma_round_trip_returns_deposit(
    minting: MintStablecoin,
    redeeming: RedeemStablecoin,
    price_at_mint: OraclePrice,
    price_at_redeem: OraclePrice,
    amount: u64,
)
    requires
        minting.carried_through(Ok(price_at_mint), amount) is Complete,
        redeeming.stablecoin == minting.after(
            minting.carried_through(Ok(price_at_mint), amount),
        ).stablecoin,
    ensures
        redeeming.carried_through(Ok(price_at_redeem), amount) is Complete,
        redeeming.carried_through(Ok(price_at_redeem), amount)->Complete_0.collateral
            <= minting.carried_through(Ok(price_at_mint), amount)->Complete_0.collateral,
        redeeming.carried_through(Ok(price_at_redeem), amount)->Complete_0.collateral
            == minting.carried_through(Ok(price_at_mint), amount)->Complete_0.collateral,
        redeeming.carried_through(Ok(price_at_redeem), amount)->Complete_0.collateral == sizing(
            amount as nat,
            minting.stablecoin.collateral_ratio as nat,
        ),
        redeeming.after(
            redeeming.carried_through(Ok(price_at_redeem), amount),
        ).stablecoin.total_supply == minting.stablecoin.total_supply,
{
}

/// The sum of a sequence is the sum of all but its last amount, plus the
/// last.
pub proof fn lemma_total_unfolds(amounts: Seq<u64>)
    requires
        amounts.len() > 0,
    ensures
        total(amounts) == total(amounts.drop_last()) + amounts.last() as nat,
{
}

/// Whether the collateral of each of `amounts` fits in 64 bits at a ratio
/// of `ratio_bps`.
pub open spec fn all_sizable(amounts: Seq<u64>, ratio_bps: u64) -> bool {
    forall|i: int|
        0 <= i < amounts.len() ==> sizing(#[trigger] amounts[i] as nat, ratio_bps as nat)
            <= u64::MAX
}

/// Mints whose amounts fit together in the 64-bit range, and whose
/// collateral fits each, all go through and leave the supply raised by the
/// sum of their amounts: no mint is lost.
pub proof fn lemma_mints_accumulate(supply: u64, ratio_bps: u64, amounts: Seq<u64>)
    requires
        supply + total(amounts) <= u64::MAX,
        all_sizable(amounts, ratio_bps),
    ensures
        supply_after(supply, ratio_bps, mints_of(amounts)) == supply + total(amounts),
        minted(supply, ratio_bps, mints_of(amounts)) == total(amounts),
    decreases amounts.len(),
{
    if amounts.len() > 0 {
        lemma_total_unfolds(amounts);
        assert(mints_of(amounts).drop_last() =~= mints_of(amounts.drop_last()));
        assert(all_sizable(amounts.drop_last(), ratio_bps)) by {
            assert forall|i: int| 0 <= i < amounts.drop_last().len() implies sizing(
                #[trigger] amounts.drop_last()[i] as nat,
                ratio_bps as nat,
            ) <= u64::MAX by {
                assert(amounts.drop_last()[i] == amounts[i]);
            }
        }
        assert(sizing(amounts[amounts.len() - 1] as nat, ratio_bps as nat) <= u64::MAX);
        lemma_mints_accumulate(supply, ratio_bps, amounts.drop_last());
    }
}

/// Mints that are served in two different orders leave the same supply:
/// what it was, raised by the sum of all the amounts.
pub proof fn lemma_mint_order_is_immaterial(
    supply: u64,
    ratio_bps: u64,
    first: Seq<u64>,
    second: Seq<u64>,
)
    requires
        first.to_multiset() == second.to_multiset(),
        supply + total(first) <= u64::MAX,
        all_sizable(first, ratio_bps),
    ensures
        total(first) == total(second),
        supply_after(supply, ratio_bps, mints_of(first)) == supply + total(first),
        supply_after(supply, ratio_bps, mints_of(second)) == supply + total(first),
{
    let add = |sum: nat, amount: u64| sum + amount as nat;
    assert(vstd::seq_lib::commutative_foldl(add));
    vstd::seq_lib::lemma_fold_left_permutation(first, second, add, 0nat);
    assert(all_sizable(second, ratio_bps)) by {
        assert forall|i: int| 0 <= i < second.len() implies sizing(
            #[trigger] second[i] as nat,
            ratio_bps as nat,
        ) <= u64::MAX by {
            broadcast use vstd::seq_lib::group_to_multiset_ensures;

            assert(second.to_multiset().count(second[i]) > 0);
            assert(first.contains(second[i]));
            let j = choose|j: int| 0 <= j < first.len() && first[j] == second[i];
            assert(sizing(first[j] as nat, ratio_bps as nat) <= u64::MAX);
        }
    }
    lemma_mints_accumulate(supply, ratio_bps, first);
    lemma_mints_accumulate(supply, ratio_bps, second);
}

} // verus!
