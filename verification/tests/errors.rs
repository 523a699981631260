use stablecoin_factory::error::StablecoinError;
use stablecoin_factory::ledger::{
    AuthorityDomain, LedgerReply, SignerSeeds, TokenInstruction,
};
use stablecoin_factory::identity::Identity;

#[test]
fn every_error_has_its_message() {
    assert_eq!(StablecoinError::MathOverflow.message(), "Math operation overflowed");
    assert_eq!(StablecoinError::NameTooLong.message(), "Name too long");
    assert_eq!(StablecoinError::SymbolTooLong.message(), "Symbol too long");
    assert_eq!(
        StablecoinError::PriceFeedParseError.message(),
        "Could not parse Switchboard feed"
    );
}

#[test]
fn main_items_are_exported_at_the_root() {
    let e: stablecoin_factory::StablecoinError = StablecoinError::MathOverflow;
    assert_eq!(e, StablecoinError::MathOverflow);
    assert_ne!(e, StablecoinError::NameTooLong);
    assert_eq!(stablecoin_factory::StablecoinData::LEN, 496);
    let _create: fn(
        &mut stablecoin_factory::InitializeStablecoin,
        String,
        String,
        String,
        String,
    ) -> Result<(), StablecoinError> = stablecoin_factory::initialize_stablecoin;
    let _mint: fn(
        &stablecoin_factory::MintStablecoin,
        &mut [u8],
        u64,
    ) -> stablecoin_factory::mint::MintStep = stablecoin_factory::mint_stablecoin;
    let _redeem: fn(
        &stablecoin_factory::RedeemStablecoin,
        &mut [u8],
        u64,
    ) -> stablecoin_factory::redeem::RedeemStep = stablecoin_factory::redeem_stablecoin;
}

#[test]
fn authority_domains_have_their_tags() {
    assert_eq!(AuthorityDomain::Mint.tag(), "mint-authority");
    assert_eq!(AuthorityDomain::Vault.tag(), "vault-authority");
}

#[test]
fn instruction_amounts() {
    let a = Identity { bytes: [1; 32] };
    let b = Identity { bytes: [2; 32] };
    let c = Identity { bytes: [3; 32] };
    let seeds = SignerSeeds { domain: AuthorityDomain::Mint, registry: a, bump: 254 };
    let transfer =
        TokenInstruction::Transfer { from: a, to: b, authority: c, amount: 7, signer: None };
    let issue = TokenInstruction::MintTo { mint: a, to: b, authority: c, amount: 8, signer: seeds };
    let burn = TokenInstruction::Burn { mint: a, from: b, authority: c, amount: 9 };
    assert_eq!(transfer.amount(), 7);
    assert_eq!(issue.amount(), 8);
    assert_eq!(burn.amount(), 9);
    assert_ne!(LedgerReply::Completed, LedgerReply::Refused);
}
