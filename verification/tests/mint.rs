use stablecoin_factory::error::StablecoinError;
use stablecoin_factory::identity::Identity;
use stablecoin_factory::ledger::{AuthorityDomain, LedgerReply, SignerSeeds, TokenInstruction};
use stablecoin_factory::mint::{
    begin_mint, mint_stablecoin, resume_mint, MintReceipt, MintStablecoin, MintStage, MintStep,
    PendingMint,
};
use stablecoin_factory::oracle::{OraclePrice, FEED_RECORD_LEN};
use stablecoin_factory::registry::StablecoinData;

fn mkey(tag: u8) -> Identity {
    Identity { bytes: [tag; 32] }
}

fn minting(total_supply: u64, collateral_ratio: u64) -> MintStablecoin {
    MintStablecoin {
        authority: mkey(1),
        stablecoin: StablecoinData {
            authority: mkey(20),
            mint: mkey(3),
            name: String::from("Dollar"),
            symbol: String::from("USDX"),
            target_currency: String::from("USD"),
            icon: String::from("icon"),
            total_supply,
            collateral_ratio,
            stablebond_mint: mkey(21),
            price_feed: mkey(7),
            vault: mkey(6),
            vault_authority: mkey(22),
        },
        stablecoin_key: mkey(2),
        mint: mkey(3),
        user_stablecoin: mkey(4),
        user_stablebond: mkey(5),
        vault_stablebond: mkey(6),
        price_feed: mkey(7),
        mint_authority: mkey(8),
        mint_authority_bump: 253,
        token_program: mkey(9),
    }
}

/// A buffer with a well-formed oracle record whose current value is
/// `value`, and the offset at which the record starts in it.
fn mint_feed(value: i128) -> (Vec<u8>, usize) {
    let mut buf = vec![0u8; FEED_RECORD_LEN + 32];
    let addr = buf.as_ptr() as usize;
    let start = (24 - addr % 16) % 16;
    buf[start..start + 8].copy_from_slice(&[196, 27, 108, 196, 10, 215, 219, 40]);
    buf[start + 2264..start + 2280].copy_from_slice(&value.to_ne_bytes());
    (buf, start)
}

const PRICE: OraclePrice = OraclePrice { mantissa: 1_010_000_000_000_000_000 };

#[test]
fn mint_of_one_million_at_102_percent() {
    let mut ctx = minting(0, 10200);
    let (mut buf, start) = mint_feed(PRICE.mantissa);
    let pending = PendingMint { amount: 1_000_000, collateral: 1_020_000, price: PRICE };

    let step = mint_stablecoin(&ctx, &mut buf[start..start + FEED_RECORD_LEN], 1_000_000);
    assert_eq!(
        step,
        MintStep::Invoke {
            instruction: TokenInstruction::Transfer {
                from: mkey(5),
                to: mkey(6),
                authority: mkey(1),
                amount: 1_020_000,
                signer: None,
            },
            stage: MintStage::CollateralRequested(pending),
        }
    );
    assert_eq!(ctx, minting(0, 10200));

    let step = resume_mint(&mut ctx, MintStage::CollateralRequested(pending), LedgerReply::Completed);
    assert_eq!(
        step,
        MintStep::Invoke {
            instruction: TokenInstruction::MintTo {
                mint: mkey(3),
                to: mkey(4),
                authority: mkey(8),
                amount: 1_000_000,
                signer: SignerSeeds {
                    domain: AuthorityDomain::Mint,
                    registry: mkey(2),
                    bump: 253,
                },
            },
            stage: MintStage::IssueRequested(pending),
        }
    );
    assert_eq!(ctx, minting(0, 10200));

    let step = resume_mint(&mut ctx, MintStage::IssueRequested(pending), LedgerReply::Completed);
    assert_eq!(
        step,
        MintStep::Complete(MintReceipt {
            amount: 1_000_000,
            collateral: 1_020_000,
            price: PRICE,
            total_supply: 1_000_000,
        })
    );
    assert_eq!(ctx, minting(1_000_000, 10200));
}

#[test]
fn mint_with_malformed_feed_touches_nothing() {
    let ctx = minting(500, 10200);
    let (mut buf, start) = mint_feed(PRICE.mantissa);

    // too short
    let step = mint_stablecoin(&ctx, &mut buf[start..start + FEED_RECORD_LEN - 1], 1_000_000);
    assert_eq!(step, MintStep::Reject(StablecoinError::PriceFeedParseError));
    let step = mint_stablecoin(&ctx, &mut [], 1_000_000);
    assert_eq!(step, MintStep::Reject(StablecoinError::PriceFeedParseError));

    // bad header
    buf[start + 3] = 0;
    let step = mint_stablecoin(&ctx, &mut buf[start..start + FEED_RECORD_LEN], 1_000_000);
    assert_eq!(step, MintStep::Reject(StablecoinError::PriceFeedParseError));
    assert_eq!(ctx, minting(500, 10200));
}

#[test]
fn mint_does_not_size_by_the_price() {
    let ctx = minting(0, 10200);
    let prices: [i128; 4] = [0, 1, -5_000_000_000_000_000_000, i128::MAX];
    for mantissa in prices {
        let price = OraclePrice { mantissa };
        match begin_mint(&ctx, Ok(price), 1_000_000) {
            MintStep::Invoke { instruction, stage } => {
                assert_eq!(instruction.amount(), 1_020_000);
                assert_eq!(
                    stage,
                    MintStage::CollateralRequested(PendingMint {
                        amount: 1_000_000,
                        collateral: 1_020_000,
                        price,
                    })
                );
            }
            other => panic!("the mint did not begin: {:?}", other),
        }
    }
}

#[test]
fn begin_mint_passes_the_reading_error_on() {
    let ctx = minting(0, 10200);
    assert_eq!(
        begin_mint(&ctx, Err(StablecoinError::PriceFeedParseError), 1),
        MintStep::Reject(StablecoinError::PriceFeedParseError)
    );
}

#[test]
fn mint_is_abandoned_when_the_ledger_refuses() {
    let mut ctx = minting(10, 10200);
    let pending = PendingMint { amount: 100, collateral: 102, price: PRICE };
    assert_eq!(
        resume_mint(&mut ctx, MintStage::CollateralRequested(pending), LedgerReply::Refused),
        MintStep::Abandon
    );
    assert_eq!(
        resume_mint(&mut ctx, MintStage::IssueRequested(pending), LedgerReply::Refused),
        MintStep::Abandon
    );
    assert_eq!(ctx, minting(10, 10200));
}

#[test]
fn mint_beyond_the_range_is_refused_at_the_end() {
    let mut ctx = minting(u64::MAX - 99, 10200);
    let step = begin_mint(&ctx, Ok(PRICE), 100);
    let stage = match step {
        MintStep::Invoke { instruction, stage } => {
            assert_eq!(instruction.amount(), 102);
            stage
        }
        other => panic!("the mint did not begin: {:?}", other),
    };
    let stage = match resume_mint(&mut ctx, stage, LedgerReply::Completed) {
        MintStep::Invoke { instruction, stage } => {
            assert_eq!(instruction.amount(), 100);
            stage
        }
        other => panic!("the mint did not go on: {:?}", other),
    };
    assert_eq!(
        resume_mint(&mut ctx, stage, LedgerReply::Completed),
        MintStep::Reject(StablecoinError::MathOverflow)
    );
    assert_eq!(ctx, minting(u64::MAX - 99, 10200));

    // one less fits exactly
    let pending = PendingMint { amount: 99, collateral: 100, price: PRICE };
    assert_eq!(
        resume_mint(&mut ctx, MintStage::IssueRequested(pending), LedgerReply::Completed),
        MintStep::Complete(MintReceipt {
            amount: 99,
            collateral: 100,
            price: PRICE,
            total_supply: u64::MAX,
        })
    );
    assert_eq!(ctx.stablecoin.total_supply, u64::MAX);
}

#[test]
fn mint_of_nothing_completes() {
    let mut ctx = minting(7, 10200);
    let stage = match begin_mint(&ctx, Ok(PRICE), 0) {
        MintStep::Invoke { instruction, stage } => {
            assert_eq!(instruction.amount(), 0);
            stage
        }
        other => panic!("the mint did not begin: {:?}", other),
    };
    let stage = match resume_mint(&mut ctx, stage, LedgerReply::Completed) {
        MintStep::Invoke { stage, .. } => stage,
        other => panic!("the mint did not go on: {:?}", other),
    };
    assert_eq!(
        resume_mint(&mut ctx, stage, LedgerReply::Completed),
        MintStep::Complete(MintReceipt { amount: 0, collateral: 0, price: PRICE, total_supply: 7 })
    );
    assert_eq!(ctx, minting(7, 10200));
}

#[test]
fn mint_whose_collateral_does_not_fit_is_refused_at_once() {
    // at 102% this amount calls for exactly 2^64 units of collateral
    let amount = 18085043209519168251u64;
    let ctx = minting(0, 10200);
    assert_eq!(
        begin_mint(&ctx, Ok(PRICE), amount),
        MintStep::Reject(StablecoinError::MathOverflow)
    );
    let (mut buf, start) = mint_feed(PRICE.mantissa);
    assert_eq!(
        mint_stablecoin(&ctx, &mut buf[start..start + FEED_RECORD_LEN], amount),
        MintStep::Reject(StablecoinError::MathOverflow)
    );
    assert_eq!(ctx, minting(0, 10200));

    // one less is the largest mint that can begin
    match begin_mint(&ctx, Ok(PRICE), amount - 1) {
        MintStep::Invoke { instruction, .. } => assert_eq!(instruction.amount(), u64::MAX),
        other => panic!("the mint did not begin: {:?}", other),
    }
}

#[test]
fn malformed_feed_is_reported_before_the_sizing() {
    let ctx = minting(0, 10200);
    let step = mint_stablecoin(&ctx, &mut [0u8; 16], u64::MAX);
    assert_eq!(step, MintStep::Reject(StablecoinError::PriceFeedParseError));
}
