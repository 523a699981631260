use stablecoin_factory::error::StablecoinError;
use stablecoin_factory::identity::Identity;
use stablecoin_factory::registry::{
    validate_initialize_stablecoin, StablecoinData, DEFAULT_COLLATERAL_RATIO, MAX_NAME_LEN,
    MAX_SYMBOL_LEN,
};

fn id(tag: u8) -> Identity {
    Identity { bytes: [tag; 32] }
}

fn record(total_supply: u64, collateral_ratio: u64) -> StablecoinData {
    StablecoinData {
        authority: id(1),
        mint: id(2),
        name: String::from("Dollar"),
        symbol: String::from("USDX"),
        target_currency: String::from("USD"),
        icon: String::from("https://example.org/usdx.png"),
        total_supply,
        collateral_ratio,
        stablebond_mint: id(3),
        price_feed: id(4),
        vault: id(5),
        vault_authority: id(6),
    }
}

#[test]
fn limits_are_32_and_8_bytes() {
    assert_eq!(MAX_NAME_LEN, 32);
    assert_eq!(MAX_SYMBOL_LEN, 8);
    assert_eq!(DEFAULT_COLLATERAL_RATIO, 10200);
}

#[test]
fn reserved_space_is_496_bytes() {
    assert_eq!(StablecoinData::LEN, 496);
}

#[test]
fn name_of_32_bytes_is_accepted() {
    let name = "n".repeat(32);
    assert_eq!(validate_initialize_stablecoin(&name, "SYMBOL12"), Ok(()));
    assert_eq!(validate_initialize_stablecoin("", ""), Ok(()));
}

#[test]
fn name_of_33_bytes_is_too_long() {
    let name = "n".repeat(33);
    assert_eq!(validate_initialize_stablecoin(&name, "USDX"), Err(StablecoinError::NameTooLong));
}

#[test]
fn symbol_of_9_bytes_is_too_long() {
    assert_eq!(
        validate_initialize_stablecoin("Dollar", "SYMBOL123"),
        Err(StablecoinError::SymbolTooLong)
    );
}

#[test]
fn long_name_hides_long_symbol() {
    let name = "n".repeat(40);
    assert_eq!(
        validate_initialize_stablecoin(&name, "SYMBOL123"),
        Err(StablecoinError::NameTooLong)
    );
}

#[test]
fn lengths_are_counted_in_bytes() {
    // 17 letters of two bytes each: 34 bytes
    let name = "\u{e9}".repeat(17);
    assert_eq!(name.chars().count(), 17);
    assert_eq!(validate_initialize_stablecoin(&name, "USDX"), Err(StablecoinError::NameTooLong));
    let name = "\u{e9}".repeat(16);
    assert_eq!(validate_initialize_stablecoin(&name, "USDX"), Ok(()));
    // three letters of three bytes each: 9 bytes
    let symbol = "\u{20ac}".repeat(3);
    assert_eq!(
        validate_initialize_stablecoin("Euro", &symbol),
        Err(StablecoinError::SymbolTooLong)
    );
}

#[test]
fn record_mint_adds_to_the_supply() {
    let mut data = record(0, 10200);
    assert_eq!(data.record_mint(1_000_000), Ok(()));
    assert_eq!(data, record(1_000_000, 10200));
    assert_eq!(data.record_mint(0), Ok(()));
    assert_eq!(data.total_supply, 1_000_000);
    assert_eq!(data.record_mint(u64::MAX - 1_000_000), Ok(()));
    assert_eq!(data.total_supply, u64::MAX);
}

#[test]
fn record_mint_refuses_to_wrap() {
    let mut data = record(u64::MAX - 5, 10200);
    assert_eq!(data.record_mint(6), Err(StablecoinError::MathOverflow));
    assert_eq!(data, record(u64::MAX - 5, 10200));
    assert_eq!(data.record_mint(5), Ok(()));
    assert_eq!(data.total_supply, u64::MAX);
    assert_eq!(data.record_mint(1), Err(StablecoinError::MathOverflow));
    assert_eq!(data.total_supply, u64::MAX);
}

#[test]
fn record_redeem_takes_from_the_supply() {
    let mut data = record(1_000_000, 10200);
    assert_eq!(data.record_redeem(400_000), Ok(()));
    assert_eq!(data, record(600_000, 10200));
    assert_eq!(data.record_redeem(600_000), Ok(()));
    assert_eq!(data.total_supply, 0);
}

#[test]
fn record_redeem_refuses_more_than_the_supply() {
    let mut data = record(10, 10200);
    assert_eq!(data.record_redeem(11), Err(StablecoinError::MathOverflow));
    assert_eq!(data, record(10, 10200));
    let mut empty = record(0, 10200);
    assert_eq!(empty.record_redeem(1), Err(StablecoinError::MathOverflow));
    assert_eq!(empty.total_supply, 0);
    assert_eq!(empty.record_redeem(0), Ok(()));
}

#[test]
fn record_sizes_collateral_at_its_own_ratio() {
    assert_eq!(record(0, 10200).required_collateral(1_000_000), Ok(1_020_000));
    assert_eq!(record(0, 15000).required_collateral(1_000_000), Ok(1_500_000));
    assert_eq!(record(77, 10000).required_collateral(123), Ok(123));
}

#[test]
fn record_with_expected_metadata_fits() {
    let mut data = record(0, 10200);
    assert!(data.fits_reserved_space());
    data.name = "n".repeat(32);
    data.symbol = "s".repeat(8);
    data.target_currency = "c".repeat(32);
    data.icon = "i".repeat(200);
    assert!(data.fits_reserved_space());
    data.icon.push('i');
    assert!(!data.fits_reserved_space());
}

#[test]
fn strings_share_the_reserved_space() {
    // 224 bytes are fixed, so 272 are left for the four strings together
    let mut data = record(0, 10200);
    data.name = String::new();
    data.symbol = String::new();
    data.target_currency = "c".repeat(72);
    data.icon = "i".repeat(200);
    assert!(data.fits_reserved_space());
    data.target_currency.push('c');
    assert!(!data.fits_reserved_space());
    data.target_currency = String::new();
    data.icon = "\u{e9}".repeat(136);
    assert!(data.fits_reserved_space());
    data.icon = "\u{e9}".repeat(137);
    assert!(!data.fits_reserved_space());
}
