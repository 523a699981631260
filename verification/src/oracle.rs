//! Reading the price out of an oracle record.

use vstd::prelude::*;
use vstd::endian::{endianness, Endian};
use switchboard_on_demand::on_demand::accounts::pull_feed::PullFeedAccountData;
use switchboard_on_demand::on_demand::OnDemandError;
use crate::error::StablecoinError;

verus! {

/// The error type of the oracle crate, carried through unopened.
#[verifier::external_type_specification]
#[verifier::external_body]
pub struct ExOnDemandError(OnDemandError);

/// The number of bytes of the tag that opens every price feed record.
pub const FEED_TAG_LEN: usize = 8;

/// The least number of bytes of a price feed record: the tag and the 3200
/// bytes that the oracle crate's record type takes in memory.
pub const FEED_RECORD_LEN: usize = 3208;

/// Where the current value begins in a price feed record: behind the tag
/// and the 2256 bytes of the fields that precede the current result.
pub const FEED_VALUE_AT: usize = 2264;

/// The number of bytes of the current value.
pub const FEED_VALUE_LEN: usize = 16;

/// The tag that opens every price feed record.
pub open spec fn feed_tag() -> Seq<u8> {
    seq![196u8, 27u8, 108u8, 196u8, 10u8, 215u8, 219u8, 40u8]
}

/// Whether `data` has the shape of a price feed record: long enough for
/// the tag and the body, and opened by the tag.
pub open spec fn is_feed_record(data: Seq<u8>) -> bool {
    data.len() >= FEED_RECORD_LEN && data.subrange(0, FEED_TAG_LEN as int) == feed_tag()
}

/// The number that `bytes` spell with the least significant byte first.
pub open spec fn unsigned_value(bytes: Seq<u8>) -> nat
    decreases bytes.len(),
{
    if bytes.len() == 0 {
        0
    } else {
        bytes[0] as nat + 256 * unsigned_value(bytes.drop_first())
    }
}

/// The signed 128-bit number whose two's complement pattern is `pattern`.
pub open spec fn signed_value(pattern: nat) -> int {
    if pattern < 0x8000_0000_0000_0000_0000_0000_0000_0000 {
        pattern as int
    } else {
        pattern - 0x1_0000_0000_0000_0000_0000_0000_0000_0000
    }
}

/// The signed number that 16 bytes hold in memory under the byte order
/// `order`.
pub open spec fn stored_value(bytes: Seq<u8>, order: Endian) -> int {
    match order {
        Endian::Little => signed_value(unsigned_value(bytes)),
        Endian::Big => signed_value(unsigned_value(bytes.reverse())),
    }
}

/// The current value of the price feed record `data`: the 16 bytes at its
/// place in the record, taken as a signed number in the byte order of the
/// machine.
pub open spec fn feed_value(data: Seq<u8>) -> int {
    stored_value(
        data.subrange(FEED_VALUE_AT as int, FEED_VALUE_AT + FEED_VALUE_LEN),
        endianness(),
    )
}

/// Calls `PullFeedAccountData::parse` on `data` and copies the value of the
/// current result out of the record it hands back.
///
/// Trusted: the call reads `data` and leaves it as it was, and it accepts
/// nothing but a record of the right shape. Where it accepts, the record it
/// hands back is the bytes behind the tag, seen as the record type, whose
/// current value lies 2256 bytes into it; so the value that comes back is
/// `feed_value(data)`. The call may refuse a record of the right shape too
/// (it does where the bytes do not lie in memory as the record type needs
/// them), so nothing is claimed of when it accepts.
#[verifier::external_body]
fn parse_feed(data: &mut [u8]) -> (r: Result<i128, OnDemandError>)
    ensures
        final(data)@ == old(data)@,
        r matches Ok(value) ==> is_feed_record(old(data)@) && value == feed_value(old(data)@),
{
    let cell = std::cell::RefCell::new(data);
    let feed = PullFeedAccountData::parse(cell.borrow())?;
    Ok(feed.result.value)
}

/// A price as the oracle publishes it: a signed integer counted in units of
/// ten to the power of minus eighteen.
#[derive(Clone, Copy, Debug, PartialEq, Eq, Structural)]
pub struct OraclePrice {
    pub mantissa: i128,
}

/// The number of decimal places of an `OraclePrice`.
pub const PRICE_DECIMALS: u32 = 18;

/// Whether `price` is the current price of the price feed record `data`.
pub open spec fn is_price_of(price: OraclePrice, data: Seq<u8>) -> bool {
    is_feed_record(data) && price.mantissa == feed_value(data)
}

/// What a read of the oracle comes to, given what the parse handed back:
/// the price where it succeeded, and `PriceFeedParseError` for every error
/// of the oracle crate.
pub open spec fn reading_of(parsed: Result<i128, OnDemandError>) -> Result<
    OraclePrice,
    StablecoinError,
> {
    match parsed {
        Ok(mantissa) => Ok(OraclePrice { mantissa }),
        Err(_) => Err(StablecoinError::PriceFeedParseError),
    }
}

/// Turns the outcome of a parse into the outcome of a read.
pub fn price_from_parse(parsed: Result<i128, OnDemandError>) -> (r: Result<
    OraclePrice,
    StablecoinError,
>)
    ensures
        r == reading_of(parsed),
{
    match parsed {
        Ok(mantissa) => Ok(OraclePrice { mantissa }),
        Err(_) => Err(StablecoinError::PriceFeedParseError),
    }
}

/// Reads the current price out of an oracle record. Neither the age of the
/// price nor its spread is looked at.
///
/// A record of the wrong shape is refused with `PriceFeedParseError`, and no
/// other error is ever reported. A record of the right shape is read or
/// refused as the oracle crate decides; where it is read, the price is the
/// record's current value.
pub fn read_price(feed: &mut [u8]) -> (r: Result<OraclePrice, StablecoinError>)
    ensures
        final(feed)@ == old(feed)@,
        !is_feed_record(old(feed)@) ==> r == Err::<OraclePrice, StablecoinError>(
            StablecoinError::PriceFeedParseError,
        ),
        match r {
            Ok(price) => is_price_of(price, old(feed)@),
            Err(e) => e == StablecoinError::PriceFeedParseError,
        },
{
    let parsed = parse_feed(feed);
    price_from_parse(parsed)
}

} // verus!
