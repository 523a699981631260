//! The failures that an operation on a stablecoin can report.

use vstd::prelude::*;

verus! {

/// Why an operation was refused. Any of these aborts the whole operation:
/// nothing that the operation had set out to change is changed.
#[derive(Clone, Copy, Debug, PartialEq, Eq, Structural)]
pub enum StablecoinError {
    /// Sizing collateral or adjusting the supply left the integer range.
    MathOverflow,
    /// The display name is longer than the registry record allows.
    NameTooLong,
    /// The symbol is longer than the registry record allows.
    SymbolTooLong,
    /// The oracle record is not a well-formed price feed.
    PriceFeedParseError,
}

impl StablecoinError {
    /// The text that accompanies the error when it is shown to a person.
    pub fn message(&self) -> (text: &'static str)
        ensures
            text@ == self.spec_message(),
    {
        match self {
            StablecoinError::MathOverflow => "Math operation overflowed",
            StablecoinError::NameTooLong => "Name too long",
            StablecoinError::SymbolTooLong => "Symbol too long",
            StablecoinError::PriceFeedParseError => "Could not parse Switchboard feed",
        }
    }

    /// The message of each error, as a sequence of characters.
    pub open spec fn spec_message(&self) -> Seq<char> {
        match self {
            StablecoinError::MathOverflow => "Math operation overflowed"@,
            StablecoinError::NameTooLong => "Name too long"@,
            StablecoinError::SymbolTooLong => "Symbol too long"@,
            StablecoinError::PriceFeedParseError => "Could not parse Switchboard feed"@,
        }
    }
}

} // verus!
