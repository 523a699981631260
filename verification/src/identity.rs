//! The names by which the ledger knows its accounts.

use vstd::prelude::*;

verus! {

/// The identity of a ledger account, a token or a principal: 32 bytes that
/// the ledger hands out and that this library only stores and passes on.
#[derive(Clone, Copy, Debug, PartialEq, Eq, Hash)]
pub struct Identity {
    pub bytes: [u8; 32],
}

} // verus!
