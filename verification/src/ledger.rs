//! What an operation asks of the token ledger, and what the ledger answers.
//!
//! The library never touches a balance. It says which instruction is to be
//! performed next; whoever drives the operation performs it on the ledger
//! and reports how it ended.

use vstd::prelude::*;
use crate::identity::Identity;

verus! {

/// The two authorities that no person holds. Each is derived from a fixed
/// tag and the identity of the registry it serves, so that whoever knows
/// the registry can name it again.
#[derive(Clone, Copy, Debug, PartialEq, Eq, Structural)]
pub enum AuthorityDomain {
    /// The authority that issues the stablecoin.
    Mint,
    /// The authority over the custody account.
    Vault,
}

impl AuthorityDomain {
    /// The tag of each domain.
    pub open spec fn spec_tag(&self) -> Seq<char> {
        match self {
            AuthorityDomain::Mint => "mint-authority"@,
            AuthorityDomain::Vault => "vault-authority"@,
        }
    }

    /// The tag from which authorities of this domain are derived.
    pub fn tag(&self) -> (tag: &'static str)
        ensures
            tag@ == self.spec_tag(),
    {
        match self {
            AuthorityDomain::Mint => "mint-authority",
            AuthorityDomain::Vault => "vault-authority",
        }
    }
}

/// The proof that an instruction is made in the name of a derived
/// authority: the seeds from which the ledger derives it again, which are
/// the domain's tag, the registry's identity and the authority's bump.
#[derive(Clone, Copy, Debug, PartialEq, Eq)]
pub struct SignerSeeds {
    pub domain: AuthorityDomain,
    pub registry: Identity,
    pub bump: u8,
}

/// One instruction for the token ledger.
#[allow(inconsistent_fields)]
#[derive(Clone, Copy, Debug, PartialEq, Eq)]
pub enum TokenInstruction {
    /// Move `amount` from one account to another. Where `signer` is set the
    /// authority is a derived one.
    Transfer { from: Identity, to: Identity, authority: Identity, amount: u64, signer: Option<SignerSeeds> },
    /// Issue `amount` new tokens of `mint` into `to`, in the name of the
    /// derived mint authority.
    MintTo { mint: Identity, to: Identity, authority: Identity, amount: u64, signer: SignerSeeds },
    /// Destroy `amount` tokens of `mint` held in `from`.
    Burn { mint: Identity, from: Identity, authority: Identity, amount: u64 },
}

impl TokenInstruction {
    /// The number of tokens that the instruction moves, issues or destroys.
    pub open spec fn spec_amount(&self) -> u64 {
        match self {
            TokenInstruction::Transfer { amount, .. } => *amount,
            TokenInstruction::MintTo { amount, .. } => *amount,
            TokenInstruction::Burn { amount, .. } => *amount,
        }
    }

    /// The number of tokens that the instruction moves, issues or destroys.
    pub fn amount(&self) -> (amount: u64)
        ensures
            amount == self.spec_amount(),
    {
        match self {
            TokenInstruction::Transfer { amount, .. } => *amount,
            TokenInstruction::MintTo { amount, .. } => *amount,
            TokenInstruction::Burn { amount, .. } => *amount,
        }
    }
}

/// How the ledger answered the instruction that was asked of it.
#[derive(Clone, Copy, Debug, PartialEq, Eq, Structural)]
pub enum LedgerReply {
    /// The instruction was performed.
    Completed,
    /// The instruction was refused and nothing was moved.
    Refused,
}

} // verus!
