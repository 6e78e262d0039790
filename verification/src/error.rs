//! The failures an entry point can surface.
//!
//! Every error originates either in the declarative account validation that
//! runs before an entry point's body, or in the delegated token primitive;
//! both are surfaced to the caller unchanged.

use vstd::prelude::*;

verus! {

/// Why an entry point rejected a request.
#[derive(Clone, Copy, Debug, PartialEq, Eq, Structural)]
pub enum TokenError {
    /// A required signing account did not sign the transaction.
    MissingSignature,
    /// The supplied token-program account is not the fungible-token program.
    IncorrectProgramId,
    /// An account address does not equal the address derived from its seeds.
    AddressMismatch,
    /// No bump byte yields a valid derived address for the required seeds.
    InvalidSeeds,
    /// The token account does not belong to the given mint.
    MintMismatch,
    /// The supplied authority is not the one recorded for the account.
    OwnerMismatch,
    /// The debited account holds fewer units than the requested amount.
    InsufficientFunds,
    /// A supply or balance update would leave the 64-bit range.
    Overflow,
}

} // verus!
