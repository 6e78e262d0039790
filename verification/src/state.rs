//! Plain-value records for the two ledger entities the entry points touch.
//!
//! The ledger itself is owned by the platform's fungible-token program; these
//! records model exactly the fields of a mint and of a token account that the
//! validated operations read and write.

use crate::keys::Pubkey;
use vstd::prelude::*;

verus! {

/// The number of decimal places every mint created by this program gets.
pub const MINT_DECIMALS: u8 = 9;

/// A mint: the record tracking a token's total supply and its minting
/// authority.
#[derive(Clone, Copy, Debug)]
pub struct Mint {
    /// Address of the mint account.
    pub key: Pubkey,
    /// Total number of base units in circulation.
    pub supply: u64,
    /// Number of decimal places in the token's user-facing representation.
    pub decimals: u8,
    /// The only authority allowed to mint new units.
    pub mint_authority: Pubkey,
}

/// A token account: one holder's balance of a given mint.
#[derive(Clone, Copy, Debug)]
pub struct TokenAccount {
    /// Address of the token account.
    pub key: Pubkey,
    /// The holder, allowed to move units out.
    pub owner: Pubkey,
    /// Address of the mint whose units the account holds.
    pub mint: Pubkey,
    /// Number of base units the account holds.
    pub balance: u64,
    /// An authority the holder has approved to move units out, if any.
    pub delegate: Option<Pubkey>,
    /// The number of base units the delegate may still move.
    pub delegated_amount: u64,
}

/// An account reference together with whether it signed the transaction, as
/// the host runtime hands it to an entry point.
#[derive(Clone, Copy, Debug)]
pub struct Signer {
    /// Address of the account.
    pub key: Pubkey,
    /// Whether the account's holder signed the transaction.
    pub is_signer: bool,
}

} // verus!
