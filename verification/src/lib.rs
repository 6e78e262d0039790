//! A verified model of a minimal on-chain token-management program.
//!
//! The program exposes four entry points — create, mint, transfer and burn —
//! that validate a set of account references against fixed structural rules
//! and then delegate the actual supply and balance mutation to the platform's
//! fungible-token program.  This crate states those rules and the delegated
//! transition precisely and proves the entry points against them; the
//! cross-program invocation itself is the host runtime's side of the boundary.

pub mod error;
pub mod instructions;
pub mod keys;
pub mod pda;
pub mod state;
pub mod token;

pub use instructions::{
    burn_tokens, create_token, mint_tokens, transfer_tokens, BurnTokens, CreateToken, MintTokens,
    TransferTokens,
};
