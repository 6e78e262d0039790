//! The four entry points: create, mint, transfer and burn.
//!
//! Each one validates its account references against the program's fixed
//! structural rules — derivation of created addresses, required signers,
//! the identity of the token program — and then performs the delegated
//! token-primitive transition on the referenced records.  The checks run in
//! the order the accounts are declared, and the first failure is surfaced
//! unchanged.

use crate::error::TokenError;
use crate::keys::{key_eq, Pubkey};
use crate::pda::{
    derive_mint_address, derive_token_account_address, mint_address_derivation,
    token_account_address_derivation,
};
use crate::state::{Mint, Signer, TokenAccount, MINT_DECIMALS};
use crate::token;
use vstd::prelude::*;

verus! {

/// The fungible-token program's address.
pub const TOKEN_PROGRAM_ID: [u8; 32] = [6, 221, 246, 225, 215, 101, 161, 147, 217, 203, 225, 70, 206, 235, 121, 172, 28, 180, 133, 237, 95, 91, 55, 145, 58, 140, 245, 133, 126, 255, 0, 169];

/// This program's own declared address, the base of every derivation it
/// asks the host for.
pub const PROGRAM_ID: [u8; 32] = [43, 242, 117, 120, 246, 133, 183, 180, 208, 207, 110, 136, 247, 246, 169, 72, 194, 144, 44, 228, 40, 46, 62, 79, 219, 248, 25, 211, 139, 149, 167, 129];

/// View of the fungible-token program's address.
pub open spec fn token_program_id_spec() -> Seq<u8> {
    TOKEN_PROGRAM_ID@
}

/// Hands out the fungible-token program's address as a key.
pub fn token_program_id() -> (r: Pubkey)
    ensures
        r@ == token_program_id_spec(),
{
    Pubkey { bytes: TOKEN_PROGRAM_ID }
}

/// View of this program's declared address.
pub open spec fn program_id_spec() -> Seq<u8> {
    PROGRAM_ID@
}

/// Hands out this program's declared address as a key.
pub fn program_id() -> (r: Pubkey)
    ensures
        r@ == program_id_spec(),
{
    Pubkey { bytes: PROGRAM_ID }
}

/// The accounts handed to `create_token`: the executing program's address,
/// the two addresses the new accounts are to be created under, the two
/// required signers, and the token program.
#[derive(Clone, Copy, Debug)]
pub struct CreateToken {
    /// The executing program's address, the base of both derivations.
    pub program_id: Pubkey,
    /// Address supplied for the mint account to be created.
    pub mint: Pubkey,
    /// Address supplied for the token account to be created.
    pub token_account: Pubkey,
    /// The authority the new mint will answer to; must sign.
    pub mint_authority: Signer,
    /// The creator, who pays for and owns the new token account; must sign.
    pub authority: Signer,
    /// The account supplied as the fungible-token program.
    pub token_program: Pubkey,
}

/// The accounts handed to `mint_tokens`.
#[derive(Clone, Copy, Debug)]
pub struct MintTokens {
    /// The mint whose supply grows.
    pub mint: Mint,
    /// The token account the new units are credited to.
    pub recipient: TokenAccount,
    /// The mint's authority; must sign.
    pub mint_authority: Signer,
    /// The account supplied as the fungible-token program.
    pub token_program: Pubkey,
}

/// The accounts handed to `transfer_tokens`.
#[derive(Clone, Copy, Debug)]
pub struct TransferTokens {
    /// The token account the units leave.
    pub sender: TokenAccount,
    /// The token account the units arrive in.
    pub receiver: TokenAccount,
    /// The sender's holder or recorded delegate; must sign.
    pub authority: Signer,
    /// The account supplied as the fungible-token program.
    pub token_program: Pubkey,
}

/// The accounts handed to `burn_tokens`.
#[derive(Clone, Copy, Debug)]
pub struct BurnTokens {
    /// The mint whose supply shrinks.
    pub mint: Mint,
    /// The token account the units are burned out of.
    pub token_account: TokenAccount,
    /// The authority passed to the burn; the token program accepts it only
    /// when it is the token account's holder or its recorded delegate.
    pub mint_authority: Signer,
    /// The account supplied as the fungible-token program.
    pub token_program: Pubkey,
}

/// The mint record `create_token` asks the token program to create:
/// empty, with the program's fixed decimals, answering to the supplied
/// minting authority.
pub open spec fn created_mint(ctx: CreateToken) -> Mint {
    Mint {
        key: ctx.mint,
        supply: 0u64,
        decimals: MINT_DECIMALS,
        mint_authority: ctx.mint_authority.key,
    }
}

/// The token account `create_token` asks the token program to create:
/// empty, owned by the creator, holding units of the new mint, with no
/// delegate.
pub open spec fn created_token_account(ctx: CreateToken) -> TokenAccount {
    TokenAccount {
        key: ctx.token_account,
        owner: ctx.authority.key,
        mint: ctx.mint,
        balance: 0u64,
        delegate: None,
        delegated_amount: 0u64,
    }
}

/// Outcome of `create_token`: the two records it leaves behind on success,
/// the first validation or token-program error otherwise.
pub open spec fn create_token_spec(ctx: CreateToken, initial_supply: u64) -> Result<
    (Mint, TokenAccount),
    TokenError,
> {
    match mint_address_derivation(ctx.authority.key@, ctx.program_id@) {
        None => Err(TokenError::InvalidSeeds),
        Some((mint_key, _)) => if ctx.mint@ != mint_key {
            Err(TokenError::AddressMismatch)
        } else {
            match token_account_address_derivation(ctx.authority.key@, ctx.program_id@) {
                None => Err(TokenError::InvalidSeeds),
                Some((ta_key, _)) => if ctx.token_account@ != ta_key {
                    Err(TokenError::AddressMismatch)
                } else if !ctx.mint_authority.is_signer {
                    Err(TokenError::MissingSignature)
                } else if !ctx.authority.is_signer {
                    Err(TokenError::MissingSignature)
                } else if ctx.token_program@ != token_program_id_spec() {
                    Err(TokenError::IncorrectProgramId)
                } else {
                    token::mint_to_spec(
                        created_mint(ctx),
                        created_token_account(ctx),
                        ctx.mint_authority.key@,
                        true,
                        initial_supply,
                    )
                },
            }
        },
    }
}

/// Creates a new token for `ctx.authority`: a mint and a token account at
/// their derived addresses, and mints the initial supply into the account.
///
/// On success the whole initial supply sits in the creator's new account.
pub fn create_token(ctx: &CreateToken, initial_supply: u64) -> (r: Result<
    (Mint, TokenAccount),
    TokenError,
>)
    ensures
        r == create_token_spec(*ctx, initial_supply),
        r matches Ok((m, t)) ==> m.supply == initial_supply && t.balance == initial_supply
            && m.decimals == MINT_DECIMALS && m.key@ == ctx.mint@ && m.mint_authority@
            == ctx.mint_authority.key@ && t.key@ == ctx.token_account@ && t.owner@
            == ctx.authority.key@ && t.mint@ == ctx.mint@,
{
    let mint_derivation = derive_mint_address(&ctx.authority.key, &ctx.program_id);
    let (mint_key, _mint_bump) = match mint_derivation {
        Some(p) => p,
        None => {
            return Err(TokenError::InvalidSeeds);
        },
    };
    if !key_eq(&ctx.mint, &mint_key) {
        return Err(TokenError::AddressMismatch);
    }
    let ta_derivation = derive_token_account_address(&ctx.authority.key, &ctx.program_id);
    let (ta_key, _ta_bump) = match ta_derivation {
        Some(p) => p,
        None => {
            return Err(TokenError::InvalidSeeds);
        },
    };
    if !key_eq(&ctx.token_account, &ta_key) {
        return Err(TokenError::AddressMismatch);
    }
    if !ctx.mint_authority.is_signer {
        return Err(TokenError::MissingSignature);
    }
    if !ctx.authority.is_signer {
        return Err(TokenError::MissingSignature);
    }
    let tp = token_program_id();
    if !key_eq(&ctx.token_program, &tp) {
        return Err(TokenError::IncorrectProgramId);
    }
    let mut m = Mint {
        key: ctx.mint,
        supply: 0,
        decimals: MINT_DECIMALS,
        mint_authority: ctx.mint_authority.key,
    };
    let mut t = TokenAccount {
        key: ctx.token_account,
        owner: ctx.authority.key,
        mint: ctx.mint,
        balance: 0,
        delegate: None,
        delegated_amount: 0,
    };
    let authority = ctx.mint_authority.key;
    match token::mint_to(&mut m, &mut t, &authority, true, initial_supply) {
        Ok(()) => Ok((m, t)),
        Err(e) => Err(e),
    }
}

/// Outcome of `mint_tokens`: the new mint and recipient records on success,
/// the first validation or token-program error otherwise.
pub open spec fn mint_tokens_spec(ctx: MintTokens, amount: u64) -> Result<
    (Mint, TokenAccount),
    TokenError,
> {
    if !ctx.mint_authority.is_signer {
        Err(TokenError::MissingSignature)
    } else if ctx.token_program@ != token_program_id_spec() {
        Err(TokenError::IncorrectProgramId)
    } else {
        token::mint_to_spec(ctx.mint, ctx.recipient, ctx.mint_authority.key@, true, amount)
    }
}

/// Mints `amount` additional units into the recipient's account.
///
/// On success the supply and the recipient's balance both grow by `amount`;
/// on any failure nothing changes.
pub fn mint_tokens(ctx: &mut MintTokens, amount: u64) -> (r: Result<(), TokenError>)
    ensures
        ({
            match mint_tokens_spec(*old(ctx), amount) {
                Ok((m, t)) => r is Ok && final(ctx).mint == m && final(ctx).recipient == t,
                Err(e) => (r matches Err(e2) && e2 == e) && *final(ctx) == *old(ctx),
            }
        }),
        final(ctx).mint_authority == old(ctx).mint_authority,
        final(ctx).token_program == old(ctx).token_program,
        r is Ok ==> final(ctx).mint.supply == old(ctx).mint.supply + amount && final(ctx).recipient.balance == old(ctx).recipient.balance + amount,
        r is Err ==> *final(ctx) == *old(ctx),
{
    if !ctx.mint_authority.is_signer {
        return Err(TokenError::MissingSignature);
    }
    let tp = token_program_id();
    if !key_eq(&ctx.token_program, &tp) {
        return Err(TokenError::IncorrectProgramId);
    }
    let mut m = ctx.mint;
    let mut t = ctx.recipient;
    let authority = ctx.mint_authority.key;
    let r = token::mint_to(&mut m, &mut t, &authority, true, amount);
    ctx.mint = m;
    ctx.recipient = t;
    r
}

/// Outcome of `transfer_tokens`: the new sender and receiver records on
/// success, the first validation or token-program error otherwise.
pub open spec fn transfer_tokens_spec(ctx: TransferTokens, amount: u64) -> Result<
    (TokenAccount, TokenAccount),
    TokenError,
> {
    if !ctx.authority.is_signer {
        Err(TokenError::MissingSignature)
    } else if ctx.token_program@ != token_program_id_spec() {
        Err(TokenError::IncorrectProgramId)
    } else {
        token::transfer_spec(ctx.sender, ctx.receiver, ctx.authority.key@, true, amount)
    }
}

/// Moves `amount` units from the sender's account to the receiver's.
///
/// On success the two balances move atomically by `amount`; a transfer to
/// the sender's own account is accepted and moves nothing; on any failure
/// nothing changes.
pub fn transfer_tokens(ctx: &mut TransferTokens, amount: u64) -> (r: Result<(), TokenError>)
    ensures
        ({
            match transfer_tokens_spec(*old(ctx), amount) {
                Ok((f, t)) => r is Ok && final(ctx).sender == f && final(ctx).receiver == t,
                Err(e) => (r matches Err(e2) && e2 == e) && *final(ctx) == *old(ctx),
            }
        }),
        final(ctx).authority == old(ctx).authority,
        final(ctx).token_program == old(ctx).token_program,
        r is Ok && old(ctx).sender.key@ != old(ctx).receiver.key@ ==> final(ctx).sender.balance
            == old(ctx).sender.balance - amount && final(ctx).receiver.balance == old(ctx).receiver.balance + amount,
        r is Ok && old(ctx).sender.key@ == old(ctx).receiver.key@ ==> *final(ctx) == *old(ctx),
        r is Ok ==> final(ctx).sender.balance + final(ctx).receiver.balance == old(ctx).sender.balance + old(ctx).receiver.balance,
        r is Err ==> *final(ctx) == *old(ctx),
{
    if !ctx.authority.is_signer {
        return Err(TokenError::MissingSignature);
    }
    let tp = token_program_id();
    if !key_eq(&ctx.token_program, &tp) {
        return Err(TokenError::IncorrectProgramId);
    }
    let mut f = ctx.sender;
    let mut t = ctx.receiver;
    let authority = ctx.authority.key;
    let r = token::transfer(&mut f, &mut t, &authority, true, amount);
    ctx.sender = f;
    ctx.receiver = t;
    r
}

/// Outcome of `burn_tokens`: the new mint and token-account records on
/// success, the first validation or token-program error otherwise.
pub open spec fn burn_tokens_spec(ctx: BurnTokens, amount: u64) -> Result<
    (Mint, TokenAccount),
    TokenError,
> {
    if !ctx.mint_authority.is_signer {
        Err(TokenError::MissingSignature)
    } else if ctx.token_program@ != token_program_id_spec() {
        Err(TokenError::IncorrectProgramId)
    } else {
        token::burn_spec(ctx.mint, ctx.token_account, ctx.mint_authority.key@, true, amount)
    }
}

/// Burns `amount` units out of the token account, shrinking the supply.
///
/// The burn is delegated with the supplied minting authority, so the token
/// program accepts it only when that authority is also the account's
/// holder or its recorded delegate.  On success the supply and the balance
/// both shrink by `amount`; on any failure nothing changes.
pub fn burn_tokens(ctx: &mut BurnTokens, amount: u64) -> (r: Result<(), TokenError>)
    ensures
        ({
            match burn_tokens_spec(*old(ctx), amount) {
                Ok((m, t)) => r is Ok && final(ctx).mint == m && final(ctx).token_account == t,
                Err(e) => (r matches Err(e2) && e2 == e) && *final(ctx) == *old(ctx),
            }
        }),
        final(ctx).mint_authority == old(ctx).mint_authority,
        final(ctx).token_program == old(ctx).token_program,
        r is Ok ==> final(ctx).mint.supply == old(ctx).mint.supply - amount && final(ctx).token_account.balance == old(ctx).token_account.balance - amount,
        r is Err ==> *final(ctx) == *old(ctx),
{
    if !ctx.mint_authority.is_signer {
        return Err(TokenError::MissingSignature);
    }
    let tp = token_program_id();
    if !key_eq(&ctx.token_program, &tp) {
        return Err(TokenError::IncorrectProgramId);
    }
    let mut m = ctx.mint;
    let mut t = ctx.token_account;
    let authority = ctx.mint_authority.key;
    let r = token::burn(&mut m, &mut t, &authority, true, amount);
    ctx.mint = m;
    ctx.token_account = t;
    r
}

} // verus!
