//! The delegated token primitive, stated as a transition on the records.
//!
//! Each entry point forwards its validated accounts and amount to the
//! platform's fungible-token program.  The functions here state what that
//! program does to the referenced records — which requests it accepts, with
//! which error it refuses the rest, and how supply and balances move — and
//! prove the executable transitions against those statements.  The checks
//! run in a fixed order — account linkage, then authority, then signature,
//! then the funds and range checks — and the first failure is surfaced.
//!
//! A debit may be authorised by the account's holder or by its recorded
//! delegate; a debiting delegate spends its allowance, and the delegation
//! ends when the allowance is used up.  A transfer whose source and
//! destination are the same account is accepted and moves nothing.

use crate::error::TokenError;
use crate::keys::{key_eq, Pubkey};
use crate::state::{Mint, TokenAccount};
use vstd::prelude::*;

verus! {

/// The supplied authority is the account's recorded delegate.
pub open spec fn authority_is_delegate(acc: TokenAccount, authority: Seq<u8>) -> bool {
    match acc.delegate {
        Some(d) => d@ == authority,
        None => false,
    }
}

/// The supplied authority may debit the account: it is the recorded
/// delegate, or the holder.
pub open spec fn may_debit(acc: TokenAccount, authority: Seq<u8>) -> bool {
    authority_is_delegate(acc, authority) || authority == acc.owner@
}

/// The source record after `amount` leaves it: the balance shrinks, and a
/// debiting delegate's allowance shrinks with it, the delegation ending
/// when the allowance reaches zero.
pub open spec fn debited(from: TokenAccount, authority: Seq<u8>, amount: u64) -> TokenAccount {
    if authority_is_delegate(from, authority) {
        TokenAccount {
            key: from.key,
            owner: from.owner,
            mint: from.mint,
            balance: (from.balance - amount) as u64,
            delegate: if from.delegated_amount == amount {
                None
            } else {
                from.delegate
            },
            delegated_amount: (from.delegated_amount - amount) as u64,
        }
    } else {
        TokenAccount {
            key: from.key,
            owner: from.owner,
            mint: from.mint,
            balance: (from.balance - amount) as u64,
            delegate: from.delegate,
            delegated_amount: from.delegated_amount,
        }
    }
}

/// Outcome of minting `amount` new units of `mint` into `to`: the new mint
/// and token-account records on success, the token program's error otherwise.
pub open spec fn mint_to_spec(
    mint: Mint,
    to: TokenAccount,
    authority: Seq<u8>,
    authority_signed: bool,
    amount: u64,
) -> Result<(Mint, TokenAccount), TokenError> {
    if to.mint@ != mint.key@ {
        Err(TokenError::MintMismatch)
    } else if authority != mint.mint_authority@ {
        Err(TokenError::OwnerMismatch)
    } else if !authority_signed {
        Err(TokenError::MissingSignature)
    } else if to.balance + amount > u64::MAX {
        Err(TokenError::Overflow)
    } else if mint.supply + amount > u64::MAX {
        Err(TokenError::Overflow)
    } else {
        Ok((
            Mint {
                key: mint.key,
                supply: (mint.supply + amount) as u64,
                decimals: mint.decimals,
                mint_authority: mint.mint_authority,
            },
            TokenAccount {
                key: to.key,
                owner: to.owner,
                mint: to.mint,
                balance: (to.balance + amount) as u64,
                delegate: to.delegate,
                delegated_amount: to.delegated_amount,
            },
        ))
    }
}

/// The transfer is accepted: the accounts share a mint, a signing holder or
/// delegate authorised it, the source covers the amount, a delegate's
/// allowance covers it too, and either the two accounts are one and the
/// same or the destination can receive the amount.
pub open spec fn transfer_accepted(
    from: TokenAccount,
    to: TokenAccount,
    authority: Seq<u8>,
    authority_signed: bool,
    amount: u64,
) -> bool {
    &&& from.mint@ == to.mint@
    &&& may_debit(from, authority)
    &&& authority_signed
    &&& from.balance >= amount
    &&& (authority_is_delegate(from, authority) ==> from.delegated_amount >= amount)
    &&& (from.key@ == to.key@ || to.balance + amount <= u64::MAX)
}

/// Outcome of moving `amount` units out of `from` into `to`.  A transfer
/// from an account to itself is accepted and leaves both records unchanged.
pub open spec fn transfer_spec(
    from: TokenAccount,
    to: TokenAccount,
    authority: Seq<u8>,
    authority_signed: bool,
    amount: u64,
) -> Result<(TokenAccount, TokenAccount), TokenError> {
    if from.mint@ != to.mint@ {
        Err(TokenError::MintMismatch)
    } else if !may_debit(from, authority) {
        Err(TokenError::OwnerMismatch)
    } else if !authority_signed {
        Err(TokenError::MissingSignature)
    } else if from.balance < amount {
        Err(TokenError::InsufficientFunds)
    } else if authority_is_delegate(from, authority) && from.delegated_amount < amount {
        Err(TokenError::InsufficientFunds)
    } else if from.key@ == to.key@ {
        Ok((from, to))
    } else if to.balance + amount > u64::MAX {
        Err(TokenError::Overflow)
    } else {
        Ok((
            debited(from, authority, amount),
            TokenAccount {
                key: to.key,
                owner: to.owner,
                mint: to.mint,
                balance: (to.balance + amount) as u64,
                delegate: to.delegate,
                delegated_amount: to.delegated_amount,
            },
        ))
    }
}

/// The burn is accepted: the account belongs to the mint, a signing holder
/// or delegate authorised it, the balance and a delegate's allowance cover
/// the amount, and so does the supply.
pub open spec fn burn_accepted(
    mint: Mint,
    from: TokenAccount,
    authority: Seq<u8>,
    authority_signed: bool,
    amount: u64,
) -> bool {
    &&& from.mint@ == mint.key@
    &&& may_debit(from, authority)
    &&& authority_signed
    &&& from.balance >= amount
    &&& (authority_is_delegate(from, authority) ==> from.delegated_amount >= amount)
    &&& mint.supply >= amount
}

/// Outcome of burning `amount` units of `mint` out of `from`.
pub open spec fn burn_spec(
    mint: Mint,
    from: TokenAccount,
    authority: Seq<u8>,
    authority_signed: bool,
    amount: u64,
) -> Result<(Mint, TokenAccount), TokenError> {
    if from.mint@ != mint.key@ {
        Err(TokenError::MintMismatch)
    } else if !may_debit(from, authority) {
        Err(TokenError::OwnerMismatch)
    } else if !authority_signed {
        Err(TokenError::MissingSignature)
    } else if from.balance < amount {
        Err(TokenError::InsufficientFunds)
    } else if authority_is_delegate(from, authority) && from.delegated_amount < amount {
        Err(TokenError::InsufficientFunds)
    } else if mint.supply < amount {
        Err(TokenError::Overflow)
    } else {
        Ok((
            Mint {
                key: mint.key,
                supply: (mint.supply - amount) as u64,
                decimals: mint.decimals,
                mint_authority: mint.mint_authority,
            },
            debited(from, authority, amount),
        ))
    }
}

/// Mints `amount` new units of `mint` into `to`.
///
/// Accepted exactly when `to` belongs to `mint`, the signing minting
/// authority was supplied, and neither the supply nor the balance leaves the
/// 64-bit range; the supply and the balance then both grow by `amount`.
pub fn mint_to(
    mint: &mut Mint,
    to: &mut TokenAccount,
    authority: &Pubkey,
    authority_signed: bool,
    amount: u64,
) -> (r: Result<(), TokenError>)
    ensures
        ({
            match mint_to_spec(*old(mint), *old(to), authority@, authority_signed, amount) {
                Ok((m, t)) => r is Ok && *final(mint) == m && *final(to) == t,
                Err(e) => (r matches Err(e2) && e2 == e) && *final(mint) == *old(mint) && *final(to) == *old(to),
            }
        }),
        r is Ok <==> (old(to).mint@ == old(mint).key@ && authority@ == old(mint).mint_authority@
            && authority_signed && old(to).balance + amount <= u64::MAX && old(mint).supply
            + amount <= u64::MAX),
        r is Ok ==> final(mint).supply == old(mint).supply + amount && final(to).balance == old(to).balance + amount,
        r is Err ==> *final(mint) == *old(mint) && *final(to) == *old(to),
{
    if !key_eq(&to.mint, &mint.key) {
        return Err(TokenError::MintMismatch);
    }
    if !key_eq(authority, &mint.mint_authority) {
        return Err(TokenError::OwnerMismatch);
    }
    if !authority_signed {
        return Err(TokenError::MissingSignature);
    }
    if amount > u64::MAX - to.balance {
        return Err(TokenError::Overflow);
    }
    if amount > u64::MAX - mint.supply {
        return Err(TokenError::Overflow);
    }
    to.balance = to.balance + amount;
    mint.supply = mint.supply + amount;
    Ok(())
}

/// Whether the supplied authority is the account's recorded delegate.
fn is_delegate_of(from: &TokenAccount, authority: &Pubkey) -> (r: bool)
    ensures
        r == authority_is_delegate(*from, authority@),
{
    match from.delegate {
        Some(d) => key_eq(&d, authority),
        None => false,
    }
}

/// Moves `amount` units out of `from` into `to`.
///
/// Accepted exactly when the two accounts share a mint, a signing holder or
/// delegate of `from` was supplied, `from` (and a delegate's allowance)
/// covers the amount, and `to` can receive it or is `from` itself; the two
/// balances then move atomically by `amount`, or stay as they are when the
/// transfer is to the account itself.
pub fn transfer(
    from: &mut TokenAccount,
    to: &mut TokenAccount,
    authority: &Pubkey,
    authority_signed: bool,
    amount: u64,
) -> (r: Result<(), TokenError>)
    ensures
        ({
            match transfer_spec(*old(from), *old(to), authority@, authority_signed, amount) {
                Ok((f, t)) => r is Ok && *final(from) == f && *final(to) == t,
                Err(e) => (r matches Err(e2) && e2 == e) && *final(from) == *old(from) && *final(to) == *old(to),
            }
        }),
        r is Ok <==> transfer_accepted(*old(from), *old(to), authority@, authority_signed, amount),
        r is Ok && old(from).key@ != old(to).key@ ==> final(from).balance == old(from).balance
            - amount && final(to).balance == old(to).balance + amount,
        r is Ok && old(from).key@ == old(to).key@ ==> *final(from) == *old(from) && *final(to)
            == *old(to),
        r is Ok ==> final(from).balance + final(to).balance == old(from).balance + old(to).balance,
        r is Err ==> *final(from) == *old(from) && *final(to) == *old(to),
{
    if !key_eq(&from.mint, &to.mint) {
        return Err(TokenError::MintMismatch);
    }
    let is_delegate = is_delegate_of(from, authority);
    if !is_delegate && !key_eq(authority, &from.owner) {
        return Err(TokenError::OwnerMismatch);
    }
    if !authority_signed {
        return Err(TokenError::MissingSignature);
    }
    if from.balance < amount {
        return Err(TokenError::InsufficientFunds);
    }
    if is_delegate && from.delegated_amount < amount {
        return Err(TokenError::InsufficientFunds);
    }
    if key_eq(&from.key, &to.key) {
        return Ok(());
    }
    if amount > u64::MAX - to.balance {
        return Err(TokenError::Overflow);
    }
    from.balance = from.balance - amount;
    if is_delegate {
        from.delegated_amount = from.delegated_amount - amount;
        if from.delegated_amount == 0 {
            from.delegate = None;
        }
    }
    to.balance = to.balance + amount;
    Ok(())
}

/// Burns `amount` units of `mint` out of `from`.
///
/// Accepted exactly when `from` belongs to `mint`, a signing holder or
/// delegate of `from` was supplied, and the balance, a delegate's allowance
/// and the supply all cover the amount; the supply and the balance then
/// both shrink by `amount`.
pub fn burn(
    mint: &mut Mint,
    from: &mut TokenAccount,
    authority: &Pubkey,
    authority_signed: bool,
    amount: u64,
) -> (r: Result<(), TokenError>)
    ensures
        ({
            match burn_spec(*old(mint), *old(from), authority@, authority_signed, amount) {
                Ok((m, f)) => r is Ok && *final(mint) == m && *final(from) == f,
                Err(e) => (r matches Err(e2) && e2 == e) && *final(mint) == *old(mint) && *final(from) == *old(from),
            }
        }),
        r is Ok <==> burn_accepted(*old(mint), *old(from), authority@, authority_signed, amount),
        r is Ok ==> final(mint).supply == old(mint).supply - amount && final(from).balance == old(from).balance - amount,
        r is Err ==> *final(mint) == *old(mint) && *final(from) == *old(from),
{
    if !key_eq(&from.mint, &mint.key) {
        return Err(TokenError::MintMismatch);
    }
    let is_delegate = is_delegate_of(from, authority);
    if !is_delegate && !key_eq(authority, &from.owner) {
        return Err(TokenError::OwnerMismatch);
    }
    if !authority_signed {
        return Err(TokenError::MissingSignature);
    }
    if from.balance < amount {
        return Err(TokenError::InsufficientFunds);
    }
    if is_delegate && from.delegated_amount < amount {
        return Err(TokenError::InsufficientFunds);
    }
    if mint.supply < amount {
        return Err(TokenError::Overflow);
    }
    from.balance = from.balance - amount;
    if is_delegate {
        from.delegated_amount = from.delegated_amount - amount;
        if from.delegated_amount == 0 {
            from.delegate = None;
        }
    }
    mint.supply = mint.supply - amount;
    Ok(())
}

/// On any accepted transfer, value only moves: the sum of the two balances
/// after equals the sum before.
pub proof fn lemma_transfer_conserves_sum(
    from: TokenAccount,
    to: TokenAccount,
    authority: Seq<u8>,
    authority_signed: bool,
    amount: u64,
)
    ensures
        transfer_spec(from, to, authority, authority_signed, amount) matches Ok((f, t)) ==> (
        f.balance + t.balance == from.balance + to.balance),
{
}

/// Burning exactly what was just minted, as the account's holder, is always
/// accepted and restores the original supply and balance.  The holder must
/// not also be the account's recorded delegate, whose allowance the burn
/// would spend.
pub proof fn lemma_mint_then_burn(
    mint: Mint,
    acc: TokenAccount,
    mint_authority: Seq<u8>,
    amount: u64,
)
    requires
        mint_to_spec(mint, acc, mint_authority, true, amount) is Ok,
        !authority_is_delegate(acc, acc.owner@),
    ensures
        mint_to_spec(mint, acc, mint_authority, true, amount) matches Ok((m1, t1))
            ==> burn_spec(m1, t1, acc.owner@, true, amount) matches Ok((m2, t2)) && m2 == mint
            && t2 == acc,
{
}

} // verus!
