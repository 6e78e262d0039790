//! Derived addresses: the accounts an authority's token is kept under.
//!
//! The host derives the address of a created account from a fixed seed list
//! and the creating program's address.  The derivation is the platform's
//! (a hash-based search for a bump byte), so this module names its result
//! and wraps the platform's own computation of it; the entry points only
//! ever compare a supplied address against the derived one.

use crate::keys::Pubkey;
use vstd::prelude::*;

verus! {

/// The address and bump byte the platform derives from a seed list and a
/// program address; `None` when no bump byte yields a valid derivation.
pub uninterp spec fn pda_of(seeds: Seq<Seq<u8>>, program: Seq<u8>) -> Option<(Seq<u8>, u8)>;

/// Relies on solana_pubkey::Pubkey::try_find_program_address: the result
/// depends on the seed list and the program address alone, and is `None`
/// only when the call finds no valid derivation — no bump byte yields one,
/// or the seeds exceed the platform's limits on their number or length.
#[verifier::external_body]
fn find_derived_address(seed_a: &Vec<u8>, seed_b: &Vec<u8>, program: &Pubkey) -> (r: Option<
    (Pubkey, u8),
>)
    ensures
        ({
            match r {
                Some((k, b)) => pda_of(seq![seed_a@, seed_b@], program@) == Some((k@, b)),
                None => pda_of(seq![seed_a@, seed_b@], program@) is None,
            }
        }),
{
    let p = solana_pubkey::Pubkey::new_from_array(program.bytes);
    solana_pubkey::Pubkey::try_find_program_address(&[seed_a.as_slice(), seed_b.as_slice()], &p)
        .map(|(k, b)| (Pubkey { bytes: k.to_bytes() }, b))
}

/// First seed of a created mint account: the bytes of the tag `mint`.
pub open spec fn mint_seed_spec() -> Seq<u8> {
    seq![109u8, 105u8, 110u8, 116u8]
}

/// First seed of a created token account: the bytes of the tag
/// `token_account`.
pub open spec fn token_account_seed_spec() -> Seq<u8> {
    seq![116u8, 111u8, 107u8, 101u8, 110u8, 95u8, 97u8, 99u8, 99u8, 111u8, 117u8, 110u8, 116u8]
}

/// Builds the mint tag as bytes.
pub fn mint_seed() -> (r: Vec<u8>)
    ensures
        r@ == mint_seed_spec(),
{
    let mut v: Vec<u8> = Vec::new();
    v.push(109);
    v.push(105);
    v.push(110);
    v.push(116);
    proof {
        assert(v@ =~= mint_seed_spec());
    }
    v
}

/// Builds the token-account tag as bytes.
pub fn token_account_seed() -> (r: Vec<u8>)
    ensures
        r@ == token_account_seed_spec(),
{
    let mut v: Vec<u8> = Vec::new();
    v.push(116);
    v.push(111);
    v.push(107);
    v.push(101);
    v.push(110);
    v.push(95);
    v.push(97);
    v.push(99);
    v.push(99);
    v.push(111);
    v.push(117);
    v.push(110);
    v.push(116);
    proof {
        assert(v@ =~= token_account_seed_spec());
    }
    v
}

/// The derivation a created mint's address must satisfy: seeds are the mint
/// tag and the creating authority's address.
pub open spec fn mint_address_derivation(authority: Seq<u8>, program: Seq<u8>) -> Option<
    (Seq<u8>, u8),
> {
    pda_of(seq![mint_seed_spec(), authority], program)
}

/// The derivation a created token account's address must satisfy: seeds are
/// the token-account tag and the creating authority's address.
pub open spec fn token_account_address_derivation(authority: Seq<u8>, program: Seq<u8>) -> Option<
    (Seq<u8>, u8),
> {
    pda_of(seq![token_account_seed_spec(), authority], program)
}

/// Derives the address reserved for `authority`'s mint under `program`.
pub fn derive_mint_address(authority: &Pubkey, program: &Pubkey) -> (r: Option<(Pubkey, u8)>)
    ensures
        ({
            match r {
                Some((k, b)) => mint_address_derivation(authority@, program@) == Some((k@, b)),
                None => mint_address_derivation(authority@, program@) is None,
            }
        }),
{
    let seed_a = mint_seed();
    let seed_b = authority.to_vec();
    find_derived_address(&seed_a, &seed_b, program)
}

/// Derives the address reserved for `authority`'s token account under
/// `program`.
pub fn derive_token_account_address(authority: &Pubkey, program: &Pubkey) -> (r: Option<
    (Pubkey, u8),
>)
    ensures
        ({
            match r {
                Some((k, b)) => token_account_address_derivation(authority@, program@) == Some((k@, b)),
                None => token_account_address_derivation(authority@, program@) is None,
            }
        }),
{
    let seed_a = token_account_seed();
    let seed_b = authority.to_vec();
    find_derived_address(&seed_a, &seed_b, program)
}

} // verus!
