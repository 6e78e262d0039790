use token_manager::error::TokenError;
use token_manager::instructions::{
    program_id, token_program_id, PROGRAM_ID, TOKEN_PROGRAM_ID,
};
use token_manager::keys::{key_eq, Pubkey};
use token_manager::pda::{derive_mint_address, derive_token_account_address};
use token_manager::state::{Mint, Signer, TokenAccount, MINT_DECIMALS};
use token_manager::{
    burn_tokens, create_token, mint_tokens, transfer_tokens, BurnTokens, CreateToken, MintTokens,
    TransferTokens,
};

fn key(fill: u8) -> Pubkey {
    Pubkey::from_bytes([fill; 32])
}

fn mint_ctx(supply: u64, balance: u64) -> MintTokens {
    MintTokens {
        mint: Mint {
            key: key(2),
            supply,
            decimals: MINT_DECIMALS,
            mint_authority: key(1),
        },
        recipient: TokenAccount {
            key: key(3),
            owner: key(4),
            mint: key(2),
            balance,
            delegate: None,
            delegated_amount: 0,
        },
        mint_authority: Signer {
            key: key(1),
            is_signer: true,
        },
        token_program: token_program_id(),
    }
}

fn transfer_ctx(sender_balance: u64, receiver_balance: u64) -> TransferTokens {
    TransferTokens {
        sender: TokenAccount {
            key: key(3),
            owner: key(4),
            mint: key(2),
            balance: sender_balance,
            delegate: None,
            delegated_amount: 0,
        },
        receiver: TokenAccount {
            key: key(5),
            owner: key(6),
            mint: key(2),
            balance: receiver_balance,
            delegate: None,
            delegated_amount: 0,
        },
        authority: Signer {
            key: key(4),
            is_signer: true,
        },
        token_program: token_program_id(),
    }
}

fn burn_ctx(supply: u64, balance: u64) -> BurnTokens {
    BurnTokens {
        mint: Mint {
            key: key(2),
            supply,
            decimals: MINT_DECIMALS,
            mint_authority: key(1),
        },
        token_account: TokenAccount {
            key: key(3),
            owner: key(1),
            mint: key(2),
            balance,
            delegate: None,
            delegated_amount: 0,
        },
        mint_authority: Signer {
            key: key(1),
            is_signer: true,
        },
        token_program: token_program_id(),
    }
}

#[test]
fn key_eq_equal_and_unequal() {
    assert!(key_eq(&key(7), &key(7)));
    assert!(!key_eq(&key(7), &key(8)));
    let mut almost = [9u8; 32];
    almost[31] = 10;
    assert!(!key_eq(&Pubkey::from_bytes(almost), &key(9)));
}

#[test]
fn program_id_constants_match_their_declared_addresses() {
    let spl = solana_pubkey::Pubkey::from_str_const("TokenkegQfeZyiNwAJbNbGKPFXCWuBvf9Ss623VQ5DA");
    assert_eq!(spl.to_bytes(), TOKEN_PROGRAM_ID);
    let own = solana_pubkey::Pubkey::from_str_const("3xYxr5FqjM6y54PZrovqEkiYiHznS3WJWB8Lm9Bn4SGG");
    assert_eq!(own.to_bytes(), PROGRAM_ID);
    assert_eq!(anchor_spl::token::ID.to_bytes(), TOKEN_PROGRAM_ID);
}

#[test]
fn derivation_matches_the_platform() {
    let authority = key(11);
    let program = program_id();
    let sol_program = solana_pubkey::Pubkey::new_from_array(program.bytes);
    let (expected_mint, mint_bump) = solana_pubkey::Pubkey::find_program_address(
        &[b"mint", &authority.bytes],
        &sol_program,
    );
    let (got_mint, got_bump) = derive_mint_address(&authority, &program).unwrap();
    assert_eq!(got_mint.bytes, expected_mint.to_bytes());
    assert_eq!(got_bump, mint_bump);

    let (expected_ta, ta_bump) = solana_pubkey::Pubkey::find_program_address(
        &[b"token_account", &authority.bytes],
        &sol_program,
    );
    let (got_ta, got_ta_bump) = derive_token_account_address(&authority, &program).unwrap();
    assert_eq!(got_ta.bytes, expected_ta.to_bytes());
    assert_eq!(got_ta_bump, ta_bump);
}

#[test]
fn derivation_depends_on_the_tag_and_authority() {
    let authority = key(11);
    let program = program_id();
    let (mint_key, _) = derive_mint_address(&authority, &program).unwrap();
    let (ta_key, _) = derive_token_account_address(&authority, &program).unwrap();
    assert_ne!(mint_key.bytes, ta_key.bytes);
    assert_ne!(mint_key.bytes, authority.bytes);
    let other = key(12);
    let (other_mint, _) = derive_mint_address(&other, &program).unwrap();
    assert_ne!(mint_key.bytes, other_mint.bytes);
}

fn create_ctx(authority: Pubkey) -> CreateToken {
    let program = program_id();
    let (mint_key, _) = derive_mint_address(&authority, &program).unwrap();
    let (ta_key, _) = derive_token_account_address(&authority, &program).unwrap();
    CreateToken {
        program_id: program,
        mint: mint_key,
        token_account: ta_key,
        mint_authority: Signer {
            key: key(1),
            is_signer: true,
        },
        authority: Signer {
            key: authority,
            is_signer: true,
        },
        token_program: token_program_id(),
    }
}

#[test]
fn create_token_mints_the_initial_supply() {
    let ctx = create_ctx(key(11));
    let (mint, account) = create_token(&ctx, 7_000).unwrap();
    assert_eq!(mint.supply, 7_000);
    assert_eq!(mint.decimals, MINT_DECIMALS);
    assert_eq!(mint.key.bytes, ctx.mint.bytes);
    assert_eq!(mint.mint_authority.bytes, key(1).bytes);
    assert_eq!(account.balance, 7_000);
    assert_eq!(account.owner.bytes, key(11).bytes);
    assert_eq!(account.mint.bytes, ctx.mint.bytes);
    assert_eq!(account.key.bytes, ctx.token_account.bytes);
}

#[test]
fn create_token_rejects_a_wrong_mint_address() {
    let mut ctx = create_ctx(key(11));
    ctx.mint = key(42);
    assert_eq!(create_token(&ctx, 1).unwrap_err(), TokenError::AddressMismatch);
}

#[test]
fn create_token_rejects_a_wrong_token_account_address() {
    let mut ctx = create_ctx(key(11));
    ctx.token_account = key(42);
    assert_eq!(create_token(&ctx, 1).unwrap_err(), TokenError::AddressMismatch);
}

#[test]
fn create_token_requires_both_signatures() {
    let mut ctx = create_ctx(key(11));
    ctx.mint_authority.is_signer = false;
    assert_eq!(create_token(&ctx, 1).unwrap_err(), TokenError::MissingSignature);
    let mut ctx = create_ctx(key(11));
    ctx.authority.is_signer = false;
    assert_eq!(create_token(&ctx, 1).unwrap_err(), TokenError::MissingSignature);
}

#[test]
fn create_token_rejects_a_wrong_token_program() {
    let mut ctx = create_ctx(key(11));
    ctx.token_program = key(42);
    assert_eq!(create_token(&ctx, 1).unwrap_err(), TokenError::IncorrectProgramId);
}

#[test]
fn mint_tokens_grows_supply_and_balance() {
    let mut ctx = mint_ctx(100, 5);
    assert!(mint_tokens(&mut ctx, 10).is_ok());
    assert_eq!(ctx.mint.supply, 110);
    assert_eq!(ctx.recipient.balance, 15);
}

#[test]
fn mint_tokens_requires_the_minting_authority() {
    let mut ctx = mint_ctx(100, 5);
    ctx.mint_authority.key = key(9);
    assert_eq!(mint_tokens(&mut ctx, 10).unwrap_err(), TokenError::OwnerMismatch);
    assert_eq!(ctx.mint.supply, 100);
    assert_eq!(ctx.recipient.balance, 5);
}

#[test]
fn mint_tokens_requires_a_signature() {
    let mut ctx = mint_ctx(100, 5);
    ctx.mint_authority.is_signer = false;
    assert_eq!(mint_tokens(&mut ctx, 10).unwrap_err(), TokenError::MissingSignature);
}

#[test]
fn mint_tokens_rejects_a_foreign_account() {
    let mut ctx = mint_ctx(100, 5);
    ctx.recipient.mint = key(9);
    assert_eq!(mint_tokens(&mut ctx, 10).unwrap_err(), TokenError::MintMismatch);
}

#[test]
fn mint_tokens_rejects_a_wrong_token_program() {
    let mut ctx = mint_ctx(100, 5);
    ctx.token_program = key(9);
    assert_eq!(mint_tokens(&mut ctx, 10).unwrap_err(), TokenError::IncorrectProgramId);
}

#[test]
fn mint_tokens_rejects_balance_overflow() {
    let mut ctx = mint_ctx(100, u64::MAX - 5);
    assert_eq!(mint_tokens(&mut ctx, 10).unwrap_err(), TokenError::Overflow);
    assert_eq!(ctx.mint.supply, 100);
    assert_eq!(ctx.recipient.balance, u64::MAX - 5);
}

#[test]
fn mint_tokens_rejects_supply_overflow() {
    let mut ctx = mint_ctx(u64::MAX - 5, 0);
    assert_eq!(mint_tokens(&mut ctx, 10).unwrap_err(), TokenError::Overflow);
}

#[test]
fn transfer_tokens_moves_the_amount() {
    let mut ctx = transfer_ctx(100, 20);
    assert!(transfer_tokens(&mut ctx, 30).is_ok());
    assert_eq!(ctx.sender.balance, 70);
    assert_eq!(ctx.receiver.balance, 50);
}

#[test]
fn transfer_tokens_conserves_the_sum() {
    let mut ctx = transfer_ctx(64, 36);
    assert!(transfer_tokens(&mut ctx, 64).is_ok());
    assert_eq!(ctx.sender.balance + ctx.receiver.balance, 100);
    assert_eq!(ctx.sender.balance, 0);
}

#[test]
fn transfer_tokens_rejects_insufficient_funds() {
    let mut ctx = transfer_ctx(29, 0);
    assert_eq!(transfer_tokens(&mut ctx, 30).unwrap_err(), TokenError::InsufficientFunds);
    assert_eq!(ctx.sender.balance, 29);
    assert_eq!(ctx.receiver.balance, 0);
}

#[test]
fn transfer_tokens_requires_the_senders_holder() {
    let mut ctx = transfer_ctx(100, 20);
    ctx.authority.key = key(9);
    assert_eq!(transfer_tokens(&mut ctx, 30).unwrap_err(), TokenError::OwnerMismatch);
}

#[test]
fn transfer_tokens_requires_a_signature() {
    let mut ctx = transfer_ctx(100, 20);
    ctx.authority.is_signer = false;
    assert_eq!(transfer_tokens(&mut ctx, 30).unwrap_err(), TokenError::MissingSignature);
}

#[test]
fn transfer_tokens_rejects_mixed_mints() {
    let mut ctx = transfer_ctx(100, 20);
    ctx.receiver.mint = key(9);
    assert_eq!(transfer_tokens(&mut ctx, 30).unwrap_err(), TokenError::MintMismatch);
}

#[test]
fn transfer_tokens_rejects_receiver_overflow() {
    let mut ctx = transfer_ctx(100, u64::MAX - 5);
    assert_eq!(transfer_tokens(&mut ctx, 30).unwrap_err(), TokenError::Overflow);
}

#[test]
fn burn_tokens_shrinks_supply_and_balance() {
    let mut ctx = burn_ctx(100, 40);
    assert!(burn_tokens(&mut ctx, 15).is_ok());
    assert_eq!(ctx.mint.supply, 85);
    assert_eq!(ctx.token_account.balance, 25);
}

#[test]
fn burn_tokens_requires_the_accounts_holder() {
    let mut ctx = burn_ctx(100, 40);
    ctx.token_account.owner = key(7);
    assert_eq!(burn_tokens(&mut ctx, 15).unwrap_err(), TokenError::OwnerMismatch);
    assert_eq!(ctx.mint.supply, 100);
    assert_eq!(ctx.token_account.balance, 40);
}

#[test]
fn burn_tokens_rejects_insufficient_funds() {
    let mut ctx = burn_ctx(100, 14);
    assert_eq!(burn_tokens(&mut ctx, 15).unwrap_err(), TokenError::InsufficientFunds);
}

#[test]
fn burn_tokens_rejects_supply_underflow() {
    let mut ctx = burn_ctx(10, 40);
    assert_eq!(burn_tokens(&mut ctx, 15).unwrap_err(), TokenError::Overflow);
}

#[test]
fn burn_tokens_requires_a_signature() {
    let mut ctx = burn_ctx(100, 40);
    ctx.mint_authority.is_signer = false;
    assert_eq!(burn_tokens(&mut ctx, 15).unwrap_err(), TokenError::MissingSignature);
}

#[test]
fn minting_then_burning_restores_the_records() {
    let mut ctx = burn_ctx(100, 40);
    let mut mint_side = MintTokens {
        mint: ctx.mint,
        recipient: ctx.token_account,
        mint_authority: ctx.mint_authority,
        token_program: ctx.token_program,
    };
    assert!(mint_tokens(&mut mint_side, 60).is_ok());
    ctx.mint = mint_side.mint;
    ctx.token_account = mint_side.recipient;
    assert_eq!(ctx.mint.supply, 160);
    assert!(burn_tokens(&mut ctx, 60).is_ok());
    assert_eq!(ctx.mint.supply, 100);
    assert_eq!(ctx.token_account.balance, 40);
}

#[test]
fn a_created_token_can_move_and_burn() {
    let creator = key(11);
    let ctx = create_ctx(creator);
    let (mint, account) = create_token(&ctx, 1_000).unwrap();

    let mut transfer_side = TransferTokens {
        sender: account,
        receiver: TokenAccount {
            key: key(21),
            owner: key(22),
            mint: mint.key,
            balance: 0,
            delegate: None,
            delegated_amount: 0,
        },
        authority: Signer {
            key: creator,
            is_signer: true,
        },
        token_program: token_program_id(),
    };
    assert!(transfer_tokens(&mut transfer_side, 250).is_ok());
    assert_eq!(transfer_side.sender.balance, 750);
    assert_eq!(transfer_side.receiver.balance, 250);

    let mut burn_side = BurnTokens {
        mint,
        token_account: transfer_side.receiver,
        mint_authority: Signer {
            key: key(22),
            is_signer: true,
        },
        token_program: token_program_id(),
    };
    assert!(burn_tokens(&mut burn_side, 250).is_ok());
    assert_eq!(burn_side.mint.supply, 750);
    assert_eq!(burn_side.token_account.balance, 0);
}

#[test]
fn transfer_to_self_leaves_the_balance_unchanged() {
    let mut ctx = transfer_ctx(100, 0);
    ctx.receiver = ctx.sender;
    assert!(transfer_tokens(&mut ctx, 40).is_ok());
    assert_eq!(ctx.sender.balance, 100);
    assert_eq!(ctx.receiver.balance, 100);
}

#[test]
fn an_overdrawn_transfer_to_self_is_refused() {
    let mut ctx = transfer_ctx(5, 0);
    ctx.receiver = ctx.sender;
    assert_eq!(transfer_tokens(&mut ctx, 10).unwrap_err(), TokenError::InsufficientFunds);
    assert_eq!(ctx.sender.balance, 5);
}

#[test]
fn a_delegate_may_transfer_within_its_allowance() {
    let mut ctx = transfer_ctx(100, 20);
    ctx.sender.delegate = Some(key(8));
    ctx.sender.delegated_amount = 50;
    ctx.authority = Signer {
        key: key(8),
        is_signer: true,
    };
    assert!(transfer_tokens(&mut ctx, 30).is_ok());
    assert_eq!(ctx.sender.balance, 70);
    assert_eq!(ctx.receiver.balance, 50);
    assert_eq!(ctx.sender.delegated_amount, 20);
    assert_eq!(ctx.sender.delegate.unwrap().bytes, key(8).bytes);
}

#[test]
fn a_delegation_ends_when_its_allowance_is_used_up() {
    let mut ctx = transfer_ctx(100, 20);
    ctx.sender.delegate = Some(key(8));
    ctx.sender.delegated_amount = 30;
    ctx.authority = Signer {
        key: key(8),
        is_signer: true,
    };
    assert!(transfer_tokens(&mut ctx, 30).is_ok());
    assert_eq!(ctx.sender.balance, 70);
    assert_eq!(ctx.sender.delegated_amount, 0);
    assert!(ctx.sender.delegate.is_none());
}

#[test]
fn a_delegate_cannot_exceed_its_allowance() {
    let mut ctx = transfer_ctx(100, 20);
    ctx.sender.delegate = Some(key(8));
    ctx.sender.delegated_amount = 10;
    ctx.authority = Signer {
        key: key(8),
        is_signer: true,
    };
    assert_eq!(transfer_tokens(&mut ctx, 30).unwrap_err(), TokenError::InsufficientFunds);
    assert_eq!(ctx.sender.balance, 100);
    assert_eq!(ctx.sender.delegated_amount, 10);
}

#[test]
fn a_delegate_may_burn_within_its_allowance() {
    let mut ctx = burn_ctx(100, 40);
    ctx.token_account.owner = key(7);
    ctx.token_account.delegate = Some(key(1));
    ctx.token_account.delegated_amount = 25;
    assert!(burn_tokens(&mut ctx, 15).is_ok());
    assert_eq!(ctx.mint.supply, 85);
    assert_eq!(ctx.token_account.balance, 25);
    assert_eq!(ctx.token_account.delegated_amount, 10);
}
