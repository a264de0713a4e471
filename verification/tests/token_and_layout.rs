use lock_fund::constants::{id, token_2022_program_id, token_program_id, associated_token_program_id};
use lock_fund::derivation::{find_associated_token_address, find_config_address, find_escrow_address};
use lock_fund::errors::LockFundEscrowError;
use lock_fund::event::TransferEvent;
use lock_fund::instructions::authorize::{authorize_transfer, authorize_transfer_with, signing_address_of};
use lock_fund::instructions::transfer_token::{
    check_token_account, token_interface, transfer_checked, transfer_token_handler,
    transfer_token_with, TokenInterface, TransferChecked, TransferToken,
};
use lock_fund::pubkey::Pubkey;
use lock_fund::state::accounts::{AccountLoader, Mint, Signer, TokenAccount};
use lock_fund::state::config_account::ConfigAccount;
use lock_fund::state::layout::{ACCOUNT_SPACE, DISCRIMINATOR};
use lock_fund::transfer_token;
use sha2::Digest;

fn key(byte: u8) -> Pubkey {
    Pubkey::new_from_array([byte; 32])
}

fn token_account_of(wallet: Pubkey, mint: Pubkey, token_program: Pubkey, amount: u64) -> TokenAccount {
    let (address, _) = find_associated_token_address(&wallet, &mint, &token_program).unwrap();
    TokenAccount { key: address, mint, owner: wallet, amount }
}

/// A created lock of authority 1, approver 2 and recipient 3, with 5_000_000
/// tokens of mint 20 in the vault's token-holding account.
fn token_lock(token_program: Pubkey) -> TransferToken {
    let (a, b, r, mint) = (key(1), key(2), key(3), key(20));
    let (escrow, escrow_bump) = find_escrow_address(&a, &id()).unwrap();
    let (config_key, config_bump) = find_config_address(&escrow, &id()).unwrap();
    let mut config = ConfigAccount::zeroed();
    config.init(a, b, r, escrow, 1_700_086_400, 1_000_000, 0, 0, config_bump, escrow_bump);
    TransferToken {
        config_account: AccountLoader { key: config_key, data: Some(config) },
        escrow,
        escrow_token: token_account_of(escrow, mint, token_program, 5_000_000),
        recipient_token: token_account_of(r, mint, token_program, 10),
        recipient: r,
        mint_token: Mint { key: mint, decimals: 6, owner: token_program },
        authority: Signer { key: a, is_signer: true, lamports: 0 },
        approver: Signer { key: b, is_signer: true, lamports: 0 },
        token_program,
    }
}

#[test]
fn token_interface_is_chosen_by_the_program_address() {
    assert_eq!(token_interface(&token_program_id()), Some(TokenInterface::Legacy));
    assert_eq!(token_interface(&token_2022_program_id()), Some(TokenInterface::Extended));
    assert_eq!(token_interface(&key(0)), None);
    assert_eq!(token_interface(&id()), None);
}

#[test]
fn associated_token_address_agrees_with_the_ledger_library() {
    let (wallet, mint) = (key(3), key(20));
    let program = anchor_lang::prelude::Pubkey::new_from_array(associated_token_program_id().to_bytes());
    let (expected, bump) = anchor_lang::prelude::Pubkey::find_program_address(
        &[&wallet.to_bytes(), &token_program_id().to_bytes(), &mint.to_bytes()],
        &program,
    );
    let found = find_associated_token_address(&wallet, &mint, &token_program_id());
    assert_eq!(found, Some((Pubkey::new_from_array(expected.to_bytes()), bump)));
    assert_ne!(found, find_associated_token_address(&wallet, &mint, &token_2022_program_id()));
}

#[test]
fn token_transfer_signed_by_both_moves_the_amount() {
    let mut ctx = token_lock(token_program_id());
    let before = ctx;
    let (order, event) = transfer_token(&mut ctx, 2_000_000).unwrap();
    assert_eq!(ctx.escrow_token.amount, 3_000_000);
    assert_eq!(ctx.recipient_token.amount, 2_000_010);
    assert_eq!(
        order,
        TransferChecked {
            interface: TokenInterface::Legacy,
            from: before.escrow_token.key,
            mint: key(20),
            to: before.recipient_token.key,
            authority: before.escrow,
            amount: 2_000_000,
            decimals: 6,
        }
    );
    assert_eq!(
        event,
        TransferEvent {
            from: before.escrow_token.key,
            to: before.recipient_token.key,
            config_account: before.config_account.key,
            amount: 2_000_000,
        }
    );
    assert_eq!(ctx.config_account, before.config_account);
}

#[test]
fn token_transfer_under_the_extended_interface() {
    let mut ctx = token_lock(token_2022_program_id());
    let (order, _) = transfer_token(&mut ctx, 5_000_000).unwrap();
    assert_eq!(order.interface, TokenInterface::Extended);
    assert_eq!(ctx.escrow_token.amount, 0);
    assert_eq!(ctx.recipient_token.amount, 5_000_010);
}

#[test]
fn token_transfer_needs_both_signatures_and_the_fixed_recipient() {
    let valid = token_lock(token_program_id());

    let mut ctx = valid;
    ctx.approver.is_signer = false;
    assert_eq!(transfer_token(&mut ctx, 1), Err(LockFundEscrowError::Unauthorize));
    assert_eq!(ctx.escrow_token.amount, 5_000_000);
    assert_eq!(ctx.recipient_token.amount, 10);

    let mut ctx = valid;
    ctx.authority.is_signer = false;
    assert_eq!(transfer_token(&mut ctx, 1), Err(LockFundEscrowError::Unauthorize));

    let mut ctx = valid;
    ctx.recipient = key(99);
    ctx.authority.is_signer = false;
    assert_eq!(transfer_token(&mut ctx, 1), Err(LockFundEscrowError::InvalidRecipient));

    let mut ctx = valid;
    ctx.escrow = key(98);
    assert_eq!(transfer_token(&mut ctx, 1), Err(LockFundEscrowError::InvalidEscrow));
}

#[test]
fn token_transfer_failures() {
    let valid = token_lock(token_program_id());
    let program = id();

    let mut ctx = valid;
    assert_eq!(transfer_token_handler(&mut ctx, 5_000_001, &program), Err(LockFundEscrowError::InsufficientFunds));
    assert_eq!(ctx, valid);

    let mut ctx = valid;
    ctx.token_program = key(50);
    ctx.mint_token.owner = key(50);
    assert_eq!(transfer_token_handler(&mut ctx, 1, &program), Err(LockFundEscrowError::InvalidProgramId));

    let mut ctx = valid;
    ctx.mint_token.owner = token_2022_program_id();
    assert_eq!(transfer_token_handler(&mut ctx, 1, &program), Err(LockFundEscrowError::MintMismatch));

    let mut ctx = valid;
    ctx.escrow_token.owner = key(3);
    assert_eq!(transfer_token_handler(&mut ctx, 1, &program), Err(LockFundEscrowError::InvalidEscrow));

    let mut ctx = valid;
    ctx.escrow_token.key = key(51);
    assert_eq!(transfer_token_handler(&mut ctx, 1, &program), Err(LockFundEscrowError::InvalidEscrow));

    let mut ctx = valid;
    ctx.recipient_token = token_account_of(key(4), key(20), token_program_id(), 0);
    assert_eq!(transfer_token_handler(&mut ctx, 1, &program), Err(LockFundEscrowError::InvalidRecipient));

    let mut ctx = valid;
    ctx.recipient_token.mint = key(21);
    assert_eq!(transfer_token_handler(&mut ctx, 1, &program), Err(LockFundEscrowError::MintMismatch));

    let mut ctx = valid;
    ctx.recipient_token.amount = u64::MAX;
    assert_eq!(transfer_token_handler(&mut ctx, 1, &program), Err(LockFundEscrowError::ArithmeticOverflow));
    assert_eq!(ctx.escrow_token.amount, 5_000_000);

    let mut ctx = valid;
    ctx.config_account.data = None;
    assert_eq!(transfer_token_handler(&mut ctx, 1, &program), Err(LockFundEscrowError::AccountNotInitialized));
}

#[test]
fn checked_transfer_checks_mint_and_decimals() {
    let mint = Mint { key: key(20), decimals: 6, owner: token_program_id() };
    let mut from = TokenAccount { key: key(30), mint: key(20), owner: key(1), amount: 100 };
    let mut to = TokenAccount { key: key(31), mint: key(20), owner: key(2), amount: 1 };
    assert_eq!(transfer_checked(&mut from, &mint, &mut to, 10, 5), Err(LockFundEscrowError::MintMismatch));
    assert_eq!((from.amount, to.amount), (100, 1));
    assert_eq!(transfer_checked(&mut from, &mint, &mut to, 10, 6), Ok(()));
    assert_eq!((from.amount, to.amount), (90, 11));
    assert_eq!(transfer_checked(&mut from, &mint, &mut to, 91, 6), Err(LockFundEscrowError::InsufficientFunds));
    let mut same = from;
    assert_eq!(transfer_checked(&mut from, &mint, &mut same, 90, 6), Ok(()));
    assert_eq!((from.amount, same.amount), (90, 90));
    from.mint = key(21);
    assert_eq!(transfer_checked(&mut from, &mint, &mut to, 1, 6), Err(LockFundEscrowError::MintMismatch));
}

#[test]
fn token_addresses_agree_with_the_token_library() {
    assert_eq!(token_program_id().to_bytes(), anchor_spl::token::ID.to_bytes());
    assert_eq!(token_2022_program_id().to_bytes(), anchor_spl::token_2022::ID.to_bytes());
    assert_eq!(associated_token_program_id().to_bytes(), anchor_spl::associated_token::ID.to_bytes());
    let wallet = anchor_lang::prelude::Pubkey::new_from_array([3u8; 32]);
    let mint = anchor_lang::prelude::Pubkey::new_from_array([20u8; 32]);
    let expected = anchor_spl::associated_token::get_associated_token_address(&wallet, &mint);
    let (found, _) = find_associated_token_address(&key(3), &key(20), &token_program_id()).unwrap();
    assert_eq!(found.to_bytes(), expected.to_bytes());
}

#[test]
fn token_account_must_lie_at_the_derived_address() {
    let account = token_account_of(key(3), key(20), token_program_id(), 0);
    let derived = find_associated_token_address(&key(3), &key(20), &token_program_id());
    assert!(check_token_account(&account, &key(3), derived));
    assert!(!check_token_account(&account, &key(4), derived));
    assert!(!check_token_account(&account, &key(3), None));
    assert!(!check_token_account(&account, &key(3), find_associated_token_address(&key(3), &key(21), &token_program_id())));
    assert!(!check_token_account(&account, &key(3), find_associated_token_address(&key(3), &key(20), &token_2022_program_id())));
    let moved = TokenAccount { key: key(9), ..account };
    assert!(!check_token_account(&moved, &key(3), derived));
    assert!(check_token_account(&moved, &key(3), Some((key(9), 0))));
}

#[test]
fn token_transfer_decides_on_the_addresses_given() {
    let mut config = ConfigAccount::zeroed();
    config.init(key(1), key(2), key(3), key(4), 0, 0, 0, 0, 200, 201);
    let valid = TransferToken {
        config_account: AccountLoader { key: key(5), data: Some(config) },
        escrow: key(4),
        escrow_token: TokenAccount { key: key(30), mint: key(20), owner: key(4), amount: 100 },
        recipient_token: TokenAccount { key: key(31), mint: key(20), owner: key(3), amount: 1 },
        recipient: key(3),
        mint_token: Mint { key: key(20), decimals: 9, owner: token_2022_program_id() },
        authority: Signer { key: key(1), is_signer: true, lamports: 0 },
        approver: Signer { key: key(2), is_signer: true, lamports: 0 },
        token_program: token_2022_program_id(),
    };
    let (vault_at, recipient_at) = (Some((key(30), 255)), Some((key(31), 254)));

    let mut ctx = valid;
    let (order, event) = transfer_token_with(&mut ctx, 60, Some(key(4)), vault_at, recipient_at).unwrap();
    assert_eq!((ctx.escrow_token.amount, ctx.recipient_token.amount), (40, 61));
    assert_eq!(order.interface, TokenInterface::Extended);
    assert_eq!((order.from, order.to, order.mint, order.authority), (key(30), key(31), key(20), key(4)));
    assert_eq!((order.amount, order.decimals), (60, 9));
    assert_eq!(event, TransferEvent { from: key(30), to: key(31), config_account: key(5), amount: 60 });

    let mut ctx = valid;
    assert_eq!(transfer_token_with(&mut ctx, 60, None, vault_at, recipient_at), Err(LockFundEscrowError::InvalidEscrow));
    assert_eq!(transfer_token_with(&mut ctx, 60, Some(key(9)), vault_at, recipient_at), Err(LockFundEscrowError::InvalidEscrow));
    assert_eq!(transfer_token_with(&mut ctx, 60, Some(key(4)), None, recipient_at), Err(LockFundEscrowError::InvalidEscrow));
    assert_eq!(transfer_token_with(&mut ctx, 60, Some(key(4)), vault_at, vault_at), Err(LockFundEscrowError::InvalidRecipient));
    assert_eq!(transfer_token_with(&mut ctx, 101, Some(key(4)), vault_at, recipient_at), Err(LockFundEscrowError::InsufficientFunds));
    assert_eq!(ctx, valid);
}

#[test]
fn authorization_checks_in_order() {
    let lock = token_lock(token_program_id());
    let program = id();
    let stranger = Signer { key: key(66), is_signer: true, lamports: 0 };
    assert_eq!(
        authorize_transfer(&lock.config_account, &lock.escrow, &lock.recipient, &lock.authority, &lock.approver, &program),
        Ok(())
    );
    assert_eq!(
        authorize_transfer(&lock.config_account, &key(5), &key(6), &stranger, &stranger, &program),
        Err(LockFundEscrowError::InvalidRecipient)
    );
    assert_eq!(
        authorize_transfer(&lock.config_account, &key(5), &lock.recipient, &stranger, &lock.approver, &program),
        Err(LockFundEscrowError::Unauthorize)
    );
    assert_eq!(
        authorize_transfer(&lock.config_account, &key(5), &lock.recipient, &lock.authority, &lock.approver, &program),
        Err(LockFundEscrowError::InvalidEscrow)
    );
    assert_eq!(signing_address_of(&lock.config_account, &program), Some(lock.escrow));
    assert_eq!(signing_address_of(&AccountLoader { key: key(1), data: None }, &program), None);
    assert_eq!(
        authorize_transfer_with(&lock.config_account, &lock.escrow, &lock.recipient, &lock.authority, &lock.approver, None),
        Err(LockFundEscrowError::InvalidEscrow)
    );
    assert_eq!(
        authorize_transfer_with(&lock.config_account, &lock.escrow, &lock.recipient, &lock.authority, &lock.approver, Some(lock.escrow)),
        Ok(())
    );
    let swapped = authorize_transfer(&lock.config_account, &lock.escrow, &lock.recipient, &lock.approver, &lock.authority, &program);
    assert_eq!(swapped, Err(LockFundEscrowError::Unauthorize));
}

#[test]
fn config_account_layout() {
    let mut account = ConfigAccount::zeroed();
    account.init(key(1), key(2), key(3), key(4), 0x0102030405060708, 1_000_000, 5, 1, 254, 253);
    let bytes = account.to_bytes();
    assert_eq!(bytes.len(), 160);
    assert_eq!(bytes.len(), ConfigAccount::INIT_SPACE);
    assert_eq!(&bytes[0..32], &[1u8; 32]);
    assert_eq!(&bytes[32..64], &[2u8; 32]);
    assert_eq!(&bytes[64..96], &[3u8; 32]);
    assert_eq!(&bytes[96..128], &[4u8; 32]);
    assert_eq!(&bytes[128..136], &[8, 7, 6, 5, 4, 3, 2, 1]);
    assert_eq!(&bytes[136..144], &[0x40, 0x42, 0x0f, 0, 0, 0, 0, 0]);
    assert_eq!(&bytes[144..148], &[5, 1, 254, 253]);
    assert_eq!(&bytes[148..160], &[0u8; 12]);
    assert_eq!(ConfigAccount::from_bytes(&bytes), Some(account));
}

#[test]
fn config_account_layout_needs_160_bytes() {
    assert_eq!(ConfigAccount::from_bytes(&[0u8; 159]), None);
    assert_eq!(ConfigAccount::from_bytes(&[0u8; 161]), None);
    assert_eq!(ConfigAccount::from_bytes(&[]), None);
    assert_eq!(ConfigAccount::from_bytes(&[0u8; 160]), Some(ConfigAccount::zeroed()));
    let mut bytes = [0u8; 160];
    for (i, byte) in bytes.iter_mut().enumerate() {
        *byte = i as u8;
    }
    let account = ConfigAccount::from_bytes(&bytes).unwrap();
    assert_eq!(account.cliff_time, 0x8786858483828180);
    assert_eq!(account.escrow_bump, 147);
    assert_eq!(account.padding_0[11], 159);
    assert_eq!(account.to_bytes(), bytes.to_vec());
}

#[test]
fn config_account_data_starts_with_its_prefix() {
    let digest = sha2::Sha256::digest(b"account:ConfigAccount");
    assert_eq!(&digest[..8], &DISCRIMINATOR);
    assert_eq!(ACCOUNT_SPACE, 8 + ConfigAccount::INIT_SPACE);

    let mut account = ConfigAccount::zeroed();
    account.init(key(1), key(2), key(3), key(4), 77, 88, 1, 0, 255, 254);
    let data = account.to_account_data();
    assert_eq!(data.len(), 168);
    assert_eq!(&data[..8], &[189, 255, 97, 70, 186, 189, 24, 102]);
    assert_eq!(&data[8..], &account.to_bytes()[..]);
    assert_eq!(ConfigAccount::from_account_data(&data), Some(account));

    let mut other_kind = data.clone();
    other_kind[7] ^= 1;
    assert_eq!(ConfigAccount::from_account_data(&other_kind), None);
    assert_eq!(ConfigAccount::from_account_data(&data[..167]), None);
    assert_eq!(ConfigAccount::from_account_data(&data[8..]), None);
    assert_eq!(ConfigAccount::from_account_data(&[]), None);
    let mut longer = data.clone();
    longer.push(0);
    assert_eq!(ConfigAccount::from_account_data(&longer), None);
}
