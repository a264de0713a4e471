use lock_fund::constants::{id, ID, TOKEN_2022_PROGRAM_ID, TOKEN_PROGRAM_ID, ASSOCIATED_TOKEN_PROGRAM_ID, ESCROW_SEED, CONFIG_SEED};
use lock_fund::derivation::{escrow_seeds, find_config_address, find_escrow_address, find_lock_addresses, reconstruct_signing_address};
use lock_fund::errors::LockFundEscrowError;
use lock_fund::event::{CreateConfigEvent, TransferEvent};
use lock_fund::instructions::create_config::{create_config_handler, create_config_with, CreateConfig};
use lock_fund::instructions::transfer_sol::{transfer_lamports, transfer_sol_handler, transfer_sol_with, TransferSol};
use lock_fund::pubkey::Pubkey;
use lock_fund::state::accounts::{AccountInfo, AccountLoader, Clock, Signer};
use lock_fund::state::config_account::{ConfigAccount, CreateConfigParams, UpdateActorMode};
use lock_fund::{create_config, transfer_sol};

const RENT: u64 = 2_950_000;
const NOW: i64 = 1_700_000_000;

fn key(byte: u8) -> Pubkey {
    Pubkey::new_from_array([byte; 32])
}

fn edge_after(more: u64) -> CreateConfigParams {
    CreateConfigParams { cliff_time_duration: u64::MAX - NOW as u64 + more, ..day_params() }
}

fn day_params() -> CreateConfigParams {
    CreateConfigParams {
        cliff_time_duration: 86400,
        amount_per_day: 1_000_000,
        update_actor_mode: 0,
        enable_transfer_full: 0,
    }
}

/// Accounts for creating the lock of authority A with approver B and recipient R.
fn fresh_create(authority: Pubkey, approver: Pubkey, recipient: Pubkey) -> CreateConfig {
    let (escrow, _) = find_escrow_address(&authority, &id()).unwrap();
    let (config, _) = find_config_address(&escrow, &id()).unwrap();
    CreateConfig {
        authority: Signer { key: authority, is_signer: true, lamports: 10_000_000 },
        config_account: AccountLoader { key: config, data: None },
        escrow: AccountInfo { key: escrow, lamports: 0, in_use: false },
        recipient,
        approver,
    }
}

/// The lock of A, B and R, created, with its vault funded.
fn funded_lock(funds: u64) -> (CreateConfig, TransferSol) {
    let (a, b, r) = (key(1), key(2), key(3));
    let mut ctx = fresh_create(a, b, r);
    create_config(&mut ctx, day_params(), &Clock { unix_timestamp: NOW }, RENT).unwrap();
    let transfer = TransferSol {
        config_account: ctx.config_account,
        escrow: AccountInfo { lamports: funds, ..ctx.escrow },
        recipient: AccountInfo { key: r, lamports: 7, in_use: true },
        authority: Signer { key: a, is_signer: true, lamports: 0 },
        approver: Signer { key: b, is_signer: true, lamports: 0 },
    };
    (ctx, transfer)
}

#[test]
fn program_id_is_the_declared_address() {
    let decoded = bs58::decode("5aBQfQ6A6qWVSiQTEweyg9RYLkWgg7BDYh9yScBSP547").into_vec().unwrap();
    assert_eq!(decoded, ID.to_vec());
    assert_eq!(id().to_bytes(), ID);
}

#[test]
fn token_program_ids_are_the_well_known_addresses() {
    let legacy = bs58::decode("TokenkegQfeZyiNwAJbNbGKPFXCWuBvf9Ss623VQ5DA").into_vec().unwrap();
    let extended = bs58::decode("TokenzQdBNbLqP5VEhdkAS6EPFLC1PHnBqCXEpPxuEb").into_vec().unwrap();
    let associated = bs58::decode("ATokenGPvbdGVxr1b2hvZbsiqW5xWH25efTNsLJA8knL").into_vec().unwrap();
    assert_eq!(legacy, TOKEN_PROGRAM_ID.to_vec());
    assert_eq!(extended, TOKEN_2022_PROGRAM_ID.to_vec());
    assert_eq!(associated, ASSOCIATED_TOKEN_PROGRAM_ID.to_vec());
}

#[test]
fn seeds_are_the_two_tags() {
    assert_eq!(&ESCROW_SEED[..], b"escrow");
    assert_eq!(&CONFIG_SEED[..], b"config");
}

#[test]
fn pubkey_equality_is_byte_equality() {
    let mut bytes = [9u8; 32];
    let a = Pubkey::new_from_array(bytes);
    assert!(a.key_eq(&key(9)));
    bytes[31] = 8;
    assert!(!a.key_eq(&Pubkey::new_from_array(bytes)));
    assert_eq!(a.to_vec(), vec![9u8; 32]);
    assert_eq!(a.to_bytes(), [9u8; 32]);
}

#[test]
fn derivation_agrees_with_the_ledger_library() {
    let authority = key(1);
    let program = anchor_lang::prelude::Pubkey::new_from_array(ID);
    let (expected, bump) = anchor_lang::prelude::Pubkey::find_program_address(
        &[b"escrow", &authority.to_bytes()],
        &program,
    );
    let (escrow, found_bump) = find_escrow_address(&authority, &id()).unwrap();
    assert_eq!(escrow.to_bytes(), expected.to_bytes());
    assert_eq!(found_bump, bump);
    assert_ne!(escrow, authority);

    let (expected_config, config_bump) = anchor_lang::prelude::Pubkey::find_program_address(
        &[b"config", &escrow.to_bytes()],
        &program,
    );
    let (config, found_config_bump) = find_config_address(&escrow, &id()).unwrap();
    assert_eq!(config.to_bytes(), expected_config.to_bytes());
    assert_eq!(found_config_bump, config_bump);
    assert_ne!(config, escrow);
}

#[test]
fn derivation_is_deterministic() {
    let first = find_escrow_address(&key(5), &id());
    let second = find_escrow_address(&key(5), &id());
    assert!(first.is_some());
    assert_eq!(first, second);
    let (escrow, _) = first.unwrap();
    assert_eq!(find_config_address(&escrow, &id()), find_config_address(&escrow, &id()));
    assert_ne!(find_escrow_address(&key(6), &id()), first);
}

#[test]
fn lock_addresses_are_chained() {
    let (escrow, _) = find_escrow_address(&key(5), &id()).unwrap();
    let (config, _) = find_config_address(&escrow, &id()).unwrap();
    assert_eq!(find_lock_addresses(&key(5), &id()), Some((escrow, config)));
    assert_ne!(find_lock_addresses(&key(5), &key(60)), Some((escrow, config)));
}

#[test]
fn signing_address_is_the_vault() {
    let authority = key(1);
    let (escrow, bump) = find_escrow_address(&authority, &id()).unwrap();
    let mut config = ConfigAccount::zeroed();
    config.init(authority, key(2), key(3), escrow, 0, 0, 0, 0, 0, bump);
    assert_eq!(reconstruct_signing_address(&config, &id()), Some(escrow));
    assert_eq!(escrow_seeds(&config), vec![b"escrow".to_vec(), vec![1u8; 32], vec![bump]]);
    config.escrow_bump = bump.wrapping_sub(1);
    let other = reconstruct_signing_address(&config, &id());
    assert_ne!(other, Some(escrow));
}

#[test]
fn update_actor_mode_bits() {
    assert_eq!(UpdateActorMode::NoActor.bits(), 0);
    assert_eq!(UpdateActorMode::Authority.bits(), 1);
    assert_eq!(UpdateActorMode::Approver.bits(), 2);
    assert_eq!(UpdateActorMode::Recipient.bits(), 4);
}

#[test]
fn config_account_init_sets_every_field() {
    let mut account = ConfigAccount::zeroed();
    assert_eq!(account.authority, key(0));
    assert_eq!(account.cliff_time, 0);
    account.init(key(1), key(2), key(3), key(4), 50, 60, 7, 1, 254, 253);
    assert_eq!(account.authority, key(1));
    assert_eq!(account.approver, key(2));
    assert_eq!(account.recipient, key(3));
    assert_eq!(account.escrow, key(4));
    assert_eq!(account.cliff_time, 50);
    assert_eq!(account.amount_per_day, 60);
    assert_eq!(account.update_actor_mode, 7);
    assert_eq!(account.enable_transfer_full, 1);
    assert_eq!(account.config_bump, 254);
    assert_eq!(account.escrow_bump, 253);
    assert_eq!(account.padding_0, [0u8; 12]);
    assert_eq!(ConfigAccount::INIT_SPACE, 160);
}

#[test]
fn init_config_refuses_one_key_in_both_roles() {
    let params = day_params();
    assert_eq!(params.validate_params(), Ok(()));
    let mut account = ConfigAccount::zeroed();
    let result = params.init_config(&mut account, key(1), key(1), key(3), key(4), 86400, 1_000_000, 0, 0, 255, 254, NOW);
    assert_eq!(result, Err(LockFundEscrowError::DuplicatePubkey));
    assert_eq!(account, ConfigAccount::zeroed());
    let result = params.init_config(&mut account, key(1), key(2), key(3), key(4), 86400, 1_000_000, 0, 0, 255, 254, NOW);
    assert_eq!(result, Ok(()));
    assert_eq!(account.cliff_time, 1_700_086_400);
    assert_eq!(account.config_bump, 255);
    assert_eq!(account.escrow_bump, 254);
}

#[test]
fn create_config_succeeds_exactly_once() {
    let (a, b, r) = (key(1), key(2), key(3));
    let mut ctx = fresh_create(a, b, r);
    let before = ctx;
    let event = create_config(&mut ctx, day_params(), &Clock { unix_timestamp: NOW }, RENT).unwrap();
    assert_eq!(
        event,
        CreateConfigEvent {
            authority: a,
            approver: b,
            recipient: r,
            cliff_time_duration: 86400,
            amount_per_day: 1_000_000,
            update_actor_mode: 0,
            enable_transfer_full: 0,
        }
    );
    let (_, escrow_bump) = find_escrow_address(&a, &id()).unwrap();
    let (_, config_bump) = find_config_address(&before.escrow.key, &id()).unwrap();
    let config = ctx.config_account.data.unwrap();
    assert_eq!(config.authority, a);
    assert_eq!(config.approver, b);
    assert_eq!(config.recipient, r);
    assert_eq!(config.escrow, before.escrow.key);
    assert_eq!(config.amount_per_day, 1_000_000);
    assert_eq!(config.update_actor_mode, 0);
    assert_eq!(config.enable_transfer_full, 0);
    assert_eq!(config.escrow_bump, escrow_bump);
    assert_eq!(config.config_bump, config_bump);
    assert!(ctx.escrow.in_use);
    assert_eq!(ctx.escrow.lamports, 0);
    assert_eq!(ctx.authority.lamports, 10_000_000 - RENT);

    let after_first = ctx;
    let other_params = CreateConfigParams { cliff_time_duration: 1, amount_per_day: 2, update_actor_mode: 1, enable_transfer_full: 1 };
    ctx.approver = key(9);
    let after_change = ctx;
    let second = create_config(&mut ctx, other_params, &Clock { unix_timestamp: NOW + 5 }, RENT);
    assert_eq!(second, Err(LockFundEscrowError::AccountAlreadyExists));
    assert_eq!(ctx, after_change);
    assert_eq!(ctx.config_account, after_first.config_account);
}

#[test]
fn create_config_with_one_key_in_both_roles_creates_nothing() {
    let a = key(1);
    let mut ctx = fresh_create(a, a, key(3));
    let before = ctx;
    let result = create_config(&mut ctx, day_params(), &Clock { unix_timestamp: NOW }, RENT);
    assert_eq!(result, Err(LockFundEscrowError::DuplicatePubkey));
    assert_eq!(ctx, before);
    assert_eq!(ctx.config_account.data, None);
    assert!(!ctx.escrow.in_use);

    ctx.authority.is_signer = false;
    ctx.config_account.key = key(77);
    let result = create_config(&mut ctx, day_params(), &Clock { unix_timestamp: NOW }, RENT);
    assert_eq!(result, Err(LockFundEscrowError::DuplicatePubkey));
}

#[test]
fn cliff_time_is_creation_time_plus_duration() {
    let mut ctx = fresh_create(key(1), key(2), key(3));
    create_config(&mut ctx, day_params(), &Clock { unix_timestamp: NOW }, RENT).unwrap();
    assert_eq!(ctx.config_account.data.unwrap().cliff_time, 1_700_086_400);

    let mut ctx = fresh_create(key(4), key(2), key(3));
    let params = CreateConfigParams { cliff_time_duration: 0, ..day_params() };
    create_config(&mut ctx, params, &Clock { unix_timestamp: 0 }, RENT).unwrap();
    assert_eq!(ctx.config_account.data.unwrap().cliff_time, 0);
}

#[test]
fn cliff_time_before_the_epoch_of_the_clock() {
    let mut ctx = fresh_create(key(1), key(2), key(3));
    create_config(&mut ctx, day_params(), &Clock { unix_timestamp: -1 }, RENT).unwrap();
    assert_eq!(ctx.config_account.data.unwrap().cliff_time, 86399);

    let mut account = ConfigAccount::zeroed();
    let result = day_params().init_config(&mut account, key(1), key(2), key(3), key(4), 86400, 1, 0, 0, 9, 8, -86400);
    assert_eq!(result, Ok(()));
    assert_eq!(account.cliff_time, 0);
}

#[test]
fn create_config_failures() {
    let clock = Clock { unix_timestamp: NOW };
    let program = id();

    let mut ctx = fresh_create(key(1), key(2), key(3));
    ctx.authority.is_signer = false;
    let before = ctx;
    assert_eq!(create_config_handler(&mut ctx, &day_params(), &clock, RENT, &program), Err(LockFundEscrowError::Unauthorize));
    assert_eq!(ctx, before);

    let mut ctx = fresh_create(key(1), key(2), key(3));
    ctx.escrow.key = key(50);
    assert_eq!(create_config_handler(&mut ctx, &day_params(), &clock, RENT, &program), Err(LockFundEscrowError::InvalidSeeds));

    let mut ctx = fresh_create(key(1), key(2), key(3));
    ctx.config_account.key = key(50);
    assert_eq!(create_config_handler(&mut ctx, &day_params(), &clock, RENT, &program), Err(LockFundEscrowError::InvalidSeeds));

    let mut ctx = fresh_create(key(1), key(2), key(3));
    assert_eq!(create_config_handler(&mut ctx, &day_params(), &clock, RENT, &key(60)), Err(LockFundEscrowError::InvalidSeeds));

    let mut ctx = fresh_create(key(1), key(2), key(3));
    ctx.escrow.in_use = true;
    assert_eq!(create_config_handler(&mut ctx, &day_params(), &clock, RENT, &program), Err(LockFundEscrowError::AccountAlreadyExists));

    let mut ctx = fresh_create(key(1), key(2), key(3));
    ctx.authority.lamports = RENT - 1;
    let before = ctx;
    assert_eq!(create_config_handler(&mut ctx, &day_params(), &clock, RENT, &program), Err(LockFundEscrowError::InsufficientFunds));
    assert_eq!(ctx, before);
    ctx.authority.lamports = RENT;
    assert!(create_config_handler(&mut ctx, &day_params(), &clock, RENT, &program).is_ok());
    assert_eq!(ctx.authority.lamports, 0);

    let mut ctx = fresh_create(key(1), key(2), key(3));
    let late = CreateConfigParams { cliff_time_duration: u64::MAX, ..day_params() };
    assert_eq!(create_config_handler(&mut ctx, &late, &clock, RENT, &program), Err(LockFundEscrowError::ArithmeticOverflow));
    let none = CreateConfigParams { cliff_time_duration: 0, ..day_params() };
    assert_eq!(create_config_handler(&mut ctx, &none, &Clock { unix_timestamp: -1 }, RENT, &program), Err(LockFundEscrowError::ArithmeticOverflow));
    assert_eq!(create_config_handler(&mut ctx, &day_params(), &Clock { unix_timestamp: -86401 }, RENT, &program), Err(LockFundEscrowError::ArithmeticOverflow));
    assert_eq!(create_config_handler(&mut ctx, &edge_after(1), &Clock { unix_timestamp: NOW }, RENT, &program), Err(LockFundEscrowError::ArithmeticOverflow));
    let edge = CreateConfigParams { cliff_time_duration: u64::MAX - NOW as u64, ..day_params() };
    assert!(create_config_handler(&mut ctx, &edge, &clock, RENT, &program).is_ok());
    assert_eq!(ctx.config_account.data.unwrap().cliff_time, u64::MAX);
}

#[test]
fn create_and_transfer_decide_on_the_addresses_given() {
    let mut ctx = CreateConfig {
        authority: Signer { key: key(1), is_signer: true, lamports: 100 },
        config_account: AccountLoader { key: key(11), data: None },
        escrow: AccountInfo { key: key(10), lamports: 0, in_use: false },
        recipient: key(3),
        approver: key(2),
    };
    let fresh = ctx;
    let clock = Clock { unix_timestamp: 1000 };
    let (vault_at, config_at) = (Some((key(10), 254)), Some((key(11), 253)));
    assert_eq!(create_config_with(&mut ctx, &day_params(), &clock, 40, None, config_at), Err(LockFundEscrowError::InvalidSeeds));
    assert_eq!(create_config_with(&mut ctx, &day_params(), &clock, 40, vault_at, None), Err(LockFundEscrowError::InvalidSeeds));
    assert_eq!(create_config_with(&mut ctx, &day_params(), &clock, 40, config_at, vault_at), Err(LockFundEscrowError::InvalidSeeds));
    assert_eq!(ctx, fresh);
    assert!(create_config_with(&mut ctx, &day_params(), &clock, 40, vault_at, config_at).is_ok());
    let config = ctx.config_account.data.unwrap();
    assert_eq!((config.escrow_bump, config.config_bump), (254, 253));
    assert_eq!(config.cliff_time, 87400);
    assert_eq!(ctx.authority.lamports, 60);
    assert_eq!(
        create_config_with(&mut ctx, &day_params(), &clock, 40, vault_at, config_at),
        Err(LockFundEscrowError::AccountAlreadyExists)
    );

    let mut transfer = TransferSol {
        config_account: ctx.config_account,
        escrow: AccountInfo { lamports: 5_000_000, ..ctx.escrow },
        recipient: AccountInfo { key: key(3), lamports: 0, in_use: true },
        authority: Signer { key: key(1), is_signer: true, lamports: 0 },
        approver: Signer { key: key(2), is_signer: true, lamports: 0 },
    };
    assert_eq!(transfer_sol_with(&mut transfer, 2_000_000, None), Err(LockFundEscrowError::InvalidEscrow));
    assert_eq!(transfer_sol_with(&mut transfer, 2_000_000, Some(key(9))), Err(LockFundEscrowError::InvalidEscrow));
    assert_eq!(transfer.escrow.lamports, 5_000_000);
    let event = transfer_sol_with(&mut transfer, 2_000_000, Some(key(10))).unwrap();
    assert_eq!(event.amount, 2_000_000);
    assert_eq!((transfer.escrow.lamports, transfer.recipient.lamports), (3_000_000, 2_000_000));
}

#[test]
fn transfer_signed_by_both_moves_the_amount() {
    let (created, mut ctx) = funded_lock(5_000_000);
    let event = transfer_sol(&mut ctx, 2_000_000).unwrap();
    assert_eq!(ctx.escrow.lamports, 3_000_000);
    assert_eq!(ctx.recipient.lamports, 2_000_007);
    assert_eq!(
        event,
        TransferEvent {
            from: created.escrow.key,
            to: key(3),
            config_account: created.config_account.key,
            amount: 2_000_000,
        }
    );
    assert_eq!(ctx.config_account, created.config_account);
}

#[test]
fn transfer_signed_by_authority_alone_is_unauthorized() {
    let (_, mut ctx) = funded_lock(5_000_000);
    ctx.approver.is_signer = false;
    let before = ctx;
    assert_eq!(transfer_sol(&mut ctx, 2_000_000), Err(LockFundEscrowError::Unauthorize));
    assert_eq!(ctx.escrow.lamports, 5_000_000);
    assert_eq!(ctx, before);
}

#[test]
fn transfer_needs_both_signatures() {
    let (_, valid) = funded_lock(5_000_000);

    let mut ctx = valid;
    ctx.authority.is_signer = false;
    assert_eq!(transfer_sol(&mut ctx, 1), Err(LockFundEscrowError::Unauthorize));
    assert_eq!(ctx.escrow.lamports, 5_000_000);

    let mut ctx = valid;
    ctx.authority.is_signer = false;
    ctx.approver.is_signer = false;
    assert_eq!(transfer_sol(&mut ctx, 1), Err(LockFundEscrowError::Unauthorize));

    let mut ctx = valid;
    ctx.approver.key = key(40);
    assert_eq!(transfer_sol(&mut ctx, 1), Err(LockFundEscrowError::Unauthorize));

    let mut ctx = valid;
    ctx.authority.key = key(2);
    assert_eq!(transfer_sol(&mut ctx, 1), Err(LockFundEscrowError::Unauthorize));

    let mut ctx = valid;
    assert!(transfer_sol(&mut ctx, 1).is_ok());
    assert_eq!(ctx.escrow.lamports, 4_999_999);
}

#[test]
fn transfer_to_another_recipient_is_refused_whoever_signed() {
    let (_, valid) = funded_lock(5_000_000);

    let mut ctx = valid;
    ctx.recipient.key = key(99);
    let before = ctx;
    assert_eq!(transfer_sol(&mut ctx, 1), Err(LockFundEscrowError::InvalidRecipient));
    assert_eq!(ctx, before);

    ctx.authority.is_signer = false;
    ctx.approver.is_signer = false;
    ctx.escrow.key = key(98);
    assert_eq!(transfer_sol(&mut ctx, 1), Err(LockFundEscrowError::InvalidRecipient));
}

#[test]
fn transfer_of_more_than_the_vault_holds_fails() {
    let (_, mut ctx) = funded_lock(5_000_000);
    let before = ctx;
    assert_eq!(transfer_sol(&mut ctx, 5_000_001), Err(LockFundEscrowError::InsufficientFunds));
    assert_eq!(ctx, before);
    assert_eq!(ctx.escrow.lamports, 5_000_000);
    assert!(transfer_sol(&mut ctx, 5_000_000).is_ok());
    assert_eq!(ctx.escrow.lamports, 0);
    assert_eq!(ctx.recipient.lamports, 5_000_007);
    assert!(transfer_sol(&mut ctx, 0).is_ok());
    assert_eq!(transfer_sol(&mut ctx, 1), Err(LockFundEscrowError::InsufficientFunds));
}

#[test]
fn transfer_failures() {
    let (_, valid) = funded_lock(5_000_000);
    let program = id();

    let mut ctx = valid;
    ctx.escrow.key = key(70);
    assert_eq!(transfer_sol_handler(&mut ctx, 1, &program), Err(LockFundEscrowError::InvalidEscrow));

    let mut ctx = valid;
    ctx.config_account.data = None;
    assert_eq!(transfer_sol_handler(&mut ctx, 1, &program), Err(LockFundEscrowError::AccountNotInitialized));

    let mut ctx = valid;
    let mut config = ctx.config_account.data.unwrap();
    config.escrow_bump = config.escrow_bump.wrapping_sub(1);
    ctx.config_account.data = Some(config);
    assert_eq!(transfer_sol_handler(&mut ctx, 1, &program), Err(LockFundEscrowError::InvalidEscrow));

    let mut ctx = valid;
    assert_eq!(transfer_sol_handler(&mut ctx, 1, &key(60)), Err(LockFundEscrowError::InvalidEscrow));

    let mut ctx = valid;
    ctx.recipient.lamports = u64::MAX;
    let before = ctx;
    assert_eq!(transfer_sol_handler(&mut ctx, 1, &program), Err(LockFundEscrowError::ArithmeticOverflow));
    assert_eq!(ctx, before);
}

#[test]
fn time_gate_and_ceiling_are_not_enforced() {
    let (_, mut ctx) = funded_lock(5_000_000);
    let config = ctx.config_account.data.unwrap();
    assert!(config.cliff_time > NOW as u64);
    assert_eq!(config.amount_per_day, 1_000_000);
    assert!(transfer_sol(&mut ctx, 4_000_000).is_ok());
    assert_eq!(ctx.escrow.lamports, 1_000_000);
}

#[test]
fn transfer_lamports_between_two_places_of_one_account_changes_nothing() {
    let mut from = AccountInfo { key: key(1), lamports: 10, in_use: true };
    let mut to = from;
    assert_eq!(transfer_lamports(&mut from, &mut to, 4), Ok(()));
    assert_eq!(from.lamports, 10);
    assert_eq!(to.lamports, 10);
    assert_eq!(transfer_lamports(&mut from, &mut to, 11), Err(LockFundEscrowError::InsufficientFunds));
    let mut other = AccountInfo { key: key(2), lamports: 1, in_use: true };
    assert_eq!(transfer_lamports(&mut from, &mut other, 4), Ok(()));
    assert_eq!(from.lamports, 6);
    assert_eq!(other.lamports, 5);
}

#[test]
fn error_messages_and_codes() {
    assert_eq!(LockFundEscrowError::Unauthorize.message(), "unauthorize for this action");
    assert_eq!(LockFundEscrowError::DuplicatePubkey.message(), "Two pubkey can not duplicate");
    assert_eq!(LockFundEscrowError::InvalidEscrow.message(), "invalid escrow");
    assert_eq!(LockFundEscrowError::InvalidRecipient.message(), "invalid Recipient");
    assert_eq!(LockFundEscrowError::Unauthorize.code(), Some(6000));
    assert_eq!(LockFundEscrowError::DuplicatePubkey.code(), Some(6001));
    assert_eq!(LockFundEscrowError::InvalidEscrow.code(), Some(6002));
    assert_eq!(LockFundEscrowError::InvalidRecipient.code(), Some(6003));
    assert_eq!(LockFundEscrowError::InsufficientFunds.code(), None);
    assert_eq!(LockFundEscrowError::AccountAlreadyExists.message(), "account already exists");
}
