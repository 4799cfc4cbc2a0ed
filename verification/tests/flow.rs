use airdrop::error::AirdropError;
use airdrop::processor::Processor;
use airdrop::state::{AccountId, Accounts, TokenOp, User, Vault};

fn id(b: u8) -> AccountId {
    AccountId { bytes: [b; 32] }
}

fn token_bytes(amount: u64) -> Vec<u8> {
    let mut data = vec![0u8; 165];
    data[64..72].copy_from_slice(&amount.to_le_bytes());
    data[108] = 1;
    data
}

fn fresh_accounts() -> Accounts {
    Accounts {
        caller: id(1),
        caller_is_signer: true,
        caller_token_account: id(2),
        custody_account: id(3),
        custody_data: token_bytes(500),
        vault_rent_exempt: true,
        user_rent_exempt: true,
        vault: Vault {
            is_initialized: false,
            initializer_pubkey: id(0),
            temp_token_account_pubkey: id(0),
            spending_multiplier: 0,
            txns_multiplier: 0,
        },
        user: User { is_initialized: false, last_withdraw: 0 },
        token_program: id(9),
        expected_token_program: id(9),
    }
}

fn program_id() -> AccountId {
    id(7)
}

fn initialized_accounts(spending_multiplier: u64, txns_multiplier: u64) -> Accounts {
    let mut accounts = fresh_accounts();
    let r = Processor::process_init_airdrop(
        &mut accounts,
        spending_multiplier,
        txns_multiplier,
        &program_id(),
    );
    assert!(r.is_ok());
    accounts
}

#[test]
fn flow_initialize_writes_active_record_and_moves_custody() {
    let mut accounts = fresh_accounts();
    let r = Processor::process_init_airdrop(&mut accounts, 2, 3, &program_id());
    match r {
        Ok(TokenOp::SetAuthority { account, current_authority, .. }) => {
            assert_eq!(account, id(3));
            assert_eq!(current_authority, id(1));
        }
        other => panic!("expected an authority change, got {:?}", other),
    }
    assert!(accounts.vault.is_initialized);
    assert_eq!(accounts.vault.initializer_pubkey, id(1));
    assert_eq!(accounts.vault.temp_token_account_pubkey, id(3));
    assert_eq!(accounts.vault.spending_multiplier, 2);
    assert_eq!(accounts.vault.txns_multiplier, 3);
}

#[test]
fn flow_initialize_twice_fails() {
    let mut accounts = initialized_accounts(2, 3);
    let before = accounts.clone();
    let r = Processor::process_init_airdrop(&mut accounts, 4, 5, &program_id());
    assert_eq!(r, Err(AirdropError::AccountAlreadyInitialized));
    assert_eq!(accounts, before);
}

#[test]
fn flow_full_claim_scenario() {
    // Escrow with multipliers 2 and 3; the user registers, then delivers
    // with counters 5 and 4: reward = (5*2 + 4*3) * 1e8.
    let mut accounts = initialized_accounts(2, 3);
    let r = Processor::process_create_account(&mut accounts, 5, &program_id());
    assert_eq!(r, Ok(()));
    assert!(accounts.user.is_initialized);
    assert_eq!(accounts.user.last_withdraw, 0);

    let r = Processor::process_airdrop(&mut accounts, 5, 4, &program_id());
    match r {
        Ok(TokenOp::Transfer { source, destination, amount, .. }) => {
            assert_eq!(source, id(3));
            assert_eq!(destination, id(2));
            assert_eq!(amount, 2_200_000_000);
        }
        other => panic!("expected a transfer, got {:?}", other),
    }
    assert_eq!(accounts.user.last_withdraw, 1);

    let again = Processor::process_airdrop(&mut accounts, 100, 100, &program_id());
    assert_eq!(again, Err(AirdropError::UserAlreadyCollected));
    assert_eq!(accounts.user.last_withdraw, 1);
}

#[test]
fn flow_register_requires_active_escrow() {
    let mut accounts = fresh_accounts();
    let before = accounts.clone();
    let r = Processor::process_create_account(&mut accounts, 5, &program_id());
    assert_eq!(r, Err(AirdropError::AccountNotInit));
    assert_eq!(accounts, before);
}

#[test]
fn flow_register_after_disable_fails() {
    let mut accounts = initialized_accounts(2, 3);
    let r = Processor::disable_airdrop(&mut accounts, 0, &program_id());
    assert!(r.is_ok());
    assert!(!accounts.vault.is_initialized);
    let r = Processor::process_create_account(&mut accounts, 5, &program_id());
    assert_eq!(r, Err(AirdropError::AccountNotInit));
}

#[test]
fn flow_register_twice_fails() {
    let mut accounts = initialized_accounts(2, 3);
    assert_eq!(Processor::process_create_account(&mut accounts, 5, &program_id()), Ok(()));
    let before = accounts.clone();
    let r = Processor::process_create_account(&mut accounts, 5, &program_id());
    assert_eq!(r, Err(AirdropError::AccountAlreadyInitialized));
    assert_eq!(accounts, before);
}

#[test]
fn flow_disable_by_stranger_fails_with_not_creator() {
    let mut accounts = initialized_accounts(2, 3);
    accounts.caller = id(8);
    let before = accounts.clone();
    let r = Processor::disable_airdrop(&mut accounts, 0, &program_id());
    assert_eq!(r, Err(AirdropError::NotCreator));
    assert_eq!(accounts, before);
    assert!(accounts.vault.is_initialized);
}

#[test]
fn flow_disable_returns_whole_custody_balance() {
    let mut accounts = initialized_accounts(2, 3);
    accounts.custody_data = token_bytes(12_345);
    let r = Processor::disable_airdrop(&mut accounts, 0, &program_id());
    match r {
        Ok(TokenOp::Transfer { source, destination, amount, .. }) => {
            assert_eq!(source, id(3));
            assert_eq!(destination, id(2));
            assert_eq!(amount, 12_345);
        }
        other => panic!("expected a transfer, got {:?}", other),
    }
    assert!(!accounts.vault.is_initialized);
}

#[test]
fn flow_disable_custody_mismatch_fails() {
    let mut accounts = initialized_accounts(2, 3);
    accounts.custody_account = id(4);
    let r = Processor::disable_airdrop(&mut accounts, 0, &program_id());
    assert_eq!(r, Err(AirdropError::InvalidAccountData));
    assert!(accounts.vault.is_initialized);
}

#[test]
fn flow_disable_malformed_custody_bytes_fails() {
    let mut accounts = initialized_accounts(2, 3);
    accounts.custody_data = vec![0u8; 164];
    assert_eq!(
        Processor::disable_airdrop(&mut accounts, 0, &program_id()),
        Err(AirdropError::InvalidAccountData)
    );
    let mut bad_state = token_bytes(500);
    bad_state[108] = 3;
    accounts.custody_data = bad_state;
    assert_eq!(
        Processor::disable_airdrop(&mut accounts, 0, &program_id()),
        Err(AirdropError::InvalidAccountData)
    );
    let mut uninitialized = token_bytes(500);
    uninitialized[108] = 0;
    accounts.custody_data = uninitialized;
    assert_eq!(
        Processor::disable_airdrop(&mut accounts, 0, &program_id()),
        Err(AirdropError::InvalidAccountData)
    );
    let mut bad_tag = token_bytes(500);
    bad_tag[72] = 2;
    accounts.custody_data = bad_tag;
    assert_eq!(
        Processor::disable_airdrop(&mut accounts, 0, &program_id()),
        Err(AirdropError::InvalidAccountData)
    );
}

#[test]
fn flow_missing_signature_fails_everywhere() {
    let mut accounts = fresh_accounts();
    accounts.caller_is_signer = false;
    assert_eq!(
        Processor::process_init_airdrop(&mut accounts, 2, 3, &program_id()),
        Err(AirdropError::MissingRequiredSignature)
    );
    assert_eq!(
        Processor::disable_airdrop(&mut accounts, 0, &program_id()),
        Err(AirdropError::MissingRequiredSignature)
    );
    assert_eq!(
        Processor::process_create_account(&mut accounts, 5, &program_id()),
        Err(AirdropError::MissingRequiredSignature)
    );
    assert_eq!(
        Processor::process_airdrop(&mut accounts, 5, 4, &program_id()),
        Err(AirdropError::MissingRequiredSignature)
    );
}

#[test]
fn flow_rent_checks() {
    let mut accounts = fresh_accounts();
    accounts.vault_rent_exempt = false;
    assert_eq!(
        Processor::process_init_airdrop(&mut accounts, 2, 3, &program_id()),
        Err(AirdropError::NotRentExempt)
    );
    let mut accounts = initialized_accounts(2, 3);
    accounts.user_rent_exempt = false;
    assert_eq!(
        Processor::process_create_account(&mut accounts, 5, &program_id()),
        Err(AirdropError::NotRentExempt)
    );
}

#[test]
fn flow_deliver_unregistered_user_fails() {
    let mut accounts = initialized_accounts(2, 3);
    let r = Processor::process_airdrop(&mut accounts, 5, 4, &program_id());
    assert_eq!(r, Err(AirdropError::AccountNotInit));
}

#[test]
fn flow_deliver_wrong_token_program_fails() {
    let mut accounts = initialized_accounts(2, 3);
    assert_eq!(Processor::process_create_account(&mut accounts, 5, &program_id()), Ok(()));
    accounts.token_program = id(10);
    let before = accounts.clone();
    let r = Processor::process_airdrop(&mut accounts, 5, 4, &program_id());
    assert_eq!(r, Err(AirdropError::InvalidAccountData));
    assert_eq!(accounts, before);
}

#[test]
fn flow_disable_wrong_token_program_fails() {
    let mut accounts = initialized_accounts(2, 3);
    accounts.token_program = id(10);
    let r = Processor::disable_airdrop(&mut accounts, 0, &program_id());
    assert_eq!(r, Err(AirdropError::InvalidAccountData));
    assert!(accounts.vault.is_initialized);
}

#[test]
fn flow_deliver_zero_reward_fails() {
    let mut accounts = initialized_accounts(0, 0);
    assert_eq!(Processor::process_create_account(&mut accounts, 5, &program_id()), Ok(()));
    let r = Processor::process_airdrop(&mut accounts, 5, 4, &program_id());
    assert_eq!(r, Err(AirdropError::InvalidAccountData));
    assert_eq!(accounts.user.last_withdraw, 0);
}

#[test]
fn flow_process_dispatches_wire_bytes() {
    let mut accounts = fresh_accounts();

    let mut init = vec![0u8];
    init.extend_from_slice(&2u64.to_le_bytes());
    init.extend_from_slice(&3u64.to_le_bytes());
    let r = Processor::process(&program_id(), &mut accounts, &init);
    assert!(matches!(r, Ok(Some(TokenOp::SetAuthority { .. }))));

    let mut register = vec![2u8];
    register.extend_from_slice(&5u64.to_le_bytes());
    assert_eq!(Processor::process(&program_id(), &mut accounts, &register), Ok(None));

    let mut deliver = vec![3u8];
    deliver.extend_from_slice(&5u64.to_le_bytes());
    deliver.extend_from_slice(&4u64.to_le_bytes());
    match Processor::process(&program_id(), &mut accounts, &deliver) {
        Ok(Some(TokenOp::Transfer { amount, .. })) => assert_eq!(amount, 2_200_000_000),
        other => panic!("expected a transfer, got {:?}", other),
    }

    let before = accounts.clone();
    assert_eq!(
        Processor::process(&program_id(), &mut accounts, &[42]),
        Err(AirdropError::InvalidInstruction)
    );
    assert_eq!(accounts, before);
}
