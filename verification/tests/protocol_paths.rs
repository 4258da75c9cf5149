use pda_vault::accounts::AccountDescriptor;
use pda_vault::address::{system_program_address, Address};
use pda_vault::errors::ProtocolError;
use pda_vault::pda::find_program_address;
use pda_vault::protocol::{
    process_close, process_create_vault, settle_create, VAULT_LAMPORTS, VAULT_SIZE,
};

fn addr(byte: u8) -> Address {
    Address::new([byte; 32])
}

fn payer_account(address: Address, sys: Address) -> AccountDescriptor {
    AccountDescriptor {
        address,
        owner: sys,
        is_signer: true,
        is_writable: true,
        lamports: 1_000_000_000,
        data_len: 0,
    }
}

fn vault_account(address: Address, sys: Address) -> AccountDescriptor {
    AccountDescriptor {
        address,
        owner: sys,
        is_signer: false,
        is_writable: true,
        lamports: 0,
        data_len: 0,
    }
}

fn sys_account(sys: Address) -> AccountDescriptor {
    AccountDescriptor {
        address: sys,
        owner: sys,
        is_signer: false,
        is_writable: false,
        lamports: 1,
        data_len: 0,
    }
}

fn create_setup() -> (Address, Address, Vec<AccountDescriptor>, u8) {
    let program = addr(9);
    let sys = system_program_address();
    let payer_address = addr(1);
    let seeds = vec![b"vault".to_vec(), payer_address.bytes.to_vec()];
    let (vault_address, bump) = find_program_address(&seeds, &program).unwrap();
    let accounts = vec![
        payer_account(payer_address, sys),
        vault_account(vault_address, sys),
        sys_account(sys),
    ];
    (program, sys, accounts, bump)
}

#[test]
fn create_end_to_end_succeeds() {
    let (program, sys, accounts, bump) = create_setup();
    let plan = process_create_vault(&program, &sys, &accounts, &vec![bump]).unwrap();
    assert_eq!(plan.instruction.program, sys);
    assert_eq!(plan.instruction.accounts.len(), 2);
    assert_eq!(plan.instruction.accounts[0].address, accounts[0].address);
    assert!(plan.instruction.accounts[0].is_signer);
    assert!(plan.instruction.accounts[0].is_writable);
    assert_eq!(plan.instruction.accounts[1].address, accounts[1].address);
    assert!(plan.instruction.accounts[1].is_signer);
    assert!(plan.instruction.accounts[1].is_writable);
    assert_eq!(plan.signer_seeds.len(), 3);
    assert_eq!(plan.signer_seeds[0], b"vault".to_vec());
    assert_eq!(plan.signer_seeds[1], accounts[0].address.bytes.to_vec());
    assert_eq!(plan.signer_seeds[2], vec![bump]);

    let (payer_after, vault_after) = settle_create(&accounts[0], &accounts[1], &program);
    assert_eq!(payer_after.lamports, 1_000_000_000 - VAULT_LAMPORTS);
    assert_eq!(vault_after.owner, program);
    assert_eq!(vault_after.lamports, VAULT_LAMPORTS);
    assert_eq!(vault_after.data_len, VAULT_SIZE);
    assert!(vault_after.is_writable);
}

#[test]
fn create_plan_matches_platform_instruction() {
    let (program, sys, accounts, bump) = create_setup();
    let plan = process_create_vault(&program, &sys, &accounts, &vec![bump]).unwrap();
    let theirs = solana_program::system_instruction::create_account(
        &solana_program::pubkey::Pubkey::from(accounts[0].address.bytes),
        &solana_program::pubkey::Pubkey::from(accounts[1].address.bytes),
        VAULT_LAMPORTS,
        VAULT_SIZE,
        &solana_program::pubkey::Pubkey::from(program.bytes),
    );
    assert_eq!(plan.instruction.program.bytes, theirs.program_id.to_bytes());
    assert_eq!(plan.instruction.payload, theirs.data);
    assert_eq!(plan.instruction.accounts.len(), theirs.accounts.len());
    for (ours, other) in plan.instruction.accounts.iter().zip(theirs.accounts.iter()) {
        assert_eq!(ours.address.bytes, other.pubkey.to_bytes());
        assert_eq!(ours.is_signer, other.is_signer);
        assert_eq!(ours.is_writable, other.is_writable);
    }
}

#[test]
fn create_rejects_flipped_bump() {
    let (program, sys, accounts, bump) = create_setup();
    let r = process_create_vault(&program, &sys, &accounts, &vec![bump ^ 1]);
    assert_eq!(r.unwrap_err(), ProtocolError::SeedMismatch);
}

#[test]
fn create_rejects_substituted_target() {
    let (program, sys, mut accounts, bump) = create_setup();
    accounts[1].address = addr(42);
    let r = process_create_vault(&program, &sys, &accounts, &vec![bump]);
    assert_eq!(r.unwrap_err(), ProtocolError::SeedMismatch);
}

#[test]
fn create_is_not_idempotent() {
    let (program, sys, accounts, bump) = create_setup();
    assert!(process_create_vault(&program, &sys, &accounts, &vec![bump]).is_ok());
    let (_, vault_after) = settle_create(&accounts[0], &accounts[1], &program);
    let again = vec![accounts[0], vault_after, accounts[2]];
    let r = process_create_vault(&program, &sys, &again, &vec![bump]);
    assert_eq!(r.unwrap_err(), ProtocolError::InvalidAccountOwner);
}

#[test]
fn create_rejects_missing_accounts() {
    let (program, sys, accounts, bump) = create_setup();
    let short = vec![accounts[0], accounts[1]];
    let r = process_create_vault(&program, &sys, &short, &vec![bump]);
    assert_eq!(r.unwrap_err(), ProtocolError::MissingAccount);
}

#[test]
fn create_rejects_bad_payer_roles() {
    let (program, sys, mut accounts, bump) = create_setup();
    accounts[0].is_signer = false;
    let r = process_create_vault(&program, &sys, &accounts, &vec![bump]);
    assert_eq!(r.unwrap_err(), ProtocolError::InvalidAccountRole);
}

#[test]
fn create_rejects_readonly_target() {
    let (program, sys, mut accounts, bump) = create_setup();
    accounts[1].is_writable = false;
    let r = process_create_vault(&program, &sys, &accounts, &vec![bump]);
    assert_eq!(r.unwrap_err(), ProtocolError::InvalidAccountRole);
}

#[test]
fn create_rejects_wrong_system_reference() {
    let (program, sys, mut accounts, bump) = create_setup();
    accounts[2].address = addr(8);
    let r = process_create_vault(&program, &sys, &accounts, &vec![bump]);
    assert_eq!(r.unwrap_err(), ProtocolError::InvalidProgramReference);
}

#[test]
fn create_rejects_aliased_accounts_with_conflicting_roles() {
    let (program, sys, mut accounts, bump) = create_setup();
    // The system reference reuses the payer's address while claiming
    // different role flags for it.
    accounts[2].address = accounts[0].address;
    let r = process_create_vault(&program, &sys, &accounts, &vec![bump]);
    assert_eq!(r.unwrap_err(), ProtocolError::InvalidProgramReference);
    // With the system account standing correctly, alias the target
    // instead.
    let (program, sys, mut accounts, bump) = create_setup();
    accounts[1].address = accounts[2].address;
    accounts[1].owner = sys;
    let r = process_create_vault(&program, &sys, &accounts, &vec![bump]);
    assert_eq!(r.unwrap_err(), ProtocolError::ConflictingAccountRoles);
}

fn closable_target(program: Address) -> AccountDescriptor {
    AccountDescriptor {
        address: addr(5),
        owner: program,
        is_signer: false,
        is_writable: true,
        lamports: VAULT_LAMPORTS,
        data_len: VAULT_SIZE,
    }
}

fn close_destination() -> AccountDescriptor {
    AccountDescriptor {
        address: addr(6),
        owner: system_program_address(),
        is_signer: false,
        is_writable: true,
        lamports: 300,
        data_len: 0,
    }
}

#[test]
fn close_end_to_end_zeroes_target() {
    let program = addr(9);
    let accounts = vec![closable_target(program), close_destination()];
    let (target_after, dest_after) = process_close(&program, &accounts, &vec![]).unwrap();
    assert_eq!(target_after.lamports, 0);
    assert_eq!(target_after.data_len, 0);
    assert_eq!(dest_after.lamports, 300 + VAULT_LAMPORTS);
}

#[test]
fn close_rejects_missing_destination() {
    let program = addr(9);
    let accounts = vec![closable_target(program)];
    let r = process_close(&program, &accounts, &vec![]);
    assert_eq!(r.unwrap_err(), ProtocolError::MissingAccount);
}

#[test]
fn close_rejects_extra_accounts() {
    let program = addr(9);
    let accounts = vec![
        closable_target(program),
        close_destination(),
        close_destination(),
    ];
    let r = process_close(&program, &accounts, &vec![]);
    assert_eq!(r.unwrap_err(), ProtocolError::InvalidAccountRole);
}

#[test]
fn close_rejects_readonly_accounts() {
    let program = addr(9);
    let mut target = closable_target(program);
    target.is_writable = false;
    let r = process_close(&program, &vec![target, close_destination()], &vec![]);
    assert_eq!(r.unwrap_err(), ProtocolError::InvalidAccountRole);
}

#[test]
fn close_rejects_nonempty_payload() {
    let program = addr(9);
    let accounts = vec![closable_target(program), close_destination()];
    let r = process_close(&program, &accounts, &vec![1u8]);
    assert_eq!(r.unwrap_err(), ProtocolError::InvalidAccountRole);
}

#[test]
fn close_rejects_self_transfer() {
    let program = addr(9);
    let target = closable_target(program);
    let mut dest = close_destination();
    dest.address = target.address;
    let r = process_close(&program, &vec![target, dest], &vec![]);
    assert_eq!(r.unwrap_err(), ProtocolError::ConflictingAccountRoles);
}

#[test]
fn close_rejects_foreign_target() {
    let program = addr(9);
    let mut target = closable_target(program);
    target.owner = addr(8);
    let r = process_close(&program, &vec![target, close_destination()], &vec![]);
    assert_eq!(r.unwrap_err(), ProtocolError::InvalidAccountOwner);
}
