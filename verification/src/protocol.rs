use vstd::prelude::*;
use crate::accounts::{AccountDescriptor, AccountMeta, CreatePlan, Instruction};
use crate::address::{system_program_id, Address, MAX_SEED_LEN, MAX_SEEDS};
use crate::errors::ProtocolError;
use crate::pda::{create_program_address, pda_derivation, seeds_view, seeds_within_limits};
use solana_program::pubkey::Pubkey;
use solana_program::system_instruction;

verus! {

/// Balance moved onto a newly created target account.
pub const VAULT_LAMPORTS: u64 = 10_000_000;

/// Storage size, in bytes, requested for a newly created target
/// account.
pub const VAULT_SIZE: u64 = 16;

/// The fixed leading seed of the create path: the bytes of "vault".
pub open spec fn vault_seed_bytes() -> Seq<u8> {
    seq![118u8, 97u8, 117u8, 108u8, 116u8]
}

/// The full seed list the create path derives from: the fixed leading
/// seed, the payer's address bytes, and the bump byte.
pub open spec fn vault_seeds(payer: Seq<u8>, bump: u8) -> Seq<Seq<u8>> {
    seq![vault_seed_bytes(), payer, seq![bump]]
}

/// Whether two account snapshots alias one address while claiming
/// different role flags for it.
pub open spec fn conflicting_roles(a: AccountDescriptor, b: AccountDescriptor) -> bool {
    a.address@ == b.address@ && (a.is_signer != b.is_signer || a.is_writable != b.is_writable)
}

/// The precondition checks of the create path, in their fixed order;
/// `None` means every check passed. The expected accounts are, in
/// order: the funding payer, the derived target, and the account
/// standing for the base system program.
pub open spec fn create_validation(
    program: Seq<u8>,
    sys: Seq<u8>,
    accounts: Seq<AccountDescriptor>,
    payload: Seq<u8>,
) -> Option<ProtocolError>
    recommends
        payload.len() >= 1,
{
    if accounts.len() < 3 {
        Some(ProtocolError::MissingAccount)
    } else {
        let payer = accounts[0];
        let vault = accounts[1];
        let sys_acct = accounts[2];
        if !(payer.is_signer && payer.is_writable) {
            Some(ProtocolError::InvalidAccountRole)
        } else if !vault.is_writable {
            Some(ProtocolError::InvalidAccountRole)
        } else if vault.owner@ != sys {
            Some(ProtocolError::InvalidAccountOwner)
        } else if sys_acct.address@ != sys {
            Some(ProtocolError::InvalidProgramReference)
        } else if conflicting_roles(payer, vault) || conflicting_roles(payer, sys_acct)
            || conflicting_roles(vault, sys_acct) {
            Some(ProtocolError::ConflictingAccountRoles)
        } else if pda_derivation(vault_seeds(payer.address@, payload[0]), program) != Some(
            vault.address@,
        ) {
            Some(ProtocolError::SeedMismatch)
        } else {
            None
        }
    }
}

/// What the nested create-account instruction of the base system
/// program carries as payload for the given balance, storage size and
/// owner: a fixed binary encoding, a function of the three alone.
pub uninterp spec fn create_account_data(lamports: u64, space: u64, owner: Seq<u8>) -> Seq<u8>;

/// Relies on solana_program::system_instruction::create_account: it
/// builds the instruction addressed to the base system program, whose
/// account references are the funding account and the new account, both
/// signer and writable in that order, and whose payload encodes the
/// balance, storage size and owner.
#[verifier::external_body]
fn system_create_account_instruction(
    from: &Address,
    to: &Address,
    lamports: u64,
    space: u64,
    owner: &Address,
) -> (r: Instruction)
    ensures
        r.program@ == system_program_id(),
        r.accounts@.len() == 2,
        r.accounts@[0].address@ == from@ && r.accounts@[0].is_signer && r.accounts@[0].is_writable,
        r.accounts@[1].address@ == to@ && r.accounts@[1].is_signer && r.accounts@[1].is_writable,
        r.payload@ == create_account_data(lamports, space, owner@),
{
    let ix = system_instruction::create_account(
        &Pubkey::from(from.bytes),
        &Pubkey::from(to.bytes),
        lamports,
        space,
        &Pubkey::from(owner.bytes),
    );
    let accounts = ix.accounts.iter().map(
        |m| AccountMeta {
            address: Address { bytes: m.pubkey.to_bytes() },
            is_signer: m.is_signer,
            is_writable: m.is_writable,
        },
    ).collect();
    Instruction { program: Address { bytes: ix.program_id.to_bytes() }, accounts, payload: ix.data }
}

/// The bytes of an address, as a growable vector.
fn address_bytes_vec(a: &Address) -> (r: Vec<u8>)
    ensures
        r@ == a@,
{
    let mut out: Vec<u8> = Vec::new();
    let mut i: usize = 0;
    while i < 32
        invariant
            i <= 32,
            out@.len() == i,
            forall|j: int| 0 <= j < i ==> out@[j] == a.bytes@[j],
        decreases 32 - i,
    {
        out.push(a.bytes[i]);
        i += 1;
    }
    proof {
        assert(out@ =~= a@);
    }
    out
}

/// The create path's seed list as a value: "vault", the payer's address
/// bytes, and the bump byte.
pub fn build_vault_seeds(payer: &Address, bump: u8) -> (r: Vec<Vec<u8>>)
    ensures
        seeds_view(r@) == vault_seeds(payer@, bump),
{
    let mut lead: Vec<u8> = Vec::new();
    lead.push(118u8);
    lead.push(97u8);
    lead.push(117u8);
    lead.push(108u8);
    lead.push(116u8);
    let mut bump_seed: Vec<u8> = Vec::new();
    bump_seed.push(bump);
    let mut out: Vec<Vec<u8>> = Vec::new();
    proof {
        assert(lead@ =~= vault_seed_bytes());
        assert(bump_seed@ =~= seq![bump]);
    }
    out.push(lead);
    out.push(address_bytes_vec(payer));
    out.push(bump_seed);
    proof {
        assert(seeds_view(out@) =~= vault_seeds(payer@, bump));
    }
    out
}

fn roles_conflict(a: &AccountDescriptor, b: &AccountDescriptor) -> (r: bool)
    ensures
        r == conflicting_roles(*a, *b),
{
    a.address == b.address && (a.is_signer != b.is_signer || a.is_writable != b.is_writable)
}

/// The decision logic of the authority-delegated create path. Validates
/// the supplied accounts in the fixed order — count, payer roles,
/// target role and ownership, system-program reference, aliasing, and
/// finally the re-derivation of the target address from the payer's
/// address and the bump byte carried as the first payload byte. On
/// success it returns the nested create-account instruction together
/// with the seed list whose presentation asserts signing authority over
/// the derived address. Failures are definitional, never retried.
pub fn process_create_vault(
    program_id: &Address,
    system_program: &Address,
    accounts: &Vec<AccountDescriptor>,
    payload: &Vec<u8>,
) -> (r: Result<CreatePlan, ProtocolError>)
    requires
        payload@.len() >= 1,
    ensures
        match create_validation(program_id@, system_program@, accounts@, payload@) {
            Some(e) => r == Err::<CreatePlan, ProtocolError>(e),
            None => r matches Ok(plan) && {
                &&& seeds_view(plan.signer_seeds@) == vault_seeds(
                    accounts@[0].address@,
                    payload@[0],
                )
                &&& plan.instruction.program@ == system_program_id()
                &&& plan.instruction.accounts@.len() == 2
                &&& plan.instruction.accounts@[0].address@ == accounts@[0].address@
                &&& plan.instruction.accounts@[0].is_signer
                &&& plan.instruction.accounts@[0].is_writable
                &&& plan.instruction.accounts@[1].address@ == accounts@[1].address@
                &&& plan.instruction.accounts@[1].is_signer
                &&& plan.instruction.accounts@[1].is_writable
                &&& plan.instruction.payload@ == create_account_data(
                    VAULT_LAMPORTS,
                    VAULT_SIZE,
                    program_id@,
                )
            },
        },
{
    if accounts.len() < 3 {
        return Err(ProtocolError::MissingAccount);
    }
    let payer = &accounts[0];
    let vault = &accounts[1];
    let sys_acct = &accounts[2];
    if !(payer.is_signer && payer.is_writable) {
        return Err(ProtocolError::InvalidAccountRole);
    }
    if !vault.is_writable {
        return Err(ProtocolError::InvalidAccountRole);
    }
    if !(vault.owner == *system_program) {
        return Err(ProtocolError::InvalidAccountOwner);
    }
    if !(sys_acct.address == *system_program) {
        return Err(ProtocolError::InvalidProgramReference);
    }
    if roles_conflict(payer, vault) || roles_conflict(payer, sys_acct) || roles_conflict(
        vault,
        sys_acct,
    ) {
        return Err(ProtocolError::ConflictingAccountRoles);
    }
    let bump = payload[0];
    let seeds = build_vault_seeds(&payer.address, bump);
    proof {
        let s = vault_seeds(payer.address@, bump);
        assert(s.len() == 3 <= MAX_SEEDS);
        assert forall|i: int| 0 <= i < s.len() implies (#[trigger] s[i]).len() <= MAX_SEED_LEN by {
            if i == 0 {
                assert(s[i] == vault_seed_bytes());
            } else if i == 1 {
                assert(s[i] == payer.address@);
            } else {
                assert(s[i] == seq![bump]);
            }
        }
        assert(seeds_within_limits(seeds_view(seeds@)));
    }
    match create_program_address(&seeds, program_id) {
        Err(_) => Err(ProtocolError::SeedMismatch),
        Ok(expected) => {
            if !(expected == vault.address) {
                return Err(ProtocolError::SeedMismatch);
            }
            let instruction = system_create_account_instruction(
                &payer.address,
                &vault.address,
                VAULT_LAMPORTS,
                VAULT_SIZE,
                program_id,
            );
            Ok(CreatePlan { instruction, signer_seeds: seeds })
        },
    }
}

/// The balance and ownership transition a successful create settles:
/// the payer funds the new balance, the target becomes owned by the
/// invoking program and carries the requested storage size. Returns the
/// payer and target snapshots after the transition, in that order.
pub fn settle_create(
    payer: &AccountDescriptor,
    vault: &AccountDescriptor,
    program_id: &Address,
) -> (r: (AccountDescriptor, AccountDescriptor))
    requires
        payer.lamports >= VAULT_LAMPORTS,
        vault.lamports + VAULT_LAMPORTS <= u64::MAX,
    ensures
        r.0 == (AccountDescriptor { lamports: (payer.lamports - VAULT_LAMPORTS) as u64, ..*payer }),
        r.1 == (AccountDescriptor {
            owner: *program_id,
            lamports: (vault.lamports + VAULT_LAMPORTS) as u64,
            data_len: VAULT_SIZE,
            ..*vault
        }),
        r.1.owner@ == program_id@,
{
    let new_payer = AccountDescriptor {
        address: payer.address,
        owner: payer.owner,
        is_signer: payer.is_signer,
        is_writable: payer.is_writable,
        lamports: payer.lamports - VAULT_LAMPORTS,
        data_len: payer.data_len,
    };
    let new_vault = AccountDescriptor {
        address: vault.address,
        owner: *program_id,
        is_signer: vault.is_signer,
        is_writable: vault.is_writable,
        lamports: vault.lamports + VAULT_LAMPORTS,
        data_len: VAULT_SIZE,
    };
    (new_payer, new_vault)
}

/// The precondition checks of the close path, in their fixed order;
/// `None` means every check passed. The expected accounts are, in
/// order: the account to close and the destination that receives its
/// balance.
pub open spec fn close_validation(
    program: Seq<u8>,
    accounts: Seq<AccountDescriptor>,
    payload: Seq<u8>,
) -> Option<ProtocolError> {
    if accounts.len() < 2 {
        Some(ProtocolError::MissingAccount)
    } else if accounts.len() > 2 {
        Some(ProtocolError::InvalidAccountRole)
    } else {
        let target = accounts[0];
        let dest = accounts[1];
        if !target.is_writable || !dest.is_writable {
            Some(ProtocolError::InvalidAccountRole)
        } else if payload.len() != 0 {
            Some(ProtocolError::InvalidAccountRole)
        } else if target.address@ == dest.address@ {
            Some(ProtocolError::ConflictingAccountRoles)
        } else if target.owner@ != program {
            Some(ProtocolError::InvalidAccountOwner)
        } else {
            None
        }
    }
}

/// The decision logic of the close path. Exactly two writable accounts
/// — the account to close and a distinct destination — and an empty
/// payload are accepted; the closing program must own the target. On
/// success the whole balance of the target moves to the destination,
/// the target is left with zero balance and zero storage, and the
/// platform may later reclaim it. Returns the target and destination
/// snapshots after the transition, in that order.
pub fn process_close(
    program_id: &Address,
    accounts: &Vec<AccountDescriptor>,
    payload: &Vec<u8>,
) -> (r: Result<(AccountDescriptor, AccountDescriptor), ProtocolError>)
    requires
        accounts@.len() == 2 ==> accounts@[0].lamports + accounts@[1].lamports <= u64::MAX,
    ensures
        match close_validation(program_id@, accounts@, payload@) {
            Some(e) => r == Err::<(AccountDescriptor, AccountDescriptor), ProtocolError>(e),
            None => r matches Ok(pair) && {
                &&& pair.0 == (AccountDescriptor { lamports: 0u64, data_len: 0u64, ..accounts@[0] })
                &&& pair.1 == (AccountDescriptor {
                    lamports: (accounts@[1].lamports + accounts@[0].lamports) as u64,
                    ..accounts@[1]
                })
            },
        },
{
    if accounts.len() < 2 {
        return Err(ProtocolError::MissingAccount);
    }
    if accounts.len() > 2 {
        return Err(ProtocolError::InvalidAccountRole);
    }
    let target = &accounts[0];
    let dest = &accounts[1];
    if !target.is_writable || !dest.is_writable {
        return Err(ProtocolError::InvalidAccountRole);
    }
    if payload.len() != 0 {
        return Err(ProtocolError::InvalidAccountRole);
    }
    if target.address == dest.address {
        return Err(ProtocolError::ConflictingAccountRoles);
    }
    if !(target.owner == *program_id) {
        return Err(ProtocolError::InvalidAccountOwner);
    }
    let new_target = AccountDescriptor {
        address: target.address,
        owner: target.owner,
        is_signer: target.is_signer,
        is_writable: target.is_writable,
        lamports: 0,
        data_len: 0,
    };
    let new_dest = AccountDescriptor {
        address: dest.address,
        owner: dest.owner,
        is_signer: dest.is_signer,
        is_writable: dest.is_writable,
        lamports: dest.lamports + target.lamports,
        data_len: dest.data_len,
    };
    Ok((new_target, new_dest))
}

/// The create path aborts with `SeedMismatch` whenever re-deriving the
/// target address from the payer's address and the supplied bump does
/// not reproduce the supplied target address — even when every other
/// field of the request is well-formed.
pub proof fn lemma_create_aborts_on_seed_mismatch(
    program: Seq<u8>,
    sys: Seq<u8>,
    accounts: Seq<AccountDescriptor>,
    payload: Seq<u8>,
)
    requires
        payload.len() >= 1,
        accounts.len() >= 3,
        accounts[0].is_signer && accounts[0].is_writable,
        accounts[1].is_writable,
        accounts[1].owner@ == sys,
        accounts[2].address@ == sys,
        !conflicting_roles(accounts[0], accounts[1]),
        !conflicting_roles(accounts[0], accounts[2]),
        !conflicting_roles(accounts[1], accounts[2]),
        pda_derivation(vault_seeds(accounts[0].address@, payload[0]), program) != Some(
            accounts[1].address@,
        ),
    ensures
        create_validation(program, sys, accounts, payload) == Some(ProtocolError::SeedMismatch),
{
}

/// Success is owed: a well-formed create request whose target is
/// exactly the address derived from the payer's address and the
/// supplied bump — such as the pair the bump search returned — passes
/// every precondition of the create path.
pub proof fn lemma_create_accepts_derived_target(
    program: Seq<u8>,
    sys: Seq<u8>,
    accounts: Seq<AccountDescriptor>,
    payload: Seq<u8>,
)
    requires
        payload.len() >= 1,
        accounts.len() >= 3,
        accounts[0].is_signer && accounts[0].is_writable,
        accounts[1].is_writable,
        accounts[1].owner@ == sys,
        accounts[2].address@ == sys,
        !conflicting_roles(accounts[0], accounts[1]),
        !conflicting_roles(accounts[0], accounts[2]),
        !conflicting_roles(accounts[1], accounts[2]),
        pda_derivation(vault_seeds(accounts[0].address@, payload[0]), program) == Some(
            accounts[1].address@,
        ),
    ensures
        create_validation(program, sys, accounts, payload) is None,
{
}

/// The create path aborts with `InvalidAccountOwner` whenever the
/// target's current owner is no longer the base system program — in
/// particular after a successful create has already assigned the target
/// to the invoking program. Creation therefore succeeds at most once
/// per target: it is not idempotent.
pub proof fn lemma_create_rejects_initialized_target(
    program: Seq<u8>,
    sys: Seq<u8>,
    accounts: Seq<AccountDescriptor>,
    payload: Seq<u8>,
)
    requires
        payload.len() >= 1,
        accounts.len() >= 3,
        accounts[0].is_signer && accounts[0].is_writable,
        accounts[1].is_writable,
        accounts[1].owner@ != sys,
    ensures
        create_validation(program, sys, accounts, payload) == Some(
            ProtocolError::InvalidAccountOwner,
        ),
{
}

} // verus!
