use vstd::prelude::*;
use crate::address::Address;

verus! {

/// A per-invocation snapshot of an account as the invocation protocol
/// sees it: identity, ownership, role flags, storage size and balance.
/// Snapshots are fetched per invocation and never cached across them.
#[derive(Clone, Copy, Debug)]
pub struct AccountDescriptor {
    pub address: Address,
    pub owner: Address,
    pub is_signer: bool,
    pub is_writable: bool,
    pub lamports: u64,
    pub data_len: u64,
}

/// One account reference inside an instruction: the address together
/// with the roles the instruction claims for it.
#[derive(Clone, Copy, Debug)]
pub struct AccountMeta {
    pub address: Address,
    pub is_signer: bool,
    pub is_writable: bool,
}

/// An instruction: a target program, an ordered list of account
/// references and an opaque byte payload. Nested (invoked) instructions
/// carry the same shape.
#[derive(Debug)]
pub struct Instruction {
    pub program: Address,
    pub accounts: Vec<AccountMeta>,
    pub payload: Vec<u8>,
}

/// The validated outcome of the create path: the nested instruction to
/// issue, and the seed list (bump included) whose presentation asserts
/// signing authority over the derived address.
#[derive(Debug)]
pub struct CreatePlan {
    pub instruction: Instruction,
    pub signer_seeds: Vec<Vec<u8>>,
}

} // verus!
