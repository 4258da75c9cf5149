use vstd::prelude::*;
use crate::address::{ends_with_pda_marker, Address, MAX_SEED_LEN};
use crate::errors::DeriveError;
use solana_program::pubkey::Pubkey;

verus! {

/// The number of bytes in the UTF-8 encoding of a character sequence.
pub uninterp spec fn utf8_len(s: Seq<char>) -> nat;

/// Relies on str::len: the length of a string slice is the number of
/// bytes of its UTF-8 encoding, a function of the characters alone.
#[verifier::external_body]
fn seed_byte_len(seed: &str) -> (n: usize)
    ensures
        n as nat == utf8_len(seed@),
{
    seed.len()
}

/// The address the seed-derived engine computes for the given base
/// address, seed string and owner address: a one-way hash over the
/// concatenation of the three.
pub uninterp spec fn seed_derived_address(base: Seq<u8>, seed: Seq<char>, owner: Seq<u8>) -> Seq<
    u8,
>;

/// Relies on solana_program::pubkey::Pubkey::create_with_seed: for a
/// seed of at most 32 UTF-8 bytes and an owner that does not end with
/// the derived-address domain marker, it returns the hash of the
/// concatenation of base, seed and owner — a function of the arguments
/// alone, with no other outcome.
#[verifier::external_body]
fn solana_create_with_seed(base: &Address, seed: &str, owner: &Address) -> (r: Address)
    requires
        utf8_len(seed@) <= 32,
        !ends_with_pda_marker(owner@),
    ensures
        r@ == seed_derived_address(base@, seed@, owner@),
{
    let pk = Pubkey::create_with_seed(&Pubkey::from(base.bytes), seed, &Pubkey::from(owner.bytes))
        .expect("rejects only long seeds and marker-suffixed owners");
    Address { bytes: pk.to_bytes() }
}

/// Computes the seed-derived address for (base, seed, owner). Pure and
/// deterministic; the one failure mode is a seed string longer than
/// [`MAX_SEED_LEN`] bytes, rejected with `SeedTooLong`. Owner addresses
/// whose trailing bytes spell the derived-address domain marker are
/// reserved by the platform and outside this function's domain.
pub fn derive_with_seed(base: &Address, seed: &str, owner: &Address) -> (r: Result<
    Address,
    DeriveError,
>)
    requires
        !ends_with_pda_marker(owner@),
    ensures
        utf8_len(seed@) > 32 ==> r == Err::<Address, DeriveError>(DeriveError::SeedTooLong),
        utf8_len(seed@) <= 32 ==> (r matches Ok(a) && a@ == seed_derived_address(
            base@,
            seed@,
            owner@,
        )),
{
    let n = seed_byte_len(seed);
    if n > MAX_SEED_LEN {
        return Err(DeriveError::SeedTooLong);
    }
    Ok(solana_create_with_seed(base, seed, owner))
}

/// Determinism of the seed-derived engine: the derived address is a
/// function of the base, seed and owner values alone, so two
/// derivations from identical inputs yield byte-identical addresses.
pub proof fn lemma_derive_with_seed_deterministic(
    base1: Seq<u8>,
    seed1: Seq<char>,
    owner1: Seq<u8>,
    base2: Seq<u8>,
    seed2: Seq<char>,
    owner2: Seq<u8>,
)
    requires
        base1 == base2,
        seed1 == seed2,
        owner1 == owner2,
    ensures
        seed_derived_address(base1, seed1, owner1) == seed_derived_address(base2, seed2, owner2),
{
}

} // verus!
