use vstd::prelude::*;
use crate::address::{Address, MAX_SEEDS, MAX_SEED_LEN};
use crate::errors::DeriveError;
use solana_program::pubkey::Pubkey;

verus! {

/// The byte-strings a sequence of seed vectors holds.
pub open spec fn seeds_view(seeds: Seq<Vec<u8>>) -> Seq<Seq<u8>> {
    Seq::new(seeds.len(), |i: int| seeds[i]@)
}

/// Whether a seed list respects the platform limits: at most
/// [`MAX_SEEDS`] seeds, each of at most [`MAX_SEED_LEN`] bytes.
pub open spec fn seeds_within_limits(s: Seq<Seq<u8>>) -> bool {
    &&& s.len() <= MAX_SEEDS
    &&& forall|i: int| 0 <= i < s.len() ==> (#[trigger] s[i]).len() <= MAX_SEED_LEN
}

/// What deriving a program address from a seed list and a program
/// address yields: the candidate address hashed from the seeds, the
/// program address and the domain-separation suffix — or nothing, when
/// that candidate lies on the signing curve and is rejected. A function
/// of the seeds and the program address alone.
pub uninterp spec fn pda_derivation(seeds: Seq<Seq<u8>>, program: Seq<u8>) -> Option<Seq<u8>>;

/// Relies on solana_program::pubkey::Pubkey::create_program_address:
/// within the seed limits it hashes the seeds, the program address and
/// the domain-separation suffix, returns the digest as the derived
/// address, and rejects it only when the digest is a valid curve point.
#[verifier::external_body]
fn solana_create_program_address(seeds: &Vec<Vec<u8>>, program: &Address) -> (r: Option<Address>)
    requires
        seeds_within_limits(seeds_view(seeds@)),
    ensures
        match r {
            Some(a) => pda_derivation(seeds_view(seeds@), program@) == Some(a@),
            None => pda_derivation(seeds_view(seeds@), program@) is None,
        },
{
    let refs: Vec<&[u8]> = seeds.iter().map(|s| s.as_slice()).collect();
    match Pubkey::create_program_address(&refs, &Pubkey::from(program.bytes)) {
        Ok(pk) => Some(Address { bytes: pk.to_bytes() }),
        Err(_) => None,
    }
}

/// Derives the program address for a seed list. Fails with
/// `InvalidSeeds` when the seed count or an individual seed length
/// exceeds the platform maximum, and when the candidate address lies on
/// the signing curve; succeeds with the candidate otherwise.
pub fn create_program_address(seeds: &Vec<Vec<u8>>, program: &Address) -> (r: Result<
    Address,
    DeriveError,
>)
    ensures
        !seeds_within_limits(seeds_view(seeds@)) ==> r == Err::<Address, DeriveError>(
            DeriveError::InvalidSeeds,
        ),
        seeds_within_limits(seeds_view(seeds@)) ==> match pda_derivation(
            seeds_view(seeds@),
            program@,
        ) {
            Some(a) => r matches Ok(addr) && addr@ == a,
            None => r == Err::<Address, DeriveError>(DeriveError::InvalidSeeds),
        },
{
    if seeds.len() > MAX_SEEDS {
        return Err(DeriveError::InvalidSeeds);
    }
    let mut j: usize = 0;
    while j < seeds.len()
        invariant
            j <= seeds@.len(),
            forall|k: int| 0 <= k < j ==> (#[trigger] seeds@[k])@.len() <= MAX_SEED_LEN,
        decreases seeds@.len() - j,
    {
        if seeds[j].len() > MAX_SEED_LEN {
            proof {
                assert(seeds_view(seeds@)[j as int].len() > MAX_SEED_LEN);
            }
            return Err(DeriveError::InvalidSeeds);
        }
        j += 1;
    }
    proof {
        assert forall|i: int| 0 <= i < seeds_view(seeds@).len() implies (#[trigger] seeds_view(
            seeds@,
        )[i]).len() <= MAX_SEED_LEN by {
            assert(seeds_view(seeds@)[i] == seeds@[i]@);
        }
    }
    match solana_create_program_address(seeds, program) {
        Some(a) => Ok(a),
        None => Err(DeriveError::InvalidSeeds),
    }
}

/// Whether deriving with the seed list extended by the single-byte
/// seed `b` succeeds, i.e. yields an off-curve address.
pub open spec fn bump_viable(s: Seq<Seq<u8>>, p: Seq<u8>, b: u8) -> bool {
    pda_derivation(s.push(seq![b]), p) is Some
}

/// The first viable bump at or below `b`, searching downwards, or
/// `None` when every candidate down to zero is rejected.
pub open spec fn first_viable_bump(s: Seq<Seq<u8>>, p: Seq<u8>, b: int) -> Option<u8>
    recommends
        b <= 255,
    decreases b + 1,
{
    if b < 0 {
        None
    } else if bump_viable(s, p, b as u8) {
        Some(b as u8)
    } else {
        first_viable_bump(s, p, b - 1)
    }
}

/// Whether a seed list leaves room for the bump byte within the
/// platform limits.
pub open spec fn find_seeds_ok(s: Seq<Seq<u8>>) -> bool {
    &&& s.len() + 1 <= MAX_SEEDS
    &&& forall|i: int| 0 <= i < s.len() ==> (#[trigger] s[i]).len() <= MAX_SEED_LEN
}

fn copy_bytes(v: &Vec<u8>) -> (r: Vec<u8>)
    ensures
        r@ == v@,
{
    let mut out: Vec<u8> = Vec::new();
    let mut i: usize = 0;
    while i < v.len()
        invariant
            i <= v@.len(),
            out@.len() == i,
            forall|j: int| 0 <= j < i ==> out@[j] == v@[j],
        decreases v@.len() - i,
    {
        out.push(v[i]);
        i += 1;
    }
    proof {
        assert(out@ =~= v@);
    }
    out
}

/// The seed list extended by the single-byte seed `bump`.
fn with_bump(seeds: &Vec<Vec<u8>>, bump: u8) -> (r: Vec<Vec<u8>>)
    ensures
        seeds_view(r@) == seeds_view(seeds@).push(seq![bump]),
{
    let mut out: Vec<Vec<u8>> = Vec::new();
    let mut i: usize = 0;
    while i < seeds.len()
        invariant
            i <= seeds@.len(),
            out@.len() == i,
            forall|j: int| 0 <= j < i ==> (#[trigger] out@[j])@ == seeds@[j]@,
        decreases seeds@.len() - i,
    {
        out.push(copy_bytes(&seeds[i]));
        i += 1;
    }
    let mut bump_seed: Vec<u8> = Vec::new();
    bump_seed.push(bump);
    out.push(bump_seed);
    proof {
        assert(bump_seed@ =~= seq![bump]);
        assert(seeds_view(out@) =~= seeds_view(seeds@).push(seq![bump]));
    }
    out
}

/// Searches for the bump discriminator, from 255 downwards, that makes
/// the seed list derive an off-curve program address. Returns the first
/// viable bump together with the derived address; fails with
/// `NoViableBump` when all 256 candidates are rejected, and with
/// `InvalidSeeds` when the seed list (bump included) would break the
/// platform limits. Re-deriving with the returned bump appended to the
/// same seeds reproduces the returned address exactly.
pub fn find_program_address(seeds: &Vec<Vec<u8>>, program: &Address) -> (r: Result<
    (Address, u8),
    DeriveError,
>)
    ensures
        !find_seeds_ok(seeds_view(seeds@)) ==> r == Err::<(Address, u8), DeriveError>(
            DeriveError::InvalidSeeds,
        ),
        find_seeds_ok(seeds_view(seeds@)) ==> match first_viable_bump(
            seeds_view(seeds@),
            program@,
            255,
        ) {
            Some(b) => r matches Ok(pair) && pair.1 == b && pda_derivation(
                seeds_view(seeds@).push(seq![b]),
                program@,
            ) == Some(pair.0@),
            None => r == Err::<(Address, u8), DeriveError>(DeriveError::NoViableBump),
        },
{
    if seeds.len() >= MAX_SEEDS {
        return Err(DeriveError::InvalidSeeds);
    }
    let mut j: usize = 0;
    while j < seeds.len()
        invariant
            j <= seeds@.len(),
            forall|k: int| 0 <= k < j ==> (#[trigger] seeds@[k])@.len() <= MAX_SEED_LEN,
        decreases seeds@.len() - j,
    {
        if seeds[j].len() > MAX_SEED_LEN {
            proof {
                assert(seeds_view(seeds@)[j as int].len() > MAX_SEED_LEN);
            }
            return Err(DeriveError::InvalidSeeds);
        }
        j += 1;
    }
    proof {
        assert forall|i: int| 0 <= i < seeds_view(seeds@).len() implies (#[trigger] seeds_view(
            seeds@,
        )[i]).len() <= MAX_SEED_LEN by {
            assert(seeds_view(seeds@)[i] == seeds@[i]@);
        }
    }
    let ghost s = seeds_view(seeds@);
    let ghost p = program@;
    let mut bump: u8 = 255;
    loop
        invariant
            find_seeds_ok(s),
            s == seeds_view(seeds@),
            p == program@,
            first_viable_bump(s, p, 255) == first_viable_bump(s, p, bump as int),
        decreases bump,
    {
        let trial = with_bump(seeds, bump);
        proof {
            assert(seeds_view(trial@) == s.push(seq![bump]));
            assert(s.push(seq![bump]).len() == s.len() + 1);
            assert forall|i: int| 0 <= i < s.push(seq![bump]).len() implies (#[trigger] s.push(
                seq![bump],
            )[i]).len() <= MAX_SEED_LEN by {
                if i < s.len() {
                    assert(s.push(seq![bump])[i] == s[i]);
                } else {
                    assert(s.push(seq![bump])[i] == seq![bump]);
                }
            }
        }
        match solana_create_program_address(&trial, program) {
            Some(a) => {
                proof {
                    assert(bump_viable(s, p, bump));
                    assert(first_viable_bump(s, p, bump as int) == Some(bump));
                }
                return Ok((a, bump));
            },
            None => {
                proof {
                    assert(!bump_viable(s, p, bump));
                    assert(first_viable_bump(s, p, bump as int) == first_viable_bump(
                        s,
                        p,
                        bump as int - 1,
                    ));
                }
                if bump == 0 {
                    return Err(DeriveError::NoViableBump);
                }
                bump = bump - 1;
            },
        }
    }
}

proof fn lemma_first_viable_bump_viable(s: Seq<Seq<u8>>, p: Seq<u8>, hi: int, b: u8)
    requires
        hi <= 255,
        first_viable_bump(s, p, hi) == Some(b),
    ensures
        bump_viable(s, p, b),
    decreases hi + 1,
{
    if hi >= 0 && !bump_viable(s, p, hi as u8) {
        lemma_first_viable_bump_viable(s, p, hi - 1, b);
    }
}

/// Round-trip law of the bump search: when the search over (seeds,
/// program) settles on bump `b`, deriving a program address from the
/// same seeds with `b` appended succeeds, and — since the derivation is
/// a function of its inputs — yields exactly the address the search
/// returned. The bump lies in [0, 255] by its type.
pub proof fn lemma_find_round_trip(s: Seq<Seq<u8>>, p: Seq<u8>, b: u8)
    requires
        first_viable_bump(s, p, 255) == Some(b),
    ensures
        pda_derivation(s.push(seq![b]), p) is Some,
{
    lemma_first_viable_bump_viable(s, p, 255, b);
}

} // verus!
