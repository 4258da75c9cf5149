use vstd::prelude::*;

verus! {

/// A fixed-length account identifier. Equality is byte-exact. A value
/// may or may not have a corresponding private signing key; nothing in
/// the identifier itself records which.
#[derive(Clone, Copy, Debug)]
pub struct Address {
    pub bytes: [u8; 32],
}

impl View for Address {
    type V = Seq<u8>;

    open spec fn view(&self) -> Seq<u8> {
        self.bytes@
    }
}

impl Address {
    /// Wraps 32 raw bytes as an address.
    pub fn new(bytes: [u8; 32]) -> (a: Address)
        ensures
            a@ == bytes@,
    {
        Address { bytes }
    }
}

impl PartialEq for Address {
    fn eq(&self, other: &Address) -> (r: bool) {
        let mut i: usize = 0;
        while i < 32
            invariant
                0 <= i <= 32,
                forall|j: int| 0 <= j < i ==> self.bytes@[j] == other.bytes@[j],
            decreases 32 - i,
        {
            if self.bytes[i] != other.bytes[i] {
                return false;
            }
            i += 1;
        }
        proof {
            assert(self.bytes@ =~= other.bytes@);
        }
        true
    }
}

impl vstd::std_specs::cmp::PartialEqSpecImpl for Address {
    open spec fn obeys_eq_spec() -> bool {
        true
    }

    open spec fn eq_spec(&self, other: &Address) -> bool {
        self@ == other@
    }
}

impl Eq for Address {}

/// Largest number of bytes a single seed may hold.
pub const MAX_SEED_LEN: usize = 32;

/// Largest number of seeds a program-derived address may be computed
/// from, the bump discriminator included.
pub const MAX_SEEDS: usize = 16;

/// The domain-separation suffix that marks derived addresses. Owner
/// addresses ending in these bytes are reserved by the platform.
pub open spec fn pda_marker() -> Seq<u8> {
    seq![
        80u8, 114u8, 111u8, 103u8, 114u8, 97u8, 109u8, 68u8, 101u8, 114u8, 105u8, 118u8,
        101u8, 100u8, 65u8, 100u8, 100u8, 114u8, 101u8, 115u8, 115u8,
    ]
}

/// Whether the owner address ends with the derived-address domain
/// marker, which the platform reserves.
pub open spec fn ends_with_pda_marker(owner: Seq<u8>) -> bool {
    owner.len() >= 21 && owner.subrange(owner.len() - 21, owner.len() as int) == pda_marker()
}

/// The fixed address of the base system program: 32 zero bytes.
pub open spec fn system_program_id() -> Seq<u8> {
    Seq::new(32, |i: int| 0u8)
}

/// The well-known address of the base system program, as a value.
pub fn system_program_address() -> (a: Address)
    ensures
        a@ == system_program_id(),
{
    let a = Address { bytes: [0u8; 32] };
    proof {
        assert(a@ =~= system_program_id());
    }
    a
}

} // verus!
