use vstd::prelude::*;

verus! {

/// Failures of the two derivation engines. All are permanent: the
/// caller must change its inputs, retrying cannot help.
#[derive(Clone, Copy, Debug, PartialEq, Eq, Structural)]
pub enum DeriveError {
    /// The UTF-8 seed string of the seed-derived engine is longer than
    /// the platform maximum.
    SeedTooLong,
    /// Seed count or an individual seed length exceeds the platform
    /// maximum, or the candidate address lies on the signing curve.
    InvalidSeeds,
    /// Every one of the 256 bump candidates produced an on-curve
    /// address.
    NoViableBump,
}

/// Failures of the invocation protocol. All are permanent: they mark a
/// malformed or unauthorized request and are never retried.
#[derive(Clone, Copy, Debug, PartialEq, Eq, Structural)]
pub enum ProtocolError {
    /// Fewer accounts were supplied than the instruction requires.
    MissingAccount,
    /// A supplied account's signer or writable flags do not match the
    /// roles the instruction demands, or an account stands where none
    /// was expected.
    InvalidAccountRole,
    /// The target account's current owner is not the expected one.
    InvalidAccountOwner,
    /// The account standing for a well-known utility program does not
    /// carry that program's fixed address.
    InvalidProgramReference,
    /// Re-deriving the target address from the supplied seeds and bump
    /// did not reproduce the supplied target address.
    SeedMismatch,
    /// Two supplied accounts alias the same address with conflicting
    /// role flags, or two roles that must be distinct share an address.
    ConflictingAccountRoles,
}

} // verus!
