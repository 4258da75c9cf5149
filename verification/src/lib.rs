//! Deterministic account derivation and delegated authority.
//!
//! The crate covers three cooperating pieces: a seed-derived address
//! engine (an address computed from a base address, a UTF-8 seed string
//! and an owner address), a program-derived address engine (an address
//! computed from a list of seed byte-strings plus a bump discriminator
//! that forces the result off the signing curve), and the invocation
//! protocol that validates account roles, re-derives the expected
//! address from the supplied seeds, and settles the resulting balance
//! and ownership transitions. A small retry state machine governs the
//! bounded re-attempts of a funding request collaborator.

pub mod accounts;
pub mod address;
pub mod derive;
pub mod errors;
pub mod pda;
pub mod protocol;
pub mod retry;
