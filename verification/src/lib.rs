//! An ownership registry and derivation engine for "kitty" records: each
//! kitty is a fixed 16-byte genetic payload under a unique 32-bit identifier,
//! owned by one account. New kitties are created from a deterministic
//! pseudo-random selector, or bred by combining two existing kitties' payloads
//! bit by bit under such a selector.

use vstd::prelude::*;

pub mod dna;
pub mod hashing;
pub mod laws;
pub mod registry;

pub use dna::combine_dna;
pub use dna::combine_dna_bytes;
pub use dna::Kitty;
pub use hashing::random_value;
pub use registry::Error;
pub use registry::Event;
pub use registry::Registry;
pub use registry::RegistryView;

verus! {

/// Identifiers are dense 32-bit indices, issued in increasing order from 0.
pub type KittyIndex = u32;

/// Accounts are opaque to this crate; an identity is carried as a plain value.
pub type AccountId = u64;

} // verus!
