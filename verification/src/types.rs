//! Plain identifier types shared across the engine.

use vstd::prelude::*;

verus! {

/// Unique id assigned to a bonded mixnode.
pub type MixId = u32;

/// Absolute index of a reward epoch.
pub type EpochId = u32;

/// Id of an event scheduled for a future epoch transition.
pub type EpochEventId = u32;

/// Base58-encoded ed25519 public key identifying a node.
pub type IdentityKey = String;

/// Base58-encoded x25519 public key used for sphinx key derivation.
pub type SphinxKey = String;

} // verus!
