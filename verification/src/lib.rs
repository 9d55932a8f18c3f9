//! An ephemeral, single-process discovery registry for autonomous
//! agents. Each agent is identified by a DID backed by a public key,
//! publishes a reachable endpoint with an expiry, and other agents
//! resolve that endpoint by DID.
//!
//! Publication is gated by proof of private-key ownership: a stateful
//! Hello → Challenge → Proof handshake converts a bare DID claim into a
//! time-bounded session credential, which then authorizes register and
//! deregister. An alternate mode verifies a per-request signature
//! directly instead. Lookup needs no credential.
//!
//! The cryptographic primitives (DID parsing, signing, verification,
//! challenge hashing) are consumed from the `agent-id` crates through a
//! narrow trusted capability layer in [`crypto`]; everything else is
//! verified.

pub mod crypto;
pub mod decimal;
pub mod error;
pub mod handlers;
pub mod handshake;
pub mod laws;
pub mod messages;
pub mod registry;
pub mod types;

pub use types::default_ttl;
