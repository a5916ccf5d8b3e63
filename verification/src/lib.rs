//! A verified core for a small on-chain registry of user-submitted links.
//!
//! The registry keeps an append-only list of entries, each carrying a link,
//! the submitter's public key and a per-entry vote tally, together with two
//! aggregate counters.  Four operations drive it: creating the registry,
//! appending an entry, tallying a vote, and a fixed-amount tip transfer
//! between two balances.  The host chain supplies account storage, signature
//! checks and the native transfer primitive; this crate holds the
//! state-transition logic itself, each operation specified against a
//! mathematical view of the registry.

pub mod identity;
pub mod state;
pub mod ops;
pub mod laws;
