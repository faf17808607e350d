//! A deterministic state-transition core for a per-owner, append-only todo
//! list kept in runtime-allocated storage regions.
//!
//! Each owner has one counter region, created once, whose count rises by
//! exactly one per appended item, and one todo region per item, created at
//! the index the counter held at that moment.  Region addresses are derived
//! deterministically from the owner (and, for an item, its index), and
//! every handler re-derives and checks the addresses it is handed.
//!
//! The core decides; the host acts.  A handler validates the supplied
//! account handles and returns the effect to perform — the records to
//! persist, the byte size of a region to create, and the bump that
//! authorizes the creation — or the error that rejects the request whole.
//! The host performs the writes of one request atomically, so no partial
//! effect of a failed request survives.

pub mod address;
pub mod codec;
pub mod error;
pub mod instruction;
pub mod laws;
pub mod processor;
pub mod state;
