//! A verified registry for tokenized real-world-asset (RWA) records.
//!
//! The registry tracks an administrator, a monotonic token counter, per-token
//! metadata and per-token escrow balances, and mutates them through a fixed
//! set of operations (initialize, mint, transfer, trade, burn), each gated by
//! an authorization check tied to a specific principal. Every operation's
//! effect is pinned down by a specification-level transition function over an
//! abstract view of the registry state; the laws module proves the global
//! properties that follow from those transitions.
//!
//! Persistent storage, signature verification and event publication are the
//! host ledger's business: an embedding supplies them. Here a
//! principal is an opaque 64-bit identifier, the authorization oracle is the
//! list of principals that approved the current call, and emitted events are
//! recorded in an append-only log inside the registry value.

pub mod errors;
pub mod events;
pub mod laws;
pub mod registry;
pub mod state;
pub mod token;

pub use errors::Error;
pub use registry::RwaToken;
pub use events::{Burned, Event, EventView, Initialized, RwaMinted, Trade, Transfer};
pub use state::RegistryView;
pub use token::{DataKey, Identity, Metadata, MetadataView, TokenId};
