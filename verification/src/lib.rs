//! A fungible-token ledger over a content-addressed block store.
//!
//! The ledger keeps its durable state as one block that the state root names:
//! the token's metadata, its owner, and the root of a persistent map from
//! account identifiers to balances. Every call loads that state, works on the
//! balance map, and commits by setting a new state root as its last step, so
//! that a call that fails leaves the root where it was.
//!
//! The store and the root are passed to every call in a [`ledger::Ledger`]; a
//! failure comes back as an [`error::ActorError`] for the caller to act on.

pub mod amount;
pub mod balances;
pub mod codec;
pub mod error;
pub mod laws;
pub mod ledger;
pub mod protocol;
pub mod state;
pub mod store;

pub use crate::amount::TokenAmount;
pub use crate::balances::ActorID;
pub use crate::balances::BalanceMap;
pub use crate::error::ActorError;
pub use crate::error::MapError;
pub use crate::ledger::Ledger;
pub use crate::protocol::constructor;
pub use crate::protocol::invoke;
pub use crate::protocol::mint;
pub use crate::protocol::transfer;
pub use crate::state::ConstructorParams;
pub use crate::state::State;
pub use crate::state::TransferParams;
