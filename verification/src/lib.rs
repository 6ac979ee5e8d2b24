//! A verified authority-gated product registry and token ledger.
//!
//! An owner account administers an append-only catalogue of products; any
//! caller may ask whether a barcode belongs to a genuine product; inbound
//! payments are converted into token balances at a fixed unit price.
//!
//! The operations are those of [`SafeSip`]. What each of them does is
//! stated over the mathematical [`State`] in [`model`], and what follows
//! for every state and every input is proved in [`laws`].

pub mod amount;
pub mod contract;
pub mod error;
pub mod identity;
pub mod laws;
pub mod ledger;
pub mod model;
pub mod owner;
pub mod registry;

pub use crate::amount::Amount;
pub use crate::contract::{CallContext, SafeSip};
pub use crate::error::Error;
pub use crate::identity::Identity;
pub use crate::ledger::Ledger;
pub use crate::model::State;
pub use crate::owner::OwnerState;
pub use crate::registry::{Product, ProductRegistry};
