//! A registry and verification engine for a recycling-incentive ledger.
//!
//! The crate tracks participant identities, records submitted
//! recyclable-material batches, drives a two-phase submit/verify workflow
//! that computes reward points, and maintains running aggregate statistics
//! per participant.  All state lives in an owned, transactional
//! [`storage::Storage`] value; the host environment that persists that
//! state, authenticates callers and supplies the clock stays outside the
//! crate.  Every state-changing operation therefore takes the identity the
//! host authenticated (`caller`) and, where a record is stamped, the
//! current ledger time (`now`) as plain values.
//!
//! Every operation either completes with all of its effects applied or
//! fails with an [`types::Error`] and no effect at all, mirroring the
//! all-or-nothing commit of a transactional ledger store.

pub mod batch;
pub mod contract;
pub mod material;
pub mod participant;
pub mod stats;
pub mod storage;
pub mod types;

pub use contract::ScavengerContract;
pub use material::Material;
pub use participant::Participant;
pub use stats::RecyclingStats;
pub use storage::Storage;
pub use types::{Capability, Error, ParticipantRole, WasteType};
