//! A permissioned ledger of structured records.
//!
//! A namespace scopes registries, a registry scopes entries, and every change is gated by
//! the authority and the delegates of the entity and of what owns it. Blobs and delegate
//! sets are bounded, revocation is final, and every identity has a bounded history of the
//! events that befell it.
//!
//! `model` says what the ledger is and what each operation does to it; `ledger`,
//! `namespace`, `registry` and `entry` hold the ledger itself and the operations, each
//! proved to do what the model says; `laws` states what follows for every run of
//! operations.

pub mod config;
pub mod delegates;
pub mod digest;
pub mod entry;
pub mod error;
pub mod history;
pub mod laws;
pub mod ledger;
pub mod mock;
pub mod model;
pub mod namespace;
pub mod operation;
pub mod permission;
pub mod registry;
pub mod schema;
pub mod types;
