//! A permissioned entity-component store.
//!
//! Three cooperating programs share one ledger of accounts:
//!
//! * [`core_ds`] owns the registry instances, the entities and their
//!   components, and accounts for every byte of entity storage;
//! * [`registry`] issues registry instances, keeps the catalogue of component
//!   schemas, grants capabilities to action bundles and forwards their
//!   requests to the core data store under its own signing authority;
//! * [`tsab`] is an action bundle that mints an entity with a metadata
//!   component and links it to a token mint.
//!
//! [`runtime`] models what the ledger hands to a program: addresses, signers,
//! accounts and the derivation of program addresses.
pub mod error;
pub mod runtime;
pub mod core_ds;
pub mod registry;
pub mod tsab;
pub mod laws;
