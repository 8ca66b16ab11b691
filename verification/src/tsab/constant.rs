//! The seed tag of the action bundle, the name of its schema, and the sizes
//! kept for the fields of the metadata.
use vstd::prelude::*;

verus! {

/// The seed of the configuration of the action bundle, which is also its
/// signing identity: `tsab_signer`.
pub const SEEDS_TSABSIGNER: [u8; 11] = [116, 115, 97, 98, 95, 115, 105, 103, 110, 101, 114];

/// The name whose digest files the metadata schema in the configuration:
/// `metadata`.
pub const METADATA_SCHEMA_NAME: [u8; 8] = [109, 101, 116, 97, 100, 97, 116, 97];

/// The bytes kept for the name of a token, its length prefix included.
pub const METADATA_NAME_MAX_SIZE: u64 = 36;

/// The bytes kept for the symbol of a token, its length prefix included.
pub const METADATA_SYMBOL_MAX_SIZE: u64 = 14;

/// The bytes kept for the locator of a token, its length prefix included.
pub const METADATA_URI_MAX_SIZE: u64 = 204;

} // verus!
