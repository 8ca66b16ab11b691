//! The seed tags of the records of the data store, and the overhead of a
//! stored component.
use vstd::prelude::*;

verus! {

/// The tag that starts the seeds of a registry instance: `registry_instance`.
pub const SEEDS_REGISTRYINSTANCE_PREFIX: [u8; 17] = [
    114, 101, 103, 105, 115, 116, 114, 121, 95, 105, 110, 115, 116, 97, 110, 99, 101,
];

/// The tag that starts the seeds of an entity: `entity`.
pub const SEEDS_ENTITY_PREFIX: [u8; 6] = [101, 110, 116, 105, 116, 121];

/// The seed of the signing authority of a registry: `registry_signer`.
pub const SEEDS_REGISTRYSIGNER: [u8; 15] = [
    114, 101, 103, 105, 115, 116, 114, 121, 95, 115, 105, 103, 110, 101, 114,
];

/// The tag that starts the seeds of a link to a token mint: `arcnft`.
pub const SEEDS_ARCNFT_PREFIX: [u8; 6] = [97, 114, 99, 110, 102, 116];

/// The bytes that every stored component takes beside its declared payload:
/// its 32-byte key, and the declared size and the length prefix that
/// `SerializedComponent::get_max_size` counts.
pub const SERIALIZED_COMPONENT_EXTRA_SPACE: u64 = 44;

} // verus!
