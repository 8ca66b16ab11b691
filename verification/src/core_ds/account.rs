//! The records of the data store.
use vstd::prelude::*;
use std::collections::BTreeMap;
use crate::runtime::Pubkey;
use crate::core_ds::state::SerializedComponent;

verus! {

/// The size in bytes of a record with nothing in its collections.
pub trait MaxSize {
    spec fn record_size() -> u64;

    fn get_max_size() -> (size: u64)
        ensures
            size == Self::record_size(),
    ;
}

/// One tenant of a registry, with the count of the entities ever created in
/// it.
#[derive(Debug)]
pub struct RegistryInstance {
    pub registry: Pubkey,
    pub instance: u64,
    pub entities: u64,
}

impl MaxSize for RegistryInstance {
    open spec fn record_size() -> u64 {
        48
    }

    fn get_max_size() -> (size: u64) {
        32 + 8 + 8
    }
}

/// A container of components, each under the address of its schema.
#[derive(Debug)]
pub struct Entity {
    pub entity_id: u64,
    pub instance: u64,
    pub registry: Pubkey,
    pub components: BTreeMap<Pubkey, SerializedComponent>,
}

impl MaxSize for Entity {
    open spec fn record_size() -> u64 {
        52
    }

    /// The size of an entity without components; every component adds its
    /// own share when it is inserted.
    fn get_max_size() -> (size: u64) {
        8 + 8 + 32 + 4
    }
}

/// The link of one entity to one token mint.
#[derive(Debug)]
pub struct ARCNFT {
    pub entity: Pubkey,
    pub mint: Pubkey,
}

impl MaxSize for ARCNFT {
    open spec fn record_size() -> u64 {
        64
    }

    fn get_max_size() -> (size: u64) {
        32 + 32
    }
}

} // verus!
