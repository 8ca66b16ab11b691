//! The records of the registry.
use vstd::prelude::*;
use std::collections::BTreeSet;
use crate::runtime::Pubkey;
use crate::core_ds::account::MaxSize;
use crate::registry::constant::STRING_MAX_SIZE;

verus! {

/// The state of a registry: the data store it works on, and the count of the
/// component schemas in its catalogue.
#[derive(Debug)]
pub struct RegistryConfig {
    pub core_ds: Pubkey,
    pub components: u64,
}

impl MaxSize for RegistryConfig {
    open spec fn record_size() -> u64 {
        40
    }

    fn get_max_size() -> (size: u64) {
        32 + 8
    }
}

/// Who governs a registry instance.
#[derive(Debug)]
pub struct InstanceAuthority {
    pub instance: u64,
    pub authority: Pubkey,
}

impl MaxSize for InstanceAuthority {
    open spec fn record_size() -> u64 {
        40
    }

    fn get_max_size() -> (size: u64) {
        8 + 32
    }
}

/// An entry of the catalogue of component schemas; its address is derived
/// from the locator.
#[derive(Debug)]
pub struct ComponentSchema {
    pub url: String,
}

impl MaxSize for ComponentSchema {
    open spec fn record_size() -> u64 {
        STRING_MAX_SIZE
    }

    fn get_max_size() -> (size: u64) {
        STRING_MAX_SIZE
    }
}

/// What an action bundle may do: the instances it may act in, the component
/// types it may touch, and whether it may link entities to token mints.
#[derive(Debug)]
pub struct ActionBundleRegistration {
    pub action_bundle: Pubkey,
    pub instances: BTreeSet<u64>,
    pub can_mint: bool,
    /// The addresses of the schemas of the granted component types.
    pub components: BTreeSet<Pubkey>,
}

impl MaxSize for ActionBundleRegistration {
    open spec fn record_size() -> u64 {
        45
    }

    fn get_max_size() -> (size: u64) {
        32 + 8 + 1 + 4
    }
}

} // verus!
