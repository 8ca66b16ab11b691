//! What the registry tells of what it has done.
use vstd::prelude::*;
use crate::runtime::Pubkey;

verus! {

/// A registry instance and its authority record were created.
#[derive(Debug)]
pub struct NewRegistryInstance {
    pub registry_instance: Pubkey,
    pub instance_authority: Pubkey,
}

/// A component schema was entered into the catalogue.
#[derive(Debug)]
pub struct NewComponentRegistered {
    pub component: Pubkey,
    pub schema: String,
}

/// An action bundle was registered for a registry instance.
#[derive(Debug)]
pub struct NewSystemRegistration {
    pub registry_instance: Pubkey,
    pub action_bundle: Pubkey,
    pub action_bundle_registration: Pubkey,
}

} // verus!
