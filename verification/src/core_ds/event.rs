//! What the data store tells of what it has done.
use vstd::prelude::*;
use crate::runtime::Pubkey;
use crate::core_ds::state::SerializedComponent;

verus! {

/// A registry instance was created.
#[derive(Debug)]
pub struct NewWorldInitalized {
    pub world: Pubkey,
    pub instance: u64,
    pub instance_address: Pubkey,
}

/// An entity was created.
#[derive(Debug)]
pub struct NewEntityMinted {
    pub world_instance: Pubkey,
    pub entity_id: u64,
    pub entity: Pubkey,
}

/// Components were inserted into an entity.
#[derive(Debug)]
pub struct NewComponentAdded {
    pub entity: Pubkey,
    pub components: Vec<(Pubkey, SerializedComponent)>,
}

/// Components were removed from an entity.
#[derive(Debug)]
pub struct ComponentRemoved {
    pub entity: Pubkey,
    pub component: Vec<Pubkey>,
}

/// Payloads of components of an entity were replaced.
#[derive(Debug)]
pub struct ComponentModified {
    pub entity: Pubkey,
    pub components: Vec<Pubkey>,
}

} // verus!
