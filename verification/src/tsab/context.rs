//! The accounts that each operation of the action bundle takes, and what the
//! bundle asks of them before it acts.
use vstd::prelude::*;
use crate::error::ComponentError;
use crate::runtime::{
    derived_address, find_program_address, is_address, seed_from_tag, seeds_view, Account,
    Context, Digest, Pubkey, Signer,
};
use crate::core_ds::account::{Entity, RegistryInstance, ARCNFT};
use crate::registry::account::{ActionBundleRegistration, RegistryConfig};
use crate::tsab::account::TSABConfig;
use crate::tsab::constant::SEEDS_TSABSIGNER;

verus! {

broadcast use vstd::laws_cmp::group_laws_cmp;

/// The seeds of the configuration of the action bundle, under which the
/// bundle signs: the tag `tsab_signer`.
pub open spec fn tsab_config_seeds() -> Seq<Seq<u8>> {
    seq![SEEDS_TSABSIGNER@]
}

/// The address of the configuration of the action bundle `program`, derived
/// under the bundle itself.
pub open spec fn tsab_config_address(program: Pubkey) -> Option<Pubkey> {
    derived_address(tsab_config_seeds(), program)
}

/// Builds the seeds that [`tsab_config_seeds`] describes.
pub fn tsab_config_seed_bytes() -> (seeds: Vec<Vec<u8>>)
    ensures
        seeds_view(seeds@) == tsab_config_seeds(),
{
    let mut seeds: Vec<Vec<u8>> = Vec::new();
    seeds.push(seed_from_tag(&SEEDS_TSABSIGNER));
    assert(seeds_view(seeds@) =~= tsab_config_seeds());
    seeds
}

/// Derives the address that [`tsab_config_address`] describes.
pub fn find_tsab_config(program: &Pubkey) -> (address: Option<Pubkey>)
    ensures
        address == tsab_config_address(*program),
{
    find_program_address(&tsab_config_seed_bytes(), program)
}

/// The accounts of `initalize`.
#[derive(Debug)]
pub struct Initialize {
    pub payer: Signer,
    /// The slot of the configuration to create.
    pub tsab_config: Account<TSABConfig>,
}

impl Initialize {
    /// What the bundle asks before it creates its configuration, given the
    /// address of the configuration.
    pub open spec fn check(self, config_address: Option<Pubkey>) -> Result<(), ComponentError> {
        if !self.payer.is_signer {
            Err(ComponentError::Unauthorized)
        } else if config_address != Some(self.tsab_config.key) {
            Err(ComponentError::NotFound)
        } else if self.tsab_config.data is Some {
            Err(ComponentError::AlreadyInitialized)
        } else {
            Ok(())
        }
    }

    /// Decides what [`check`](Self::check) describes.
    pub fn validate(&self, config_address: &Option<Pubkey>) -> (outcome: Result<(), ComponentError>)
        ensures
            outcome == self.check(*config_address),
    {
        if !self.payer.is_signer {
            Err(ComponentError::Unauthorized)
        } else if !is_address(&self.tsab_config.key, config_address) {
            Err(ComponentError::NotFound)
        } else if self.tsab_config.data.is_some() {
            Err(ComponentError::AlreadyInitialized)
        } else {
            Ok(())
        }
    }
}

/// The accounts of `mint_metadata`.
#[derive(Debug)]
pub struct MintMetdata {
    pub payer: Signer,
    /// The address of the token mint.
    pub mint: Pubkey,
    /// The configuration of the bundle, under which it signs.
    pub tsab_config: Account<TSABConfig>,
    /// The slot of the entity, which the data store creates.
    pub entity: Account<Entity>,
    /// The slot of the link, which the data store creates.
    pub arcnft: Account<ARCNFT>,
    pub registry_config: Account<RegistryConfig>,
    /// The address of the registry that the bundle asks.
    pub registry_program: Pubkey,
    /// The registration of this bundle with the registry.
    pub tsab_registration: Account<ActionBundleRegistration>,
    pub registry_instance: Account<RegistryInstance>,
}

impl MintMetdata {
    /// What the bundle asks before it turns to the registry, given the
    /// address of its configuration and the digest that files the metadata
    /// schema; on success, the component type of the metadata.
    pub open spec fn check(self, config_address: Option<Pubkey>, schema: Digest) -> Result<
        Pubkey,
        ComponentError,
    > {
        if self.tsab_config.data is None {
            Err(ComponentError::NotFound)
        } else if config_address != Some(self.tsab_config.key) {
            Err(ComponentError::Unauthorized)
        } else if !self.tsab_config.data->0.components@.contains_key(schema) {
            Err(ComponentError::NotFound)
        } else {
            Ok(self.tsab_config.data->0.components@[schema])
        }
    }

    /// Decides what [`check`](Self::check) describes.
    pub fn validate(&self, config_address: &Option<Pubkey>, schema: &Digest) -> (outcome: Result<
        Pubkey,
        ComponentError,
    >)
        ensures
            outcome == self.check(*config_address, *schema),
    {
        match &self.tsab_config.data {
            None => Err(ComponentError::NotFound),
            Some(config) => {
                if !is_address(&self.tsab_config.key, config_address) {
                    Err(ComponentError::Unauthorized)
                } else {
                    match config.components.get(schema) {
                        Some(component) => Ok(*component),
                        None => Err(ComponentError::NotFound),
                    }
                }
            },
        }
    }

    /// The signer that the bundle presents to the registry: its
    /// configuration account, for which the bundle signs itself.
    pub open spec fn bundle_signer(self) -> Signer {
        Signer { key: self.tsab_config.key, is_signer: true }
    }

    /// The accounts that the bundle hands to the registry to have the entity
    /// created.
    pub open spec fn forwarded_init(self) -> Context<crate::registry::context::InitEntity> {
        Context {
            program_id: self.registry_program,
            accounts: crate::registry::context::InitEntity {
                payer: self.payer,
                registry_config: self.registry_config,
                entity: self.entity,
                registry_instance: self.registry_instance,
                action_bundle: self.bundle_signer(),
                action_bundle_registration: self.tsab_registration,
            },
        }
    }

    /// The accounts that the bundle hands to the registry to have the entity
    /// linked to the mint.
    pub open spec fn forwarded_mint(self) -> Context<crate::registry::context::MintARCNFT> {
        Context {
            program_id: self.registry_program,
            accounts: crate::registry::context::MintARCNFT {
                payer: self.payer,
                registry_config: self.registry_config,
                entity: self.entity,
                mint: self.mint,
                arcnft: self.arcnft,
                registry_instance: self.registry_instance,
                action_bundle: self.bundle_signer(),
                action_bundle_registration: self.tsab_registration,
            },
        }
    }
}

} // verus!
