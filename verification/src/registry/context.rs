//! The accounts that each operation of the registry takes, what the registry
//! asks of them before it acts or forwards, and the addresses of its records.
use vstd::prelude::*;
use std::collections::BTreeSet;
use vstd::string::StringSliceAdditionalSpecFns;
use crate::error::ComponentError;
use crate::runtime::{
    derived_address, find_program_address, is_address, pubkey_bytes, pubkey_to_bytes, same_key,
    seed_from_slice, seed_from_tag, seeds_view, Account, Context, Pubkey, Signer,
    MAX_PERMITTED_DATA_LENGTH,
};
use crate::core_ds::account::{Entity, RegistryInstance, ARCNFT};
use crate::core_ds::context::{find_registry_signer, registry_signer_address};
use crate::registry::account::{
    ActionBundleRegistration, ComponentSchema, InstanceAuthority, RegistryConfig,
};
use crate::registry::constant::{
    SEEDS_ACTIONBUNDLEREGISTRATION_PREFIX, SEEDS_INSTANCEAUTHORITY_PREFIX, STRING_MAX_SIZE,
};

verus! {

broadcast use vstd::laws_cmp::group_laws_cmp;

/// The seeds of the authority record of the registry instance at
/// `registry_instance`: the tag `instance_authority` and the bytes of the
/// address of the instance.
pub open spec fn instance_authority_seeds(registry_instance: Pubkey) -> Seq<Seq<u8>> {
    seq![SEEDS_INSTANCEAUTHORITY_PREFIX@, pubkey_bytes(registry_instance)]
}

/// The seeds of the catalogue entry of the schema with the locator
/// `locator`: the bytes of the locator alone.
pub open spec fn component_schema_seeds(locator: Seq<u8>) -> Seq<Seq<u8>> {
    seq![locator]
}

/// The seeds of the registration of the action bundle `action_bundle` for
/// the registry instance at `registry_instance`: the tag
/// `action_bundle_registration` and the bytes of the two addresses.
pub open spec fn action_bundle_registration_seeds(registry_instance: Pubkey, action_bundle: Pubkey) -> Seq<
    Seq<u8>,
> {
    seq![
        SEEDS_ACTIONBUNDLEREGISTRATION_PREFIX@,
        pubkey_bytes(registry_instance),
        pubkey_bytes(action_bundle),
    ]
}

/// The address of the configuration of the registry `program`. The
/// configuration is the account that signs for the registry, so this is the
/// address that the data store expects of the authority of the registry.
pub open spec fn registry_config_address(program: Pubkey) -> Option<Pubkey> {
    registry_signer_address(program)
}

/// The address of the authority record of the registry instance at
/// `registry_instance`, derived under the registry `program`.
pub open spec fn instance_authority_address(program: Pubkey, registry_instance: Pubkey) -> Option<
    Pubkey,
> {
    derived_address(instance_authority_seeds(registry_instance), program)
}

/// The address of the catalogue entry of the schema with the locator
/// `locator`, derived under the registry `program`.
pub open spec fn component_schema_address(program: Pubkey, locator: Seq<u8>) -> Option<Pubkey> {
    derived_address(component_schema_seeds(locator), program)
}

/// The address of the registration of the action bundle `action_bundle` for
/// the registry instance at `registry_instance`, derived under the registry
/// `program`.
pub open spec fn action_bundle_registration_address(
    program: Pubkey,
    registry_instance: Pubkey,
    action_bundle: Pubkey,
) -> Option<Pubkey> {
    derived_address(action_bundle_registration_seeds(registry_instance, action_bundle), program)
}

/// Builds the seeds that [`instance_authority_seeds`] describes.
pub fn instance_authority_seed_bytes(registry_instance: &Pubkey) -> (seeds: Vec<Vec<u8>>)
    ensures
        seeds_view(seeds@) == instance_authority_seeds(*registry_instance),
{
    let mut seeds: Vec<Vec<u8>> = Vec::new();
    seeds.push(seed_from_tag(&SEEDS_INSTANCEAUTHORITY_PREFIX));
    seeds.push(pubkey_to_bytes(registry_instance));
    assert(seeds_view(seeds@) =~= instance_authority_seeds(*registry_instance));
    seeds
}

/// Builds the seeds that [`component_schema_seeds`] describes.
pub fn component_schema_seed_bytes(locator: &str) -> (seeds: Vec<Vec<u8>>)
    ensures
        seeds_view(seeds@) == component_schema_seeds(locator.spec_bytes()),
{
    let mut seeds: Vec<Vec<u8>> = Vec::new();
    seeds.push(seed_from_slice(locator.as_bytes()));
    assert(seeds_view(seeds@) =~= component_schema_seeds(locator.spec_bytes()));
    seeds
}

/// Builds the seeds that [`action_bundle_registration_seeds`] describes.
pub fn action_bundle_registration_seed_bytes(registry_instance: &Pubkey, action_bundle: &Pubkey) -> (seeds:
    Vec<Vec<u8>>)
    ensures
        seeds_view(seeds@) == action_bundle_registration_seeds(*registry_instance, *action_bundle),
{
    let mut seeds: Vec<Vec<u8>> = Vec::new();
    seeds.push(seed_from_tag(&SEEDS_ACTIONBUNDLEREGISTRATION_PREFIX));
    seeds.push(pubkey_to_bytes(registry_instance));
    seeds.push(pubkey_to_bytes(action_bundle));
    assert(seeds_view(seeds@) =~= action_bundle_registration_seeds(
        *registry_instance,
        *action_bundle,
    ));
    seeds
}

/// Derives the address that [`registry_config_address`] describes.
pub fn find_registry_config(program: &Pubkey) -> (address: Option<Pubkey>)
    ensures
        address == registry_config_address(*program),
{
    find_registry_signer(program)
}

/// Derives the address that [`instance_authority_address`] describes.
pub fn find_instance_authority(program: &Pubkey, registry_instance: &Pubkey) -> (address: Option<
    Pubkey,
>)
    ensures
        address == instance_authority_address(*program, *registry_instance),
{
    find_program_address(&instance_authority_seed_bytes(registry_instance), program)
}

/// Derives the address that [`component_schema_address`] describes.
pub fn find_component_schema(program: &Pubkey, locator: &str) -> (address: Option<Pubkey>)
    ensures
        address == component_schema_address(*program, locator.spec_bytes()),
{
    find_program_address(&component_schema_seed_bytes(locator), program)
}

/// Derives the address that [`action_bundle_registration_address`] describes.
pub fn find_action_bundle_registration(
    program: &Pubkey,
    registry_instance: &Pubkey,
    action_bundle: &Pubkey,
) -> (address: Option<Pubkey>)
    ensures
        address == action_bundle_registration_address(*program, *registry_instance, *action_bundle),
{
    find_program_address(
        &action_bundle_registration_seed_bytes(registry_instance, action_bundle),
        program,
    )
}

/// A request for the component types `requested` is authorized by the grant
/// `granted` where every requested type is granted.
pub open spec fn is_authorized(requested: Set<Pubkey>, granted: Set<Pubkey>) -> bool {
    requested.subset_of(granted)
}

/// Whether every component type of `components` is among
/// `action_bundle_components`. Stops at the first that is not.
pub fn check_sys_registry(
    components: &Vec<Pubkey>,
    action_bundle_components: &BTreeSet<Pubkey>,
) -> (allowed: bool)
    ensures
        allowed == is_authorized(components@.to_set(), action_bundle_components@),
{
    let mut i: usize = 0;
    while i < components.len()
        invariant
            i <= components.len(),
            forall|j: int| 0 <= j < i ==> action_bundle_components@.contains(#[trigger] components@[j]),
        decreases components.len() - i,
    {
        if !action_bundle_components.contains(&components[i]) {
            assert(components@.to_set().contains(components@[i as int]));
            return false;
        }
        i += 1;
    }
    assert forall|key: Pubkey| components@.to_set().contains(key) implies action_bundle_components@.contains(
        key,
    ) by {
        let j = choose|j: int| 0 <= j < components@.len() && components@[j] == key;
        assert(action_bundle_components@.contains(components@[j]));
    }
    true
}

/// The signer that the registry presents to the data store: its
/// configuration account, for which the registry signs itself.
pub open spec fn forwarded_signer(registry_config: Account<RegistryConfig>) -> Signer {
    Signer { key: registry_config.key, is_signer: true }
}

/// What the registry asks of an action bundle before it acts for it in the
/// instance `instance` of the registry `owner`: the registry runs under its
/// own configuration and owns the instance, the bundle has signed and is the
/// one that the registration was made for, and the instance is granted.
pub open spec fn bundle_allowed(
    program_id: Pubkey,
    registry_config: Account<RegistryConfig>,
    config_address: Option<Pubkey>,
    action_bundle: Signer,
    registration: ActionBundleRegistration,
    owner: Pubkey,
    instance: u64,
) -> bool {
    &&& config_address == Some(registry_config.key)
    &&& action_bundle.is_signer
    &&& registration.action_bundle == action_bundle.key
    &&& owner == program_id
    &&& registration.instances@.contains(instance)
}

/// Decides [`bundle_allowed`].
pub fn bundle_is_allowed(
    program_id: &Pubkey,
    registry_config: &Account<RegistryConfig>,
    config_address: &Option<Pubkey>,
    action_bundle: &Signer,
    registration: &ActionBundleRegistration,
    owner: &Pubkey,
    instance: u64,
) -> (allowed: bool)
    ensures
        allowed == bundle_allowed(
            *program_id,
            *registry_config,
            *config_address,
            *action_bundle,
            *registration,
            *owner,
            instance,
        ),
{
    is_address(&registry_config.key, config_address) && action_bundle.is_signer && same_key(
        &registration.action_bundle,
        &action_bundle.key,
    ) && same_key(owner, program_id) && registration.instances.contains(&instance)
}

/// What the registry asks before it forwards a request of an action bundle
/// that touches the component types `requested` of an entity, given the
/// address of the configuration of the registry.
pub open spec fn entity_request_check(
    program_id: Pubkey,
    registry_config: Account<RegistryConfig>,
    entity: Account<Entity>,
    action_bundle: Signer,
    registration: Account<ActionBundleRegistration>,
    requested: Set<Pubkey>,
    config_address: Option<Pubkey>,
) -> Result<(), ComponentError> {
    if registry_config.data is None || entity.data is None || registration.data is None {
        Err(ComponentError::NotFound)
    } else if !bundle_allowed(
        program_id,
        registry_config,
        config_address,
        action_bundle,
        registration.data->0,
        entity.data->0.registry,
        entity.data->0.instance,
    ) || !is_authorized(requested, registration.data->0.components@) {
        Err(ComponentError::Unauthorized)
    } else {
        Ok(())
    }
}

/// Decides what [`entity_request_check`] describes.
pub fn validate_entity_request(
    program_id: &Pubkey,
    registry_config: &Account<RegistryConfig>,
    entity: &Account<Entity>,
    action_bundle: &Signer,
    registration: &Account<ActionBundleRegistration>,
    requested: &Vec<Pubkey>,
    config_address: &Option<Pubkey>,
) -> (outcome: Result<(), ComponentError>)
    ensures
        outcome == entity_request_check(
            *program_id,
            *registry_config,
            *entity,
            *action_bundle,
            *registration,
            requested@.to_set(),
            *config_address,
        ),
{
    match (&registry_config.data, &entity.data, &registration.data) {
        (Some(_), Some(entity), Some(registration)) => {
            if !bundle_is_allowed(
                program_id,
                registry_config,
                config_address,
                action_bundle,
                registration,
                &entity.registry,
                entity.instance,
            ) || !check_sys_registry(requested, &registration.components) {
                Err(ComponentError::Unauthorized)
            } else {
                Ok(())
            }
        },
        _ => Err(ComponentError::NotFound),
    }
}

/// What the registry asks before it acts for an action bundle in a registry
/// instance, given the address of the configuration of the registry.
pub open spec fn instance_request_check(
    program_id: Pubkey,
    registry_config: Account<RegistryConfig>,
    registry_instance: Account<RegistryInstance>,
    action_bundle: Signer,
    registration: Account<ActionBundleRegistration>,
    config_address: Option<Pubkey>,
) -> Result<(), ComponentError> {
    if registry_config.data is None || registry_instance.data is None || registration.data is None {
        Err(ComponentError::NotFound)
    } else if !bundle_allowed(
        program_id,
        registry_config,
        config_address,
        action_bundle,
        registration.data->0,
        registry_instance.data->0.registry,
        registry_instance.data->0.instance,
    ) {
        Err(ComponentError::Unauthorized)
    } else {
        Ok(())
    }
}

/// Decides what [`instance_request_check`] describes.
pub fn validate_instance_request(
    program_id: &Pubkey,
    registry_config: &Account<RegistryConfig>,
    registry_instance: &Account<RegistryInstance>,
    action_bundle: &Signer,
    registration: &Account<ActionBundleRegistration>,
    config_address: &Option<Pubkey>,
) -> (outcome: Result<(), ComponentError>)
    ensures
        outcome == instance_request_check(
            *program_id,
            *registry_config,
            *registry_instance,
            *action_bundle,
            *registration,
            *config_address,
        ),
{
    match (&registry_config.data, &registry_instance.data, &registration.data) {
        (Some(_), Some(instance), Some(registration)) => {
            if !bundle_is_allowed(
                program_id,
                registry_config,
                config_address,
                action_bundle,
                registration,
                &instance.registry,
                instance.instance,
            ) {
                Err(ComponentError::Unauthorized)
            } else {
                Ok(())
            }
        },
        _ => Err(ComponentError::NotFound),
    }
}

/// The accounts of `initalize`.
#[derive(Debug)]
pub struct Initialize {
    pub payer: Signer,
    /// The slot of the configuration to create.
    pub registry_config: Account<RegistryConfig>,
}

impl Initialize {
    /// What the registry asks before it creates its configuration, given the
    /// address of the configuration.
    pub open spec fn check(self, config_address: Option<Pubkey>) -> Result<(), ComponentError> {
        if !self.payer.is_signer {
            Err(ComponentError::Unauthorized)
        } else if config_address != Some(self.registry_config.key) {
            Err(ComponentError::NotFound)
        } else if self.registry_config.data is Some {
            Err(ComponentError::AlreadyInitialized)
        } else {
            Ok(())
        }
    }

    /// Decides what [`check`](Self::check) describes.
    pub fn validate(&self, config_address: &Option<Pubkey>) -> (outcome: Result<(), ComponentError>)
        ensures
            outcome == self.check(*config_address),
    {
        if !self.payer.is_signer {
            Err(ComponentError::Unauthorized)
        } else if !is_address(&self.registry_config.key, config_address) {
            Err(ComponentError::NotFound)
        } else if self.registry_config.data.is_some() {
            Err(ComponentError::AlreadyInitialized)
        } else {
            Ok(())
        }
    }
}

/// The accounts of `instance_registry`.
#[derive(Debug)]
pub struct InstanceRegistry {
    /// Who asks for the instance, and becomes its authority.
    pub payer: Signer,
    pub registry_config: Account<RegistryConfig>,
    /// The slot of the instance, which the data store creates.
    pub registry_instance: Account<RegistryInstance>,
    /// The slot of the authority record to create.
    pub instance_authority: Account<InstanceAuthority>,
}

impl InstanceRegistry {
    /// What the registry asks before it has the instance created, given the
    /// address of its configuration and that of the authority record.
    /// Anyone may ask for an instance.
    pub open spec fn check(
        self,
        config_address: Option<Pubkey>,
        authority_address: Option<Pubkey>,
    ) -> Result<(), ComponentError> {
        if self.registry_config.data is None {
            Err(ComponentError::NotFound)
        } else if !self.payer.is_signer || config_address != Some(self.registry_config.key) {
            Err(ComponentError::Unauthorized)
        } else if authority_address != Some(self.instance_authority.key) {
            Err(ComponentError::NotFound)
        } else if self.instance_authority.data is Some {
            Err(ComponentError::AlreadyExists)
        } else {
            Ok(())
        }
    }

    /// Decides what [`check`](Self::check) describes.
    pub fn validate(&self, config_address: &Option<Pubkey>, authority_address: &Option<Pubkey>) -> (outcome:
        Result<(), ComponentError>)
        ensures
            outcome == self.check(*config_address, *authority_address),
    {
        if self.registry_config.data.is_none() {
            Err(ComponentError::NotFound)
        } else if !self.payer.is_signer || !is_address(&self.registry_config.key, config_address) {
            Err(ComponentError::Unauthorized)
        } else if !is_address(&self.instance_authority.key, authority_address) {
            Err(ComponentError::NotFound)
        } else if self.instance_authority.data.is_some() {
            Err(ComponentError::AlreadyExists)
        } else {
            Ok(())
        }
    }

    /// The accounts that the registry hands to the data store.
    pub open spec fn forwarded(self) -> Context<crate::core_ds::context::InitRegistryInstance> {
        Context {
            program_id: self.registry_config.data->0.core_ds,
            accounts: crate::core_ds::context::InitRegistryInstance {
                payer: self.payer,
                registry_instance: self.registry_instance,
                registry_signer: forwarded_signer(self.registry_config),
            },
        }
    }
}

/// The accounts of `register_component`.
#[derive(Debug)]
pub struct RegisterComponent {
    pub payer: Signer,
    /// The slot of the catalogue entry to create.
    pub component: Account<ComponentSchema>,
    pub registry_config: Account<RegistryConfig>,
}

impl RegisterComponent {
    /// What the registry asks before it enters a schema whose locator takes
    /// `locator_len` bytes, given the address of its configuration and that
    /// of the entry. Anyone may register a schema that is not there yet.
    pub open spec fn check(
        self,
        locator_len: nat,
        config_address: Option<Pubkey>,
        component_address: Option<Pubkey>,
    ) -> Result<(), ComponentError> {
        if self.registry_config.data is None {
            Err(ComponentError::NotFound)
        } else if !self.payer.is_signer || config_address != Some(self.registry_config.key) {
            Err(ComponentError::Unauthorized)
        } else if 4 + locator_len > STRING_MAX_SIZE {
            Err(ComponentError::PayloadTooLarge)
        } else if component_address != Some(self.component.key) {
            Err(ComponentError::NotFound)
        } else if self.component.data is Some {
            Err(ComponentError::DuplicateSchema)
        } else if self.registry_config.data->0.components == u64::MAX {
            Err(ComponentError::SizeOverflow)
        } else {
            Ok(())
        }
    }

    /// Decides what [`check`](Self::check) describes.
    pub fn validate(
        &self,
        locator_len: usize,
        config_address: &Option<Pubkey>,
        component_address: &Option<Pubkey>,
    ) -> (outcome: Result<(), ComponentError>)
        ensures
            outcome == self.check(locator_len as nat, *config_address, *component_address),
    {
        let count = match &self.registry_config.data {
            None => { return Err(ComponentError::NotFound); },
            Some(config) => config.components,
        };
        if !self.payer.is_signer || !is_address(&self.registry_config.key, config_address) {
            Err(ComponentError::Unauthorized)
        } else if locator_len > STRING_MAX_SIZE as usize - 4 {
            Err(ComponentError::PayloadTooLarge)
        } else if !is_address(&self.component.key, component_address) {
            Err(ComponentError::NotFound)
        } else if self.component.data.is_some() {
            Err(ComponentError::DuplicateSchema)
        } else if count == u64::MAX {
            Err(ComponentError::SizeOverflow)
        } else {
            Ok(())
        }
    }
}

/// What the registry asks before it makes or grows a registration for the
/// instance: the payer has signed, the registry owns the instance, and the
/// authority record is that of the instance.
pub open spec fn instance_governed(
    program_id: Pubkey,
    payer: Signer,
    registry_instance: RegistryInstance,
    instance_authority: InstanceAuthority,
) -> bool {
    &&& payer.is_signer
    &&& registry_instance.registry == program_id
    &&& instance_authority.instance == registry_instance.instance
}

/// Decides [`instance_governed`].
pub fn instance_is_governed(
    program_id: &Pubkey,
    payer: &Signer,
    registry_instance: &RegistryInstance,
    instance_authority: &InstanceAuthority,
) -> (governed: bool)
    ensures
        governed == instance_governed(*program_id, *payer, *registry_instance, *instance_authority),
{
    payer.is_signer && same_key(&registry_instance.registry, program_id)
        && instance_authority.instance == registry_instance.instance
}

/// The accounts of `register_action_bundle`.
#[derive(Debug)]
pub struct RegisterSystem {
    /// Who registers the bundle: the authority of the instance.
    pub payer: Signer,
    /// An instance of this registry.
    pub registry_instance: Account<RegistryInstance>,
    /// The authority record of that instance.
    pub instance_authority: Account<InstanceAuthority>,
    /// The slot of the registration to create.
    pub action_bundle_registration: Account<ActionBundleRegistration>,
    /// The address of the action bundle; any address will do.
    pub action_bundle: Pubkey,
}

impl RegisterSystem {
    /// What the registry asks before it registers the action bundle, given
    /// the address of the registration. Only the authority of the instance
    /// registers action bundles for it: the payer is the identity that the
    /// authority record names.
    pub open spec fn check(self, program_id: Pubkey, registration_address: Option<Pubkey>) -> Result<
        (),
        ComponentError,
    > {
        if self.registry_instance.data is None || self.instance_authority.data is None {
            Err(ComponentError::NotFound)
        } else if !instance_governed(
            program_id,
            self.payer,
            self.registry_instance.data->0,
            self.instance_authority.data->0,
        ) || self.payer.key != self.instance_authority.data->0.authority {
            Err(ComponentError::Unauthorized)
        } else if registration_address != Some(self.action_bundle_registration.key) {
            Err(ComponentError::NotFound)
        } else if self.action_bundle_registration.data is Some {
            Err(ComponentError::AlreadyExists)
        } else {
            Ok(())
        }
    }

    /// Decides what [`check`](Self::check) describes.
    pub fn validate(&self, program_id: &Pubkey, registration_address: &Option<Pubkey>) -> (outcome:
        Result<(), ComponentError>)
        ensures
            outcome == self.check(*program_id, *registration_address),
    {
        match (&self.registry_instance.data, &self.instance_authority.data) {
            (Some(instance), Some(authority)) => {
                if !instance_is_governed(program_id, &self.payer, instance, authority)
                    || !same_key(&self.payer.key, &authority.authority) {
                    Err(ComponentError::Unauthorized)
                } else if !is_address(&self.action_bundle_registration.key, registration_address) {
                    Err(ComponentError::NotFound)
                } else if self.action_bundle_registration.data.is_some() {
                    Err(ComponentError::AlreadyExists)
                } else {
                    Ok(())
                }
            },
            _ => Err(ComponentError::NotFound),
        }
    }
}

/// What the registry asks before it adds `count` grants of `unit` bytes each
/// to a registration, given the address of the registration; on success, the
/// size of the storage of the registration afterwards. The registry asks
/// for the authority record of the instance, not for the identity that the
/// record names: who may ask for a grant is settled before the registry is
/// called.
pub open spec fn grant_check(
    program_id: Pubkey,
    payer: Signer,
    registry_instance: Account<RegistryInstance>,
    instance_authority: Account<InstanceAuthority>,
    registration: Account<ActionBundleRegistration>,
    count: nat,
    unit: nat,
    registration_address: Option<Pubkey>,
) -> Result<usize, ComponentError> {
    if registry_instance.data is None || instance_authority.data is None || registration.data
        is None {
        Err(ComponentError::NotFound)
    } else if !instance_governed(
        program_id,
        payer,
        registry_instance.data->0,
        instance_authority.data->0,
    ) {
        Err(ComponentError::Unauthorized)
    } else if registration_address != Some(registration.key) {
        Err(ComponentError::NotFound)
    } else if registration.space + count * unit > MAX_PERMITTED_DATA_LENGTH {
        Err(ComponentError::SizeOverflow)
    } else {
        Ok((registration.space + count * unit) as usize)
    }
}

pub(crate) fn validate_grant(
    program_id: &Pubkey,
    payer: &Signer,
    registry_instance: &Account<RegistryInstance>,
    instance_authority: &Account<InstanceAuthority>,
    registration: &Account<ActionBundleRegistration>,
    count: usize,
    unit: usize,
    registration_address: &Option<Pubkey>,
) -> (outcome: Result<usize, ComponentError>)
    requires
        unit <= 32,
    ensures
        outcome == grant_check(
            *program_id,
            *payer,
            *registry_instance,
            *instance_authority,
            *registration,
            count as nat,
            unit as nat,
            *registration_address,
        ),
{
    match (&registry_instance.data, &instance_authority.data, &registration.data) {
        (Some(instance), Some(authority), Some(_)) => {
            if !instance_is_governed(program_id, payer, instance, authority) {
                return Err(ComponentError::Unauthorized);
            }
            if !is_address(&registration.key, registration_address) {
                return Err(ComponentError::NotFound);
            }
            assert(count * unit <= count * 32) by (nonlinear_arith)
                requires
                    unit <= 32,
            ;
            let grown: u128 = registration.space as u128 + (count as u128) * (unit as u128);
            if grown > MAX_PERMITTED_DATA_LENGTH as u128 {
                Err(ComponentError::SizeOverflow)
            } else {
                Ok(grown as usize)
            }
        },
        _ => Err(ComponentError::NotFound),
    }
}

/// The accounts of `add_components_to_action_bundle_registration`.
#[derive(Debug)]
pub struct AddComponentsToActionBundleRegistration {
    pub payer: Signer,
    /// An instance of this registry.
    pub registry_instance: Account<RegistryInstance>,
    /// The authority record of that instance.
    pub instance_authority: Account<InstanceAuthority>,
    pub action_bundle_registration: Account<ActionBundleRegistration>,
    /// The address of the action bundle.
    pub action_bundle: Pubkey,
}

/// The accounts of `add_instances_to_action_bundle_registration`.
#[derive(Debug)]
pub struct AddInstancesToActionBundleRegistration {
    pub payer: Signer,
    /// An instance of this registry.
    pub registry_instance: Account<RegistryInstance>,
    /// The authority record of that instance.
    pub instance_authority: Account<InstanceAuthority>,
    pub action_bundle_registration: Account<ActionBundleRegistration>,
    /// The address of the action bundle.
    pub action_bundle: Pubkey,
}

/// The accounts of `init_entity`.
#[derive(Debug)]
pub struct InitEntity {
    pub payer: Signer,
    /// The configuration of the registry, which signs what is forwarded.
    pub registry_config: Account<RegistryConfig>,
    /// The slot of the entity, which the data store creates.
    pub entity: Account<Entity>,
    pub registry_instance: Account<RegistryInstance>,
    pub action_bundle: Signer,
    pub action_bundle_registration: Account<ActionBundleRegistration>,
}

impl InitEntity {
    /// What the registry asks before it has an entity created with
    /// components of the types `requested`.
    pub open spec fn check(
        self,
        program_id: Pubkey,
        requested: Set<Pubkey>,
        config_address: Option<Pubkey>,
    ) -> Result<(), ComponentError> {
        match instance_request_check(
            program_id,
            self.registry_config,
            self.registry_instance,
            self.action_bundle,
            self.action_bundle_registration,
            config_address,
        ) {
            Err(error) => Err(error),
            Ok(()) => if is_authorized(requested, self.action_bundle_registration.data->0.components@) {
                Ok(())
            } else {
                Err(ComponentError::Unauthorized)
            },
        }
    }

    /// Decides what [`check`](Self::check) describes.
    pub fn validate(
        &self,
        program_id: &Pubkey,
        requested: &Vec<Pubkey>,
        config_address: &Option<Pubkey>,
    ) -> (outcome: Result<(), ComponentError>)
        ensures
            outcome == self.check(*program_id, requested@.to_set(), *config_address),
    {
        match validate_instance_request(
            program_id,
            &self.registry_config,
            &self.registry_instance,
            &self.action_bundle,
            &self.action_bundle_registration,
            config_address,
        ) {
            Err(error) => Err(error),
            Ok(()) => match &self.action_bundle_registration.data {
                Some(registration) => if check_sys_registry(requested, &registration.components) {
                    Ok(())
                } else {
                    Err(ComponentError::Unauthorized)
                },
                None => Err(ComponentError::NotFound),
            },
        }
    }

    /// The accounts that the registry hands to the data store.
    pub open spec fn forwarded(self) -> Context<crate::core_ds::context::InitEntity> {
        Context {
            program_id: self.registry_config.data->0.core_ds,
            accounts: crate::core_ds::context::InitEntity {
                payer: self.payer,
                registry_instance: self.registry_instance,
                entity: self.entity,
                registry_signer: forwarded_signer(self.registry_config),
            },
        }
    }
}

/// The accounts of `mint_arcnft`.
#[derive(Debug)]
pub struct MintARCNFT {
    pub payer: Signer,
    /// The configuration of the registry, which signs what is forwarded.
    pub registry_config: Account<RegistryConfig>,
    pub entity: Account<Entity>,
    /// The address of the token mint.
    pub mint: Pubkey,
    /// The slot of the link, which the data store creates.
    pub arcnft: Account<ARCNFT>,
    pub registry_instance: Account<RegistryInstance>,
    pub action_bundle: Signer,
    pub action_bundle_registration: Account<ActionBundleRegistration>,
}

impl MintARCNFT {
    /// What the registry asks before it has an entity linked to a mint: the
    /// bundle is allowed in the instance and may mint. Nothing is asked of
    /// the entity here; the data store asks that the registry owns it.
    pub open spec fn check(self, program_id: Pubkey, config_address: Option<Pubkey>) -> Result<
        (),
        ComponentError,
    > {
        match instance_request_check(
            program_id,
            self.registry_config,
            self.registry_instance,
            self.action_bundle,
            self.action_bundle_registration,
            config_address,
        ) {
            Err(error) => Err(error),
            Ok(()) => if self.action_bundle_registration.data->0.can_mint {
                Ok(())
            } else {
                Err(ComponentError::Unauthorized)
            },
        }
    }

    /// Decides what [`check`](Self::check) describes.
    pub fn validate(&self, program_id: &Pubkey, config_address: &Option<Pubkey>) -> (outcome: Result<
        (),
        ComponentError,
    >)
        ensures
            outcome == self.check(*program_id, *config_address),
    {
        match validate_instance_request(
            program_id,
            &self.registry_config,
            &self.registry_instance,
            &self.action_bundle,
            &self.action_bundle_registration,
            config_address,
        ) {
            Err(error) => Err(error),
            Ok(()) => match &self.action_bundle_registration.data {
                Some(registration) => if registration.can_mint {
                    Ok(())
                } else {
                    Err(ComponentError::Unauthorized)
                },
                None => Err(ComponentError::NotFound),
            },
        }
    }

    /// The accounts that the registry hands to the data store.
    pub open spec fn forwarded(self) -> Context<crate::core_ds::context::MintARCNFT> {
        Context {
            program_id: self.registry_config.data->0.core_ds,
            accounts: crate::core_ds::context::MintARCNFT {
                payer: self.payer,
                registry_instance: self.registry_instance,
                entity: self.entity,
                mint: self.mint,
                arcnft: self.arcnft,
                registry_signer: forwarded_signer(self.registry_config),
            },
        }
    }
}

/// The accounts of `req_add_component`.
#[derive(Debug)]
pub struct AddComponents {
    pub payer: Signer,
    /// The configuration of the registry, which signs what is forwarded.
    pub registry_config: Account<RegistryConfig>,
    pub entity: Account<Entity>,
    pub action_bundle: Signer,
    pub action_bundle_registration: Account<ActionBundleRegistration>,
}

impl AddComponents {
    /// What the registry asks before it forwards the insertion of
    /// components of the types `requested`.
    pub open spec fn check(
        self,
        program_id: Pubkey,
        requested: Set<Pubkey>,
        config_address: Option<Pubkey>,
    ) -> Result<(), ComponentError> {
        entity_request_check(
            program_id,
            self.registry_config,
            self.entity,
            self.action_bundle,
            self.action_bundle_registration,
            requested,
            config_address,
        )
    }

    /// The accounts that the registry hands to the data store.
    pub open spec fn forwarded(self) -> Context<crate::core_ds::context::AddComponent> {
        Context {
            program_id: self.registry_config.data->0.core_ds,
            accounts: crate::core_ds::context::AddComponent {
                payer: self.payer,
                entity: self.entity,
                registry_signer: forwarded_signer(self.registry_config),
            },
        }
    }
}

/// The accounts of `req_remove_component`.
#[derive(Debug)]
pub struct RemoveComponent {
    pub benefactor: Signer,
    /// The configuration of the registry, which signs what is forwarded.
    pub registry_config: Account<RegistryConfig>,
    pub entity: Account<Entity>,
    pub action_bundle: Signer,
    pub action_bundle_registration: Account<ActionBundleRegistration>,
}

impl RemoveComponent {
    /// What the registry asks before it forwards the removal of the
    /// components of the types `requested`.
    pub open spec fn check(
        self,
        program_id: Pubkey,
        requested: Set<Pubkey>,
        config_address: Option<Pubkey>,
    ) -> Result<(), ComponentError> {
        entity_request_check(
            program_id,
            self.registry_config,
            self.entity,
            self.action_bundle,
            self.action_bundle_registration,
            requested,
            config_address,
        )
    }

    /// The accounts that the registry hands to the data store.
    pub open spec fn forwarded(self) -> Context<crate::core_ds::context::RemoveComponent> {
        Context {
            program_id: self.registry_config.data->0.core_ds,
            accounts: crate::core_ds::context::RemoveComponent {
                benefactor: self.benefactor,
                entity: self.entity,
                registry_signer: forwarded_signer(self.registry_config),
            },
        }
    }
}

/// The accounts of `req_modify_component`.
#[derive(Debug)]
pub struct ModifyComponent {
    /// The configuration of the registry, which signs what is forwarded.
    pub registry_config: Account<RegistryConfig>,
    pub entity: Account<Entity>,
    pub action_bundle: Signer,
    pub action_bundle_registration: Account<ActionBundleRegistration>,
}

impl ModifyComponent {
    /// What the registry asks before it forwards new payloads for the
    /// components of the types `requested`.
    pub open spec fn check(
        self,
        program_id: Pubkey,
        requested: Set<Pubkey>,
        config_address: Option<Pubkey>,
    ) -> Result<(), ComponentError> {
        entity_request_check(
            program_id,
            self.registry_config,
            self.entity,
            self.action_bundle,
            self.action_bundle_registration,
            requested,
            config_address,
        )
    }

    /// The accounts that the registry hands to the data store.
    pub open spec fn forwarded(self) -> Context<crate::core_ds::context::ModifyComponent> {
        Context {
            program_id: self.registry_config.data->0.core_ds,
            accounts: crate::core_ds::context::ModifyComponent {
                entity: self.entity,
                registry_signer: forwarded_signer(self.registry_config),
            },
        }
    }
}

/// The accounts of `req_remove_entity`.
#[derive(Debug)]
pub struct RemoveEntity {
    pub benefactor: Signer,
    /// The configuration of the registry, which signs what is forwarded.
    pub registry_config: Account<RegistryConfig>,
    pub entity: Account<Entity>,
    /// Any registered action bundle may close an empty entity of an instance
    /// that it is granted.
    pub action_bundle: Signer,
    pub action_bundle_registration: Account<ActionBundleRegistration>,
}

impl RemoveEntity {
    /// What the registry asks before it forwards the destruction of an
    /// entity. That the entity is empty is asked here and again by the data
    /// store.
    pub open spec fn check(self, program_id: Pubkey, config_address: Option<Pubkey>) -> Result<
        (),
        ComponentError,
    > {
        match entity_request_check(
            program_id,
            self.registry_config,
            self.entity,
            self.action_bundle,
            self.action_bundle_registration,
            Set::empty(),
            config_address,
        ) {
            Err(error) => Err(error),
            Ok(()) => if self.entity.data->0.components@.is_empty() {
                Ok(())
            } else {
                Err(ComponentError::NotEmpty)
            },
        }
    }

    /// Decides what [`check`](Self::check) describes.
    pub fn validate(&self, program_id: &Pubkey, config_address: &Option<Pubkey>) -> (outcome: Result<
        (),
        ComponentError,
    >)
        ensures
            outcome == self.check(*program_id, *config_address),
    {
        let none: Vec<Pubkey> = Vec::new();
        assert(none@.to_set() =~= Set::<Pubkey>::empty());
        match validate_entity_request(
            program_id,
            &self.registry_config,
            &self.entity,
            &self.action_bundle,
            &self.action_bundle_registration,
            &none,
            config_address,
        ) {
            Err(error) => Err(error),
            Ok(()) => match &self.entity.data {
                Some(entity) => if entity.components.is_empty() {
                    Ok(())
                } else {
                    Err(ComponentError::NotEmpty)
                },
                None => Err(ComponentError::NotFound),
            },
        }
    }

    /// The accounts that the registry hands to the data store.
    pub open spec fn forwarded(self) -> Context<crate::core_ds::context::RemoveEntity> {
        Context {
            program_id: self.registry_config.data->0.core_ds,
            accounts: crate::core_ds::context::RemoveEntity {
                benefactor: self.benefactor,
                entity: self.entity,
                registry_signer: forwarded_signer(self.registry_config),
            },
        }
    }
}

} // verus!
