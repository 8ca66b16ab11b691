//! The registry: it issues registry instances, keeps the catalogue of
//! component schemas, grants capabilities to action bundles, and forwards
//! their requests to the core data store under its own signing authority.
//!
//! A request is forwarded only where the registration of the action bundle
//! covers it; what the data store then decides is the outcome.
use vstd::prelude::*;
use std::collections::BTreeMap;
use std::collections::BTreeSet;
use crate::error::ComponentError;
use crate::runtime::{
    lemma_take_to_set, Account, Context, Pubkey, Signer, DISCRIMINATOR_SIZE,
};
use crate::core_ds::account::MaxSize;
use crate::core_ds::context::component_keys;
use crate::core_ds::state::SerializedComponent;
use crate::registry::account::{
    ActionBundleRegistration, ComponentSchema, InstanceAuthority, RegistryConfig,
};
use crate::registry::constant::{COMPONENT_GRANT_SIZE, INSTANCE_GRANT_SIZE};
use crate::registry::context::{
    action_bundle_registration_address, component_schema_address, find_action_bundle_registration,
    find_component_schema, find_instance_authority, find_registry_config, grant_check,
    instance_authority_address, registry_config_address, validate_entity_request, validate_grant,
    AddComponents, AddComponentsToActionBundleRegistration, AddInstancesToActionBundleRegistration,
    InitEntity, Initialize, InstanceRegistry, MintARCNFT, ModifyComponent, RegisterComponent,
    RegisterSystem, RemoveComponent, RemoveEntity,
};

pub mod account;
pub mod constant;
pub mod context;
pub mod event;

verus! {

broadcast use vstd::laws_cmp::group_laws_cmp;

/// The outcome of a request that the registry forwards once `check` allows
/// it: the refusal of the registry, or else what the data store decides.
pub open spec fn forwarded_outcome<T>(
    check: Result<(), ComponentError>,
    decided: Result<T, ComponentError>,
) -> Result<T, ComponentError> {
    match check {
        Err(error) => Err(error),
        Ok(()) => decided,
    }
}

/// Whether `initalize` succeeds, and why not.
pub open spec fn initalize_outcome(pre: Context<Initialize>) -> Result<(), ComponentError> {
    pre.accounts.check(registry_config_address(pre.program_id))
}

/// What `initalize` leaves where it succeeds: the configuration, with the
/// data store it works on and an empty catalogue.
pub open spec fn initalize_done(pre: Context<Initialize>, post: Context<Initialize>, core_ds: Pubkey) -> bool {
    &&& post.program_id == pre.program_id
    &&& post.accounts.payer == pre.accounts.payer
    &&& post.accounts.registry_config == (Account {
        key: pre.accounts.registry_config.key,
        space: (DISCRIMINATOR_SIZE + RegistryConfig::record_size()) as usize,
        data: Some(RegistryConfig { core_ds, components: 0 }),
    })
}

/// Creates the configuration of the registry, once.
pub fn initalize(ctx: &mut Context<Initialize>, core_ds: Pubkey) -> (outcome: Result<
    (),
    ComponentError,
>)
    ensures
        outcome == initalize_outcome(*old(ctx)),
        outcome is Ok ==> initalize_done(*old(ctx), *final(ctx), core_ds),
        outcome is Err ==> *final(ctx) == *old(ctx),
{
    let config_address = find_registry_config(&ctx.program_id);
    match ctx.accounts.validate(&config_address) {
        Err(error) => Err(error),
        Ok(()) => {
            ctx.accounts.registry_config = Account {
                key: ctx.accounts.registry_config.key,
                space: DISCRIMINATOR_SIZE + RegistryConfig::get_max_size() as usize,
                data: Some(RegistryConfig { core_ds, components: 0 }),
            };
            Ok(())
        },
    }
}

/// Whether `instance_registry` succeeds, and why not.
pub open spec fn instance_registry_outcome(pre: Context<InstanceRegistry>, instance: u64) -> Result<
    (),
    ComponentError,
> {
    forwarded_outcome(
        pre.accounts.check(
            registry_config_address(pre.program_id),
            instance_authority_address(pre.program_id, pre.accounts.registry_instance.key),
        ),
        crate::core_ds::init_registry_outcome(pre.accounts.forwarded(), pre.program_id, instance),
    )
}

/// What `instance_registry` leaves where it succeeds: the instance, made by
/// the data store for this registry, and its authority record, which names
/// the payer.
pub open spec fn instance_registry_done(
    pre: Context<InstanceRegistry>,
    post: Context<InstanceRegistry>,
    instance: u64,
) -> bool {
    &&& post.program_id == pre.program_id
    &&& post.accounts.registry_config == pre.accounts.registry_config
    &&& crate::core_ds::init_registry_done(
        pre.accounts.forwarded(),
        post.accounts.forwarded(),
        pre.program_id,
        instance,
    )
    &&& post.accounts.instance_authority == (Account {
        key: pre.accounts.instance_authority.key,
        space: (DISCRIMINATOR_SIZE + InstanceAuthority::record_size()) as usize,
        data: Some(InstanceAuthority { instance, authority: pre.accounts.payer.key }),
    })
}

/// Has the data store create the instance `instance` of this registry, and
/// makes the payer its authority.
pub fn instance_registry(ctx: &mut Context<InstanceRegistry>, instance: u64) -> (outcome: Result<
    (),
    ComponentError,
>)
    ensures
        outcome == instance_registry_outcome(*old(ctx), instance),
        outcome is Ok ==> instance_registry_done(*old(ctx), *final(ctx), instance),
        outcome is Err ==> *final(ctx) == *old(ctx),
{
    let config_address = find_registry_config(&ctx.program_id);
    let authority_address = find_instance_authority(
        &ctx.program_id,
        &ctx.accounts.registry_instance.key,
    );
    match ctx.accounts.validate(&config_address, &authority_address) {
        Err(error) => Err(error),
        Ok(()) => {
            let core_ds = match &ctx.accounts.registry_config.data {
                Some(config) => config.core_ds,
                None => { return Err(ComponentError::NotFound); },
            };
            let mut forwarded = Context {
                program_id: core_ds,
                accounts: crate::core_ds::context::InitRegistryInstance {
                    payer: ctx.accounts.payer,
                    registry_instance: ctx.accounts.registry_instance.take(),
                    registry_signer: Signer { key: ctx.accounts.registry_config.key, is_signer: true },
                },
            };
            let outcome = crate::core_ds::init_registry(&mut forwarded, ctx.program_id, instance);
            ctx.accounts.registry_instance = forwarded.accounts.registry_instance;
            if outcome.is_ok() {
                ctx.accounts.instance_authority = Account {
                    key: ctx.accounts.instance_authority.key,
                    space: DISCRIMINATOR_SIZE + InstanceAuthority::get_max_size() as usize,
                    data: Some(InstanceAuthority { instance, authority: ctx.accounts.payer.key }),
                };
            }
            outcome
        },
    }
}

/// Whether `register_component` succeeds, and why not.
pub open spec fn register_component_outcome(pre: Context<RegisterComponent>, schema: Seq<char>) -> Result<
    (),
    ComponentError,
> {
    pre.accounts.check(
        vstd::utf8::encode_utf8(schema).len(),
        registry_config_address(pre.program_id),
        component_schema_address(pre.program_id, vstd::utf8::encode_utf8(schema)),
    )
}

/// What `register_component` leaves where it succeeds: the catalogue entry
/// with the locator, and one schema more counted in the configuration.
pub open spec fn register_component_done(
    pre: Context<RegisterComponent>,
    post: Context<RegisterComponent>,
    schema: String,
) -> bool {
    &&& post.program_id == pre.program_id
    &&& post.accounts.payer == pre.accounts.payer
    &&& post.accounts.component == (Account {
        key: pre.accounts.component.key,
        space: (DISCRIMINATOR_SIZE + ComponentSchema::record_size()) as usize,
        data: Some(ComponentSchema { url: schema }),
    })
    &&& pre.accounts.registry_config.data is Some
    &&& post.accounts.registry_config == (Account {
        key: pre.accounts.registry_config.key,
        space: pre.accounts.registry_config.space,
        data: Some(
            RegistryConfig {
                core_ds: pre.accounts.registry_config.data->0.core_ds,
                components: (pre.accounts.registry_config.data->0.components + 1) as u64,
            },
        ),
    })
}

/// Enters the schema with the locator `schema` into the catalogue, at the
/// address derived from the locator.
pub fn register_component(ctx: &mut Context<RegisterComponent>, schema: String) -> (outcome: Result<
    (),
    ComponentError,
>)
    ensures
        outcome == register_component_outcome(*old(ctx), schema@),
        outcome is Ok ==> register_component_done(*old(ctx), *final(ctx), schema),
        outcome is Err ==> *final(ctx) == *old(ctx),
{
    let config_address = find_registry_config(&ctx.program_id);
    let component_address = find_component_schema(&ctx.program_id, schema.as_str());
    let locator_len = schema.as_str().as_bytes().len();
    match ctx.accounts.validate(locator_len, &config_address, &component_address) {
        Err(error) => Err(error),
        Ok(()) => {
            let slot = ctx.accounts.registry_config.take();
            let mut config = slot.data.unwrap();
            config.components = config.components + 1;
            ctx.accounts.registry_config = Account {
                key: slot.key,
                space: slot.space,
                data: Some(config),
            };
            ctx.accounts.component = Account {
                key: ctx.accounts.component.key,
                space: DISCRIMINATOR_SIZE + ComponentSchema::get_max_size() as usize,
                data: Some(ComponentSchema { url: schema }),
            };
            Ok(())
        },
    }
}

/// Whether `register_action_bundle` succeeds, and why not.
pub open spec fn register_action_bundle_outcome(pre: Context<RegisterSystem>) -> Result<
    (),
    ComponentError,
> {
    pre.accounts.check(
        pre.program_id,
        action_bundle_registration_address(
            pre.program_id,
            pre.accounts.registry_instance.key,
            pre.accounts.action_bundle,
        ),
    )
}

/// What `register_action_bundle` leaves where it succeeds: the registration
/// of the bundle, with the instance it was registered for and no other, no
/// component type, and the right to link entities to mints.
pub open spec fn register_action_bundle_done(
    pre: Context<RegisterSystem>,
    post: Context<RegisterSystem>,
) -> bool {
    &&& post.program_id == pre.program_id
    &&& post.accounts.payer == pre.accounts.payer
    &&& post.accounts.registry_instance == pre.accounts.registry_instance
    &&& post.accounts.instance_authority == pre.accounts.instance_authority
    &&& post.accounts.action_bundle == pre.accounts.action_bundle
    &&& pre.accounts.registry_instance.data is Some
    &&& post.accounts.action_bundle_registration.key == pre.accounts.action_bundle_registration.key
    &&& post.accounts.action_bundle_registration.space == DISCRIMINATOR_SIZE
        + ActionBundleRegistration::record_size()
    &&& post.accounts.action_bundle_registration.data is Some
    &&& post.accounts.action_bundle_registration.data->0.action_bundle == pre.accounts.action_bundle
    &&& post.accounts.action_bundle_registration.data->0.instances@ == set![
        pre.accounts.registry_instance.data->0.instance,
    ]
    &&& post.accounts.action_bundle_registration.data->0.can_mint
    &&& post.accounts.action_bundle_registration.data->0.components@ == Set::<Pubkey>::empty()
}

/// Registers the action bundle for the registry instance. Only the authority
/// of the instance does so: the payer has signed and is the identity that
/// the authority record of the instance names.
pub fn register_action_bundle(ctx: &mut Context<RegisterSystem>) -> (outcome: Result<
    (),
    ComponentError,
>)
    ensures
        outcome == register_action_bundle_outcome(*old(ctx)),
        outcome is Ok ==> register_action_bundle_done(*old(ctx), *final(ctx)),
        outcome is Err ==> *final(ctx) == *old(ctx),
{
    let registration_address = find_action_bundle_registration(
        &ctx.program_id,
        &ctx.accounts.registry_instance.key,
        &ctx.accounts.action_bundle,
    );
    match ctx.accounts.validate(&ctx.program_id, &registration_address) {
        Err(error) => Err(error),
        Ok(()) => {
            let instance = match &ctx.accounts.registry_instance.data {
                Some(instance) => instance.instance,
                None => { return Err(ComponentError::NotFound); },
            };
            let mut instances: BTreeSet<u64> = BTreeSet::new();
            instances.insert(instance);
            assert(instances@ =~= set![instance]);
            ctx.accounts.action_bundle_registration = Account {
                key: ctx.accounts.action_bundle_registration.key,
                space: DISCRIMINATOR_SIZE + ActionBundleRegistration::get_max_size() as usize,
                data: Some(
                    ActionBundleRegistration {
                        action_bundle: ctx.accounts.action_bundle,
                        instances,
                        can_mint: true,
                        components: BTreeSet::new(),
                    },
                ),
            };
            Ok(())
        },
    }
}

/// A registration after a grant: the same bundle and right to mint at the
/// same address, with `instances` and `components` in `space` bytes.
pub open spec fn registration_grown(
    pre: Account<ActionBundleRegistration>,
    post: Account<ActionBundleRegistration>,
    instances: Set<u64>,
    components: Set<Pubkey>,
    space: usize,
) -> bool {
    &&& pre.data is Some
    &&& post.data is Some
    &&& post.key == pre.key
    &&& post.space == space
    &&& post.data->0.action_bundle == pre.data->0.action_bundle
    &&& post.data->0.can_mint == pre.data->0.can_mint
    &&& post.data->0.instances@ == instances
    &&& post.data->0.components@ == components
}

/// Whether `add_components_to_action_bundle_registration` succeeds, and why
/// not; on success, the size of the storage of the registration afterwards.
pub open spec fn grant_components_outcome(
    pre: Context<AddComponentsToActionBundleRegistration>,
    components: Seq<Pubkey>,
) -> Result<usize, ComponentError> {
    grant_check(
        pre.program_id,
        pre.accounts.payer,
        pre.accounts.registry_instance,
        pre.accounts.instance_authority,
        pre.accounts.action_bundle_registration,
        components.len(),
        COMPONENT_GRANT_SIZE as nat,
        action_bundle_registration_address(
            pre.program_id,
            pre.accounts.registry_instance.key,
            pre.accounts.action_bundle,
        ),
    )
}

/// What `add_components_to_action_bundle_registration` leaves where it
/// succeeds: the component types that were granted before, and the new ones.
pub open spec fn grant_components_done(
    pre: Context<AddComponentsToActionBundleRegistration>,
    post: Context<AddComponentsToActionBundleRegistration>,
    components: Seq<Pubkey>,
    space: usize,
) -> bool {
    &&& post.program_id == pre.program_id
    &&& post.accounts.payer == pre.accounts.payer
    &&& post.accounts.registry_instance == pre.accounts.registry_instance
    &&& post.accounts.instance_authority == pre.accounts.instance_authority
    &&& post.accounts.action_bundle == pre.accounts.action_bundle
    &&& registration_grown(
        pre.accounts.action_bundle_registration,
        post.accounts.action_bundle_registration,
        pre.accounts.action_bundle_registration.data->0.instances@,
        pre.accounts.action_bundle_registration.data->0.components@.union(components.to_set()),
        space,
    )
}

/// Grants the component types `components` to the action bundle, beside
/// those it holds, and grows the storage of the registration for them.
pub fn add_components_to_action_bundle_registration(
    ctx: &mut Context<AddComponentsToActionBundleRegistration>,
    components: Vec<Pubkey>,
) -> (outcome: Result<(), ComponentError>)
    ensures
        outcome == crate::core_ds::settled(grant_components_outcome(*old(ctx), components@)),
        outcome is Ok ==> grant_components_done(
            *old(ctx),
            *final(ctx),
            components@,
            grant_components_outcome(*old(ctx), components@)->Ok_0,
        ),
        outcome is Err ==> *final(ctx) == *old(ctx),
{
    let registration_address = find_action_bundle_registration(
        &ctx.program_id,
        &ctx.accounts.registry_instance.key,
        &ctx.accounts.action_bundle,
    );
    match validate_grant(
        &ctx.program_id,
        &ctx.accounts.payer,
        &ctx.accounts.registry_instance,
        &ctx.accounts.instance_authority,
        &ctx.accounts.action_bundle_registration,
        components.len(),
        COMPONENT_GRANT_SIZE,
        &registration_address,
    ) {
        Err(error) => Err(error),
        Ok(space) => {
            let slot = ctx.accounts.action_bundle_registration.take();
            let mut registration = slot.data.unwrap();
            let ghost before = registration;
            let mut i: usize = 0;
            while i < components.len()
                invariant
                    i <= components.len(),
                    registration.action_bundle == before.action_bundle,
                    registration.can_mint == before.can_mint,
                    registration.instances == before.instances,
                    registration.components@ == before.components@.union(
                        components@.take(i as int).to_set(),
                    ),
                decreases components.len() - i,
            {
                registration.components.insert(components[i]);
                proof {
                    lemma_take_to_set(components@, i as int);
                    assert(registration.components@ =~= before.components@.union(
                        components@.take(i + 1).to_set(),
                    ));
                }
                i += 1;
            }
            assert(components@.take(components@.len() as int) =~= components@);
            ctx.accounts.action_bundle_registration = Account {
                key: slot.key,
                space,
                data: Some(registration),
            };
            Ok(())
        },
    }
}

/// Whether `add_instances_to_action_bundle_registration` succeeds, and why
/// not; on success, the size of the storage of the registration afterwards.
pub open spec fn grant_instances_outcome(
    pre: Context<AddInstancesToActionBundleRegistration>,
    instances: Seq<u64>,
) -> Result<usize, ComponentError> {
    grant_check(
        pre.program_id,
        pre.accounts.payer,
        pre.accounts.registry_instance,
        pre.accounts.instance_authority,
        pre.accounts.action_bundle_registration,
        instances.len(),
        INSTANCE_GRANT_SIZE as nat,
        action_bundle_registration_address(
            pre.program_id,
            pre.accounts.registry_instance.key,
            pre.accounts.action_bundle,
        ),
    )
}

/// What `add_instances_to_action_bundle_registration` leaves where it
/// succeeds: the instances that were granted before, and the new ones.
pub open spec fn grant_instances_done(
    pre: Context<AddInstancesToActionBundleRegistration>,
    post: Context<AddInstancesToActionBundleRegistration>,
    instances: Seq<u64>,
    space: usize,
) -> bool {
    &&& post.program_id == pre.program_id
    &&& post.accounts.payer == pre.accounts.payer
    &&& post.accounts.registry_instance == pre.accounts.registry_instance
    &&& post.accounts.instance_authority == pre.accounts.instance_authority
    &&& post.accounts.action_bundle == pre.accounts.action_bundle
    &&& registration_grown(
        pre.accounts.action_bundle_registration,
        post.accounts.action_bundle_registration,
        pre.accounts.action_bundle_registration.data->0.instances@.union(instances.to_set()),
        pre.accounts.action_bundle_registration.data->0.components@,
        space,
    )
}

/// Grants the instances `instances` to the action bundle, beside those it
/// holds, and grows the storage of the registration for them.
pub fn add_instances_to_action_bundle_registration(
    ctx: &mut Context<AddInstancesToActionBundleRegistration>,
    instances: Vec<u64>,
) -> (outcome: Result<(), ComponentError>)
    ensures
        outcome == crate::core_ds::settled(grant_instances_outcome(*old(ctx), instances@)),
        outcome is Ok ==> grant_instances_done(
            *old(ctx),
            *final(ctx),
            instances@,
            grant_instances_outcome(*old(ctx), instances@)->Ok_0,
        ),
        outcome is Err ==> *final(ctx) == *old(ctx),
{
    let registration_address = find_action_bundle_registration(
        &ctx.program_id,
        &ctx.accounts.registry_instance.key,
        &ctx.accounts.action_bundle,
    );
    match validate_grant(
        &ctx.program_id,
        &ctx.accounts.payer,
        &ctx.accounts.registry_instance,
        &ctx.accounts.instance_authority,
        &ctx.accounts.action_bundle_registration,
        instances.len(),
        INSTANCE_GRANT_SIZE,
        &registration_address,
    ) {
        Err(error) => Err(error),
        Ok(space) => {
            let slot = ctx.accounts.action_bundle_registration.take();
            let mut registration = slot.data.unwrap();
            let ghost before = registration;
            let mut i: usize = 0;
            while i < instances.len()
                invariant
                    i <= instances.len(),
                    registration.action_bundle == before.action_bundle,
                    registration.can_mint == before.can_mint,
                    registration.components == before.components,
                    registration.instances@ == before.instances@.union(
                        instances@.take(i as int).to_set(),
                    ),
                decreases instances.len() - i,
            {
                registration.instances.insert(instances[i]);
                proof {
                    lemma_take_to_set(instances@, i as int);
                    assert(registration.instances@ =~= before.instances@.union(
                        instances@.take(i + 1).to_set(),
                    ));
                }
                i += 1;
            }
            assert(instances@.take(instances@.len() as int) =~= instances@);
            ctx.accounts.action_bundle_registration = Account {
                key: slot.key,
                space,
                data: Some(registration),
            };
            Ok(())
        },
    }
}

/// Whether `init_entity` succeeds, and why not; on success, the size of the
/// storage of the entity.
pub open spec fn init_entity_outcome(
    pre: Context<InitEntity>,
    entity_id: u64,
    components: Map<Pubkey, SerializedComponent>,
) -> Result<usize, ComponentError> {
    forwarded_outcome(
        pre.accounts.check(
            pre.program_id,
            components.dom(),
            registry_config_address(pre.program_id),
        ),
        crate::core_ds::init_entity_outcome(pre.accounts.forwarded(), entity_id, components),
    )
}

/// What `init_entity` leaves where it succeeds: what the data store leaves.
pub open spec fn init_entity_done(
    pre: Context<InitEntity>,
    post: Context<InitEntity>,
    entity_id: u64,
    components: Map<Pubkey, SerializedComponent>,
    space: usize,
) -> bool {
    &&& post.program_id == pre.program_id
    &&& post.accounts.registry_config == pre.accounts.registry_config
    &&& post.accounts.action_bundle == pre.accounts.action_bundle
    &&& post.accounts.action_bundle_registration == pre.accounts.action_bundle_registration
    &&& crate::core_ds::init_entity_done(
        pre.accounts.forwarded(),
        post.accounts.forwarded(),
        entity_id,
        components,
        space,
    )
}

/// Has the data store create the entity `entity_id` with `components` for
/// the action bundle, where the bundle is granted the instance and every
/// component type.
pub fn init_entity(
    ctx: &mut Context<InitEntity>,
    entity_id: u64,
    components: BTreeMap<Pubkey, SerializedComponent>,
) -> (outcome: Result<(), ComponentError>)
    ensures
        outcome == crate::core_ds::settled(init_entity_outcome(*old(ctx), entity_id, components@)),
        outcome is Ok ==> init_entity_done(
            *old(ctx),
            *final(ctx),
            entity_id,
            components@,
            init_entity_outcome(*old(ctx), entity_id, components@)->Ok_0,
        ),
        outcome is Err ==> *final(ctx) == *old(ctx),
{
    let config_address = find_registry_config(&ctx.program_id);
    let requested = component_keys(&components);
    match ctx.accounts.validate(&ctx.program_id, &requested, &config_address) {
        Err(error) => Err(error),
        Ok(()) => {
            let core_ds = match &ctx.accounts.registry_config.data {
                Some(config) => config.core_ds,
                None => { return Err(ComponentError::NotFound); },
            };
            let mut forwarded = Context {
                program_id: core_ds,
                accounts: crate::core_ds::context::InitEntity {
                    payer: ctx.accounts.payer,
                    registry_instance: ctx.accounts.registry_instance.take(),
                    entity: ctx.accounts.entity.take(),
                    registry_signer: Signer { key: ctx.accounts.registry_config.key, is_signer: true },
                },
            };
            let outcome = crate::core_ds::init_entity(&mut forwarded, entity_id, components);
            ctx.accounts.registry_instance = forwarded.accounts.registry_instance;
            ctx.accounts.entity = forwarded.accounts.entity;
            outcome
        },
    }
}

/// Whether `mint_arcnft` succeeds, and why not.
pub open spec fn mint_arcnft_outcome(pre: Context<MintARCNFT>) -> Result<(), ComponentError> {
    forwarded_outcome(
        pre.accounts.check(pre.program_id, registry_config_address(pre.program_id)),
        crate::core_ds::mint_arcnft_outcome(pre.accounts.forwarded()),
    )
}

/// What `mint_arcnft` leaves where it succeeds: what the data store leaves.
pub open spec fn mint_arcnft_done(pre: Context<MintARCNFT>, post: Context<MintARCNFT>) -> bool {
    &&& post.program_id == pre.program_id
    &&& post.accounts.registry_config == pre.accounts.registry_config
    &&& post.accounts.action_bundle == pre.accounts.action_bundle
    &&& post.accounts.action_bundle_registration == pre.accounts.action_bundle_registration
    &&& crate::core_ds::mint_arcnft_done(pre.accounts.forwarded(), post.accounts.forwarded())
}

/// Has the data store link the entity to the token mint for the action
/// bundle, where the bundle is granted the instance and may mint.
pub fn mint_arcnft(ctx: &mut Context<MintARCNFT>) -> (outcome: Result<(), ComponentError>)
    ensures
        outcome == mint_arcnft_outcome(*old(ctx)),
        outcome is Ok ==> mint_arcnft_done(*old(ctx), *final(ctx)),
        outcome is Err ==> *final(ctx) == *old(ctx),
{
    let config_address = find_registry_config(&ctx.program_id);
    match ctx.accounts.validate(&ctx.program_id, &config_address) {
        Err(error) => Err(error),
        Ok(()) => {
            let core_ds = match &ctx.accounts.registry_config.data {
                Some(config) => config.core_ds,
                None => { return Err(ComponentError::NotFound); },
            };
            let mut forwarded = Context {
                program_id: core_ds,
                accounts: crate::core_ds::context::MintARCNFT {
                    payer: ctx.accounts.payer,
                    registry_instance: ctx.accounts.registry_instance.take(),
                    entity: ctx.accounts.entity.take(),
                    mint: ctx.accounts.mint,
                    arcnft: ctx.accounts.arcnft.take(),
                    registry_signer: Signer { key: ctx.accounts.registry_config.key, is_signer: true },
                },
            };
            let outcome = crate::core_ds::mint_arcnft(&mut forwarded);
            ctx.accounts.registry_instance = forwarded.accounts.registry_instance;
            ctx.accounts.entity = forwarded.accounts.entity;
            ctx.accounts.arcnft = forwarded.accounts.arcnft;
            outcome
        },
    }
}

/// The component types that the pairs name, in their order.
pub open spec fn component_types(components: Seq<(Pubkey, SerializedComponent)>) -> Seq<Pubkey> {
    components.map_values(|pair: (Pubkey, SerializedComponent)| pair.0)
}

/// The component types that the updates name, in their order.
pub open spec fn updated_types(updates: Seq<(Pubkey, Vec<u8>)>) -> Seq<Pubkey> {
    updates.map_values(|update: (Pubkey, Vec<u8>)| update.0)
}

/// Whether `req_add_component` succeeds, and why not; on success, the size
/// of the storage of the entity afterwards.
pub open spec fn req_add_component_outcome(
    pre: Context<AddComponents>,
    components: Seq<(Pubkey, SerializedComponent)>,
) -> Result<usize, ComponentError> {
    forwarded_outcome(
        pre.accounts.check(
            pre.program_id,
            component_types(components).to_set(),
            registry_config_address(pre.program_id),
        ),
        crate::core_ds::add_components_outcome(pre.accounts.forwarded(), components),
    )
}

/// What `req_add_component` leaves where it succeeds: what the data store
/// leaves.
pub open spec fn req_add_component_done(
    pre: Context<AddComponents>,
    post: Context<AddComponents>,
    components: Seq<(Pubkey, SerializedComponent)>,
    space: usize,
) -> bool {
    &&& post.program_id == pre.program_id
    &&& post.accounts.registry_config == pre.accounts.registry_config
    &&& post.accounts.action_bundle == pre.accounts.action_bundle
    &&& post.accounts.action_bundle_registration == pre.accounts.action_bundle_registration
    &&& crate::core_ds::add_components_done(
        pre.accounts.forwarded(),
        post.accounts.forwarded(),
        components,
        space,
    )
}

/// Forwards the insertion of `components` into the entity, where the action
/// bundle is granted the instance of the entity and every component type.
pub fn req_add_component(ctx: &mut Context<AddComponents>, components: Vec<(Pubkey, SerializedComponent)>) -> (outcome:
    Result<(), ComponentError>)
    ensures
        outcome == crate::core_ds::settled(req_add_component_outcome(*old(ctx), components@)),
        outcome is Ok ==> req_add_component_done(
            *old(ctx),
            *final(ctx),
            components@,
            req_add_component_outcome(*old(ctx), components@)->Ok_0,
        ),
        outcome is Err ==> *final(ctx) == *old(ctx),
{
    let config_address = find_registry_config(&ctx.program_id);
    let mut requested: Vec<Pubkey> = Vec::new();
    let mut i: usize = 0;
    while i < components.len()
        invariant
            i <= components.len(),
            requested@ == component_types(components@).take(i as int),
        decreases components.len() - i,
    {
        requested.push(components[i].0);
        assert(component_types(components@).take(i + 1) =~= component_types(components@).take(
            i as int,
        ).push(components@[i as int].0));
        i += 1;
    }
    assert(component_types(components@).take(components@.len() as int) =~= component_types(
        components@,
    ));
    match validate_entity_request(
        &ctx.program_id,
        &ctx.accounts.registry_config,
        &ctx.accounts.entity,
        &ctx.accounts.action_bundle,
        &ctx.accounts.action_bundle_registration,
        &requested,
        &config_address,
    ) {
        Err(error) => Err(error),
        Ok(()) => {
            let core_ds = match &ctx.accounts.registry_config.data {
                Some(config) => config.core_ds,
                None => { return Err(ComponentError::NotFound); },
            };
            let mut forwarded = Context {
                program_id: core_ds,
                accounts: crate::core_ds::context::AddComponent {
                    payer: ctx.accounts.payer,
                    entity: ctx.accounts.entity.take(),
                    registry_signer: Signer { key: ctx.accounts.registry_config.key, is_signer: true },
                },
            };
            let outcome = crate::core_ds::add_components(&mut forwarded, components);
            ctx.accounts.entity = forwarded.accounts.entity;
            outcome
        },
    }
}

/// Whether `req_remove_component` succeeds, and why not; on success, the
/// size of the storage of the entity afterwards.
pub open spec fn req_remove_component_outcome(
    pre: Context<RemoveComponent>,
    components: Seq<Pubkey>,
) -> Result<usize, ComponentError> {
    forwarded_outcome(
        pre.accounts.check(
            pre.program_id,
            components.to_set(),
            registry_config_address(pre.program_id),
        ),
        crate::core_ds::remove_component_outcome(pre.accounts.forwarded(), components),
    )
}

/// What `req_remove_component` leaves where it succeeds: what the data store
/// leaves.
pub open spec fn req_remove_component_done(
    pre: Context<RemoveComponent>,
    post: Context<RemoveComponent>,
    components: Seq<Pubkey>,
    space: usize,
) -> bool {
    &&& post.program_id == pre.program_id
    &&& post.accounts.registry_config == pre.accounts.registry_config
    &&& post.accounts.action_bundle == pre.accounts.action_bundle
    &&& post.accounts.action_bundle_registration == pre.accounts.action_bundle_registration
    &&& crate::core_ds::remove_component_done(
        pre.accounts.forwarded(),
        post.accounts.forwarded(),
        components,
        space,
    )
}

/// Forwards the removal of the components under the keys of `components`
/// from the entity, where the action bundle is granted the instance of the
/// entity and every component type.
pub fn req_remove_component(ctx: &mut Context<RemoveComponent>, components: Vec<Pubkey>) -> (outcome:
    Result<(), ComponentError>)
    ensures
        outcome == crate::core_ds::settled(req_remove_component_outcome(*old(ctx), components@)),
        outcome is Ok ==> req_remove_component_done(
            *old(ctx),
            *final(ctx),
            components@,
            req_remove_component_outcome(*old(ctx), components@)->Ok_0,
        ),
        outcome is Err ==> *final(ctx) == *old(ctx),
{
    let config_address = find_registry_config(&ctx.program_id);
    match validate_entity_request(
        &ctx.program_id,
        &ctx.accounts.registry_config,
        &ctx.accounts.entity,
        &ctx.accounts.action_bundle,
        &ctx.accounts.action_bundle_registration,
        &components,
        &config_address,
    ) {
        Err(error) => Err(error),
        Ok(()) => {
            let core_ds = match &ctx.accounts.registry_config.data {
                Some(config) => config.core_ds,
                None => { return Err(ComponentError::NotFound); },
            };
            let mut forwarded = Context {
                program_id: core_ds,
                accounts: crate::core_ds::context::RemoveComponent {
                    benefactor: ctx.accounts.benefactor,
                    entity: ctx.accounts.entity.take(),
                    registry_signer: Signer { key: ctx.accounts.registry_config.key, is_signer: true },
                },
            };
            let outcome = crate::core_ds::remove_component(&mut forwarded, components);
            ctx.accounts.entity = forwarded.accounts.entity;
            outcome
        },
    }
}

/// Whether `req_modify_component` succeeds, and why not.
pub open spec fn req_modify_component_outcome(
    pre: Context<ModifyComponent>,
    components: Seq<(Pubkey, Vec<u8>)>,
) -> Result<(), ComponentError> {
    forwarded_outcome(
        pre.accounts.check(
            pre.program_id,
            updated_types(components).to_set(),
            registry_config_address(pre.program_id),
        ),
        crate::core_ds::modify_components_outcome(pre.accounts.forwarded(), components),
    )
}

/// What `req_modify_component` leaves where it succeeds: what the data store
/// leaves.
pub open spec fn req_modify_component_done(
    pre: Context<ModifyComponent>,
    post: Context<ModifyComponent>,
    components: Seq<(Pubkey, Vec<u8>)>,
) -> bool {
    &&& post.program_id == pre.program_id
    &&& post.accounts.registry_config == pre.accounts.registry_config
    &&& post.accounts.action_bundle == pre.accounts.action_bundle
    &&& post.accounts.action_bundle_registration == pre.accounts.action_bundle_registration
    &&& crate::core_ds::modify_components_done(
        pre.accounts.forwarded(),
        post.accounts.forwarded(),
        components,
    )
}

/// Forwards new payloads for the components that `components` names, where
/// the action bundle is granted the instance of the entity and every
/// component type.
pub fn req_modify_component(ctx: &mut Context<ModifyComponent>, components: Vec<(Pubkey, Vec<u8>)>) -> (outcome:
    Result<(), ComponentError>)
    ensures
        outcome == req_modify_component_outcome(*old(ctx), components@),
        outcome is Ok ==> req_modify_component_done(*old(ctx), *final(ctx), components@),
        outcome is Err ==> *final(ctx) == *old(ctx),
{
    let config_address = find_registry_config(&ctx.program_id);
    let mut requested: Vec<Pubkey> = Vec::new();
    let mut i: usize = 0;
    while i < components.len()
        invariant
            i <= components.len(),
            requested@ == updated_types(components@).take(i as int),
        decreases components.len() - i,
    {
        requested.push(components[i].0);
        assert(updated_types(components@).take(i + 1) =~= updated_types(components@).take(
            i as int,
        ).push(components@[i as int].0));
        i += 1;
    }
    assert(updated_types(components@).take(components@.len() as int) =~= updated_types(
        components@,
    ));
    match validate_entity_request(
        &ctx.program_id,
        &ctx.accounts.registry_config,
        &ctx.accounts.entity,
        &ctx.accounts.action_bundle,
        &ctx.accounts.action_bundle_registration,
        &requested,
        &config_address,
    ) {
        Err(error) => Err(error),
        Ok(()) => {
            let core_ds = match &ctx.accounts.registry_config.data {
                Some(config) => config.core_ds,
                None => { return Err(ComponentError::NotFound); },
            };
            let mut forwarded = Context {
                program_id: core_ds,
                accounts: crate::core_ds::context::ModifyComponent {
                    entity: ctx.accounts.entity.take(),
                    registry_signer: Signer { key: ctx.accounts.registry_config.key, is_signer: true },
                },
            };
            let outcome = crate::core_ds::modify_components(&mut forwarded, components);
            ctx.accounts.entity = forwarded.accounts.entity;
            outcome
        },
    }
}

/// Whether `req_remove_entity` succeeds, and why not.
pub open spec fn req_remove_entity_outcome(pre: Context<RemoveEntity>) -> Result<(), ComponentError> {
    forwarded_outcome(
        pre.accounts.check(pre.program_id, registry_config_address(pre.program_id)),
        crate::core_ds::remove_entity_outcome(pre.accounts.forwarded()),
    )
}

/// What `req_remove_entity` leaves where it succeeds: what the data store
/// leaves.
pub open spec fn req_remove_entity_done(pre: Context<RemoveEntity>, post: Context<RemoveEntity>) -> bool {
    &&& post.program_id == pre.program_id
    &&& post.accounts.registry_config == pre.accounts.registry_config
    &&& post.accounts.action_bundle == pre.accounts.action_bundle
    &&& post.accounts.action_bundle_registration == pre.accounts.action_bundle_registration
    &&& crate::core_ds::remove_entity_done(pre.accounts.forwarded(), post.accounts.forwarded())
}

/// Forwards the destruction of the entity, where the action bundle is
/// granted the instance of the entity and the entity holds no component.
pub fn req_remove_entity(ctx: &mut Context<RemoveEntity>) -> (outcome: Result<(), ComponentError>)
    ensures
        outcome == req_remove_entity_outcome(*old(ctx)),
        outcome is Ok ==> req_remove_entity_done(*old(ctx), *final(ctx)),
        outcome is Err ==> *final(ctx) == *old(ctx),
{
    let config_address = find_registry_config(&ctx.program_id);
    match ctx.accounts.validate(&ctx.program_id, &config_address) {
        Err(error) => Err(error),
        Ok(()) => {
            let core_ds = match &ctx.accounts.registry_config.data {
                Some(config) => config.core_ds,
                None => { return Err(ComponentError::NotFound); },
            };
            let mut forwarded = Context {
                program_id: core_ds,
                accounts: crate::core_ds::context::RemoveEntity {
                    benefactor: ctx.accounts.benefactor,
                    entity: ctx.accounts.entity.take(),
                    registry_signer: Signer { key: ctx.accounts.registry_config.key, is_signer: true },
                },
            };
            let outcome = crate::core_ds::remove_entity(&mut forwarded);
            ctx.accounts.entity = forwarded.accounts.entity;
            outcome
        },
    }
}

} // verus!
