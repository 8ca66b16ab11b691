//! An action bundle that mints an entity with a metadata component and links
//! it to a token mint, through the registry and within what the registry has
//! granted it.
use vstd::prelude::*;
use std::collections::BTreeMap;
use crate::error::ComponentError;
use crate::runtime::{
    keccak256, schema_hash, seed_from_tag, Account, Context, Digest, Pubkey, Signer,
    DISCRIMINATOR_SIZE,
};
use crate::core_ds::account::{MaxSize, RegistryInstance, ARCNFT};
use crate::core_ds::context::arcnft_address;
use crate::core_ds::state::SerializedComponent;
use crate::tsab::account::TSABConfig;
use crate::tsab::component::ComponentMetadata;
use crate::tsab::constant::METADATA_SCHEMA_NAME;
use crate::tsab::context::{find_tsab_config, tsab_config_address, Initialize, MintMetdata};

pub mod account;
pub mod component;
pub mod constant;
pub mod context;

verus! {

broadcast use vstd::laws_cmp::group_laws_cmp;

/// Whether `initalize` succeeds, and why not.
pub open spec fn initalize_outcome(pre: Context<Initialize>) -> Result<(), ComponentError> {
    pre.accounts.check(tsab_config_address(pre.program_id))
}

/// What `initalize` leaves where it succeeds: the configuration, set up by
/// the payer, with the component types it was given.
pub open spec fn initalize_done(
    pre: Context<Initialize>,
    post: Context<Initialize>,
    components: Map<Digest, Pubkey>,
) -> bool {
    &&& post.program_id == pre.program_id
    &&& post.accounts.payer == pre.accounts.payer
    &&& post.accounts.tsab_config.key == pre.accounts.tsab_config.key
    &&& post.accounts.tsab_config.space == DISCRIMINATOR_SIZE + TSABConfig::record_size()
    &&& post.accounts.tsab_config.data is Some
    &&& post.accounts.tsab_config.data->0.authority == pre.accounts.payer.key
    &&& post.accounts.tsab_config.data->0.components@ == components
}

/// Creates the configuration of the action bundle, once. `components` files
/// each component type under the digest of the name of its schema.
pub fn initalize(ctx: &mut Context<Initialize>, components: BTreeMap<Digest, Pubkey>) -> (outcome:
    Result<(), ComponentError>)
    ensures
        outcome == initalize_outcome(*old(ctx)),
        outcome is Ok ==> initalize_done(*old(ctx), *final(ctx), components@),
        outcome is Err ==> *final(ctx) == *old(ctx),
{
    let config_address = find_tsab_config(&ctx.program_id);
    match ctx.accounts.validate(&config_address) {
        Err(error) => Err(error),
        Ok(()) => {
            ctx.accounts.tsab_config = Account {
                key: ctx.accounts.tsab_config.key,
                space: DISCRIMINATOR_SIZE + TSABConfig::get_max_size() as usize,
                data: Some(TSABConfig { authority: ctx.accounts.payer.key, components }),
            };
            Ok(())
        },
    }
}

/// The components of an entity that is minted with `metadata`: the one
/// metadata component, of the type `component`, with the size that is
/// declared for every metadata component.
pub open spec fn metadata_components(component: Pubkey, metadata: Vec<u8>) -> Map<
    Pubkey,
    SerializedComponent,
> {
    map![component => SerializedComponent { max_size: ComponentMetadata::record_size(), data: metadata }]
}

/// Whether the registry links the entity to the mint once it has created the
/// entity, and why not.
pub open spec fn link_outcome(accounts: MintMetdata) -> Result<(), ComponentError> {
    if !accounts.tsab_registration.data->0.can_mint {
        Err(ComponentError::Unauthorized)
    } else if arcnft_address(
        accounts.registry_config.data->0.core_ds,
        accounts.mint,
        accounts.entity.key,
    ) != Some(accounts.arcnft.key) {
        Err(ComponentError::NotFound)
    } else if accounts.arcnft.data is Some {
        Err(ComponentError::AlreadyLinked)
    } else {
        Ok(())
    }
}

/// Whether `mint_metadata` succeeds where `schema` files the metadata
/// schema, and why not; on success, the size of the storage of the entity.
pub open spec fn mint_metadata_outcome(
    pre: Context<MintMetdata>,
    entity_id: u64,
    metadata: Vec<u8>,
    schema: Digest,
) -> Result<usize, ComponentError> {
    match pre.accounts.check(tsab_config_address(pre.program_id), schema) {
        Err(error) => Err(error),
        Ok(component) => match crate::registry::init_entity_outcome(
            pre.accounts.forwarded_init(),
            entity_id,
            metadata_components(component, metadata),
        ) {
            Err(error) => Err(error),
            Ok(space) => match link_outcome(pre.accounts) {
                Err(error) => Err(error),
                Ok(()) => Ok(space),
            },
        },
    }
}

/// What `mint_metadata` leaves where it succeeds: the entity with its one
/// metadata component, as the registry has it created, and its link to the
/// mint.
pub open spec fn mint_metadata_done(
    pre: Context<MintMetdata>,
    post: Context<MintMetdata>,
    entity_id: u64,
    metadata: Vec<u8>,
    schema: Digest,
    space: usize,
) -> bool {
    &&& post.program_id == pre.program_id
    &&& post.accounts.payer == pre.accounts.payer
    &&& post.accounts.mint == pre.accounts.mint
    &&& post.accounts.tsab_config == pre.accounts.tsab_config
    &&& post.accounts.registry_program == pre.accounts.registry_program
    &&& pre.accounts.tsab_config.data is Some
    &&& pre.accounts.tsab_config.data->0.components@.contains_key(schema)
    &&& crate::registry::init_entity_done(
        pre.accounts.forwarded_init(),
        post.accounts.forwarded_init(),
        entity_id,
        metadata_components(pre.accounts.tsab_config.data->0.components@[schema], metadata),
        space,
    )
    &&& post.accounts.arcnft == (Account {
        key: pre.accounts.arcnft.key,
        space: (DISCRIMINATOR_SIZE + ARCNFT::record_size()) as usize,
        data: Some(ARCNFT { entity: pre.accounts.entity.key, mint: pre.accounts.mint }),
    })
}

/// Mints the entity `entity_id` with the serialized `metadata` as its one
/// component and links it to the mint, where `schema` is the digest that
/// files the metadata schema in the configuration. Both steps take effect,
/// or neither.
pub fn mint_metadata_under(
    ctx: &mut Context<MintMetdata>,
    entity_id: u64,
    metadata: Vec<u8>,
    schema: Digest,
) -> (outcome: Result<(), ComponentError>)
    ensures
        outcome == crate::core_ds::settled(
            mint_metadata_outcome(*old(ctx), entity_id, metadata, schema),
        ),
        outcome is Ok ==> mint_metadata_done(
            *old(ctx),
            *final(ctx),
            entity_id,
            metadata,
            schema,
            mint_metadata_outcome(*old(ctx), entity_id, metadata, schema)->Ok_0,
        ),
        outcome is Err ==> *final(ctx) == *old(ctx),
{
    let config_address = find_tsab_config(&ctx.program_id);
    let component = match ctx.accounts.validate(&config_address, &schema) {
        Err(error) => { return Err(error); },
        Ok(component) => component,
    };
    let mut components: BTreeMap<Pubkey, SerializedComponent> = BTreeMap::new();
    components.insert(
        component,
        SerializedComponent { max_size: ComponentMetadata::get_max_size(), data: metadata },
    );
    assert(components@ =~= metadata_components(component, metadata));
    let bundle = Signer { key: ctx.accounts.tsab_config.key, is_signer: true };
    let entity_space = ctx.accounts.entity.space;
    let counted = match &ctx.accounts.registry_instance.data {
        Some(instance) => Some((instance.registry, instance.instance, instance.entities)),
        None => None,
    };
    let mut creation = Context {
        program_id: ctx.accounts.registry_program,
        accounts: crate::registry::context::InitEntity {
            payer: ctx.accounts.payer,
            registry_config: ctx.accounts.registry_config.take(),
            entity: ctx.accounts.entity.take(),
            registry_instance: ctx.accounts.registry_instance.take(),
            action_bundle: bundle,
            action_bundle_registration: ctx.accounts.tsab_registration.take(),
        },
    };
    let created = crate::registry::init_entity(&mut creation, entity_id, components);
    if created.is_err() {
        ctx.accounts.registry_config = creation.accounts.registry_config;
        ctx.accounts.entity = creation.accounts.entity;
        ctx.accounts.registry_instance = creation.accounts.registry_instance;
        ctx.accounts.tsab_registration = creation.accounts.action_bundle_registration;
        return created;
    }
    let mut link = Context {
        program_id: ctx.accounts.registry_program,
        accounts: crate::registry::context::MintARCNFT {
            payer: ctx.accounts.payer,
            registry_config: creation.accounts.registry_config,
            entity: creation.accounts.entity,
            mint: ctx.accounts.mint,
            arcnft: ctx.accounts.arcnft.take(),
            registry_instance: creation.accounts.registry_instance,
            action_bundle: bundle,
            action_bundle_registration: creation.accounts.action_bundle_registration,
        },
    };
    let linked = crate::registry::mint_arcnft(&mut link);
    ctx.accounts.registry_config = link.accounts.registry_config;
    ctx.accounts.tsab_registration = link.accounts.action_bundle_registration;
    ctx.accounts.arcnft = link.accounts.arcnft;
    if linked.is_ok() {
        ctx.accounts.entity = link.accounts.entity;
        ctx.accounts.registry_instance = link.accounts.registry_instance;
    } else {
        ctx.accounts.entity = Account {
            key: link.accounts.entity.key,
            space: entity_space,
            data: None,
        };
        ctx.accounts.registry_instance = match counted {
            Some(instance) => Account {
                key: link.accounts.registry_instance.key,
                space: link.accounts.registry_instance.space,
                data: Some(
                    RegistryInstance {
                        registry: instance.0,
                        instance: instance.1,
                        entities: instance.2,
                    },
                ),
            },
            None => link.accounts.registry_instance,
        };
    }
    linked
}

/// Mints the entity `entity_id` with the serialized `metadata` as its one
/// component and links it to the mint. The component type of the metadata is
/// the one that the configuration files under the Keccak-256 digest of
/// `metadata`.
pub fn mint_metadata(ctx: &mut Context<MintMetdata>, entity_id: u64, metadata: Vec<u8>) -> (outcome:
    Result<(), ComponentError>)
    ensures
        outcome == crate::core_ds::settled(
            mint_metadata_outcome(
                *old(ctx),
                entity_id,
                metadata,
                keccak256(METADATA_SCHEMA_NAME@),
            ),
        ),
        outcome is Ok ==> mint_metadata_done(
            *old(ctx),
            *final(ctx),
            entity_id,
            metadata,
            keccak256(METADATA_SCHEMA_NAME@),
            mint_metadata_outcome(
                *old(ctx),
                entity_id,
                metadata,
                keccak256(METADATA_SCHEMA_NAME@),
            )->Ok_0,
        ),
        outcome is Err ==> *final(ctx) == *old(ctx),
{
    let name = seed_from_tag(&METADATA_SCHEMA_NAME);
    let schema = schema_hash(&name);
    mint_metadata_under(ctx, entity_id, metadata, schema)
}

} // verus!
