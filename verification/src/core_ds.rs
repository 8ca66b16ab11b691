//! The core data store: registry instances, entities and their components.
//!
//! Every operation asks for the signing authority of the registry that owns
//! the record it touches, and either takes effect as a whole or leaves the
//! accounts as they were.
use vstd::prelude::*;
use std::collections::BTreeMap;
use crate::error::ComponentError;
use crate::runtime::{Account, Context, Pubkey, DISCRIMINATOR_SIZE};
use crate::core_ds::account::{Entity, MaxSize, RegistryInstance, ARCNFT};
use crate::core_ds::context::{
    arcnft_address, entity_address, entity_signer, find_arcnft, find_entity,
    find_entity_signer, find_instance_signer, find_registry_instance, find_registry_signer,
    instance_signer, registry_instance_address, registry_signer_address, AddComponent,
    InitEntity, InitRegistryInstance, MintARCNFT, ModifyComponent, RemoveComponent, RemoveEntity,
};
use crate::core_ds::state::SerializedComponent;

pub mod account;
pub mod constant;
pub mod context;
pub mod event;
pub mod wellformed;
pub mod sizing;
pub mod state;

verus! {

broadcast use vstd::laws_cmp::group_laws_cmp;

/// The outcome without what a check found out.
pub open spec fn settled<T>(outcome: Result<T, ComponentError>) -> Result<(), ComponentError> {
    match outcome {
        Ok(_) => Ok(()),
        Err(error) => Err(error),
    }
}

/// The map after the components of `added` were inserted in their order: a
/// later component replaces an earlier one under the same key.
pub open spec fn with_components(
    components: Map<Pubkey, SerializedComponent>,
    added: Seq<(Pubkey, SerializedComponent)>,
) -> Map<Pubkey, SerializedComponent>
    decreases added.len(),
{
    if added.len() == 0 {
        components
    } else {
        with_components(components, added.drop_last()).insert(added.last().0, added.last().1)
    }
}

/// The map after the payloads of `updates` were written in their order. A
/// component keeps the size that was declared for it.
pub open spec fn with_payloads(
    components: Map<Pubkey, SerializedComponent>,
    updates: Seq<(Pubkey, Vec<u8>)>,
) -> Map<Pubkey, SerializedComponent>
    decreases updates.len(),
{
    if updates.len() == 0 {
        components
    } else {
        with_payloads(components, updates.drop_last()).insert(
            updates.last().0,
            SerializedComponent {
                max_size: components[updates.last().0].max_size,
                data: updates.last().1,
            },
        )
    }
}

/// The components of the pairs, in their order.
pub open spec fn components_of(added: Seq<(Pubkey, SerializedComponent)>) -> Seq<SerializedComponent> {
    added.map_values(|pair: (Pubkey, SerializedComponent)| pair.1)
}

/// Whether `init_registry` succeeds, and why not.
pub open spec fn init_registry_outcome(
    pre: Context<InitRegistryInstance>,
    registry: Pubkey,
    instance: u64,
) -> Result<(), ComponentError> {
    pre.accounts.check(
        registry_instance_address(pre.program_id, registry, instance),
        registry_signer_address(registry),
    )
}

/// What `init_registry` leaves where it succeeds: the instance `instance` of
/// `registry`, with no entity yet.
pub open spec fn init_registry_done(
    pre: Context<InitRegistryInstance>,
    post: Context<InitRegistryInstance>,
    registry: Pubkey,
    instance: u64,
) -> bool {
    &&& post.program_id == pre.program_id
    &&& post.accounts.payer == pre.accounts.payer
    &&& post.accounts.registry_signer == pre.accounts.registry_signer
    &&& post.accounts.registry_instance == (Account {
        key: pre.accounts.registry_instance.key,
        space: (DISCRIMINATOR_SIZE + RegistryInstance::record_size()) as usize,
        data: Some(RegistryInstance { registry, instance, entities: 0 }),
    })
}

/// Creates the instance `instance` of the registry `registry`, at the address
/// derived from the two.
pub fn init_registry(ctx: &mut Context<InitRegistryInstance>, registry: Pubkey, instance: u64) -> (outcome:
    Result<(), ComponentError>)
    ensures
        outcome == init_registry_outcome(*old(ctx), registry, instance),
        outcome is Ok ==> init_registry_done(*old(ctx), *final(ctx), registry, instance),
        outcome is Err ==> *final(ctx) == *old(ctx),
{
    let instance_address = find_registry_instance(&ctx.program_id, &registry, instance);
    let signer_address = find_registry_signer(&registry);
    match ctx.accounts.validate(&instance_address, &signer_address) {
        Err(error) => Err(error),
        Ok(()) => {
            ctx.accounts.registry_instance = Account {
                key: ctx.accounts.registry_instance.key,
                space: DISCRIMINATOR_SIZE + RegistryInstance::get_max_size() as usize,
                data: Some(RegistryInstance { registry, instance, entities: 0 }),
            };
            Ok(())
        },
    }
}

/// Whether `init_entity` succeeds, and why not; on success, the size of the
/// storage of the entity.
pub open spec fn init_entity_outcome(
    pre: Context<InitEntity>,
    entity_id: u64,
    components: Map<Pubkey, SerializedComponent>,
) -> Result<usize, ComponentError> {
    pre.accounts.check(
        components,
        entity_address(pre.program_id, entity_id, pre.accounts.registry_instance.key),
        instance_signer(pre.accounts.registry_instance),
    )
}

/// What `init_entity` leaves where it succeeds: the entity with exactly
/// `components`, owned as the instance is, in storage of `space` bytes; and
/// one entity more counted in the instance.
pub open spec fn init_entity_done(
    pre: Context<InitEntity>,
    post: Context<InitEntity>,
    entity_id: u64,
    components: Map<Pubkey, SerializedComponent>,
    space: usize,
) -> bool {
    &&& post.program_id == pre.program_id
    &&& post.accounts.payer == pre.accounts.payer
    &&& post.accounts.registry_signer == pre.accounts.registry_signer
    &&& pre.accounts.registry_instance.data is Some
    &&& post.accounts.registry_instance == (Account {
        key: pre.accounts.registry_instance.key,
        space: pre.accounts.registry_instance.space,
        data: Some(
            RegistryInstance {
                registry: pre.accounts.registry_instance.data->0.registry,
                instance: pre.accounts.registry_instance.data->0.instance,
                entities: (pre.accounts.registry_instance.data->0.entities + 1) as u64,
            },
        ),
    })
    &&& post.accounts.entity.key == pre.accounts.entity.key
    &&& post.accounts.entity.space == space
    &&& post.accounts.entity.data is Some
    &&& post.accounts.entity.data->0.entity_id == entity_id
    &&& post.accounts.entity.data->0.instance == pre.accounts.registry_instance.data->0.instance
    &&& post.accounts.entity.data->0.registry == pre.accounts.registry_instance.data->0.registry
    &&& post.accounts.entity.data->0.components@ == components
}

/// Creates the entity `entity_id` in the registry instance, holding
/// `components`, in storage sized for them.
pub fn init_entity(
    ctx: &mut Context<InitEntity>,
    entity_id: u64,
    components: BTreeMap<Pubkey, SerializedComponent>,
) -> (outcome: Result<(), ComponentError>)
    ensures
        outcome == settled(init_entity_outcome(*old(ctx), entity_id, components@)),
        outcome is Ok ==> init_entity_done(
            *old(ctx),
            *final(ctx),
            entity_id,
            components@,
            init_entity_outcome(*old(ctx), entity_id, components@)->Ok_0,
        ),
        outcome is Err ==> *final(ctx) == *old(ctx),
{
    let signer_address = find_instance_signer(&ctx.accounts.registry_instance);
    let entity_address = find_entity(
        &ctx.program_id,
        entity_id,
        &ctx.accounts.registry_instance.key,
    );
    match ctx.accounts.validate(&components, &entity_address, &signer_address) {
        Err(error) => Err(error),
        Ok(space) => {
            let slot = ctx.accounts.registry_instance.take();
            let mut instance = slot.data.unwrap();
            instance.entities = instance.entities + 1;
            let entity = Entity {
                entity_id,
                instance: instance.instance,
                registry: instance.registry,
                components,
            };
            ctx.accounts.registry_instance = Account {
                key: slot.key,
                space: slot.space,
                data: Some(instance),
            };
            ctx.accounts.entity = Account { key: ctx.accounts.entity.key, space, data: Some(entity) };
            Ok(())
        },
    }
}

/// Whether `mint_arcnft` succeeds, and why not.
pub open spec fn mint_arcnft_outcome(pre: Context<MintARCNFT>) -> Result<(), ComponentError> {
    pre.accounts.check(
        arcnft_address(pre.program_id, pre.accounts.mint, pre.accounts.entity.key),
        instance_signer(pre.accounts.registry_instance),
    )
}

/// What `mint_arcnft` leaves where it succeeds: the link of the entity to the
/// mint.
pub open spec fn mint_arcnft_done(pre: Context<MintARCNFT>, post: Context<MintARCNFT>) -> bool {
    &&& post.program_id == pre.program_id
    &&& post.accounts.payer == pre.accounts.payer
    &&& post.accounts.registry_instance == pre.accounts.registry_instance
    &&& post.accounts.entity == pre.accounts.entity
    &&& post.accounts.mint == pre.accounts.mint
    &&& post.accounts.registry_signer == pre.accounts.registry_signer
    &&& post.accounts.arcnft == (Account {
        key: pre.accounts.arcnft.key,
        space: (DISCRIMINATOR_SIZE + ARCNFT::record_size()) as usize,
        data: Some(ARCNFT { entity: pre.accounts.entity.key, mint: pre.accounts.mint }),
    })
}

/// Links the entity to the token mint, once, under the authority of the
/// registry that owns the entity. The data store asks that the registry of
/// the instance given owns the entity; it does not ask that the entity is of
/// that very instance.
pub fn mint_arcnft(ctx: &mut Context<MintARCNFT>) -> (outcome: Result<(), ComponentError>)
    ensures
        outcome == mint_arcnft_outcome(*old(ctx)),
        outcome is Ok ==> mint_arcnft_done(*old(ctx), *final(ctx)),
        outcome is Err ==> *final(ctx) == *old(ctx),
{
    let signer_address = find_instance_signer(&ctx.accounts.registry_instance);
    let link_address = find_arcnft(&ctx.program_id, &ctx.accounts.mint, &ctx.accounts.entity.key);
    match ctx.accounts.validate(&link_address, &signer_address) {
        Err(error) => Err(error),
        Ok(()) => {
            ctx.accounts.arcnft = Account {
                key: ctx.accounts.arcnft.key,
                space: DISCRIMINATOR_SIZE + ARCNFT::get_max_size() as usize,
                data: Some(ARCNFT { entity: ctx.accounts.entity.key, mint: ctx.accounts.mint }),
            };
            Ok(())
        },
    }
}

/// An entity account after a change of its components: the same entity at
/// the same address, with `components` in `space` bytes.
pub open spec fn entity_changed(
    pre: Account<Entity>,
    post: Account<Entity>,
    components: Map<Pubkey, SerializedComponent>,
    space: usize,
) -> bool {
    &&& pre.data is Some
    &&& post.data is Some
    &&& post.key == pre.key
    &&& post.space == space
    &&& post.data->0.entity_id == pre.data->0.entity_id
    &&& post.data->0.instance == pre.data->0.instance
    &&& post.data->0.registry == pre.data->0.registry
    &&& post.data->0.components@ == components
}

/// Whether `add_components` succeeds, and why not; on success, the size of
/// the storage of the entity afterwards.
pub open spec fn add_components_outcome(
    pre: Context<AddComponent>,
    components: Seq<(Pubkey, SerializedComponent)>,
) -> Result<usize, ComponentError> {
    pre.accounts.check(components_of(components), entity_signer(pre.accounts.entity))
}

/// What `add_components` leaves where it succeeds.
pub open spec fn add_components_done(
    pre: Context<AddComponent>,
    post: Context<AddComponent>,
    components: Seq<(Pubkey, SerializedComponent)>,
    space: usize,
) -> bool {
    &&& post.program_id == pre.program_id
    &&& post.accounts.payer == pre.accounts.payer
    &&& post.accounts.registry_signer == pre.accounts.registry_signer
    &&& entity_changed(
        pre.accounts.entity,
        post.accounts.entity,
        with_components(pre.accounts.entity.data->0.components@, components),
        space,
    )
}

/// Inserts the components into the entity and grows its storage by their
/// size. A component under a key that the entity holds already replaces the
/// one that was there.
pub fn add_components(ctx: &mut Context<AddComponent>, components: Vec<(Pubkey, SerializedComponent)>) -> (outcome:
    Result<(), ComponentError>)
    ensures
        outcome == settled(add_components_outcome(*old(ctx), components@)),
        outcome is Ok ==> add_components_done(
            *old(ctx),
            *final(ctx),
            components@,
            add_components_outcome(*old(ctx), components@)->Ok_0,
        ),
        outcome is Err ==> *final(ctx) == *old(ctx),
{
    let signer_address = find_entity_signer(&ctx.accounts.entity);
    let ghost added = components@;
    let mut keys: Vec<Pubkey> = Vec::new();
    let mut values: Vec<SerializedComponent> = Vec::new();
    for pair in it: components.into_iter()
        invariant
            it.seq() == added,
            keys@.len() == it.index(),
            values@.len() == it.index(),
            forall|i: int| 0 <= i < it.index() ==> keys@[i] == added[i].0,
            forall|i: int| 0 <= i < it.index() ==> values@[i] == added[i].1,
    {
        keys.push(pair.0);
        values.push(pair.1);
    }
    assert(values@ =~= components_of(added));
    match ctx.accounts.validate(&values, &signer_address) {
        Err(error) => Err(error),
        Ok(space) => {
            let slot = ctx.accounts.entity.take();
            let mut entity = slot.data.unwrap();
            let ghost before = entity.components@;
            let ghost initial = entity;
            let count = keys.len();
            let mut at: usize = 0;
            for component in it: values.into_iter()
                invariant
                    it.seq() == components_of(added),
                    count == added.len(),
                    at == it.index(),
                    at <= added.len(),
                    keys@.len() == added.len(),
                    entity.entity_id == initial.entity_id,
                    entity.instance == initial.instance,
                    entity.registry == initial.registry,
                    forall|i: int| 0 <= i < added.len() ==> keys@[i] == added[i].0,
                    entity.components@ == with_components(before, added.take(it.index())),
            {
                let ghost n = it.index();
                assert(added.take(n + 1).drop_last() =~= added.take(n));
                assert(added.take(n + 1).last() == added[n]);
                assert(at < count);
                let key = keys[at];
                at = at + 1;
                entity.components.insert(key, component);
            }
            assert(added.take(added.len() as int) =~= added);
            ctx.accounts.entity = Account { key: slot.key, space, data: Some(entity) };
            Ok(())
        },
    }
}

/// Whether `remove_component` succeeds, and why not; on success, the size of
/// the storage of the entity afterwards.
pub open spec fn remove_component_outcome(pre: Context<RemoveComponent>, removed: Seq<Pubkey>) -> Result<
    usize,
    ComponentError,
> {
    pre.accounts.check(removed, entity_signer(pre.accounts.entity))
}

/// What `remove_component` leaves where it succeeds.
pub open spec fn remove_component_done(
    pre: Context<RemoveComponent>,
    post: Context<RemoveComponent>,
    removed: Seq<Pubkey>,
    space: usize,
) -> bool {
    &&& post.program_id == pre.program_id
    &&& post.accounts.benefactor == pre.accounts.benefactor
    &&& post.accounts.registry_signer == pre.accounts.registry_signer
    &&& entity_changed(
        pre.accounts.entity,
        post.accounts.entity,
        pre.accounts.entity.data->0.components@.remove_keys(removed.to_set()),
        space,
    )
}

/// Removes the components under the keys of `removed_components` from the
/// entity and shrinks its storage by the size that was declared for them.
/// The freed storage is not zeroed.
pub fn remove_component(ctx: &mut Context<RemoveComponent>, removed_components: Vec<Pubkey>) -> (outcome:
    Result<(), ComponentError>)
    ensures
        outcome == settled(remove_component_outcome(*old(ctx), removed_components@)),
        outcome is Ok ==> remove_component_done(
            *old(ctx),
            *final(ctx),
            removed_components@,
            remove_component_outcome(*old(ctx), removed_components@)->Ok_0,
        ),
        outcome is Err ==> *final(ctx) == *old(ctx),
{
    let signer_address = find_entity_signer(&ctx.accounts.entity);
    match ctx.accounts.validate(&removed_components, &signer_address) {
        Err(error) => Err(error),
        Ok(space) => {
            let slot = ctx.accounts.entity.take();
            let mut entity = slot.data.unwrap();
            let ghost before = entity.components@;
            let ghost initial = entity;
            let mut i: usize = 0;
            while i < removed_components.len()
                invariant
                    i <= removed_components.len(),
                    entity.entity_id == initial.entity_id,
                    entity.instance == initial.instance,
                    entity.registry == initial.registry,
                    entity.components@ == before.remove_keys(
                        removed_components@.take(i as int).to_set(),
                    ),
                decreases removed_components.len() - i,
            {
                entity.components.remove(&removed_components[i]);
                proof {
                    crate::runtime::lemma_take_to_set(removed_components@, i as int);
                    assert(entity.components@ =~= before.remove_keys(
                        removed_components@.take(i + 1).to_set(),
                    ));
                }
                i += 1;
            }
            assert(removed_components@.take(removed_components@.len() as int)
                =~= removed_components@);
            ctx.accounts.entity = Account { key: slot.key, space, data: Some(entity) };
            Ok(())
        },
    }
}

/// Whether `modify_components` succeeds, and why not.
pub open spec fn modify_components_outcome(
    pre: Context<ModifyComponent>,
    updates: Seq<(Pubkey, Vec<u8>)>,
) -> Result<(), ComponentError> {
    pre.accounts.check(updates, entity_signer(pre.accounts.entity))
}

/// What `modify_components` leaves where it succeeds: the new payloads under
/// the sizes that were declared before, in storage of the same size.
pub open spec fn modify_components_done(
    pre: Context<ModifyComponent>,
    post: Context<ModifyComponent>,
    updates: Seq<(Pubkey, Vec<u8>)>,
) -> bool {
    &&& post.program_id == pre.program_id
    &&& post.accounts.registry_signer == pre.accounts.registry_signer
    &&& entity_changed(
        pre.accounts.entity,
        post.accounts.entity,
        with_payloads(pre.accounts.entity.data->0.components@, updates),
        pre.accounts.entity.space,
    )
}

/// With every update written, each component still has the size that was
/// declared for it, and no key has come or gone.
pub proof fn lemma_with_payloads_keeps_sizes(
    components: Map<Pubkey, SerializedComponent>,
    updates: Seq<(Pubkey, Vec<u8>)>,
)
    requires
        forall|i: int| 0 <= i < updates.len() ==> components.contains_key((#[trigger] updates[i]).0),
    ensures
        with_payloads(components, updates).dom() == components.dom(),
        forall|key: Pubkey|
            components.contains_key(key) ==> (#[trigger] with_payloads(
                components,
                updates,
            )[key]).max_size == components[key].max_size,
    decreases updates.len(),
{
    if updates.len() > 0 {
        assert forall|i: int| 0 <= i < updates.drop_last().len() implies components.contains_key(
            (#[trigger] updates.drop_last()[i]).0,
        ) by {
            assert(updates.drop_last()[i] == updates[i]);
        }
        lemma_with_payloads_keeps_sizes(components, updates.drop_last());
        assert(components.contains_key(updates[updates.len() - 1].0));
        assert(with_payloads(components, updates).dom() =~= components.dom());
    }
}

/// Replaces the payload of each component that `components` names. A
/// component keeps the size that was declared for it, and the storage of the
/// entity its size.
pub fn modify_components(ctx: &mut Context<ModifyComponent>, components: Vec<(Pubkey, Vec<u8>)>) -> (outcome:
    Result<(), ComponentError>)
    ensures
        outcome == modify_components_outcome(*old(ctx), components@),
        outcome is Ok ==> modify_components_done(*old(ctx), *final(ctx), components@),
        outcome is Err ==> *final(ctx) == *old(ctx),
{
    let signer_address = find_entity_signer(&ctx.accounts.entity);
    match ctx.accounts.validate(&components, &signer_address) {
        Err(error) => Err(error),
        Ok(()) => {
            let ghost updates = components@;
            let slot = ctx.accounts.entity.take();
            let mut entity = slot.data.unwrap();
            let ghost before = entity.components@;
            let ghost initial = entity;
            for update in it: components.into_iter()
                invariant
                    it.seq() == updates,
                    forall|i: int|
                        0 <= i < updates.len() ==> before.contains_key((#[trigger] updates[i]).0),
                    entity.entity_id == initial.entity_id,
                    entity.instance == initial.instance,
                    entity.registry == initial.registry,
                    entity.components@ == with_payloads(before, updates.take(it.index())),
            {
                let ghost n = it.index();
                proof {
                    assert(updates.take(n + 1).drop_last() =~= updates.take(n));
                    assert(updates.take(n + 1).last() == updates[n]);
                    assert forall|i: int| 0 <= i < updates.take(n).len() implies before.contains_key(
                        (#[trigger] updates.take(n)[i]).0,
                    ) by {
                        assert(updates.take(n)[i] == updates[i]);
                    }
                    lemma_with_payloads_keeps_sizes(before, updates.take(n));
                    assert(before.contains_key(updates[n].0));
                }
                match entity.components.remove(&update.0) {
                    Some(stored) => {
                        let mut new_comp = stored;
                        new_comp.data = update.1;
                        entity.components.insert(update.0, new_comp);
                        assert(entity.components@ =~= with_payloads(before, updates.take(n + 1)));
                    },
                    None => {
                        assert(false);
                    },
                }
            }
            assert(updates.take(updates.len() as int) =~= updates);
            ctx.accounts.entity = Account { key: slot.key, space: slot.space, data: Some(entity) };
            Ok(())
        },
    }
}

/// Whether `remove_entity` succeeds, and why not.
pub open spec fn remove_entity_outcome(pre: Context<RemoveEntity>) -> Result<(), ComponentError> {
    pre.accounts.check(entity_signer(pre.accounts.entity))
}

/// What `remove_entity` leaves where it succeeds: the slot of the entity,
/// empty and without storage.
pub open spec fn remove_entity_done(pre: Context<RemoveEntity>, post: Context<RemoveEntity>) -> bool {
    &&& post.program_id == pre.program_id
    &&& post.accounts.benefactor == pre.accounts.benefactor
    &&& post.accounts.registry_signer == pre.accounts.registry_signer
    &&& post.accounts.entity == (Account::<Entity> {
        key: pre.accounts.entity.key,
        space: 0,
        data: None,
    })
}

/// Destroys the entity and gives its storage back; only an entity without
/// components is destroyed.
pub fn remove_entity(ctx: &mut Context<RemoveEntity>) -> (outcome: Result<(), ComponentError>)
    ensures
        outcome == remove_entity_outcome(*old(ctx)),
        outcome is Ok ==> remove_entity_done(*old(ctx), *final(ctx)),
        outcome is Err ==> *final(ctx) == *old(ctx),
{
    let signer_address = find_entity_signer(&ctx.accounts.entity);
    match ctx.accounts.validate(&signer_address) {
        Err(error) => Err(error),
        Ok(()) => {
            ctx.accounts.entity = Account::uninitialized(ctx.accounts.entity.key);
            Ok(())
        },
    }
}

} // verus!
