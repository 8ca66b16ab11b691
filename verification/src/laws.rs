//! What holds of the operations taken together.
use vstd::prelude::*;
use crate::error::ComponentError;
use crate::runtime::{is_authority, Context, Pubkey};
use crate::core_ds::context::entity_signer;
use crate::core_ds::state::SerializedComponent;

verus! {

/// An entity that was created with some components holds exactly those: the
/// same keys, and under each key the same payload and the same declared
/// size.
pub proof fn lemma_created_entity_holds_its_components(
    pre: Context<crate::core_ds::context::InitEntity>,
    post: Context<crate::core_ds::context::InitEntity>,
    entity_id: u64,
    components: Map<Pubkey, SerializedComponent>,
    space: usize,
)
    requires
        crate::core_ds::init_entity_done(pre, post, entity_id, components, space),
    ensures
        post.accounts.entity.data is Some,
        post.accounts.entity.data->0.components@ == components,
        post.accounts.entity.data->0.components@.dom() == components.dom(),
        forall|key: Pubkey|
            components.contains_key(key) ==> {
                &&& (#[trigger] post.accounts.entity.data->0.components@[key]).data@
                    == components[key].data@
                &&& post.accounts.entity.data->0.components@[key].max_size
                    == components[key].max_size
            },
{
}

/// The same holds of an entity that the registry had created for an action
/// bundle.
pub proof fn lemma_requested_entity_holds_its_components(
    pre: Context<crate::registry::context::InitEntity>,
    post: Context<crate::registry::context::InitEntity>,
    entity_id: u64,
    components: Map<Pubkey, SerializedComponent>,
    space: usize,
)
    requires
        crate::registry::init_entity_done(pre, post, entity_id, components, space),
    ensures
        post.accounts.entity.data is Some,
        post.accounts.entity.data->0.components@ == components,
{
}

/// The accounts of a request on an entity are all there, and the component
/// type `denied` is not granted to the action bundle.
pub open spec fn lacks_grant(
    registry_config: crate::runtime::Account<crate::registry::account::RegistryConfig>,
    entity: crate::runtime::Account<crate::core_ds::account::Entity>,
    registration: crate::runtime::Account<crate::registry::account::ActionBundleRegistration>,
    denied: Pubkey,
) -> bool {
    &&& registry_config.data is Some
    &&& entity.data is Some
    &&& registration.data is Some
    &&& !registration.data->0.components@.contains(denied)
}

/// An action bundle that is not granted a component type is refused, as
/// unauthorized, every insertion that names a component of that type,
/// whatever else the request holds. A refusal changes nothing, so the same
/// request is refused again until the type is granted.
pub proof fn lemma_add_without_grant_is_unauthorized(
    pre: Context<crate::registry::context::AddComponents>,
    components: Seq<(Pubkey, SerializedComponent)>,
    i: int,
)
    requires
        0 <= i < components.len(),
        lacks_grant(
            pre.accounts.registry_config,
            pre.accounts.entity,
            pre.accounts.action_bundle_registration,
            components[i].0,
        ),
    ensures
        crate::registry::req_add_component_outcome(pre, components) == Err::<
            usize,
            ComponentError,
        >(ComponentError::Unauthorized),
{
    assert(crate::registry::component_types(components)[i] == components[i].0);
    assert(crate::registry::component_types(components).to_set().contains(components[i].0));
}

/// An action bundle that is not granted a component type is refused, as
/// unauthorized, every removal that names that type.
pub proof fn lemma_remove_without_grant_is_unauthorized(
    pre: Context<crate::registry::context::RemoveComponent>,
    components: Seq<Pubkey>,
    i: int,
)
    requires
        0 <= i < components.len(),
        lacks_grant(
            pre.accounts.registry_config,
            pre.accounts.entity,
            pre.accounts.action_bundle_registration,
            components[i],
        ),
    ensures
        crate::registry::req_remove_component_outcome(pre, components) == Err::<
            usize,
            ComponentError,
        >(ComponentError::Unauthorized),
{
    assert(components.to_set().contains(components[i]));
}

/// An action bundle that is not granted a component type is refused, as
/// unauthorized, every new payload for a component of that type.
pub proof fn lemma_modify_without_grant_is_unauthorized(
    pre: Context<crate::registry::context::ModifyComponent>,
    components: Seq<(Pubkey, Vec<u8>)>,
    i: int,
)
    requires
        0 <= i < components.len(),
        lacks_grant(
            pre.accounts.registry_config,
            pre.accounts.entity,
            pre.accounts.action_bundle_registration,
            components[i].0,
        ),
    ensures
        crate::registry::req_modify_component_outcome(pre, components) == Err::<
            (),
            ComponentError,
        >(ComponentError::Unauthorized),
{
    assert(crate::registry::updated_types(components)[i] == components[i].0);
    assert(crate::registry::updated_types(components).to_set().contains(components[i].0));
}

/// Once every component type of a request is granted, the registry no longer
/// refuses the request for want of a grant: where the action bundle is
/// otherwise allowed, the data store decides.
pub proof fn lemma_granted_request_is_forwarded(
    pre: Context<crate::registry::context::AddComponents>,
    components: Seq<(Pubkey, SerializedComponent)>,
)
    requires
        pre.accounts.registry_config.data is Some,
        pre.accounts.entity.data is Some,
        pre.accounts.action_bundle_registration.data is Some,
        crate::registry::context::bundle_allowed(
            pre.program_id,
            pre.accounts.registry_config,
            crate::registry::context::registry_config_address(pre.program_id),
            pre.accounts.action_bundle,
            pre.accounts.action_bundle_registration.data->0,
            pre.accounts.entity.data->0.registry,
            pre.accounts.entity.data->0.instance,
        ),
        crate::registry::component_types(components).to_set().subset_of(
            pre.accounts.action_bundle_registration.data->0.components@,
        ),
    ensures
        crate::registry::req_add_component_outcome(pre, components)
            == crate::core_ds::add_components_outcome(pre.accounts.forwarded(), components),
{
}

/// Grants only add up: after one grant of component types and then another,
/// the action bundle holds those it held before, those of the first grant
/// and those of the second, and no others; and its instances and its right
/// to mint are as they were.
pub proof fn lemma_grants_accumulate(
    start: Context<crate::registry::context::AddComponentsToActionBundleRegistration>,
    between: Context<crate::registry::context::AddComponentsToActionBundleRegistration>,
    end: Context<crate::registry::context::AddComponentsToActionBundleRegistration>,
    first: Seq<Pubkey>,
    second: Seq<Pubkey>,
    first_space: usize,
    second_space: usize,
)
    requires
        crate::registry::grant_components_done(start, between, first, first_space),
        crate::registry::grant_components_done(between, end, second, second_space),
    ensures
        end.accounts.action_bundle_registration.data->0.components@
            == start.accounts.action_bundle_registration.data->0.components@.union(
            first.to_set(),
        ).union(second.to_set()),
        start.accounts.action_bundle_registration.data->0.components@.subset_of(
            end.accounts.action_bundle_registration.data->0.components@,
        ),
        first.to_set().subset_of(end.accounts.action_bundle_registration.data->0.components@),
        second.to_set().subset_of(end.accounts.action_bundle_registration.data->0.components@),
        end.accounts.action_bundle_registration.data->0.instances@
            == start.accounts.action_bundle_registration.data->0.instances@,
        end.accounts.action_bundle_registration.data->0.can_mint
            == start.accounts.action_bundle_registration.data->0.can_mint,
{
}

/// The same holds of the instances that an action bundle is granted.
pub proof fn lemma_instance_grants_accumulate(
    start: Context<crate::registry::context::AddInstancesToActionBundleRegistration>,
    between: Context<crate::registry::context::AddInstancesToActionBundleRegistration>,
    end: Context<crate::registry::context::AddInstancesToActionBundleRegistration>,
    first: Seq<u64>,
    second: Seq<u64>,
    first_space: usize,
    second_space: usize,
)
    requires
        crate::registry::grant_instances_done(start, between, first, first_space),
        crate::registry::grant_instances_done(between, end, second, second_space),
    ensures
        end.accounts.action_bundle_registration.data->0.instances@
            == start.accounts.action_bundle_registration.data->0.instances@.union(
            first.to_set(),
        ).union(second.to_set()),
        start.accounts.action_bundle_registration.data->0.instances@.subset_of(
            end.accounts.action_bundle_registration.data->0.instances@,
        ),
        end.accounts.action_bundle_registration.data->0.components@
            == start.accounts.action_bundle_registration.data->0.components@,
{
}

/// Under the authority of its registry, an entity is destroyed if and only
/// if it holds no component; an entity that holds one is refused as not
/// empty.
pub proof fn lemma_only_empty_entities_are_destroyed(pre: Context<crate::core_ds::context::RemoveEntity>)
    requires
        pre.accounts.entity.data is Some,
        pre.accounts.benefactor.is_signer,
        is_authority(pre.accounts.registry_signer, entity_signer(pre.accounts.entity)),
    ensures
        crate::core_ds::remove_entity_outcome(pre) is Ok
            <==> pre.accounts.entity.data->0.components@.is_empty(),
        !pre.accounts.entity.data->0.components@.is_empty()
            ==> crate::core_ds::remove_entity_outcome(pre) == Err::<(), ComponentError>(
            ComponentError::NotEmpty,
        ),
{
}

/// The registry forwards the destruction of an entity for an action bundle
/// that it allows only where the entity holds no component, and refuses it
/// as not empty otherwise: the data store is not even asked.
pub proof fn lemma_registry_refuses_to_destroy_a_held_entity(
    pre: Context<crate::registry::context::RemoveEntity>,
)
    requires
        pre.accounts.registry_config.data is Some,
        pre.accounts.entity.data is Some,
        pre.accounts.action_bundle_registration.data is Some,
        crate::registry::context::bundle_allowed(
            pre.program_id,
            pre.accounts.registry_config,
            crate::registry::context::registry_config_address(pre.program_id),
            pre.accounts.action_bundle,
            pre.accounts.action_bundle_registration.data->0,
            pre.accounts.entity.data->0.registry,
            pre.accounts.entity.data->0.instance,
        ),
        !pre.accounts.entity.data->0.components@.is_empty(),
    ensures
        crate::registry::req_remove_entity_outcome(pre) == Err::<(), ComponentError>(
            ComponentError::NotEmpty,
        ),
{
}

/// A new payload that is longer than the size declared for its component is
/// refused; one that fits replaces the old, and the declared size stays.
pub proof fn lemma_modify_keeps_the_declared_size(
    pre: Context<crate::core_ds::context::ModifyComponent>,
    post: Context<crate::core_ds::context::ModifyComponent>,
    key: Pubkey,
    payload: Vec<u8>,
)
    requires
        pre.accounts.entity.data is Some,
        pre.accounts.entity.data->0.components@.contains_key(key),
        is_authority(pre.accounts.registry_signer, entity_signer(pre.accounts.entity)),
    ensures
        payload@.len() > pre.accounts.entity.data->0.components@[key].max_size
            ==> crate::core_ds::modify_components_outcome(pre, seq![(key, payload)]) == Err::<
            (),
            ComponentError,
        >(ComponentError::PayloadTooLarge),
        payload@.len() <= pre.accounts.entity.data->0.components@[key].max_size
            ==> crate::core_ds::modify_components_outcome(pre, seq![(key, payload)]) == Ok::<
            (),
            ComponentError,
        >(()),
        crate::core_ds::modify_components_done(pre, post, seq![(key, payload)]) ==> {
            &&& post.accounts.entity.data->0.components@.dom()
                == pre.accounts.entity.data->0.components@.dom()
            &&& post.accounts.entity.data->0.components@[key].data == payload
            &&& post.accounts.entity.data->0.components@[key].max_size
                == pre.accounts.entity.data->0.components@[key].max_size
            &&& post.accounts.entity.space == pre.accounts.entity.space
        },
{
    let updates = seq![(key, payload)];
    let components = pre.accounts.entity.data->0.components@;
    assert(updates[0] == (key, payload));
    assert(updates.drop_last() =~= Seq::<(Pubkey, Vec<u8>)>::empty());
    assert(crate::core_ds::with_payloads(components, updates) == components.insert(
        key,
        SerializedComponent { max_size: components[key].max_size, data: payload },
    )) by {
        reveal_with_fuel(crate::core_ds::with_payloads, 2);
    }
    assert(components.insert(
        key,
        SerializedComponent { max_size: components[key].max_size, data: payload },
    ).dom() =~= components.dom());
}

/// Only the registry that owns an entity changes or destroys it: whatever an
/// operation of the data store on an entity is asked to do, it succeeds only
/// for a signer that has signed and is the authority of that registry.
pub proof fn lemma_changes_need_the_owning_registry(
    add: Context<crate::core_ds::context::AddComponent>,
    added: Seq<(Pubkey, SerializedComponent)>,
    remove: Context<crate::core_ds::context::RemoveComponent>,
    removed: Seq<Pubkey>,
    modify: Context<crate::core_ds::context::ModifyComponent>,
    updates: Seq<(Pubkey, Vec<u8>)>,
    destroy: Context<crate::core_ds::context::RemoveEntity>,
)
    ensures
        crate::core_ds::add_components_outcome(add, added) is Ok ==> is_authority(
            add.accounts.registry_signer,
            entity_signer(add.accounts.entity),
        ),
        crate::core_ds::remove_component_outcome(remove, removed) is Ok ==> is_authority(
            remove.accounts.registry_signer,
            entity_signer(remove.accounts.entity),
        ),
        crate::core_ds::modify_components_outcome(modify, updates) is Ok ==> is_authority(
            modify.accounts.registry_signer,
            entity_signer(modify.accounts.entity),
        ),
        crate::core_ds::remove_entity_outcome(destroy) is Ok ==> is_authority(
            destroy.accounts.registry_signer,
            entity_signer(destroy.accounts.entity),
        ),
{
}

/// The count of the entities of a registry instance only grows: the creation
/// of an entity adds one, and no operation takes one away.
pub proof fn lemma_entity_count_only_grows(
    pre: Context<crate::core_ds::context::InitEntity>,
    post: Context<crate::core_ds::context::InitEntity>,
    entity_id: u64,
    components: Map<Pubkey, SerializedComponent>,
    link_pre: Context<crate::core_ds::context::MintARCNFT>,
    link_post: Context<crate::core_ds::context::MintARCNFT>,
)
    requires
        crate::core_ds::init_entity_outcome(pre, entity_id, components) is Ok,
        crate::core_ds::init_entity_done(
            pre,
            post,
            entity_id,
            components,
            crate::core_ds::init_entity_outcome(pre, entity_id, components)->Ok_0,
        ),
        crate::core_ds::mint_arcnft_done(link_pre, link_post),
    ensures
        post.accounts.registry_instance.data->0.entities
            == pre.accounts.registry_instance.data->0.entities + 1,
        post.accounts.registry_instance.data->0.instance
            == pre.accounts.registry_instance.data->0.instance,
        post.accounts.registry_instance.data->0.registry
            == pre.accounts.registry_instance.data->0.registry,
        link_post.accounts.registry_instance == link_pre.accounts.registry_instance,
{
}

/// An action bundle acts only in the instances that it is granted: a request
/// to create an entity in another instance is refused as unauthorized.
pub proof fn lemma_ungranted_instance_is_unauthorized(
    pre: Context<crate::registry::context::InitEntity>,
    entity_id: u64,
    components: Map<Pubkey, SerializedComponent>,
)
    requires
        pre.accounts.registry_config.data is Some,
        pre.accounts.registry_instance.data is Some,
        pre.accounts.action_bundle_registration.data is Some,
        !pre.accounts.action_bundle_registration.data->0.instances@.contains(
            pre.accounts.registry_instance.data->0.instance,
        ),
    ensures
        crate::registry::init_entity_outcome(pre, entity_id, components) == Err::<
            usize,
            ComponentError,
        >(ComponentError::Unauthorized),
{
}

/// An entity is linked to a mint once: where the link is there, the data
/// store does not make it again.
pub proof fn lemma_a_link_is_made_once(pre: Context<crate::core_ds::context::MintARCNFT>)
    requires
        pre.accounts.arcnft.data is Some,
    ensures
        crate::core_ds::mint_arcnft_outcome(pre) is Err,
        crate::core_ds::mint_arcnft_outcome(pre) != Err::<(), ComponentError>(
            ComponentError::NotFound,
        ) && crate::core_ds::mint_arcnft_outcome(pre) != Err::<(), ComponentError>(
            ComponentError::Unauthorized,
        ) ==> crate::core_ds::mint_arcnft_outcome(pre) == Err::<(), ComponentError>(
            ComponentError::AlreadyLinked,
        ),
{
}

/// Only the authority of a registry instance registers action bundles for
/// it: a payer that is not the identity that the authority record names is
/// refused as unauthorized, and no registration is made.
pub proof fn lemma_only_the_authority_registers_bundles(
    pre: Context<crate::registry::context::RegisterSystem>,
)
    requires
        pre.accounts.registry_instance.data is Some,
        pre.accounts.instance_authority.data is Some,
        pre.accounts.payer.key != pre.accounts.instance_authority.data->0.authority,
    ensures
        crate::registry::register_action_bundle_outcome(pre) == Err::<(), ComponentError>(
            ComponentError::Unauthorized,
        ),
{
}

/// The authority of a registry instance, having signed, registers an action
/// bundle that is not registered yet, in the slot at the address of the
/// registration.
pub proof fn lemma_the_authority_registers_bundles(
    pre: Context<crate::registry::context::RegisterSystem>,
)
    requires
        pre.accounts.registry_instance.data is Some,
        pre.accounts.instance_authority.data is Some,
        pre.accounts.payer.is_signer,
        pre.accounts.payer.key == pre.accounts.instance_authority.data->0.authority,
        pre.accounts.registry_instance.data->0.registry == pre.program_id,
        pre.accounts.instance_authority.data->0.instance
            == pre.accounts.registry_instance.data->0.instance,
        crate::registry::context::action_bundle_registration_address(
            pre.program_id,
            pre.accounts.registry_instance.key,
            pre.accounts.action_bundle,
        ) == Some(pre.accounts.action_bundle_registration.key),
        pre.accounts.action_bundle_registration.data is None,
    ensures
        crate::registry::register_action_bundle_outcome(pre) == Ok::<(), ComponentError>(()),
{
}

/// The creation of an entity succeeds for the authority of the registry of
/// the instance, in the empty slot at the address of the entity, where every
/// payload fits its declared size, the storage is within what the ledger
/// gives to one account and the count of entities has room for one more; and
/// the entity then holds exactly the components it was created with.
pub proof fn lemma_valid_creation_round_trips(
    pre: Context<crate::core_ds::context::InitEntity>,
    post: Context<crate::core_ds::context::InitEntity>,
    entity_id: u64,
    components: Map<Pubkey, SerializedComponent>,
)
    requires
        pre.accounts.registry_instance.data is Some,
        pre.accounts.payer.is_signer,
        is_authority(
            pre.accounts.registry_signer,
            crate::core_ds::context::instance_signer(pre.accounts.registry_instance),
        ),
        crate::core_ds::context::entity_address(
            pre.program_id,
            entity_id,
            pre.accounts.registry_instance.key,
        ) == Some(pre.accounts.entity.key),
        pre.accounts.entity.data is None,
        crate::core_ds::context::all_wf(components),
        pre.accounts.registry_instance.data->0.entities < u64::MAX,
        crate::core_ds::context::entity_space(components)
            <= crate::runtime::MAX_PERMITTED_DATA_LENGTH,
    ensures
        crate::core_ds::init_entity_outcome(pre, entity_id, components) == Ok::<
            usize,
            ComponentError,
        >(crate::core_ds::context::entity_space(components) as usize),
        crate::core_ds::init_entity_done(
            pre,
            post,
            entity_id,
            components,
            crate::core_ds::context::entity_space(components) as usize,
        ) ==> {
            &&& post.accounts.entity.data is Some
            &&& post.accounts.entity.data->0.components@ == components
            &&& post.accounts.entity.data->0.components@.dom() == components.dom()
            &&& forall|key: Pubkey|
                components.contains_key(key) ==> {
                    &&& (#[trigger] post.accounts.entity.data->0.components@[key]).data
                        == components[key].data
                    &&& post.accounts.entity.data->0.components@[key].max_size
                        == components[key].max_size
                }
        },
{
}

/// Once a component type is granted, the insertion of a component of that
/// type is forwarded and succeeds: for an action bundle that the registry
/// allows on the entity, a payer that has signed, a payload that fits its
/// declared size and storage within what the ledger gives to one account.
/// The entity then holds the component under its key, and under every other
/// key what it held before.
pub proof fn lemma_granted_insertion_succeeds(
    pre: Context<crate::registry::context::AddComponents>,
    post: Context<crate::registry::context::AddComponents>,
    key: Pubkey,
    component: SerializedComponent,
)
    requires
        pre.accounts.registry_config.data is Some,
        pre.accounts.entity.data is Some,
        pre.accounts.action_bundle_registration.data is Some,
        crate::registry::context::bundle_allowed(
            pre.program_id,
            pre.accounts.registry_config,
            crate::registry::context::registry_config_address(pre.program_id),
            pre.accounts.action_bundle,
            pre.accounts.action_bundle_registration.data->0,
            pre.accounts.entity.data->0.registry,
            pre.accounts.entity.data->0.instance,
        ),
        pre.accounts.action_bundle_registration.data->0.components@.contains(key),
        pre.accounts.payer.is_signer,
        component.wf(),
        pre.accounts.entity.space + crate::core_ds::sizing::component_size(component)
            <= crate::runtime::MAX_PERMITTED_DATA_LENGTH,
    ensures
        crate::registry::req_add_component_outcome(pre, seq![(key, component)]) == Ok::<
            usize,
            ComponentError,
        >((pre.accounts.entity.space + crate::core_ds::sizing::component_size(component)) as usize),
        crate::registry::req_add_component_done(
            pre,
            post,
            seq![(key, component)],
            (pre.accounts.entity.space + crate::core_ds::sizing::component_size(
                component,
            )) as usize,
        ) ==> {
            &&& post.accounts.entity.data->0.components@
                == pre.accounts.entity.data->0.components@.insert(key, component)
            &&& post.accounts.entity.data->0.components@[key] == component
            &&& forall|other: Pubkey|
                other != key ==> {
                    &&& post.accounts.entity.data->0.components@.contains_key(other)
                        == pre.accounts.entity.data->0.components@.contains_key(other)
                    &&& #[trigger] post.accounts.entity.data->0.components@[other]
                        == pre.accounts.entity.data->0.components@[other]
                }
        },
{
    let added = seq![(key, component)];
    let values = crate::core_ds::components_of(added);
    let types = crate::registry::component_types(added);
    assert(added[0] == (key, component));
    assert(values =~= seq![component]);
    assert(values.drop_last() =~= Seq::<SerializedComponent>::empty());
    assert(crate::core_ds::sizing::component_set_size(values)
        == crate::core_ds::sizing::component_size(component)) by {
        reveal_with_fuel(crate::core_ds::sizing::component_set_size, 2);
    }
    assert(crate::core_ds::context::each_wf(values));
    assert(types.to_set().subset_of(pre.accounts.action_bundle_registration.data->0.components@))
        by {
        assert forall|granted: Pubkey| types.to_set().contains(granted) implies granted == key by {
            let i = choose|i: int| 0 <= i < types.len() && types[i] == granted;
            assert(types[0] == key);
        }
    }
    assert(added.drop_last() =~= Seq::<(Pubkey, SerializedComponent)>::empty());
    assert(crate::core_ds::with_components(pre.accounts.entity.data->0.components@, added)
        == pre.accounts.entity.data->0.components@.insert(key, component)) by {
        reveal_with_fuel(crate::core_ds::with_components, 2);
    }
}

/// A grant of component types succeeds for a payer that has signed, under
/// the authority record of an instance of this registry, on the registration
/// at its address, within what the ledger gives to one account; and the
/// bundle then holds the types it held before and the new ones, and no
/// others, with its instances and its right to mint as they were.
pub proof fn lemma_valid_grant_gives_the_union(
    pre: Context<crate::registry::context::AddComponentsToActionBundleRegistration>,
    post: Context<crate::registry::context::AddComponentsToActionBundleRegistration>,
    components: Seq<Pubkey>,
)
    requires
        pre.accounts.registry_instance.data is Some,
        pre.accounts.instance_authority.data is Some,
        pre.accounts.action_bundle_registration.data is Some,
        crate::registry::context::instance_governed(
            pre.program_id,
            pre.accounts.payer,
            pre.accounts.registry_instance.data->0,
            pre.accounts.instance_authority.data->0,
        ),
        crate::registry::context::action_bundle_registration_address(
            pre.program_id,
            pre.accounts.registry_instance.key,
            pre.accounts.action_bundle,
        ) == Some(pre.accounts.action_bundle_registration.key),
        pre.accounts.action_bundle_registration.space + components.len()
            * crate::registry::constant::COMPONENT_GRANT_SIZE
            <= crate::runtime::MAX_PERMITTED_DATA_LENGTH,
    ensures
        crate::registry::grant_components_outcome(pre, components) == Ok::<usize, ComponentError>(
            (pre.accounts.action_bundle_registration.space + components.len()
                * crate::registry::constant::COMPONENT_GRANT_SIZE) as usize,
        ),
        crate::registry::grant_components_done(
            pre,
            post,
            components,
            (pre.accounts.action_bundle_registration.space + components.len()
                * crate::registry::constant::COMPONENT_GRANT_SIZE) as usize,
        ) ==> {
            &&& post.accounts.action_bundle_registration.data->0.components@
                == pre.accounts.action_bundle_registration.data->0.components@.union(
                components.to_set(),
            )
            &&& pre.accounts.action_bundle_registration.data->0.components@.subset_of(
                post.accounts.action_bundle_registration.data->0.components@,
            )
            &&& components.to_set().subset_of(
                post.accounts.action_bundle_registration.data->0.components@,
            )
            &&& post.accounts.action_bundle_registration.data->0.action_bundle
                == pre.accounts.action_bundle_registration.data->0.action_bundle
            &&& post.accounts.action_bundle_registration.data->0.instances@
                == pre.accounts.action_bundle_registration.data->0.instances@
            &&& post.accounts.action_bundle_registration.data->0.can_mint
                == pre.accounts.action_bundle_registration.data->0.can_mint
        },
{
}

/// For an instance of this registry and a link that is not there yet, the
/// registry has the entity linked to the mint if and only if the action
/// bundle may mint, is granted the instance and is the bundle that the
/// registration was made for; otherwise it refuses as unauthorized and no
/// link is made. The instance of the entity plays no part. This is stated
/// for accounts that are there, a registry that runs under its own
/// configuration, a payer and a bundle that have signed, an entity that the
/// registry owns, and the slot of the link at its address.
pub proof fn lemma_linking_asks_for_three_grants(pre: Context<crate::registry::context::MintARCNFT>)
    requires
        pre.accounts.registry_config.data is Some,
        pre.accounts.registry_instance.data is Some,
        pre.accounts.entity.data is Some,
        pre.accounts.action_bundle_registration.data is Some,
        crate::registry::context::registry_config_address(pre.program_id) == Some(
            pre.accounts.registry_config.key,
        ),
        pre.accounts.registry_instance.data->0.registry == pre.program_id,
        pre.accounts.entity.data->0.registry == pre.program_id,
        pre.accounts.payer.is_signer,
        pre.accounts.action_bundle.is_signer,
        crate::core_ds::context::arcnft_address(
            pre.accounts.registry_config.data->0.core_ds,
            pre.accounts.mint,
            pre.accounts.entity.key,
        ) == Some(pre.accounts.arcnft.key),
        pre.accounts.arcnft.data is None,
    ensures
        crate::registry::mint_arcnft_outcome(pre) is Ok <==> {
            &&& pre.accounts.action_bundle_registration.data->0.can_mint
            &&& pre.accounts.action_bundle_registration.data->0.instances@.contains(
                pre.accounts.registry_instance.data->0.instance,
            )
            &&& pre.accounts.action_bundle_registration.data->0.action_bundle
                == pre.accounts.action_bundle.key
        },
        crate::registry::mint_arcnft_outcome(pre) is Err ==> crate::registry::mint_arcnft_outcome(
            pre,
        ) == Err::<(), ComponentError>(ComponentError::Unauthorized),
{
}

} // verus!
