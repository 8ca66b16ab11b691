//! What holds of every entity that the data store has made and changed: each
//! payload fits the size declared for its component, and the storage of the
//! entity covers the declared sizes of all its components.
use vstd::prelude::*;
use crate::runtime::{Account, Context, Pubkey, DISCRIMINATOR_SIZE};
use crate::core_ds::account::{Entity, MaxSize};
use crate::core_ds::context::{
    all_wf, each_wf, entity_space, updates_fit, updates_present, AddComponent, InitEntity,
    ModifyComponent, RemoveComponent,
};
use crate::core_ds::sizing::{
    all_present, component_set_size, component_size, declared_size, enumerates,
    lemma_component_set_size_nonnegative, lemma_declared_size, removed_size,
};
use crate::core_ds::state::SerializedComponent;

verus! {

/// The account, where it holds an entity, holds one whose payloads fit their
/// declared sizes in storage that covers those sizes.
pub open spec fn entity_wf(account: Account<Entity>) -> bool {
    account.data is Some ==> {
        &&& all_wf(account.data->0.components@)
        &&& account.space >= entity_space(account.data->0.components@)
    }
}

/// The keys of a finite set can be listed, each once.
pub proof fn lemma_keys_can_be_listed(keys: Set<Pubkey>)
    requires
        keys.finite(),
    ensures
        exists|listed: Seq<Pubkey>| listed.no_duplicates() && listed.to_set() == keys,
    decreases keys.len(),
{
    if keys.len() == 0 {
        let listed = Seq::<Pubkey>::empty();
        assert(listed.to_set() =~= keys);
        assert(listed.no_duplicates() && listed.to_set() == keys);
    } else {
        let key = keys.choose();
        lemma_keys_can_be_listed(keys.remove(key));
        let rest = choose|listed: Seq<Pubkey>|
            listed.no_duplicates() && listed.to_set() == keys.remove(key);
        let listed = rest.push(key);
        crate::runtime::lemma_push_fresh(rest, key);
        assert(keys.remove(key).insert(key) =~= keys);
        assert(listed.no_duplicates() && listed.to_set() == keys);
    }
}

/// A map of components takes what it takes without one of them, and the
/// share of that one.
pub proof fn lemma_declared_size_insert_new(
    components: Map<Pubkey, SerializedComponent>,
    key: Pubkey,
    component: SerializedComponent,
)
    requires
        components.dom().finite(),
        !components.contains_key(key),
    ensures
        declared_size(components.insert(key, component)) == declared_size(components)
            + component_size(component),
{
    lemma_keys_can_be_listed(components.dom());
    let keys = choose|listed: Seq<Pubkey>|
        listed.no_duplicates() && listed.to_set() == components.dom();
    let grown = components.insert(key, component);
    let listed = keys.push(key);
    crate::runtime::lemma_push_fresh(keys, key);
    assert(grown.dom() =~= components.dom().insert(key));
    lemma_declared_size(components, keys);
    lemma_declared_size(grown, listed);
    let old_shares = keys.map_values(|k: Pubkey| components[k]);
    let new_shares = listed.map_values(|k: Pubkey| grown[k]);
    assert(new_shares.drop_last() =~= old_shares) by {
        assert forall|i: int| 0 <= i < keys.len() implies new_shares.drop_last()[i]
            == old_shares[i] by {
            assert(keys.to_set().contains(keys[i]));
        }
    }
    assert(new_shares.last() == component);
}

/// A map of components takes what it takes without one of them, and the
/// share of that one.
pub proof fn lemma_declared_size_remove(components: Map<Pubkey, SerializedComponent>, key: Pubkey)
    requires
        components.dom().finite(),
        components.contains_key(key),
    ensures
        declared_size(components) == declared_size(components.remove(key)) + component_size(
            components[key],
        ),
{
    lemma_declared_size_insert_new(components.remove(key), key, components[key]);
    assert(components.remove(key).insert(key, components[key]) =~= components);
}

/// What a map of components takes is never negative.
pub proof fn lemma_declared_size_nonnegative(components: Map<Pubkey, SerializedComponent>)
    ensures
        declared_size(components) >= 0,
{
    let keys = choose|keys: Seq<Pubkey>| enumerates(keys, components);
    lemma_component_set_size_nonnegative(keys.map_values(|k: Pubkey| components[k]));
}

/// A component that is inserted adds at most its share to what the map
/// takes: its share where the key is new, and the difference to the share of
/// the component that it replaces otherwise.
pub proof fn lemma_declared_size_insert(
    components: Map<Pubkey, SerializedComponent>,
    key: Pubkey,
    component: SerializedComponent,
)
    requires
        components.dom().finite(),
    ensures
        declared_size(components.insert(key, component)) == declared_size(components)
            + component_size(component) - (if components.contains_key(key) {
            component_size(components[key])
        } else {
            0
        }),
        declared_size(components.insert(key, component)) <= declared_size(components)
            + component_size(component),
{
    if components.contains_key(key) {
        lemma_declared_size_remove(components, key);
        lemma_declared_size_insert_new(components.remove(key), key, component);
        assert(components.remove(key).insert(key, component) =~= components.insert(key, component));
    } else {
        lemma_declared_size_insert_new(components, key, component);
    }
}

/// Components that are inserted add at most their size to what the map
/// takes, and leave every payload fitting where every payload fitted and
/// those of the new components fit.
pub proof fn lemma_with_components(
    components: Map<Pubkey, SerializedComponent>,
    added: Seq<(Pubkey, SerializedComponent)>,
)
    requires
        components.dom().finite(),
    ensures
        crate::core_ds::with_components(components, added).dom().finite(),
        declared_size(crate::core_ds::with_components(components, added)) <= declared_size(
            components,
        ) + component_set_size(crate::core_ds::components_of(added)),
        all_wf(components) && each_wf(crate::core_ds::components_of(added)) ==> all_wf(
            crate::core_ds::with_components(components, added),
        ),
    decreases added.len(),
{
    let values = crate::core_ds::components_of(added);
    if added.len() > 0 {
        let before = crate::core_ds::with_components(components, added.drop_last());
        lemma_with_components(components, added.drop_last());
        lemma_declared_size_insert(before, added.last().0, added.last().1);
        assert(values.drop_last() =~= crate::core_ds::components_of(added.drop_last()));
        assert(values.last() == added.last().1);
        if all_wf(components) && each_wf(values) {
            assert(each_wf(crate::core_ds::components_of(added.drop_last()))) by {
                assert forall|i: int| 0 <= i < added.len() - 1 implies (
                #[trigger] crate::core_ds::components_of(added.drop_last())[i]).wf() by {
                    assert(values[i].wf());
                }
            }
            assert(values[added.len() - 1].wf());
        }
    }
}

/// The components that are removed give back exactly their declared sizes,
/// where each key is listed once and names a component of the map.
pub proof fn lemma_without_components(
    components: Map<Pubkey, SerializedComponent>,
    removed: Seq<Pubkey>,
)
    requires
        components.dom().finite(),
        all_present(components, removed),
        removed.no_duplicates(),
    ensures
        declared_size(components.remove_keys(removed.to_set())) == declared_size(components)
            - removed_size(components, removed),
    decreases removed.len(),
{
    let shares = removed.map_values(|key: Pubkey| components[key]);
    if removed.len() == 0 {
        assert(removed.to_set() =~= Set::<Pubkey>::empty());
        assert(components.remove_keys(removed.to_set()) =~= components);
    } else {
        let last = removed.last();
        let rest = removed.drop_last();
        assert(all_present(components, rest)) by {
            assert forall|i: int| 0 <= i < rest.len() implies components.contains_key(
                #[trigger] rest[i],
            ) by {
                assert(rest[i] == removed[i]);
            }
        }
        lemma_without_components(components, rest);
        let before = components.remove_keys(rest.to_set());
        assert(!rest.to_set().contains(last)) by {
            if rest.to_set().contains(last) {
                let i = choose|i: int| 0 <= i < rest.len() && rest[i] == last;
                assert(removed[i] == removed[removed.len() - 1]);
            }
        }
        assert(components.contains_key(removed[removed.len() - 1]));
        assert(before.contains_key(last));
        assert(before[last] == components[last]);
        assert(before.dom().finite()) by {
            assert(before.dom().subset_of(components.dom()));
            vstd::set_lib::lemma_set_subset_finite(components.dom(), before.dom());
        }
        lemma_declared_size_remove(before, last);
        assert(removed.to_set() =~= rest.to_set().insert(last)) by {
            crate::runtime::lemma_take_to_set(removed, removed.len() - 1);
            assert(removed.take(removed.len() - 1) =~= rest);
            assert(removed.take(removed.len() as int) =~= removed);
        }
        assert(before.remove(last) =~= components.remove_keys(removed.to_set()));
        assert(shares.drop_last() =~= rest.map_values(|key: Pubkey| components[key]));
        assert(shares.last() == components[last]);
    }
}

/// New payloads change nothing of what the map takes, and fit where they
/// were checked to fit.
pub proof fn lemma_with_payloads(
    components: Map<Pubkey, SerializedComponent>,
    updates: Seq<(Pubkey, Vec<u8>)>,
)
    requires
        components.dom().finite(),
        updates_present(components, updates),
    ensures
        crate::core_ds::with_payloads(components, updates).dom() == components.dom(),
        declared_size(crate::core_ds::with_payloads(components, updates)) == declared_size(
            components,
        ),
        all_wf(components) && updates_fit(components, updates) ==> all_wf(
            crate::core_ds::with_payloads(components, updates),
        ),
    decreases updates.len(),
{
    crate::core_ds::lemma_with_payloads_keeps_sizes(components, updates);
    if updates.len() > 0 {
        let rest = updates.drop_last();
        let before = crate::core_ds::with_payloads(components, rest);
        assert(updates_present(components, rest)) by {
            assert forall|i: int| 0 <= i < rest.len() implies components.contains_key(
                (#[trigger] rest[i]).0,
            ) by {
                assert(rest[i] == updates[i]);
            }
        }
        lemma_with_payloads(components, rest);
        crate::core_ds::lemma_with_payloads_keeps_sizes(components, rest);
        let key = updates.last().0;
        assert(components.contains_key(updates[updates.len() - 1].0));
        let written = SerializedComponent { max_size: components[key].max_size, data: updates.last().1 };
        assert(before[key].max_size == components[key].max_size);
        lemma_declared_size_insert(before, key, written);
        if all_wf(components) && updates_fit(components, updates) {
            assert(updates_fit(components, rest)) by {
                assert forall|i: int| 0 <= i < rest.len() implies (#[trigger] rest[i]).1@.len()
                    <= components[rest[i].0].max_size by {
                    assert(rest[i] == updates[i]);
                }
            }
            assert(updates[updates.len() - 1].1@.len() <= components[key].max_size);
            assert(written.wf());
        }
    }
}

/// An entity that is created is well formed.
pub proof fn lemma_init_entity_is_wf(
    pre: Context<InitEntity>,
    post: Context<InitEntity>,
    entity_id: u64,
    components: Map<Pubkey, SerializedComponent>,
)
    requires
        crate::core_ds::init_entity_outcome(pre, entity_id, components) is Ok,
        crate::core_ds::init_entity_done(
            pre,
            post,
            entity_id,
            components,
            crate::core_ds::init_entity_outcome(pre, entity_id, components)->Ok_0,
        ),
    ensures
        entity_wf(post.accounts.entity),
        post.accounts.entity.space == entity_space(components),
        post.accounts.entity.space == DISCRIMINATOR_SIZE + Entity::record_size() + declared_size(
            components,
        ),
{
    lemma_declared_size_nonnegative(components);
}

/// A well-formed entity into which components are inserted stays well
/// formed: its storage grows by all that the new components may take.
pub proof fn lemma_add_components_keeps_wf(
    pre: Context<AddComponent>,
    post: Context<AddComponent>,
    components: Seq<(Pubkey, SerializedComponent)>,
)
    requires
        entity_wf(pre.accounts.entity),
        crate::core_ds::add_components_outcome(pre, components) is Ok,
        crate::core_ds::add_components_done(
            pre,
            post,
            components,
            crate::core_ds::add_components_outcome(pre, components)->Ok_0,
        ),
    ensures
        entity_wf(post.accounts.entity),
        post.accounts.entity.space == pre.accounts.entity.space + component_set_size(
            crate::core_ds::components_of(components),
        ),
{
    lemma_with_components(pre.accounts.entity.data->0.components@, components);
    lemma_component_set_size_nonnegative(crate::core_ds::components_of(components));
}

/// A well-formed entity from which components are removed stays well formed:
/// its storage shrinks by exactly what was declared for them.
pub proof fn lemma_remove_component_keeps_wf(
    pre: Context<RemoveComponent>,
    post: Context<RemoveComponent>,
    removed: Seq<Pubkey>,
)
    requires
        entity_wf(pre.accounts.entity),
        crate::core_ds::remove_component_outcome(pre, removed) is Ok,
        crate::core_ds::remove_component_done(
            pre,
            post,
            removed,
            crate::core_ds::remove_component_outcome(pre, removed)->Ok_0,
        ),
    ensures
        entity_wf(post.accounts.entity),
        post.accounts.entity.space == pre.accounts.entity.space - removed_size(
            pre.accounts.entity.data->0.components@,
            removed,
        ),
{
    let components = pre.accounts.entity.data->0.components@;
    lemma_without_components(components, removed);
    lemma_component_set_size_nonnegative(removed.map_values(|key: Pubkey| components[key]));
    assert(all_wf(components.remove_keys(removed.to_set())));
}

/// A well-formed entity whose payloads are replaced stays well formed, in
/// storage of the same size.
pub proof fn lemma_modify_components_keeps_wf(
    pre: Context<ModifyComponent>,
    post: Context<ModifyComponent>,
    updates: Seq<(Pubkey, Vec<u8>)>,
)
    requires
        entity_wf(pre.accounts.entity),
        crate::core_ds::modify_components_outcome(pre, updates) is Ok,
        crate::core_ds::modify_components_done(pre, post, updates),
    ensures
        entity_wf(post.accounts.entity),
        post.accounts.entity.space == pre.accounts.entity.space,
{
    lemma_with_payloads(pre.accounts.entity.data->0.components@, updates);
}

/// A well-formed entity always has storage for the removal of components
/// that it holds: the removal of components that are listed once each is
/// never refused for want of storage.
pub proof fn lemma_wf_entity_covers_removal(account: Account<Entity>, removed: Seq<Pubkey>)
    requires
        account.data is Some,
        entity_wf(account),
        all_present(account.data->0.components@, removed),
        removed.no_duplicates(),
    ensures
        removed_size(account.data->0.components@, removed) <= account.space,
{
    lemma_without_components(account.data->0.components@, removed);
    lemma_declared_size_nonnegative(account.data->0.components@.remove_keys(removed.to_set()));
}

} // verus!
