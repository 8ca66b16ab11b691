//! The byte accounting of components: what a set of components adds to the
//! storage of an entity, and what the removal of some of them gives back.
use vstd::prelude::*;
use std::collections::BTreeMap;
use crate::error::ComponentError;
use crate::runtime::Pubkey;
use crate::core_ds::constant::SERIALIZED_COMPONENT_EXTRA_SPACE;
use crate::core_ds::state::SerializedComponent;

verus! {

broadcast use vstd::laws_cmp::group_laws_cmp;

/// The bytes that one component takes: its declared size and the fixed
/// overhead.
pub open spec fn component_size(component: SerializedComponent) -> int {
    component.max_size + SERIALIZED_COMPONENT_EXTRA_SPACE
}

/// The bytes that the components take together.
pub open spec fn component_set_size(components: Seq<SerializedComponent>) -> int
    decreases components.len(),
{
    if components.len() == 0 {
        0
    } else {
        component_set_size(components.drop_last()) + component_size(components.last())
    }
}

/// Every key of `removed` is a key of `components`.
pub open spec fn all_present(
    components: Map<Pubkey, SerializedComponent>,
    removed: Seq<Pubkey>,
) -> bool {
    forall|i: int| 0 <= i < removed.len() ==> components.contains_key(#[trigger] removed[i])
}

/// The bytes that the components stored under the keys of `removed` take
/// together, a key counted as often as it occurs.
pub open spec fn removed_size(
    components: Map<Pubkey, SerializedComponent>,
    removed: Seq<Pubkey>,
) -> int {
    component_set_size(removed.map_values(|key: Pubkey| components[key]))
}

/// `keys` lists the keys of `components`, each once.
pub open spec fn enumerates(keys: Seq<Pubkey>, components: Map<Pubkey, SerializedComponent>) -> bool {
    keys.no_duplicates() && keys.to_set() == components.dom()
}

/// The bytes that all the components of a map take together.
pub open spec fn declared_size(components: Map<Pubkey, SerializedComponent>) -> int {
    removed_size(components, choose|keys: Seq<Pubkey>| enumerates(keys, components))
}

/// The size of a set of components is never negative.
pub proof fn lemma_component_set_size_nonnegative(components: Seq<SerializedComponent>)
    ensures
        component_set_size(components) >= 0,
    decreases components.len(),
{
    if components.len() > 0 {
        lemma_component_set_size_nonnegative(components.drop_last());
    }
}

/// A prefix of a sequence of components takes no more than the whole.
pub proof fn lemma_component_set_size_prefix(components: Seq<SerializedComponent>, n: int)
    requires
        0 <= n <= components.len(),
    ensures
        component_set_size(components.take(n)) <= component_set_size(components),
    decreases components.len(),
{
    if n == components.len() {
        assert(components.take(n) =~= components);
    } else {
        assert(components.drop_last().take(n) =~= components.take(n));
        lemma_component_set_size_prefix(components.drop_last(), n);
    }
}

/// The size of a sequence is that of the sequence without one of its
/// components, and the size of that component.
pub proof fn lemma_component_set_size_remove(components: Seq<SerializedComponent>, i: int)
    requires
        0 <= i < components.len(),
    ensures
        component_set_size(components) == component_set_size(components.remove(i))
            + component_size(components[i]),
    decreases components.len(),
{
    if i == components.len() - 1 {
        assert(components.remove(i) =~= components.drop_last());
    } else {
        lemma_component_set_size_remove(components.drop_last(), i);
        assert(components.remove(i).drop_last() =~= components.drop_last().remove(i));
        assert(components.remove(i).last() == components.last());
    }
}

/// The size of a set of components does not depend on the order in which
/// they are listed: two sequences that hold the same components, each as
/// often as the other, have the same size.
pub proof fn lemma_component_set_size_order(
    first: Seq<SerializedComponent>,
    second: Seq<SerializedComponent>,
)
    requires
        first.to_multiset() == second.to_multiset(),
    ensures
        component_set_size(first) == component_set_size(second),
    decreases first.len(),
{
    broadcast use vstd::seq_lib::group_to_multiset_ensures;

    first.to_multiset_ensures();
    second.to_multiset_ensures();
    if first.len() == 0 {
        assert(second.len() == 0);
    } else {
        let last = first.last();
        assert(first.contains(last));
        assert(second.to_multiset().count(last) > 0);
        assert(second.contains(last));
        let j = choose|j: int| 0 <= j < second.len() && second[j] == last;
        assert(first.remove(first.len() - 1) =~= first.drop_last());
        vstd::seq_lib::to_multiset_remove(first, first.len() - 1);
        vstd::seq_lib::to_multiset_remove(second, j);
        lemma_component_set_size_order(first.drop_last(), second.remove(j));
        lemma_component_set_size_remove(second, j);
    }
}

/// Two listings of the same keys, each key once, give back the same bytes.
pub proof fn lemma_removed_size_order(
    components: Map<Pubkey, SerializedComponent>,
    first: Seq<Pubkey>,
    second: Seq<Pubkey>,
)
    requires
        first.no_duplicates(),
        second.no_duplicates(),
        first.to_set() == second.to_set(),
    ensures
        removed_size(components, first) == removed_size(components, second),
    decreases first.len(),
{
    let pick = |key: Pubkey| components[key];
    if first.len() == 0 {
        if second.len() > 0 {
            assert(second.to_set().contains(second[0]));
            assert(first.to_set().contains(second[0]));
        }
        assert(first.map_values(pick) =~= second.map_values(pick));
    } else {
        let last = first.last();
        assert(first.to_set().contains(last));
        assert(second.to_set().contains(last));
        let j = choose|j: int| 0 <= j < second.len() && second[j] == last;
        let rest = second.remove(j);
        assert(rest.no_duplicates());
        assert(first.drop_last().no_duplicates());
        assert(first.drop_last().to_set() =~= rest.to_set()) by {
            assert forall|key: Pubkey| first.drop_last().to_set().contains(key)
                <==> rest.to_set().contains(key) by {
                if first.drop_last().to_set().contains(key) {
                    let i = choose|i: int| 0 <= i < first.len() - 1 && first.drop_last()[i] == key;
                    assert(first[i] == key);
                    assert(key != last);
                    assert(second.to_set().contains(key));
                    let k = choose|k: int| 0 <= k < second.len() && second[k] == key;
                    if k < j {
                        assert(rest[k] == key);
                    } else {
                        assert(rest[k - 1] == key);
                    }
                }
                if rest.to_set().contains(key) {
                    let k = choose|k: int| 0 <= k < rest.len() && rest[k] == key;
                    let at = if k < j { k } else { k + 1 };
                    assert(second[at] == key);
                    assert(key != last);
                    assert(first.to_set().contains(key));
                    let i = choose|i: int| 0 <= i < first.len() && first[i] == key;
                    assert(first.drop_last()[i] == key);
                }
            }
        }
        lemma_removed_size_order(components, first.drop_last(), rest);
        lemma_component_set_size_remove(second.map_values(pick), j);
        assert(second.map_values(pick).remove(j) =~= rest.map_values(pick));
        assert(first.map_values(pick).drop_last() =~= first.drop_last().map_values(pick));
    }
}

/// The bytes of a map of components can be counted along any listing of its
/// keys.
pub proof fn lemma_declared_size(components: Map<Pubkey, SerializedComponent>, keys: Seq<Pubkey>)
    requires
        enumerates(keys, components),
    ensures
        declared_size(components) == removed_size(components, keys),
{
    let chosen = choose|keys: Seq<Pubkey>| enumerates(keys, components);
    lemma_removed_size_order(components, chosen, keys);
}

/// The bytes that `components` take together: for each its declared size and
/// the fixed overhead. `SizeOverflow` where the sum is no `usize`.
pub fn compute_comp_arr_max_size(components: &Vec<SerializedComponent>) -> (size: Result<
    usize,
    ComponentError,
>)
    ensures
        size == (if component_set_size(components@) <= usize::MAX {
            Ok(component_set_size(components@) as usize)
        } else {
            Err(ComponentError::SizeOverflow)
        }),
{
    let mut max_size: usize = 0;
    let mut i: usize = 0;
    while i < components.len()
        invariant
            i <= components.len(),
            max_size == component_set_size(components@.take(i as int)),
        decreases components.len() - i,
    {
        proof {
            assert(components@.take(i + 1).drop_last() =~= components@.take(i as int));
            lemma_component_set_size_prefix(components@, i + 1);
        }
        let share: u128 = components[i].max_size as u128 + SERIALIZED_COMPONENT_EXTRA_SPACE as u128;
        let sum: u128 = max_size as u128 + share;
        if sum > usize::MAX as u128 {
            return Err(ComponentError::SizeOverflow);
        }
        max_size = sum as usize;
        i += 1;
    }
    assert(components@.take(components@.len() as int) =~= components@);
    Ok(max_size)
}

/// The bytes that the removal of `removed_components` gives back: for each
/// key the declared size that is stored under it, and the fixed overhead.
/// `NotFound` where a key is not in `components`, whatever the others are;
/// `SizeOverflow` where the sum is no `usize`.
pub fn get_removed_size(
    components: &BTreeMap<Pubkey, SerializedComponent>,
    removed_components: &Vec<Pubkey>,
) -> (size: Result<usize, ComponentError>)
    ensures
        size == (if !all_present(components@, removed_components@) {
            Err(ComponentError::NotFound)
        } else if removed_size(components@, removed_components@) > usize::MAX {
            Err(ComponentError::SizeOverflow)
        } else {
            Ok(removed_size(components@, removed_components@) as usize)
        }),
{
    let ghost pick = |key: Pubkey| components@[key];
    let ghost shares = removed_components@.map_values(pick);
    let mut removed_size: usize = 0;
    let mut overflow = false;
    let mut i: usize = 0;
    while i < removed_components.len()
        invariant
            i <= removed_components.len(),
            pick == |key: Pubkey| components@[key],
            shares == removed_components@.map_values(pick),
            all_present(components@, removed_components@.take(i as int)),
            !overflow ==> removed_size == component_set_size(shares.take(i as int)),
            overflow ==> component_set_size(shares) > usize::MAX,
        decreases removed_components.len() - i,
    {
        proof {
            assert(shares.take(i + 1).drop_last() =~= shares.take(i as int));
            lemma_component_set_size_prefix(shares, i + 1);
        }
        match components.get(&removed_components[i]) {
            None => {
                assert(!components@.contains_key(removed_components@[i as int]));
                return Err(ComponentError::NotFound);
            },
            Some(component) => {
                if !overflow {
                    let share: u128 = component.max_size as u128
                        + SERIALIZED_COMPONENT_EXTRA_SPACE as u128;
                    let sum: u128 = removed_size as u128 + share;
                    if sum > usize::MAX as u128 {
                        overflow = true;
                    } else {
                        removed_size = sum as usize;
                    }
                }
            },
        }
        assert(all_present(components@, removed_components@.take(i + 1))) by {
            assert forall|j: int| 0 <= j < i + 1 implies components@.contains_key(
                #[trigger] removed_components@.take(i + 1)[j],
            ) by {
                if j < i {
                    assert(removed_components@.take(i as int)[j] == removed_components@[j]);
                }
            }
        }
        i += 1;
    }
    assert(removed_components@.take(removed_components@.len() as int) =~= removed_components@);
    assert(shares.take(shares.len() as int) =~= shares);
    if overflow {
        Err(ComponentError::SizeOverflow)
    } else {
        Ok(removed_size)
    }
}

} // verus!
