//! The accounts that each operation of the core data store takes, what the
//! store asks of them before it acts, and the addresses of its records.
use vstd::prelude::*;
use std::collections::BTreeMap;
use std::collections::BTreeSet;
use vstd::std_specs::cmp::OrdSpec;
use vstd::std_specs::iter::IteratorSpec;
use crate::error::ComponentError;
use crate::runtime::{
    derived_address, find_program_address, is_address, is_authority, pubkey_bytes, pubkey_to_bytes,
    same_key, seed_from_tag, seeds_view, signs_as, u64_be_bytes, u64_to_be_bytes, Account, Pubkey,
    Signer, DISCRIMINATOR_SIZE, MAX_PERMITTED_DATA_LENGTH,
};
use crate::core_ds::account::{Entity, MaxSize, RegistryInstance, ARCNFT};
use crate::core_ds::sizing::{
    all_present, component_set_size, declared_size, enumerates, lemma_declared_size, removed_size,
};
use crate::core_ds::state::SerializedComponent;
use crate::core_ds::constant::{
    SEEDS_ARCNFT_PREFIX, SEEDS_ENTITY_PREFIX, SEEDS_REGISTRYINSTANCE_PREFIX, SEEDS_REGISTRYSIGNER,
};

pub use crate::core_ds::sizing::{compute_comp_arr_max_size, get_removed_size};

verus! {

broadcast use vstd::laws_cmp::group_laws_cmp;

/// The seeds of the signing authority of a registry: the tag
/// `registry_signer`.
pub open spec fn registry_signer_seeds() -> Seq<Seq<u8>> {
    seq![SEEDS_REGISTRYSIGNER@]
}

/// The seeds of the instance `instance` of the registry `registry`: the tag
/// `registry_instance`, the bytes of the registry and the big-endian bytes
/// of the instance number.
pub open spec fn registry_instance_seeds(registry: Pubkey, instance: u64) -> Seq<Seq<u8>> {
    seq![SEEDS_REGISTRYINSTANCE_PREFIX@, pubkey_bytes(registry), u64_be_bytes(instance)]
}

/// The seeds of the entity `entity_id` of the registry instance at
/// `registry_instance`: the tag `entity`, the big-endian bytes of the entity
/// id and the bytes of the address of the instance.
pub open spec fn entity_seeds(entity_id: u64, registry_instance: Pubkey) -> Seq<Seq<u8>> {
    seq![SEEDS_ENTITY_PREFIX@, u64_be_bytes(entity_id), pubkey_bytes(registry_instance)]
}

/// The seeds of the link of the entity at `entity` to the mint `mint`: the
/// tag `arcnft`, the bytes of the mint and the bytes of the address of the
/// entity.
pub open spec fn arcnft_seeds(mint: Pubkey, entity: Pubkey) -> Seq<Seq<u8>> {
    seq![SEEDS_ARCNFT_PREFIX@, pubkey_bytes(mint), pubkey_bytes(entity)]
}

/// The address of the signing authority of the registry `registry`, derived
/// under the registry itself.
pub open spec fn registry_signer_address(registry: Pubkey) -> Option<Pubkey> {
    derived_address(registry_signer_seeds(), registry)
}

/// The address of the instance `instance` of the registry `registry`,
/// derived under the data store `program`.
pub open spec fn registry_instance_address(program: Pubkey, registry: Pubkey, instance: u64) -> Option<
    Pubkey,
> {
    derived_address(registry_instance_seeds(registry, instance), program)
}

/// The address of the entity `entity_id` of the registry instance at
/// `registry_instance`, derived under the data store `program`.
pub open spec fn entity_address(program: Pubkey, entity_id: u64, registry_instance: Pubkey) -> Option<
    Pubkey,
> {
    derived_address(entity_seeds(entity_id, registry_instance), program)
}

/// The address of the link of the entity at `entity` to the mint `mint`,
/// derived under the data store `program`.
pub open spec fn arcnft_address(program: Pubkey, mint: Pubkey, entity: Pubkey) -> Option<Pubkey> {
    derived_address(arcnft_seeds(mint, entity), program)
}

/// Builds the seeds that [`registry_signer_seeds`] describes.
pub fn registry_signer_seed_bytes() -> (seeds: Vec<Vec<u8>>)
    ensures
        seeds_view(seeds@) == registry_signer_seeds(),
{
    let mut seeds: Vec<Vec<u8>> = Vec::new();
    seeds.push(seed_from_tag(&SEEDS_REGISTRYSIGNER));
    assert(seeds_view(seeds@) =~= registry_signer_seeds());
    seeds
}

/// Builds the seeds that [`registry_instance_seeds`] describes.
pub fn registry_instance_seed_bytes(registry: &Pubkey, instance: u64) -> (seeds: Vec<Vec<u8>>)
    ensures
        seeds_view(seeds@) == registry_instance_seeds(*registry, instance),
{
    let mut seeds: Vec<Vec<u8>> = Vec::new();
    seeds.push(seed_from_tag(&SEEDS_REGISTRYINSTANCE_PREFIX));
    seeds.push(pubkey_to_bytes(registry));
    seeds.push(u64_to_be_bytes(instance));
    assert(seeds_view(seeds@) =~= registry_instance_seeds(*registry, instance));
    seeds
}

/// Builds the seeds that [`entity_seeds`] describes.
pub fn entity_seed_bytes(entity_id: u64, registry_instance: &Pubkey) -> (seeds: Vec<Vec<u8>>)
    ensures
        seeds_view(seeds@) == entity_seeds(entity_id, *registry_instance),
{
    let mut seeds: Vec<Vec<u8>> = Vec::new();
    seeds.push(seed_from_tag(&SEEDS_ENTITY_PREFIX));
    seeds.push(u64_to_be_bytes(entity_id));
    seeds.push(pubkey_to_bytes(registry_instance));
    assert(seeds_view(seeds@) =~= entity_seeds(entity_id, *registry_instance));
    seeds
}

/// Builds the seeds that [`arcnft_seeds`] describes.
pub fn arcnft_seed_bytes(mint: &Pubkey, entity: &Pubkey) -> (seeds: Vec<Vec<u8>>)
    ensures
        seeds_view(seeds@) == arcnft_seeds(*mint, *entity),
{
    let mut seeds: Vec<Vec<u8>> = Vec::new();
    seeds.push(seed_from_tag(&SEEDS_ARCNFT_PREFIX));
    seeds.push(pubkey_to_bytes(mint));
    seeds.push(pubkey_to_bytes(entity));
    assert(seeds_view(seeds@) =~= arcnft_seeds(*mint, *entity));
    seeds
}

/// Derives the address that [`registry_signer_address`] describes.
pub fn find_registry_signer(registry: &Pubkey) -> (address: Option<Pubkey>)
    ensures
        address == registry_signer_address(*registry),
{
    find_program_address(&registry_signer_seed_bytes(), registry)
}

/// Derives the address that [`registry_instance_address`] describes.
pub fn find_registry_instance(program: &Pubkey, registry: &Pubkey, instance: u64) -> (address: Option<
    Pubkey,
>)
    ensures
        address == registry_instance_address(*program, *registry, instance),
{
    find_program_address(&registry_instance_seed_bytes(registry, instance), program)
}

/// Derives the address that [`entity_address`] describes.
pub fn find_entity(program: &Pubkey, entity_id: u64, registry_instance: &Pubkey) -> (address: Option<
    Pubkey,
>)
    ensures
        address == entity_address(*program, entity_id, *registry_instance),
{
    find_program_address(&entity_seed_bytes(entity_id, registry_instance), program)
}

/// Derives the address that [`arcnft_address`] describes.
pub fn find_arcnft(program: &Pubkey, mint: &Pubkey, entity: &Pubkey) -> (address: Option<Pubkey>)
    ensures
        address == arcnft_address(*program, *mint, *entity),
{
    find_program_address(&arcnft_seed_bytes(mint, entity), program)
}

/// The accounts of `init_registry`.
#[derive(Debug)]
pub struct InitRegistryInstance {
    pub payer: Signer,
    /// The slot of the instance to create.
    pub registry_instance: Account<RegistryInstance>,
    /// Only a registry makes new instances of itself.
    pub registry_signer: Signer,
}

impl InitRegistryInstance {
    /// What the data store asks before it creates the instance, given the
    /// address of the instance and that of the authority of its registry.
    pub open spec fn check(
        self,
        instance_address: Option<Pubkey>,
        signer_address: Option<Pubkey>,
    ) -> Result<(), ComponentError> {
        if !self.payer.is_signer || !is_authority(self.registry_signer, signer_address) {
            Err(ComponentError::Unauthorized)
        } else if instance_address != Some(self.registry_instance.key) {
            Err(ComponentError::NotFound)
        } else if self.registry_instance.data is Some {
            Err(ComponentError::AlreadyExists)
        } else {
            Ok(())
        }
    }

    /// Decides what [`check`](Self::check) describes.
    pub fn validate(
        &self,
        instance_address: &Option<Pubkey>,
        signer_address: &Option<Pubkey>,
    ) -> (outcome: Result<(), ComponentError>)
        ensures
            outcome == self.check(*instance_address, *signer_address),
    {
        if !self.payer.is_signer || !signs_as(&self.registry_signer, signer_address) {
            Err(ComponentError::Unauthorized)
        } else if !is_address(&self.registry_instance.key, instance_address) {
            Err(ComponentError::NotFound)
        } else if self.registry_instance.data.is_some() {
            Err(ComponentError::AlreadyExists)
        } else {
            Ok(())
        }
    }
}

/// The size of the storage of an entity that holds `components`: the bytes
/// that tell its type, the entity without components, and the share of each
/// component.
pub open spec fn entity_space(components: Map<Pubkey, SerializedComponent>) -> int {
    DISCRIMINATOR_SIZE + Entity::record_size() + declared_size(components)
}

/// Every component of the map holds a payload that fits its declared size.
pub open spec fn all_wf(components: Map<Pubkey, SerializedComponent>) -> bool {
    forall|key: Pubkey| components.contains_key(key) ==> (#[trigger] components[key]).wf()
}

/// Every component of the sequence holds a payload that fits its declared
/// size.
pub open spec fn each_wf(components: Seq<SerializedComponent>) -> bool {
    forall|i: int| 0 <= i < components.len() ==> (#[trigger] components[i]).wf()
}

/// Every key that is updated is a key of `components`.
pub open spec fn updates_present(
    components: Map<Pubkey, SerializedComponent>,
    updates: Seq<(Pubkey, Vec<u8>)>,
) -> bool {
    forall|i: int| 0 <= i < updates.len() ==> components.contains_key((#[trigger] updates[i]).0)
}

/// Every new payload fits the size declared for the component it replaces.
pub open spec fn updates_fit(
    components: Map<Pubkey, SerializedComponent>,
    updates: Seq<(Pubkey, Vec<u8>)>,
) -> bool {
    forall|i: int|
        0 <= i < updates.len() ==> (#[trigger] updates[i]).1@.len()
            <= components[updates[i].0].max_size
}

/// The address of the authority over an entity: that of the registry that
/// owns it.
pub open spec fn entity_signer(entity: Account<Entity>) -> Option<Pubkey> {
    match entity.data {
        Some(entity) => registry_signer_address(entity.registry),
        None => None,
    }
}

/// The address of the authority over a registry instance: that of its
/// registry.
pub open spec fn instance_signer(registry_instance: Account<RegistryInstance>) -> Option<Pubkey> {
    match registry_instance.data {
        Some(instance) => registry_signer_address(instance.registry),
        None => None,
    }
}

/// Derives the address that [`entity_signer`] describes.
pub fn find_entity_signer(entity: &Account<Entity>) -> (address: Option<Pubkey>)
    ensures
        address == entity_signer(*entity),
{
    match &entity.data {
        Some(entity) => find_registry_signer(&entity.registry),
        None => None,
    }
}

/// Derives the address that [`instance_signer`] describes.
pub fn find_instance_signer(registry_instance: &Account<RegistryInstance>) -> (address: Option<
    Pubkey,
>)
    ensures
        address == instance_signer(*registry_instance),
{
    match &registry_instance.data {
        Some(instance) => find_registry_signer(&instance.registry),
        None => None,
    }
}

/// The address `first` comes before `second`: addresses are ordered as their
/// bytes are.
pub open spec fn key_before(first: Pubkey, second: Pubkey) -> bool {
    first.0 < second.0 || (first.0 == second.0 && first.1 < second.1)
}

/// The keys come in ascending order.
pub open spec fn ascending(keys: Seq<Pubkey>) -> bool {
    forall|i: int, j: int| 0 <= i < j < keys.len() ==> key_before(keys[i], keys[j])
}

/// The keys of a map of components, each once, in ascending order.
pub fn component_keys(components: &BTreeMap<Pubkey, SerializedComponent>) -> (keys: Vec<Pubkey>)
    ensures
        enumerates(keys@, components@),
        ascending(keys@),
{
    let mut keys: Vec<Pubkey> = Vec::new();
    for key in it: components.keys()
        invariant
            keys@.len() == it.index(),
            forall|i: int| 0 <= i < keys@.len() ==> keys@[i] == *it.seq()[i],
    {
        keys.push(*key);
    }
    proof {
        let listed = components.keys().remaining();
        assert(keys@ =~= listed.unref());
        vstd::std_specs::btree::axiom_increasing_seq_meaning::<&Pubkey>(listed);
        assert forall|i: int, j: int| 0 <= i < j < keys@.len() implies key_before(
            keys@[i],
            keys@[j],
        ) by {
            assert((&listed[i]).cmp_spec(&listed[j]) is Less);
        }
    }
    keys
}

/// Whether every component of the map holds a payload that fits its declared
/// size.
pub(crate) fn components_fit(components: &BTreeMap<Pubkey, SerializedComponent>, keys: &Vec<Pubkey>) -> (fit:
    bool)
    requires
        enumerates(keys@, components@),
    ensures
        fit == all_wf(components@),
{
    let mut i: usize = 0;
    while i < keys.len()
        invariant
            i <= keys.len(),
            enumerates(keys@, components@),
            forall|j: int| 0 <= j < i ==> (#[trigger] components@[keys@[j]]).wf(),
        decreases keys.len() - i,
    {
        assert(keys@.to_set().contains(keys@[i as int]));
        match components.get(&keys[i]) {
            Some(component) => {
                if !component.is_wf() {
                    return false;
                }
            },
            None => {},
        }
        i += 1;
    }
    assert forall|key: Pubkey| components@.contains_key(key) implies (
    #[trigger] components@[key]).wf() by {
        assert(keys@.to_set().contains(key));
        let j = choose|j: int| 0 <= j < keys@.len() && keys@[j] == key;
        assert(components@[keys@[j]].wf());
    }
    true
}

/// Whether every component of the sequence holds a payload that fits its
/// declared size.
pub fn each_fits(components: &Vec<SerializedComponent>) -> (fit: bool)
    ensures
        fit == each_wf(components@),
{
    let mut i: usize = 0;
    while i < components.len()
        invariant
            i <= components.len(),
            forall|j: int| 0 <= j < i ==> (#[trigger] components@[j]).wf(),
        decreases components.len() - i,
    {
        if !components[i].is_wf() {
            return false;
        }
        i += 1;
    }
    true
}

/// Whether no key occurs twice.
pub fn no_key_twice(keys: &Vec<Pubkey>) -> (distinct: bool)
    ensures
        distinct == keys@.no_duplicates(),
{
    let mut seen: BTreeSet<Pubkey> = BTreeSet::new();
    let mut i: usize = 0;
    while i < keys.len()
        invariant
            i <= keys.len(),
            seen@ == keys@.take(i as int).to_set(),
            keys@.take(i as int).no_duplicates(),
        decreases keys.len() - i,
    {
        let fresh = seen.insert(keys[i]);
        if !fresh {
            proof {
                let j = choose|j: int|
                    0 <= j < keys@.take(i as int).len() && keys@.take(i as int)[j] == keys@[i as int];
                assert(keys@[j] == keys@[i as int]);
            }
            return false;
        }
        proof {
            crate::runtime::lemma_push_fresh(keys@.take(i as int), keys@[i as int]);
            assert(keys@.take(i + 1) =~= keys@.take(i as int).push(keys@[i as int]));
        }
        i += 1;
    }
    assert(keys@.take(keys@.len() as int) =~= keys@);
    true
}

/// The accounts of `init_entity`.
#[derive(Debug)]
pub struct InitEntity {
    pub payer: Signer,
    /// The instance that the entity is created in.
    pub registry_instance: Account<RegistryInstance>,
    /// The slot of the entity to create.
    pub entity: Account<Entity>,
    /// Only the registry of the instance makes entities in it.
    pub registry_signer: Signer,
}

impl InitEntity {
    /// What the data store asks before it creates an entity with
    /// `components`, given the address of the entity and that of the
    /// authority of the registry; on success, the size of its storage.
    pub open spec fn check(
        self,
        components: Map<Pubkey, SerializedComponent>,
        entity_address: Option<Pubkey>,
        signer_address: Option<Pubkey>,
    ) -> Result<usize, ComponentError> {
        if self.registry_instance.data is None {
            Err(ComponentError::NotFound)
        } else if !self.payer.is_signer || !is_authority(self.registry_signer, signer_address) {
            Err(ComponentError::Unauthorized)
        } else if entity_address != Some(self.entity.key) {
            Err(ComponentError::NotFound)
        } else if self.entity.data is Some {
            Err(ComponentError::AlreadyExists)
        } else if !all_wf(components) {
            Err(ComponentError::PayloadTooLarge)
        } else if self.registry_instance.data->0.entities == u64::MAX || entity_space(components)
            > MAX_PERMITTED_DATA_LENGTH {
            Err(ComponentError::SizeOverflow)
        } else {
            Ok(entity_space(components) as usize)
        }
    }

    /// Decides what [`check`](Self::check) describes.
    pub fn validate(
        &self,
        components: &BTreeMap<Pubkey, SerializedComponent>,
        entity_address: &Option<Pubkey>,
        signer_address: &Option<Pubkey>,
    ) -> (outcome: Result<usize, ComponentError>)
        ensures
            outcome == self.check(components@, *entity_address, *signer_address),
    {
        let entities = match &self.registry_instance.data {
            None => { return Err(ComponentError::NotFound); },
            Some(instance) => instance.entities,
        };
        if !self.payer.is_signer || !signs_as(&self.registry_signer, signer_address) {
            return Err(ComponentError::Unauthorized);
        }
        if !is_address(&self.entity.key, entity_address) {
            return Err(ComponentError::NotFound);
        }
        if self.entity.data.is_some() {
            return Err(ComponentError::AlreadyExists);
        }
        let keys = component_keys(components);
        if !components_fit(components, &keys) {
            return Err(ComponentError::PayloadTooLarge);
        }
        proof {
            lemma_declared_size(components@, keys@);
            assert(all_present(components@, keys@)) by {
                assert forall|i: int| 0 <= i < keys@.len() implies components@.contains_key(
                    #[trigger] keys@[i],
                ) by {
                    assert(keys@.to_set().contains(keys@[i]));
                }
            }
            crate::core_ds::sizing::lemma_component_set_size_nonnegative(
                keys@.map_values(|key: Pubkey| components@[key]),
            );
        }
        if entities == u64::MAX {
            return Err(ComponentError::SizeOverflow);
        }
        match get_removed_size(components, &keys) {
            Err(_) => Err(ComponentError::SizeOverflow),
            Ok(size) => {
                let bare = DISCRIMINATOR_SIZE + Entity::get_max_size() as usize;
                if size > MAX_PERMITTED_DATA_LENGTH - bare {
                    Err(ComponentError::SizeOverflow)
                } else {
                    Ok(bare + size)
                }
            },
        }
    }
}

/// The accounts of `mint_arcnft`.
#[derive(Debug)]
pub struct MintARCNFT {
    pub payer: Signer,
    pub registry_instance: Account<RegistryInstance>,
    /// The entity to link; the registry of `registry_instance` owns it.
    pub entity: Account<Entity>,
    /// The address of the token mint.
    pub mint: Pubkey,
    /// The slot of the link to create.
    pub arcnft: Account<ARCNFT>,
    /// Only the registry of the entity links it.
    pub registry_signer: Signer,
}

impl MintARCNFT {
    /// What the data store asks before it links the entity to the mint,
    /// given the address of the link and that of the authority of the
    /// registry: the signer is the authority of the registry of the
    /// instance, and that registry owns the entity.
    pub open spec fn check(
        self,
        arcnft_address: Option<Pubkey>,
        signer_address: Option<Pubkey>,
    ) -> Result<(), ComponentError> {
        if self.registry_instance.data is None || self.entity.data is None {
            Err(ComponentError::NotFound)
        } else if !self.payer.is_signer || !is_authority(self.registry_signer, signer_address)
            || self.entity.data->0.registry != self.registry_instance.data->0.registry {
            Err(ComponentError::Unauthorized)
        } else if arcnft_address != Some(self.arcnft.key) {
            Err(ComponentError::NotFound)
        } else if self.arcnft.data is Some {
            Err(ComponentError::AlreadyLinked)
        } else {
            Ok(())
        }
    }

    /// Decides what [`check`](Self::check) describes.
    pub fn validate(&self, arcnft_address: &Option<Pubkey>, signer_address: &Option<Pubkey>) -> (outcome:
        Result<(), ComponentError>)
        ensures
            outcome == self.check(*arcnft_address, *signer_address),
    {
        match (&self.registry_instance.data, &self.entity.data) {
            (Some(instance), Some(entity)) => {
                if !self.payer.is_signer || !signs_as(&self.registry_signer, signer_address)
                    || !same_key(&entity.registry, &instance.registry) {
                    Err(ComponentError::Unauthorized)
                } else if !is_address(&self.arcnft.key, arcnft_address) {
                    Err(ComponentError::NotFound)
                } else if self.arcnft.data.is_some() {
                    Err(ComponentError::AlreadyLinked)
                } else {
                    Ok(())
                }
            },
            _ => Err(ComponentError::NotFound),
        }
    }
}

/// The accounts of `add_components`.
#[derive(Debug)]
pub struct AddComponent {
    pub payer: Signer,
    pub entity: Account<Entity>,
    /// Only the registry of the entity changes it.
    pub registry_signer: Signer,
}

impl AddComponent {
    /// What the data store asks before it inserts `components`, given the
    /// address of the authority over the entity; on success, the size of the
    /// storage of the entity afterwards.
    pub open spec fn check(
        self,
        components: Seq<SerializedComponent>,
        signer_address: Option<Pubkey>,
    ) -> Result<usize, ComponentError> {
        if self.entity.data is None {
            Err(ComponentError::NotFound)
        } else if !self.payer.is_signer || !is_authority(self.registry_signer, signer_address) {
            Err(ComponentError::Unauthorized)
        } else if !each_wf(components) {
            Err(ComponentError::PayloadTooLarge)
        } else if self.entity.space + component_set_size(components) > MAX_PERMITTED_DATA_LENGTH {
            Err(ComponentError::SizeOverflow)
        } else {
            Ok((self.entity.space + component_set_size(components)) as usize)
        }
    }

    /// Decides what [`check`](Self::check) describes.
    pub fn validate(&self, components: &Vec<SerializedComponent>, signer_address: &Option<Pubkey>) -> (outcome:
        Result<usize, ComponentError>)
        ensures
            outcome == self.check(components@, *signer_address),
    {
        if self.entity.data.is_none() {
            return Err(ComponentError::NotFound);
        }
        if !self.payer.is_signer || !signs_as(&self.registry_signer, signer_address) {
            return Err(ComponentError::Unauthorized);
        }
        if !each_fits(components) {
            return Err(ComponentError::PayloadTooLarge);
        }
        proof {
            crate::core_ds::sizing::lemma_component_set_size_nonnegative(components@);
        }
        match compute_comp_arr_max_size(components) {
            Err(_) => Err(ComponentError::SizeOverflow),
            Ok(size) => {
                if self.entity.space > MAX_PERMITTED_DATA_LENGTH || size > MAX_PERMITTED_DATA_LENGTH
                    - self.entity.space {
                    Err(ComponentError::SizeOverflow)
                } else {
                    Ok(self.entity.space + size)
                }
            },
        }
    }
}

/// The accounts of `remove_component`.
#[derive(Debug)]
pub struct RemoveComponent {
    /// Who receives what the freed storage was worth.
    pub benefactor: Signer,
    pub entity: Account<Entity>,
    /// Only the registry of the entity changes it.
    pub registry_signer: Signer,
}

impl RemoveComponent {
    /// What the data store asks before it removes the components under
    /// `removed`, given the address of the authority over the entity; on
    /// success, the size of the storage of the entity afterwards. A key that
    /// is listed twice is absent the second time.
    pub open spec fn check(self, removed: Seq<Pubkey>, signer_address: Option<Pubkey>) -> Result<
        usize,
        ComponentError,
    > {
        if self.entity.data is None {
            Err(ComponentError::NotFound)
        } else if !self.benefactor.is_signer || !is_authority(self.registry_signer, signer_address) {
            Err(ComponentError::Unauthorized)
        } else if !all_present(self.entity.data->0.components@, removed) || !removed.no_duplicates() {
            Err(ComponentError::NotFound)
        } else if removed_size(self.entity.data->0.components@, removed) > self.entity.space {
            Err(ComponentError::SizeOverflow)
        } else {
            Ok((self.entity.space - removed_size(self.entity.data->0.components@, removed)) as usize)
        }
    }

    /// Decides what [`check`](Self::check) describes.
    pub fn validate(&self, removed: &Vec<Pubkey>, signer_address: &Option<Pubkey>) -> (outcome: Result<
        usize,
        ComponentError,
    >)
        ensures
            outcome == self.check(removed@, *signer_address),
    {
        let entity = match &self.entity.data {
            None => { return Err(ComponentError::NotFound); },
            Some(entity) => entity,
        };
        if !self.benefactor.is_signer || !signs_as(&self.registry_signer, signer_address) {
            return Err(ComponentError::Unauthorized);
        }
        proof {
            crate::core_ds::sizing::lemma_component_set_size_nonnegative(
                removed@.map_values(|key: Pubkey| entity.components@[key]),
            );
        }
        match get_removed_size(&entity.components, removed) {
            Err(ComponentError::NotFound) => Err(ComponentError::NotFound),
            Err(_) => {
                if no_key_twice(removed) {
                    Err(ComponentError::SizeOverflow)
                } else {
                    Err(ComponentError::NotFound)
                }
            },
            Ok(size) => {
                if !no_key_twice(removed) {
                    Err(ComponentError::NotFound)
                } else if size > self.entity.space {
                    Err(ComponentError::SizeOverflow)
                } else {
                    Ok(self.entity.space - size)
                }
            },
        }
    }
}

/// The accounts of `modify_components`.
#[derive(Debug)]
pub struct ModifyComponent {
    pub entity: Account<Entity>,
    /// Only the registry of the entity changes it.
    pub registry_signer: Signer,
}

impl ModifyComponent {
    /// What the data store asks before it replaces the payloads of
    /// `updates`, given the address of the authority over the entity.
    pub open spec fn check(
        self,
        updates: Seq<(Pubkey, Vec<u8>)>,
        signer_address: Option<Pubkey>,
    ) -> Result<(), ComponentError> {
        if self.entity.data is None {
            Err(ComponentError::NotFound)
        } else if !is_authority(self.registry_signer, signer_address) {
            Err(ComponentError::Unauthorized)
        } else if !updates_present(self.entity.data->0.components@, updates) {
            Err(ComponentError::NotFound)
        } else if !updates_fit(self.entity.data->0.components@, updates) {
            Err(ComponentError::PayloadTooLarge)
        } else {
            Ok(())
        }
    }

    /// Decides what [`check`](Self::check) describes.
    pub fn validate(&self, updates: &Vec<(Pubkey, Vec<u8>)>, signer_address: &Option<Pubkey>) -> (outcome:
        Result<(), ComponentError>)
        ensures
            outcome == self.check(updates@, *signer_address),
    {
        let entity = match &self.entity.data {
            None => { return Err(ComponentError::NotFound); },
            Some(entity) => entity,
        };
        if !signs_as(&self.registry_signer, signer_address) {
            return Err(ComponentError::Unauthorized);
        }
        let mut fit = true;
        let mut i: usize = 0;
        while i < updates.len()
            invariant
                i <= updates.len(),
                self.entity.data == Some(*entity),
                is_authority(self.registry_signer, *signer_address),
                updates_present(entity.components@, updates@.take(i as int)),
                fit ==> updates_fit(entity.components@, updates@.take(i as int)),
                !fit ==> !updates_fit(entity.components@, updates@),
            decreases updates.len() - i,
        {
            match entity.components.get(&updates[i].0) {
                None => {
                    assert(!updates_present(entity.components@, updates@)) by {
                        assert(!entity.components@.contains_key(updates@[i as int].0));
                    }
                    return Err(ComponentError::NotFound);
                },
                Some(component) => {
                    if updates[i].1.len() as u64 > component.max_size {
                        fit = false;
                    }
                },
            }
            proof {
                let before = updates@.take(i as int);
                let after = updates@.take(i + 1);
                assert forall|j: int| 0 <= j < after.len() implies entity.components@.contains_key(
                    (#[trigger] after[j]).0,
                ) by {
                    if j < i {
                        assert(before[j] == after[j]);
                    }
                }
                if fit {
                    assert forall|j: int| 0 <= j < after.len() implies (#[trigger] after[j]).1@.len()
                        <= entity.components@[after[j].0].max_size by {
                        if j < i {
                            assert(before[j] == after[j]);
                        }
                    }
                }
            }
            i += 1;
        }
        assert(updates@.take(updates@.len() as int) =~= updates@);
        if fit {
            Ok(())
        } else {
            Err(ComponentError::PayloadTooLarge)
        }
    }
}

/// The accounts of `remove_entity`.
#[derive(Debug)]
pub struct RemoveEntity {
    /// Who receives what the storage of the entity was worth.
    pub benefactor: Signer,
    pub entity: Account<Entity>,
    /// Only the registry of the entity destroys it.
    pub registry_signer: Signer,
}

impl RemoveEntity {
    /// What the data store asks before it destroys the entity, given the
    /// address of the authority over it: an entity is destroyed only once it
    /// holds no component.
    pub open spec fn check(self, signer_address: Option<Pubkey>) -> Result<(), ComponentError> {
        if self.entity.data is None {
            Err(ComponentError::NotFound)
        } else if !self.benefactor.is_signer || !is_authority(self.registry_signer, signer_address) {
            Err(ComponentError::Unauthorized)
        } else if !self.entity.data->0.components@.is_empty() {
            Err(ComponentError::NotEmpty)
        } else {
            Ok(())
        }
    }

    /// Decides what [`check`](Self::check) describes.
    pub fn validate(&self, signer_address: &Option<Pubkey>) -> (outcome: Result<(), ComponentError>)
        ensures
            outcome == self.check(*signer_address),
    {
        match &self.entity.data {
            None => Err(ComponentError::NotFound),
            Some(entity) => {
                if !self.benefactor.is_signer || !signs_as(&self.registry_signer, signer_address) {
                    Err(ComponentError::Unauthorized)
                } else if !entity.components.is_empty() {
                    Err(ComponentError::NotEmpty)
                } else {
                    Ok(())
                }
            },
        }
    }
}

} // verus!
