use arc_core::core_ds::account::{Entity, MaxSize, RegistryInstance, ARCNFT};
use arc_core::core_ds::context::{
    component_keys, each_fits, find_arcnft, find_entity, find_entity_signer,
    find_instance_signer, find_registry_instance, find_registry_signer, no_key_twice,
    AddComponent, InitEntity, InitRegistryInstance, MintARCNFT, ModifyComponent, RemoveComponent,
    RemoveEntity,
};
use arc_core::core_ds::state::SerializedComponent;
use arc_core::core_ds::{
    add_components, init_entity, init_registry, mint_arcnft, modify_components, remove_component,
    remove_entity,
};
use arc_core::error::ComponentError;
use arc_core::runtime::{Account, Context, Pubkey, Signer, MAX_PERMITTED_DATA_LENGTH};
use std::collections::BTreeMap;

const CORE: Pubkey = (1, 1);
const REGISTRY: Pubkey = (2, 2);
const PAYER: Pubkey = (0, 100);
const POSITION: Pubkey = (0, 501);
const HEALTH: Pubkey = (0, 502);
const NAME: Pubkey = (0, 503);

fn signed(key: Pubkey) -> Signer {
    Signer { key, is_signer: true }
}

fn registry_signer() -> Signer {
    signed(find_registry_signer(&REGISTRY).unwrap())
}

fn component(max_size: u64, data: &[u8]) -> SerializedComponent {
    SerializedComponent { max_size, data: data.to_vec() }
}

fn instance_account(instance: u64, entities: u64) -> Account<RegistryInstance> {
    Account {
        key: find_registry_instance(&CORE, &REGISTRY, instance).unwrap(),
        space: 56,
        data: Some(RegistryInstance { registry: REGISTRY, instance, entities }),
    }
}

fn entity_account(
    instance: u64,
    entity_id: u64,
    components: Vec<(Pubkey, SerializedComponent)>,
) -> Account<Entity> {
    let instance_key = find_registry_instance(&CORE, &REGISTRY, instance).unwrap();
    let mut space = 60;
    let mut map = BTreeMap::new();
    for (key, value) in components {
        space += value.max_size as usize + 44;
        map.insert(key, value);
    }
    Account {
        key: find_entity(&CORE, entity_id, &instance_key).unwrap(),
        space,
        data: Some(Entity { entity_id, instance, registry: REGISTRY, components: map }),
    }
}

fn new_instance_ctx(instance: u64) -> Context<InitRegistryInstance> {
    Context {
        program_id: CORE,
        accounts: InitRegistryInstance {
            payer: signed(PAYER),
            registry_instance: Account::uninitialized(
                find_registry_instance(&CORE, &REGISTRY, instance).unwrap(),
            ),
            registry_signer: registry_signer(),
        },
    }
}

fn new_entity_ctx(instance: u64, entity_id: u64) -> Context<InitEntity> {
    let registry_instance = instance_account(instance, 0);
    let entity = Account::uninitialized(find_entity(&CORE, entity_id, &registry_instance.key).unwrap());
    Context {
        program_id: CORE,
        accounts: InitEntity {
            payer: signed(PAYER),
            registry_instance,
            entity,
            registry_signer: registry_signer(),
        },
    }
}

#[test]
fn max_sizes_are_those_of_the_records() {
    assert_eq!(RegistryInstance::get_max_size(), 48);
    assert_eq!(Entity::get_max_size(), 52);
    assert_eq!(ARCNFT::get_max_size(), 64);
    assert_eq!(SerializedComponent::get_max_size(), 12);
}

#[test]
fn a_component_is_well_formed_when_its_payload_fits() {
    assert!(component(4, &[1, 2, 3, 4]).is_wf());
    assert!(component(4, &[]).is_wf());
    assert!(!component(4, &[1, 2, 3, 4, 5]).is_wf());
    assert!(each_fits(&vec![component(1, &[1]), component(0, &[])]));
    assert!(!each_fits(&vec![component(1, &[1]), component(0, &[1])]));
}

#[test]
fn keys_are_listed_once_each() {
    let mut map = BTreeMap::new();
    map.insert(HEALTH, component(1, &[]));
    map.insert(POSITION, component(1, &[]));
    assert_eq!(component_keys(&map), vec![POSITION, HEALTH]);
    assert!(no_key_twice(&vec![POSITION, HEALTH]));
    assert!(!no_key_twice(&vec![POSITION, HEALTH, POSITION]));
    assert!(no_key_twice(&vec![]));
}

#[test]
fn the_signer_over_a_record_is_that_of_its_registry() {
    assert_eq!(find_instance_signer(&instance_account(7, 0)), find_registry_signer(&REGISTRY));
    assert_eq!(find_entity_signer(&entity_account(7, 1, vec![])), find_registry_signer(&REGISTRY));
    assert_eq!(find_entity_signer(&Account::uninitialized((9, 9))), None);
}

#[test]
fn init_registry_creates_the_instance() {
    let mut ctx = new_instance_ctx(7);
    assert_eq!(init_registry(&mut ctx, REGISTRY, 7), Ok(()));
    let account = &ctx.accounts.registry_instance;
    assert_eq!(account.space, 56);
    let instance = account.data.as_ref().unwrap();
    assert_eq!(instance.registry, REGISTRY);
    assert_eq!(instance.instance, 7);
    assert_eq!(instance.entities, 0);
}

#[test]
fn init_registry_twice_is_refused() {
    let mut ctx = new_instance_ctx(7);
    assert_eq!(init_registry(&mut ctx, REGISTRY, 7), Ok(()));
    assert_eq!(init_registry(&mut ctx, REGISTRY, 7), Err(ComponentError::AlreadyExists));
    assert_eq!(ctx.accounts.registry_instance.data.as_ref().unwrap().instance, 7);
}

#[test]
fn init_registry_asks_for_the_authority_of_the_registry() {
    let mut ctx = new_instance_ctx(7);
    ctx.accounts.registry_signer.is_signer = false;
    assert_eq!(init_registry(&mut ctx, REGISTRY, 7), Err(ComponentError::Unauthorized));
    let mut ctx = new_instance_ctx(7);
    ctx.accounts.registry_signer = signed((6, 6));
    assert_eq!(init_registry(&mut ctx, REGISTRY, 7), Err(ComponentError::Unauthorized));
    let mut ctx = new_instance_ctx(7);
    ctx.accounts.payer.is_signer = false;
    assert_eq!(init_registry(&mut ctx, REGISTRY, 7), Err(ComponentError::Unauthorized));
    let mut ctx = new_instance_ctx(7);
    assert_eq!(init_registry(&mut ctx, (3, 3), 7), Err(ComponentError::Unauthorized));
    assert!(ctx.accounts.registry_instance.data.is_none());
}

#[test]
fn init_registry_takes_only_the_derived_slot() {
    let mut ctx = new_instance_ctx(7);
    assert_eq!(init_registry(&mut ctx, REGISTRY, 8), Err(ComponentError::NotFound));
    assert!(ctx.accounts.registry_instance.data.is_none());
    assert_eq!(ctx.accounts.registry_instance.space, 0);
}

#[test]
fn init_entity_round_trips_its_components() {
    let mut ctx = new_entity_ctx(7, 42);
    let mut components = BTreeMap::new();
    components.insert(POSITION, component(64, &[1, 2, 3]));
    components.insert(HEALTH, component(8, &[9; 8]));
    assert_eq!(init_entity(&mut ctx, 42, components), Ok(()));
    let account = &ctx.accounts.entity;
    assert_eq!(account.space, 8 + 52 + (64 + 44) + (8 + 44));
    let entity = account.data.as_ref().unwrap();
    assert_eq!(entity.entity_id, 42);
    assert_eq!(entity.instance, 7);
    assert_eq!(entity.registry, REGISTRY);
    assert_eq!(entity.components.len(), 2);
    assert_eq!(entity.components[&POSITION].max_size, 64);
    assert_eq!(entity.components[&POSITION].data, vec![1, 2, 3]);
    assert_eq!(entity.components[&HEALTH].max_size, 8);
    assert_eq!(entity.components[&HEALTH].data, vec![9; 8]);
    assert_eq!(ctx.accounts.registry_instance.data.as_ref().unwrap().entities, 1);
}

#[test]
fn init_entity_without_components_takes_the_bare_size() {
    let mut ctx = new_entity_ctx(7, 1);
    assert_eq!(init_entity(&mut ctx, 1, BTreeMap::new()), Ok(()));
    assert_eq!(ctx.accounts.entity.space, 60);
    assert!(ctx.accounts.entity.data.as_ref().unwrap().components.is_empty());
}

#[test]
fn init_entity_refusals_change_nothing() {
    let mut ctx = new_entity_ctx(7, 42);
    ctx.accounts.registry_instance.data = None;
    assert_eq!(init_entity(&mut ctx, 42, BTreeMap::new()), Err(ComponentError::NotFound));

    let mut ctx = new_entity_ctx(7, 42);
    ctx.accounts.registry_signer = signed((6, 6));
    assert_eq!(init_entity(&mut ctx, 42, BTreeMap::new()), Err(ComponentError::Unauthorized));

    let mut ctx = new_entity_ctx(7, 42);
    assert_eq!(init_entity(&mut ctx, 43, BTreeMap::new()), Err(ComponentError::NotFound));

    let mut ctx = new_entity_ctx(7, 42);
    let mut too_long = BTreeMap::new();
    too_long.insert(POSITION, component(2, &[1, 2, 3]));
    assert_eq!(init_entity(&mut ctx, 42, too_long), Err(ComponentError::PayloadTooLarge));

    let mut ctx = new_entity_ctx(7, 42);
    let mut too_large = BTreeMap::new();
    too_large.insert(POSITION, component(MAX_PERMITTED_DATA_LENGTH as u64, &[]));
    assert_eq!(init_entity(&mut ctx, 42, too_large), Err(ComponentError::SizeOverflow));

    let mut ctx = new_entity_ctx(7, 42);
    let mut huge = BTreeMap::new();
    huge.insert(POSITION, component(u64::MAX, &[]));
    huge.insert(HEALTH, component(u64::MAX, &[]));
    assert_eq!(init_entity(&mut ctx, 42, huge), Err(ComponentError::SizeOverflow));

    let mut ctx = new_entity_ctx(7, 42);
    ctx.accounts.registry_instance.data.as_mut().unwrap().entities = u64::MAX;
    assert_eq!(init_entity(&mut ctx, 42, BTreeMap::new()), Err(ComponentError::SizeOverflow));
    assert!(ctx.accounts.entity.data.is_none());
    assert_eq!(ctx.accounts.registry_instance.data.as_ref().unwrap().entities, u64::MAX);

    let mut ctx = new_entity_ctx(7, 42);
    assert_eq!(init_entity(&mut ctx, 42, BTreeMap::new()), Ok(()));
    assert_eq!(init_entity(&mut ctx, 42, BTreeMap::new()), Err(ComponentError::AlreadyExists));
    assert_eq!(ctx.accounts.registry_instance.data.as_ref().unwrap().entities, 1);
}

#[test]
fn init_entity_of_the_largest_size_is_accepted() {
    let mut ctx = new_entity_ctx(7, 42);
    let mut components = BTreeMap::new();
    components.insert(POSITION, component(MAX_PERMITTED_DATA_LENGTH as u64 - 60 - 44, &[]));
    assert_eq!(init_entity(&mut ctx, 42, components), Ok(()));
    assert_eq!(ctx.accounts.entity.space, MAX_PERMITTED_DATA_LENGTH);
}

fn add_ctx(entity: Account<Entity>) -> Context<AddComponent> {
    Context {
        program_id: CORE,
        accounts: AddComponent { payer: signed(PAYER), entity, registry_signer: registry_signer() },
    }
}

#[test]
fn add_components_grows_the_storage_by_their_size() {
    let mut ctx = add_ctx(entity_account(7, 42, vec![(POSITION, component(64, &[1]))]));
    let before = ctx.accounts.entity.space;
    assert_eq!(before, 60 + 108);
    let added = vec![(HEALTH, component(8, &[7])), (NAME, component(32, b"arc"))];
    assert_eq!(add_components(&mut ctx, added), Ok(()));
    assert_eq!(ctx.accounts.entity.space, before + (8 + 44) + (32 + 44));
    let entity = ctx.accounts.entity.data.as_ref().unwrap();
    assert_eq!(entity.components.len(), 3);
    assert_eq!(entity.components[&HEALTH].data, vec![7]);
    assert_eq!(entity.components[&NAME].data, b"arc".to_vec());
    assert_eq!(entity.components[&POSITION].data, vec![1]);
    assert_eq!(entity.entity_id, 42);
}

#[test]
fn add_components_lets_the_last_write_win() {
    let mut ctx = add_ctx(entity_account(7, 42, vec![(POSITION, component(64, &[1]))]));
    let before = ctx.accounts.entity.space;
    let added = vec![(POSITION, component(16, &[2])), (POSITION, component(24, &[3]))];
    assert_eq!(add_components(&mut ctx, added), Ok(()));
    let entity = ctx.accounts.entity.data.as_ref().unwrap();
    assert_eq!(entity.components.len(), 1);
    assert_eq!(entity.components[&POSITION].max_size, 24);
    assert_eq!(entity.components[&POSITION].data, vec![3]);
    assert_eq!(ctx.accounts.entity.space, before + (16 + 44) + (24 + 44));
}

#[test]
fn add_components_refusals_change_nothing() {
    let mut ctx = add_ctx(Account::uninitialized((9, 9)));
    assert_eq!(add_components(&mut ctx, vec![]), Err(ComponentError::NotFound));

    let mut ctx = add_ctx(entity_account(7, 42, vec![]));
    ctx.accounts.registry_signer.is_signer = false;
    assert_eq!(
        add_components(&mut ctx, vec![(HEALTH, component(8, &[7]))]),
        Err(ComponentError::Unauthorized)
    );

    let mut ctx = add_ctx(entity_account(7, 42, vec![]));
    ctx.accounts.payer.is_signer = false;
    assert_eq!(add_components(&mut ctx, vec![]), Err(ComponentError::Unauthorized));

    let mut ctx = add_ctx(entity_account(7, 42, vec![]));
    assert_eq!(
        add_components(&mut ctx, vec![(HEALTH, component(8, &[7])), (NAME, component(1, b"arc"))]),
        Err(ComponentError::PayloadTooLarge)
    );
    assert!(ctx.accounts.entity.data.as_ref().unwrap().components.is_empty());
    assert_eq!(ctx.accounts.entity.space, 60);

    let mut ctx = add_ctx(entity_account(7, 42, vec![]));
    assert_eq!(
        add_components(&mut ctx, vec![(HEALTH, component(MAX_PERMITTED_DATA_LENGTH as u64, &[]))]),
        Err(ComponentError::SizeOverflow)
    );
    assert_eq!(
        add_components(&mut ctx, vec![(HEALTH, component(u64::MAX, &[]))]),
        Err(ComponentError::SizeOverflow)
    );
    assert!(ctx.accounts.entity.data.as_ref().unwrap().components.is_empty());
    assert_eq!(ctx.accounts.entity.space, 60);
}

fn remove_ctx(entity: Account<Entity>) -> Context<RemoveComponent> {
    Context {
        program_id: CORE,
        accounts: RemoveComponent {
            benefactor: signed(PAYER),
            entity,
            registry_signer: registry_signer(),
        },
    }
}

#[test]
fn remove_component_shrinks_the_storage_by_the_declared_size() {
    let mut ctx = remove_ctx(entity_account(
        7,
        42,
        vec![(POSITION, component(64, &[1])), (HEALTH, component(8, &[7])), (NAME, component(32, b"arc"))],
    ));
    let before = ctx.accounts.entity.space;
    assert_eq!(remove_component(&mut ctx, vec![NAME, POSITION]), Ok(()));
    assert_eq!(ctx.accounts.entity.space, before - (32 + 44) - (64 + 44));
    assert_eq!(ctx.accounts.entity.space, 60 + 8 + 44);
    let entity = ctx.accounts.entity.data.as_ref().unwrap();
    assert_eq!(entity.components.len(), 1);
    assert!(entity.components.contains_key(&HEALTH));
}

#[test]
fn remove_component_of_nothing_changes_nothing() {
    let mut ctx = remove_ctx(entity_account(7, 42, vec![(POSITION, component(64, &[1]))]));
    assert_eq!(remove_component(&mut ctx, vec![]), Ok(()));
    assert_eq!(ctx.accounts.entity.space, 60 + 108);
    assert_eq!(ctx.accounts.entity.data.as_ref().unwrap().components.len(), 1);
}

#[test]
fn remove_component_refusals_change_nothing() {
    let mut ctx = remove_ctx(entity_account(7, 42, vec![(POSITION, component(64, &[1]))]));
    assert_eq!(remove_component(&mut ctx, vec![POSITION, HEALTH]), Err(ComponentError::NotFound));
    assert_eq!(remove_component(&mut ctx, vec![POSITION, POSITION]), Err(ComponentError::NotFound));
    assert_eq!(ctx.accounts.entity.space, 60 + 108);
    assert_eq!(ctx.accounts.entity.data.as_ref().unwrap().components.len(), 1);

    ctx.accounts.entity.space = 100;
    assert_eq!(remove_component(&mut ctx, vec![POSITION]), Err(ComponentError::SizeOverflow));
    assert_eq!(ctx.accounts.entity.data.as_ref().unwrap().components.len(), 1);

    let mut ctx = remove_ctx(entity_account(7, 42, vec![(POSITION, component(64, &[1]))]));
    ctx.accounts.registry_signer = signed((6, 6));
    assert_eq!(remove_component(&mut ctx, vec![POSITION]), Err(ComponentError::Unauthorized));
    ctx.accounts.registry_signer = registry_signer();
    ctx.accounts.benefactor.is_signer = false;
    assert_eq!(remove_component(&mut ctx, vec![POSITION]), Err(ComponentError::Unauthorized));

    let mut ctx = remove_ctx(Account::uninitialized((9, 9)));
    assert_eq!(remove_component(&mut ctx, vec![]), Err(ComponentError::NotFound));
}

fn modify_ctx(entity: Account<Entity>) -> Context<ModifyComponent> {
    Context { program_id: CORE, accounts: ModifyComponent { entity, registry_signer: registry_signer() } }
}

#[test]
fn modify_components_refuses_a_payload_beyond_the_declared_size() {
    let mut ctx = modify_ctx(entity_account(7, 42, vec![(POSITION, component(64, &[1; 10]))]));
    assert_eq!(
        modify_components(&mut ctx, vec![(POSITION, vec![5; 100])]),
        Err(ComponentError::PayloadTooLarge)
    );
    let entity = ctx.accounts.entity.data.as_ref().unwrap();
    assert_eq!(entity.components[&POSITION].data, vec![1; 10]);
    assert_eq!(entity.components[&POSITION].max_size, 64);
}

#[test]
fn modify_components_replaces_a_payload_that_fits_and_keeps_the_declared_size() {
    let mut ctx = modify_ctx(entity_account(7, 42, vec![(POSITION, component(64, &[1; 10]))]));
    let space = ctx.accounts.entity.space;
    assert_eq!(modify_components(&mut ctx, vec![(POSITION, vec![5; 50])]), Ok(()));
    let entity = ctx.accounts.entity.data.as_ref().unwrap();
    assert_eq!(entity.components[&POSITION].data, vec![5; 50]);
    assert_eq!(entity.components[&POSITION].max_size, 64);
    assert_eq!(ctx.accounts.entity.space, space);
    assert_eq!(modify_components(&mut ctx, vec![(POSITION, vec![6; 64])]), Ok(()));
    assert_eq!(ctx.accounts.entity.data.as_ref().unwrap().components[&POSITION].data, vec![6; 64]);
    assert_eq!(
        modify_components(&mut ctx, vec![(POSITION, vec![6; 65])]),
        Err(ComponentError::PayloadTooLarge)
    );
}

#[test]
fn modify_components_writes_in_order() {
    let mut ctx = modify_ctx(entity_account(
        7,
        42,
        vec![(POSITION, component(64, &[1])), (HEALTH, component(8, &[7]))],
    ));
    let updates = vec![(POSITION, vec![2]), (HEALTH, vec![]), (POSITION, vec![3, 3])];
    assert_eq!(modify_components(&mut ctx, updates), Ok(()));
    let entity = ctx.accounts.entity.data.as_ref().unwrap();
    assert_eq!(entity.components[&POSITION].data, vec![3, 3]);
    assert_eq!(entity.components[&HEALTH].data, Vec::<u8>::new());
    assert_eq!(entity.components[&HEALTH].max_size, 8);
    assert_eq!(entity.components.len(), 2);
}

#[test]
fn modify_components_refusals_change_nothing() {
    let mut ctx = modify_ctx(entity_account(7, 42, vec![(POSITION, component(64, &[1]))]));
    assert_eq!(
        modify_components(&mut ctx, vec![(POSITION, vec![2]), (HEALTH, vec![1])]),
        Err(ComponentError::NotFound)
    );
    assert_eq!(
        modify_components(&mut ctx, vec![(POSITION, vec![2; 65]), (HEALTH, vec![1])]),
        Err(ComponentError::NotFound)
    );
    assert_eq!(ctx.accounts.entity.data.as_ref().unwrap().components[&POSITION].data, vec![1]);
    ctx.accounts.registry_signer.is_signer = false;
    assert_eq!(modify_components(&mut ctx, vec![]), Err(ComponentError::Unauthorized));
    let mut ctx = modify_ctx(Account::uninitialized((9, 9)));
    assert_eq!(modify_components(&mut ctx, vec![]), Err(ComponentError::NotFound));
}

fn destroy_ctx(entity: Account<Entity>) -> Context<RemoveEntity> {
    Context {
        program_id: CORE,
        accounts: RemoveEntity { benefactor: signed(PAYER), entity, registry_signer: registry_signer() },
    }
}

#[test]
fn remove_entity_destroys_an_empty_entity() {
    let mut ctx = destroy_ctx(entity_account(7, 42, vec![]));
    let key = ctx.accounts.entity.key;
    assert_eq!(remove_entity(&mut ctx), Ok(()));
    assert!(ctx.accounts.entity.data.is_none());
    assert_eq!(ctx.accounts.entity.space, 0);
    assert_eq!(ctx.accounts.entity.key, key);
    assert_eq!(remove_entity(&mut ctx), Err(ComponentError::NotFound));
}

#[test]
fn remove_entity_refuses_an_entity_that_holds_components() {
    let mut ctx = destroy_ctx(entity_account(7, 42, vec![(POSITION, component(64, &[1]))]));
    assert_eq!(remove_entity(&mut ctx), Err(ComponentError::NotEmpty));
    assert_eq!(remove_entity(&mut ctx), Err(ComponentError::NotEmpty));
    assert_eq!(ctx.accounts.entity.data.as_ref().unwrap().components.len(), 1);
    assert_eq!(ctx.accounts.entity.space, 60 + 108);
}

#[test]
fn remove_entity_asks_for_the_authority_before_it_looks_at_the_components() {
    let mut ctx = destroy_ctx(entity_account(7, 42, vec![(POSITION, component(64, &[1]))]));
    ctx.accounts.registry_signer = signed((6, 6));
    assert_eq!(remove_entity(&mut ctx), Err(ComponentError::Unauthorized));
    let mut ctx = destroy_ctx(entity_account(7, 42, vec![]));
    ctx.accounts.benefactor.is_signer = false;
    assert_eq!(remove_entity(&mut ctx), Err(ComponentError::Unauthorized));
    assert!(ctx.accounts.entity.data.is_some());
}

fn link_ctx(mint: Pubkey) -> Context<MintARCNFT> {
    let entity = entity_account(7, 42, vec![]);
    let arcnft = Account::uninitialized(find_arcnft(&CORE, &mint, &entity.key).unwrap());
    Context {
        program_id: CORE,
        accounts: MintARCNFT {
            payer: signed(PAYER),
            registry_instance: instance_account(7, 1),
            entity,
            mint,
            arcnft,
            registry_signer: registry_signer(),
        },
    }
}

#[test]
fn mint_arcnft_links_the_entity_to_the_mint_once() {
    let mint: Pubkey = (0, 900);
    let mut ctx = link_ctx(mint);
    assert_eq!(mint_arcnft(&mut ctx), Ok(()));
    assert_eq!(ctx.accounts.arcnft.space, 72);
    let link = ctx.accounts.arcnft.data.as_ref().unwrap();
    assert_eq!(link.entity, ctx.accounts.entity.key);
    assert_eq!(link.mint, mint);
    assert_eq!(mint_arcnft(&mut ctx), Err(ComponentError::AlreadyLinked));
    assert_eq!(ctx.accounts.arcnft.data.as_ref().unwrap().mint, mint);
}

#[test]
fn mint_arcnft_asks_for_the_registry_of_the_entity_not_for_its_instance() {
    let mint: Pubkey = (0, 900);
    let mut ctx = link_ctx(mint);
    ctx.accounts.registry_instance = instance_account(8, 0);
    assert_eq!(mint_arcnft(&mut ctx), Ok(()));
    let link = ctx.accounts.arcnft.data.as_ref().unwrap();
    assert_eq!(link.entity, ctx.accounts.entity.key);
    assert_eq!(link.mint, mint);
}

#[test]
fn mint_arcnft_refusals_change_nothing() {
    let mint: Pubkey = (0, 900);
    let mut ctx = link_ctx(mint);
    ctx.accounts.mint = (0, 901);
    assert_eq!(mint_arcnft(&mut ctx), Err(ComponentError::NotFound));

    let mut ctx = link_ctx(mint);
    ctx.accounts.registry_signer = signed((6, 6));
    assert_eq!(mint_arcnft(&mut ctx), Err(ComponentError::Unauthorized));

    let mut ctx = link_ctx(mint);
    ctx.accounts.registry_instance.data.as_mut().unwrap().registry = (4, 4);
    assert_eq!(mint_arcnft(&mut ctx), Err(ComponentError::Unauthorized));

    let mut ctx = link_ctx(mint);
    ctx.accounts.entity.data.as_mut().unwrap().registry = (4, 4);
    assert_eq!(mint_arcnft(&mut ctx), Err(ComponentError::Unauthorized));

    let mut ctx = link_ctx(mint);
    ctx.accounts.payer.is_signer = false;
    assert_eq!(mint_arcnft(&mut ctx), Err(ComponentError::Unauthorized));

    let mut ctx = link_ctx(mint);
    ctx.accounts.entity.data = None;
    assert_eq!(mint_arcnft(&mut ctx), Err(ComponentError::NotFound));

    let mut ctx = link_ctx(mint);
    ctx.accounts.registry_instance.data = None;
    assert_eq!(mint_arcnft(&mut ctx), Err(ComponentError::NotFound));
    assert!(ctx.accounts.arcnft.data.is_none());
}
