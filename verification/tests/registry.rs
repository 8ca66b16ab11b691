use arc_core::core_ds::account::{Entity, MaxSize, RegistryInstance};
use arc_core::core_ds::context::{find_arcnft, find_entity, find_registry_instance};
use arc_core::core_ds::state::SerializedComponent;
use arc_core::error::ComponentError;
use arc_core::registry::account::{
    ActionBundleRegistration, ComponentSchema, InstanceAuthority, RegistryConfig,
};
use arc_core::registry::context::{
    check_sys_registry, find_action_bundle_registration, find_component_schema,
    find_instance_authority, find_registry_config, AddComponents,
    AddComponentsToActionBundleRegistration, AddInstancesToActionBundleRegistration, InitEntity,
    Initialize, InstanceRegistry, MintARCNFT, ModifyComponent, RegisterComponent, RegisterSystem,
    RemoveComponent, RemoveEntity,
};
use arc_core::registry::{
    add_components_to_action_bundle_registration, add_instances_to_action_bundle_registration,
    init_entity, initalize, instance_registry, mint_arcnft, register_action_bundle,
    register_component, req_add_component, req_modify_component, req_remove_component,
    req_remove_entity,
};
use arc_core::runtime::{Account, Context, Pubkey, Signer};
use std::collections::{BTreeMap, BTreeSet};

const CORE: Pubkey = (1, 1);
const REGISTRY: Pubkey = (2, 2);
const BUNDLE: Pubkey = (0, 300);
const PAYER: Pubkey = (0, 100);
const METADATA: Pubkey = (0, 501);
const HEALTH: Pubkey = (0, 502);

fn signed(key: Pubkey) -> Signer {
    Signer { key, is_signer: true }
}

fn component(max_size: u64, data: &[u8]) -> SerializedComponent {
    SerializedComponent { max_size, data: data.to_vec() }
}

fn config() -> Account<RegistryConfig> {
    Account {
        key: find_registry_config(&REGISTRY).unwrap(),
        space: 48,
        data: Some(RegistryConfig { core_ds: CORE, components: 0 }),
    }
}

fn instance_key(instance: u64) -> Pubkey {
    find_registry_instance(&CORE, &REGISTRY, instance).unwrap()
}

fn instance_account(instance: u64) -> Account<RegistryInstance> {
    Account {
        key: instance_key(instance),
        space: 56,
        data: Some(RegistryInstance { registry: REGISTRY, instance, entities: 0 }),
    }
}

fn authority_account(instance: u64) -> Account<InstanceAuthority> {
    Account {
        key: find_instance_authority(&REGISTRY, &instance_key(instance)).unwrap(),
        space: 48,
        data: Some(InstanceAuthority { instance, authority: PAYER }),
    }
}

fn registration(instance: u64, instances: &[u64], components: &[Pubkey]) -> Account<ActionBundleRegistration> {
    Account {
        key: find_action_bundle_registration(&REGISTRY, &instance_key(instance), &BUNDLE).unwrap(),
        space: 53,
        data: Some(ActionBundleRegistration {
            action_bundle: BUNDLE,
            instances: instances.iter().copied().collect(),
            can_mint: true,
            components: components.iter().copied().collect(),
        }),
    }
}

fn entity_account(instance: u64, entity_id: u64, components: Vec<(Pubkey, SerializedComponent)>) -> Account<Entity> {
    let mut space = 60;
    let mut map = BTreeMap::new();
    for (key, value) in components {
        space += value.max_size as usize + 44;
        map.insert(key, value);
    }
    Account {
        key: find_entity(&CORE, entity_id, &instance_key(instance)).unwrap(),
        space,
        data: Some(Entity { entity_id, instance, registry: REGISTRY, components: map }),
    }
}

fn entity_slot(instance: u64, entity_id: u64) -> Account<Entity> {
    Account::uninitialized(find_entity(&CORE, entity_id, &instance_key(instance)).unwrap())
}

#[test]
fn max_sizes_are_those_of_the_registry_records() {
    assert_eq!(RegistryConfig::get_max_size(), 40);
    assert_eq!(InstanceAuthority::get_max_size(), 40);
    assert_eq!(ComponentSchema::get_max_size(), 64);
    assert_eq!(ActionBundleRegistration::get_max_size(), 45);
}

#[test]
fn a_request_is_authorized_when_every_type_is_granted() {
    let granted: BTreeSet<Pubkey> = [METADATA, HEALTH].into_iter().collect();
    assert!(check_sys_registry(&vec![], &granted));
    assert!(check_sys_registry(&vec![METADATA], &granted));
    assert!(check_sys_registry(&vec![HEALTH, METADATA, HEALTH], &granted));
    assert!(!check_sys_registry(&vec![METADATA, (0, 999)], &granted));
    assert!(!check_sys_registry(&vec![(0, 999), METADATA], &granted));
    assert!(!check_sys_registry(&vec![METADATA], &BTreeSet::new()));
    assert!(check_sys_registry(&vec![], &BTreeSet::new()));
}

fn initialize_ctx() -> Context<Initialize> {
    Context {
        program_id: REGISTRY,
        accounts: Initialize {
            payer: signed(PAYER),
            registry_config: Account::uninitialized(find_registry_config(&REGISTRY).unwrap()),
        },
    }
}

#[test]
fn initalize_creates_the_configuration_once() {
    let mut ctx = initialize_ctx();
    assert_eq!(initalize(&mut ctx, CORE), Ok(()));
    assert_eq!(ctx.accounts.registry_config.space, 48);
    let made = ctx.accounts.registry_config.data.as_ref().unwrap();
    assert_eq!(made.core_ds, CORE);
    assert_eq!(made.components, 0);
    assert_eq!(initalize(&mut ctx, (9, 9)), Err(ComponentError::AlreadyInitialized));
    assert_eq!(ctx.accounts.registry_config.data.as_ref().unwrap().core_ds, CORE);
}

#[test]
fn initalize_refusals_change_nothing() {
    let mut ctx = initialize_ctx();
    ctx.accounts.payer.is_signer = false;
    assert_eq!(initalize(&mut ctx, CORE), Err(ComponentError::Unauthorized));
    let mut ctx = initialize_ctx();
    ctx.accounts.registry_config.key = (7, 7);
    assert_eq!(initalize(&mut ctx, CORE), Err(ComponentError::NotFound));
    assert!(ctx.accounts.registry_config.data.is_none());
}

fn instance_registry_ctx(instance: u64) -> Context<InstanceRegistry> {
    Context {
        program_id: REGISTRY,
        accounts: InstanceRegistry {
            payer: signed(PAYER),
            registry_config: config(),
            registry_instance: Account::uninitialized(instance_key(instance)),
            instance_authority: Account::uninitialized(
                find_instance_authority(&REGISTRY, &instance_key(instance)).unwrap(),
            ),
        },
    }
}

#[test]
fn instance_registry_creates_the_instance_and_its_authority() {
    let mut ctx = instance_registry_ctx(7);
    assert_eq!(instance_registry(&mut ctx, 7), Ok(()));
    let instance = ctx.accounts.registry_instance.data.as_ref().unwrap();
    assert_eq!(instance.registry, REGISTRY);
    assert_eq!(instance.instance, 7);
    assert_eq!(instance.entities, 0);
    assert_eq!(ctx.accounts.registry_instance.space, 56);
    let authority = ctx.accounts.instance_authority.data.as_ref().unwrap();
    assert_eq!(authority.instance, 7);
    assert_eq!(authority.authority, PAYER);
    assert_eq!(ctx.accounts.instance_authority.space, 48);
}

#[test]
fn instance_registry_refusals_change_nothing() {
    let mut ctx = instance_registry_ctx(7);
    assert_eq!(instance_registry(&mut ctx, 8), Err(ComponentError::NotFound));
    assert!(ctx.accounts.registry_instance.data.is_none());
    assert!(ctx.accounts.instance_authority.data.is_none());

    let mut ctx = instance_registry_ctx(7);
    ctx.accounts.registry_instance = instance_account(7);
    assert_eq!(instance_registry(&mut ctx, 7), Err(ComponentError::AlreadyExists));
    assert!(ctx.accounts.instance_authority.data.is_none());

    let mut ctx = instance_registry_ctx(7);
    ctx.accounts.instance_authority = authority_account(7);
    assert_eq!(instance_registry(&mut ctx, 7), Err(ComponentError::AlreadyExists));
    assert!(ctx.accounts.registry_instance.data.is_none());

    let mut ctx = instance_registry_ctx(7);
    ctx.accounts.instance_authority.key = (7, 7);
    assert_eq!(instance_registry(&mut ctx, 7), Err(ComponentError::NotFound));

    let mut ctx = instance_registry_ctx(7);
    ctx.accounts.registry_config.data = None;
    assert_eq!(instance_registry(&mut ctx, 7), Err(ComponentError::NotFound));

    let mut ctx = instance_registry_ctx(7);
    ctx.accounts.registry_config.key = (7, 7);
    assert_eq!(instance_registry(&mut ctx, 7), Err(ComponentError::Unauthorized));

    let mut ctx = instance_registry_ctx(7);
    ctx.accounts.payer.is_signer = false;
    assert_eq!(instance_registry(&mut ctx, 7), Err(ComponentError::Unauthorized));
}

fn register_component_ctx(locator: &str) -> Context<RegisterComponent> {
    Context {
        program_id: REGISTRY,
        accounts: RegisterComponent {
            payer: signed(PAYER),
            component: Account::uninitialized(
                find_component_schema(&REGISTRY, locator).unwrap_or((0, 0)),
            ),
            registry_config: config(),
        },
    }
}

#[test]
fn register_component_enters_the_schema_and_counts_it() {
    let mut ctx = register_component_ctx("arc://metadata");
    assert_eq!(register_component(&mut ctx, "arc://metadata".to_string()), Ok(()));
    assert_eq!(ctx.accounts.component.data.as_ref().unwrap().url, "arc://metadata");
    assert_eq!(ctx.accounts.component.space, 72);
    assert_eq!(ctx.accounts.registry_config.data.as_ref().unwrap().components, 1);
    assert_eq!(ctx.accounts.registry_config.data.as_ref().unwrap().core_ds, CORE);
}

#[test]
fn register_component_refuses_a_schema_that_is_there() {
    let mut ctx = register_component_ctx("arc://metadata");
    assert_eq!(register_component(&mut ctx, "arc://metadata".to_string()), Ok(()));
    assert_eq!(
        register_component(&mut ctx, "arc://metadata".to_string()),
        Err(ComponentError::DuplicateSchema)
    );
    assert_eq!(ctx.accounts.registry_config.data.as_ref().unwrap().components, 1);
}

#[test]
fn register_component_refusals_change_nothing() {
    let mut ctx = register_component_ctx("arc://metadata");
    assert_eq!(
        register_component(&mut ctx, "arc://health".to_string()),
        Err(ComponentError::NotFound)
    );
    let long = "x".repeat(33);
    let mut ctx = register_component_ctx(&long);
    assert_eq!(register_component(&mut ctx, long), Err(ComponentError::NotFound));
    let longer = "x".repeat(61);
    let mut ctx = register_component_ctx(&longer);
    assert_eq!(register_component(&mut ctx, longer), Err(ComponentError::PayloadTooLarge));
    let longest_kept = "x".repeat(60);
    let mut ctx = register_component_ctx(&longest_kept);
    assert_eq!(register_component(&mut ctx, longest_kept), Err(ComponentError::NotFound));

    let mut ctx = register_component_ctx("arc://metadata");
    ctx.accounts.registry_config.data.as_mut().unwrap().components = u64::MAX;
    assert_eq!(
        register_component(&mut ctx, "arc://metadata".to_string()),
        Err(ComponentError::SizeOverflow)
    );
    assert!(ctx.accounts.component.data.is_none());

    let mut ctx = register_component_ctx("arc://metadata");
    ctx.accounts.payer.is_signer = false;
    assert_eq!(
        register_component(&mut ctx, "arc://metadata".to_string()),
        Err(ComponentError::Unauthorized)
    );
    let mut ctx = register_component_ctx("arc://metadata");
    ctx.accounts.registry_config.data = None;
    assert_eq!(
        register_component(&mut ctx, "arc://metadata".to_string()),
        Err(ComponentError::NotFound)
    );
}

fn register_ctx(instance: u64) -> Context<RegisterSystem> {
    Context {
        program_id: REGISTRY,
        accounts: RegisterSystem {
            payer: signed(PAYER),
            registry_instance: instance_account(instance),
            instance_authority: authority_account(instance),
            action_bundle_registration: Account::uninitialized(
                find_action_bundle_registration(&REGISTRY, &instance_key(instance), &BUNDLE).unwrap(),
            ),
            action_bundle: BUNDLE,
        },
    }
}

#[test]
fn register_action_bundle_grants_the_instance_and_the_right_to_mint() {
    let mut ctx = register_ctx(7);
    assert_eq!(register_action_bundle(&mut ctx), Ok(()));
    assert_eq!(ctx.accounts.action_bundle_registration.space, 53);
    let made = ctx.accounts.action_bundle_registration.data.as_ref().unwrap();
    assert_eq!(made.action_bundle, BUNDLE);
    assert_eq!(made.instances.iter().copied().collect::<Vec<u64>>(), vec![7]);
    assert!(made.can_mint);
    assert!(made.components.is_empty());
    assert_eq!(register_action_bundle(&mut ctx), Err(ComponentError::AlreadyExists));
}

#[test]
fn register_action_bundle_is_for_the_authority_of_the_instance_alone() {
    let mut ctx = register_ctx(7);
    ctx.accounts.payer = signed((0, 101));
    assert_eq!(register_action_bundle(&mut ctx), Err(ComponentError::Unauthorized));
    assert!(ctx.accounts.action_bundle_registration.data.is_none());
    assert_eq!(ctx.accounts.action_bundle_registration.space, 0);

    let mut ctx = register_ctx(7);
    ctx.accounts.instance_authority.data.as_mut().unwrap().authority = (0, 101);
    assert_eq!(register_action_bundle(&mut ctx), Err(ComponentError::Unauthorized));
    assert!(ctx.accounts.action_bundle_registration.data.is_none());

    ctx.accounts.payer = signed((0, 101));
    assert_eq!(register_action_bundle(&mut ctx), Ok(()));
    assert!(ctx.accounts.action_bundle_registration.data.is_some());
}

#[test]
fn register_action_bundle_refusals_change_nothing() {
    let mut ctx = register_ctx(7);
    ctx.accounts.instance_authority = authority_account(8);
    assert_eq!(register_action_bundle(&mut ctx), Err(ComponentError::Unauthorized));

    let mut ctx = register_ctx(7);
    ctx.program_id = (4, 4);
    assert_eq!(register_action_bundle(&mut ctx), Err(ComponentError::Unauthorized));

    let mut ctx = register_ctx(7);
    ctx.accounts.payer.is_signer = false;
    assert_eq!(register_action_bundle(&mut ctx), Err(ComponentError::Unauthorized));

    let mut ctx = register_ctx(7);
    ctx.accounts.action_bundle = (0, 301);
    assert_eq!(register_action_bundle(&mut ctx), Err(ComponentError::NotFound));

    let mut ctx = register_ctx(7);
    ctx.accounts.instance_authority.data = None;
    assert_eq!(register_action_bundle(&mut ctx), Err(ComponentError::NotFound));
    assert!(ctx.accounts.action_bundle_registration.data.is_none());
}

fn grant_components_ctx(held: &[Pubkey]) -> Context<AddComponentsToActionBundleRegistration> {
    Context {
        program_id: REGISTRY,
        accounts: AddComponentsToActionBundleRegistration {
            payer: signed(PAYER),
            registry_instance: instance_account(7),
            instance_authority: authority_account(7),
            action_bundle_registration: registration(7, &[7], held),
            action_bundle: BUNDLE,
        },
    }
}

#[test]
fn a_grant_gives_the_union_and_the_granted_type_can_then_be_inserted() {
    let mut grant = grant_components_ctx(&[METADATA]);
    assert_eq!(add_components_to_action_bundle_registration(&mut grant, vec![HEALTH]), Ok(()));
    {
        let held = grant.accounts.action_bundle_registration.data.as_ref().unwrap();
        assert_eq!(held.components.iter().copied().collect::<Vec<Pubkey>>(), vec![METADATA, HEALTH]);
        assert_eq!(held.action_bundle, BUNDLE);
        assert!(held.can_mint);
    }
    let mut add = add_ctx(&[]);
    add.accounts.action_bundle_registration = grant.accounts.action_bundle_registration;
    assert_eq!(req_add_component(&mut add, vec![(HEALTH, component(8, &[1, 2]))]), Ok(()));
    let entity = add.accounts.entity.data.as_ref().unwrap();
    assert_eq!(entity.components[&HEALTH].data, vec![1, 2]);
    assert_eq!(entity.components[&HEALTH].max_size, 8);
    assert_eq!(entity.components[&METADATA].data, vec![1; 10]);
    assert_eq!(entity.components[&METADATA].max_size, 64);
    assert_eq!(entity.components.len(), 2);
    assert_eq!(add.accounts.entity.space, 60 + 108 + 52);
}

#[test]
fn granted_component_types_add_up() {
    let x: Pubkey = (0, 601);
    let y: Pubkey = (0, 602);
    let mut ctx = grant_components_ctx(&[]);
    assert_eq!(add_components_to_action_bundle_registration(&mut ctx, vec![x]), Ok(()));
    assert_eq!(ctx.accounts.action_bundle_registration.space, 53 + 32);
    assert_eq!(add_components_to_action_bundle_registration(&mut ctx, vec![y]), Ok(()));
    assert_eq!(ctx.accounts.action_bundle_registration.space, 53 + 64);
    let held = ctx.accounts.action_bundle_registration.data.as_ref().unwrap();
    assert_eq!(held.components.iter().copied().collect::<Vec<Pubkey>>(), vec![x, y]);
    assert_eq!(held.instances.iter().copied().collect::<Vec<u64>>(), vec![7]);
    assert!(held.can_mint);
    assert_eq!(held.action_bundle, BUNDLE);
}

#[test]
fn a_grant_of_a_held_type_keeps_the_grant() {
    let mut ctx = grant_components_ctx(&[METADATA]);
    assert_eq!(
        add_components_to_action_bundle_registration(&mut ctx, vec![METADATA, HEALTH, HEALTH]),
        Ok(())
    );
    let held = ctx.accounts.action_bundle_registration.data.as_ref().unwrap();
    assert_eq!(held.components.iter().copied().collect::<Vec<Pubkey>>(), vec![METADATA, HEALTH]);
    assert_eq!(ctx.accounts.action_bundle_registration.space, 53 + 3 * 32);
}

#[test]
fn grants_are_refused_without_the_authority_record_of_the_instance() {
    let mut ctx = grant_components_ctx(&[]);
    ctx.accounts.instance_authority = authority_account(8);
    assert_eq!(
        add_components_to_action_bundle_registration(&mut ctx, vec![METADATA]),
        Err(ComponentError::Unauthorized)
    );
    let mut ctx = grant_components_ctx(&[]);
    ctx.accounts.action_bundle = (0, 301);
    assert_eq!(
        add_components_to_action_bundle_registration(&mut ctx, vec![METADATA]),
        Err(ComponentError::NotFound)
    );
    let mut ctx = grant_components_ctx(&[]);
    ctx.accounts.action_bundle_registration.data = None;
    assert_eq!(
        add_components_to_action_bundle_registration(&mut ctx, vec![METADATA]),
        Err(ComponentError::NotFound)
    );
    let mut ctx = grant_components_ctx(&[]);
    ctx.accounts.action_bundle_registration.space = 10485760;
    assert_eq!(
        add_components_to_action_bundle_registration(&mut ctx, vec![METADATA]),
        Err(ComponentError::SizeOverflow)
    );
    assert!(ctx.accounts.action_bundle_registration.data.as_ref().unwrap().components.is_empty());
    assert_eq!(add_components_to_action_bundle_registration(&mut ctx, vec![]), Ok(()));
}

#[test]
fn granted_instances_add_up() {
    let mut ctx = Context {
        program_id: REGISTRY,
        accounts: AddInstancesToActionBundleRegistration {
            payer: signed(PAYER),
            registry_instance: instance_account(7),
            instance_authority: authority_account(7),
            action_bundle_registration: registration(7, &[7], &[METADATA]),
            action_bundle: BUNDLE,
        },
    };
    assert_eq!(add_instances_to_action_bundle_registration(&mut ctx, vec![9, 8]), Ok(()));
    assert_eq!(add_instances_to_action_bundle_registration(&mut ctx, vec![12]), Ok(()));
    let held = ctx.accounts.action_bundle_registration.data.as_ref().unwrap();
    assert_eq!(held.instances.iter().copied().collect::<Vec<u64>>(), vec![7, 8, 9, 12]);
    assert_eq!(held.components.iter().copied().collect::<Vec<Pubkey>>(), vec![METADATA]);
    assert_eq!(ctx.accounts.action_bundle_registration.space, 53 + 3 * 8);
    ctx.accounts.payer.is_signer = false;
    assert_eq!(
        add_instances_to_action_bundle_registration(&mut ctx, vec![13]),
        Err(ComponentError::Unauthorized)
    );
    assert_eq!(ctx.accounts.action_bundle_registration.data.as_ref().unwrap().instances.len(), 4);
}

fn init_entity_ctx(instance: u64, entity_id: u64, held: Account<ActionBundleRegistration>) -> Context<InitEntity> {
    Context {
        program_id: REGISTRY,
        accounts: InitEntity {
            payer: signed(PAYER),
            registry_config: config(),
            entity: entity_slot(instance, entity_id),
            registry_instance: instance_account(instance),
            action_bundle: signed(BUNDLE),
            action_bundle_registration: held,
        },
    }
}

#[test]
fn a_bundle_creates_entities_only_where_it_is_granted() {
    // Instance 7 is created.
    let mut world = instance_registry_ctx(7);
    assert_eq!(instance_registry(&mut world, 7), Ok(()));

    // The bundle is registered for instance 7: it may mint, and holds no component type.
    let mut register = Context {
        program_id: REGISTRY,
        accounts: RegisterSystem {
            payer: signed(PAYER),
            registry_instance: world.accounts.registry_instance,
            instance_authority: world.accounts.instance_authority,
            action_bundle_registration: Account::uninitialized(
                find_action_bundle_registration(&REGISTRY, &instance_key(7), &BUNDLE).unwrap(),
            ),
            action_bundle: BUNDLE,
        },
    };
    assert_eq!(register_action_bundle(&mut register), Ok(()));
    {
        let held = register.accounts.action_bundle_registration.data.as_ref().unwrap();
        assert!(held.can_mint);
        assert!(held.components.is_empty());
    }

    // The metadata component type is granted.
    let mut grant = Context {
        program_id: REGISTRY,
        accounts: AddComponentsToActionBundleRegistration {
            payer: signed(PAYER),
            registry_instance: register.accounts.registry_instance,
            instance_authority: register.accounts.instance_authority,
            action_bundle_registration: register.accounts.action_bundle_registration,
            action_bundle: BUNDLE,
        },
    };
    assert_eq!(add_components_to_action_bundle_registration(&mut grant, vec![METADATA]), Ok(()));

    // An entity of instance 7 with the metadata component is created.
    let mut create = Context {
        program_id: REGISTRY,
        accounts: InitEntity {
            payer: signed(PAYER),
            registry_config: config(),
            entity: entity_slot(7, 42),
            registry_instance: grant.accounts.registry_instance,
            action_bundle: signed(BUNDLE),
            action_bundle_registration: grant.accounts.action_bundle_registration,
        },
    };
    let mut components = BTreeMap::new();
    components.insert(METADATA, component(16, b"blob"));
    assert_eq!(init_entity(&mut create, 42, components), Ok(()));
    {
        let entity = create.accounts.entity.data.as_ref().unwrap();
        assert_eq!(entity.components.len(), 1);
        assert_eq!(entity.components[&METADATA].data, b"blob".to_vec());
        assert_eq!(entity.components[&METADATA].max_size, 16);
        assert_eq!(entity.entity_id, 42);
        assert_eq!(entity.instance, 7);
        assert_eq!(entity.registry, REGISTRY);
    }
    assert_eq!(create.accounts.entity.space, 60 + 16 + 44);
    assert_eq!(create.accounts.registry_instance.data.as_ref().unwrap().entities, 1);

    // Instance 9 was never granted to the bundle.
    let mut elsewhere = Context {
        program_id: REGISTRY,
        accounts: InitEntity {
            payer: signed(PAYER),
            registry_config: config(),
            entity: entity_slot(9, 42),
            registry_instance: instance_account(9),
            action_bundle: signed(BUNDLE),
            action_bundle_registration: create.accounts.action_bundle_registration,
        },
    };
    let mut components = BTreeMap::new();
    components.insert(METADATA, component(16, b"blob"));
    assert_eq!(init_entity(&mut elsewhere, 42, components), Err(ComponentError::Unauthorized));
    assert!(elsewhere.accounts.entity.data.is_none());
    assert_eq!(elsewhere.accounts.registry_instance.data.as_ref().unwrap().entities, 0);
}

#[test]
fn init_entity_is_refused_for_a_type_that_is_not_granted() {
    let mut ctx = init_entity_ctx(7, 42, registration(7, &[7], &[METADATA]));
    let mut components = BTreeMap::new();
    components.insert(METADATA, component(16, b"blob"));
    components.insert(HEALTH, component(8, &[1]));
    assert_eq!(init_entity(&mut ctx, 42, components), Err(ComponentError::Unauthorized));
    assert!(ctx.accounts.entity.data.is_none());
    assert_eq!(init_entity(&mut ctx, 42, BTreeMap::new()), Ok(()));
}

#[test]
fn init_entity_is_refused_for_another_bundle_or_without_its_signature() {
    let mut ctx = init_entity_ctx(7, 42, registration(7, &[7], &[METADATA]));
    ctx.accounts.action_bundle = signed((0, 301));
    assert_eq!(init_entity(&mut ctx, 42, BTreeMap::new()), Err(ComponentError::Unauthorized));
    let mut ctx = init_entity_ctx(7, 42, registration(7, &[7], &[METADATA]));
    ctx.accounts.action_bundle.is_signer = false;
    assert_eq!(init_entity(&mut ctx, 42, BTreeMap::new()), Err(ComponentError::Unauthorized));
    let mut ctx = init_entity_ctx(7, 42, registration(7, &[7], &[METADATA]));
    ctx.accounts.payer.is_signer = false;
    assert_eq!(init_entity(&mut ctx, 42, BTreeMap::new()), Err(ComponentError::Unauthorized));
    let mut ctx = init_entity_ctx(7, 42, registration(7, &[7], &[METADATA]));
    ctx.accounts.registry_instance.data.as_mut().unwrap().registry = (4, 4);
    assert_eq!(init_entity(&mut ctx, 42, BTreeMap::new()), Err(ComponentError::Unauthorized));
    let mut ctx = init_entity_ctx(7, 42, registration(7, &[7], &[METADATA]));
    ctx.accounts.action_bundle_registration.data = None;
    assert_eq!(init_entity(&mut ctx, 42, BTreeMap::new()), Err(ComponentError::NotFound));
}

#[test]
fn init_entity_passes_on_what_the_data_store_decides() {
    let mut ctx = init_entity_ctx(7, 42, registration(7, &[7], &[METADATA]));
    let mut components = BTreeMap::new();
    components.insert(METADATA, component(2, b"blob"));
    assert_eq!(init_entity(&mut ctx, 42, components), Err(ComponentError::PayloadTooLarge));
    let mut ctx = init_entity_ctx(7, 42, registration(7, &[7], &[METADATA]));
    ctx.accounts.entity = entity_account(7, 42, vec![]);
    assert_eq!(init_entity(&mut ctx, 42, BTreeMap::new()), Err(ComponentError::AlreadyExists));
    let mut ctx = init_entity_ctx(7, 42, registration(7, &[7], &[METADATA]));
    ctx.accounts.registry_config.data.as_mut().unwrap().core_ds = (5, 5);
    assert_eq!(init_entity(&mut ctx, 42, BTreeMap::new()), Err(ComponentError::NotFound));
}

fn add_ctx(held: &[Pubkey]) -> Context<AddComponents> {
    Context {
        program_id: REGISTRY,
        accounts: AddComponents {
            payer: signed(PAYER),
            registry_config: config(),
            entity: entity_account(7, 42, vec![(METADATA, component(64, &[1; 10]))]),
            action_bundle: signed(BUNDLE),
            action_bundle_registration: registration(7, &[7], held),
        },
    }
}

#[test]
fn a_type_that_is_not_granted_is_denied_until_it_is_granted() {
    let b: Pubkey = HEALTH;
    let mut add = add_ctx(&[METADATA]);
    for _ in 0..3 {
        assert_eq!(
            req_add_component(&mut add, vec![(b, component(8, &[1]))]),
            Err(ComponentError::Unauthorized)
        );
        assert_eq!(
            req_add_component(&mut add, vec![(METADATA, component(8, &[1])), (b, component(8, &[1]))]),
            Err(ComponentError::Unauthorized)
        );
    }
    assert_eq!(add.accounts.entity.data.as_ref().unwrap().components.len(), 1);
    assert_eq!(add.accounts.entity.space, 60 + 108);

    let mut remove = Context {
        program_id: REGISTRY,
        accounts: RemoveComponent {
            benefactor: signed(PAYER),
            registry_config: config(),
            entity: entity_account(7, 42, vec![(METADATA, component(64, &[1])), (b, component(8, &[1]))]),
            action_bundle: signed(BUNDLE),
            action_bundle_registration: registration(7, &[7], &[METADATA]),
        },
    };
    for _ in 0..3 {
        assert_eq!(req_remove_component(&mut remove, vec![b]), Err(ComponentError::Unauthorized));
    }
    assert_eq!(remove.accounts.entity.data.as_ref().unwrap().components.len(), 2);

    let mut modify = Context {
        program_id: REGISTRY,
        accounts: ModifyComponent {
            registry_config: config(),
            entity: entity_account(7, 42, vec![(METADATA, component(64, &[1])), (b, component(8, &[1]))]),
            action_bundle: signed(BUNDLE),
            action_bundle_registration: registration(7, &[7], &[METADATA]),
        },
    };
    for _ in 0..3 {
        assert_eq!(
            req_modify_component(&mut modify, vec![(b, vec![2])]),
            Err(ComponentError::Unauthorized)
        );
    }
    assert_eq!(modify.accounts.entity.data.as_ref().unwrap().components[&b].data, vec![1]);

    // Once the type is granted, the same requests go through.
    let mut grant = Context {
        program_id: REGISTRY,
        accounts: AddComponentsToActionBundleRegistration {
            payer: signed(PAYER),
            registry_instance: instance_account(7),
            instance_authority: authority_account(7),
            action_bundle_registration: modify.accounts.action_bundle_registration,
            action_bundle: BUNDLE,
        },
    };
    assert_eq!(add_components_to_action_bundle_registration(&mut grant, vec![b]), Ok(()));
    modify.accounts.action_bundle_registration = grant.accounts.action_bundle_registration;
    assert_eq!(req_modify_component(&mut modify, vec![(b, vec![2])]), Ok(()));
    assert_eq!(modify.accounts.entity.data.as_ref().unwrap().components[&b].data, vec![2]);
}

#[test]
fn granted_requests_are_forwarded_to_the_data_store() {
    let mut add = add_ctx(&[METADATA, HEALTH]);
    assert_eq!(req_add_component(&mut add, vec![(HEALTH, component(8, &[1]))]), Ok(()));
    assert_eq!(add.accounts.entity.space, 60 + 108 + 52);
    assert_eq!(add.accounts.entity.data.as_ref().unwrap().components.len(), 2);

    let mut modify = Context {
        program_id: REGISTRY,
        accounts: ModifyComponent {
            registry_config: config(),
            entity: add.accounts.entity,
            action_bundle: signed(BUNDLE),
            action_bundle_registration: add.accounts.action_bundle_registration,
        },
    };
    assert_eq!(
        req_modify_component(&mut modify, vec![(METADATA, vec![5; 100])]),
        Err(ComponentError::PayloadTooLarge)
    );
    assert_eq!(req_modify_component(&mut modify, vec![(METADATA, vec![5; 50])]), Ok(()));
    {
        let entity = modify.accounts.entity.data.as_ref().unwrap();
        assert_eq!(entity.components[&METADATA].data, vec![5; 50]);
        assert_eq!(entity.components[&METADATA].max_size, 64);
    }

    let mut remove = Context {
        program_id: REGISTRY,
        accounts: RemoveComponent {
            benefactor: signed(PAYER),
            registry_config: config(),
            entity: modify.accounts.entity,
            action_bundle: signed(BUNDLE),
            action_bundle_registration: modify.accounts.action_bundle_registration,
        },
    };
    assert_eq!(req_remove_component(&mut remove, vec![(0, 999)]), Err(ComponentError::Unauthorized));
    assert_eq!(req_remove_component(&mut remove, vec![HEALTH, HEALTH]), Err(ComponentError::NotFound));
    assert_eq!(req_remove_component(&mut remove, vec![HEALTH]), Ok(()));
    assert_eq!(remove.accounts.entity.space, 60 + 108);

    let mut destroy = Context {
        program_id: REGISTRY,
        accounts: RemoveEntity {
            benefactor: signed(PAYER),
            registry_config: config(),
            entity: remove.accounts.entity,
            action_bundle: signed(BUNDLE),
            action_bundle_registration: remove.accounts.action_bundle_registration,
        },
    };
    assert_eq!(req_remove_entity(&mut destroy), Err(ComponentError::NotEmpty));
    let mut remove = Context {
        program_id: REGISTRY,
        accounts: RemoveComponent {
            benefactor: signed(PAYER),
            registry_config: config(),
            entity: destroy.accounts.entity,
            action_bundle: signed(BUNDLE),
            action_bundle_registration: destroy.accounts.action_bundle_registration,
        },
    };
    assert_eq!(req_remove_component(&mut remove, vec![METADATA]), Ok(()));
    assert_eq!(remove.accounts.entity.space, 60);
    let mut destroy = Context {
        program_id: REGISTRY,
        accounts: RemoveEntity {
            benefactor: signed(PAYER),
            registry_config: config(),
            entity: remove.accounts.entity,
            action_bundle: signed(BUNDLE),
            action_bundle_registration: remove.accounts.action_bundle_registration,
        },
    };
    assert_eq!(req_remove_entity(&mut destroy), Ok(()));
    assert!(destroy.accounts.entity.data.is_none());
    assert_eq!(destroy.accounts.entity.space, 0);
}

#[test]
fn requests_on_an_entity_of_an_instance_that_is_not_granted_are_denied() {
    let mut add = add_ctx(&[METADATA]);
    add.accounts.action_bundle_registration = registration(7, &[8], &[METADATA]);
    assert_eq!(
        req_add_component(&mut add, vec![(METADATA, component(8, &[1]))]),
        Err(ComponentError::Unauthorized)
    );
    let mut add = add_ctx(&[METADATA]);
    add.accounts.entity.data.as_mut().unwrap().registry = (4, 4);
    assert_eq!(req_add_component(&mut add, vec![]), Err(ComponentError::Unauthorized));
    let mut add = add_ctx(&[METADATA]);
    add.accounts.registry_config.key = (7, 7);
    assert_eq!(req_add_component(&mut add, vec![]), Err(ComponentError::Unauthorized));
    let mut add = add_ctx(&[METADATA]);
    add.accounts.entity.data = None;
    assert_eq!(req_add_component(&mut add, vec![]), Err(ComponentError::NotFound));
}

fn mint_ctx(can_mint: bool) -> Context<MintARCNFT> {
    let mint: Pubkey = (0, 900);
    let entity = entity_account(7, 42, vec![]);
    let arcnft = Account::uninitialized(find_arcnft(&CORE, &mint, &entity.key).unwrap());
    let mut held = registration(7, &[7], &[]);
    held.data.as_mut().unwrap().can_mint = can_mint;
    Context {
        program_id: REGISTRY,
        accounts: MintARCNFT {
            payer: signed(PAYER),
            registry_config: config(),
            entity,
            mint,
            arcnft,
            registry_instance: instance_account(7),
            action_bundle: signed(BUNDLE),
            action_bundle_registration: held,
        },
    }
}

#[test]
fn mint_arcnft_asks_for_the_right_to_mint() {
    let mut ctx = mint_ctx(false);
    assert_eq!(mint_arcnft(&mut ctx), Err(ComponentError::Unauthorized));
    assert!(ctx.accounts.arcnft.data.is_none());
    let mut ctx = mint_ctx(true);
    assert_eq!(mint_arcnft(&mut ctx), Ok(()));
    let link = ctx.accounts.arcnft.data.as_ref().unwrap();
    assert_eq!(link.mint, (0, 900));
    assert_eq!(link.entity, ctx.accounts.entity.key);
    assert_eq!(mint_arcnft(&mut ctx), Err(ComponentError::AlreadyLinked));
}

#[test]
fn mint_arcnft_asks_for_the_instance_and_the_bundle() {
    let mut ctx = mint_ctx(true);
    ctx.accounts.action_bundle_registration = registration(7, &[8], &[]);
    assert_eq!(mint_arcnft(&mut ctx), Err(ComponentError::Unauthorized));
    let mut ctx = mint_ctx(true);
    ctx.accounts.action_bundle = signed((0, 301));
    assert_eq!(mint_arcnft(&mut ctx), Err(ComponentError::Unauthorized));
    let mut ctx = mint_ctx(false);
    ctx.accounts.action_bundle_registration.data.as_mut().unwrap().instances.insert(9);
    assert_eq!(mint_arcnft(&mut ctx), Err(ComponentError::Unauthorized));
    assert!(ctx.accounts.arcnft.data.is_none());
}

#[test]
fn mint_arcnft_links_an_entity_of_another_instance_of_the_registry() {
    // The bundle is granted instances 7 and 9; it asks in instance 7 for an entity of instance 9.
    let mut ctx = mint_ctx(true);
    ctx.accounts.action_bundle_registration = registration(7, &[7, 9], &[]);
    ctx.accounts.entity = entity_account(9, 42, vec![]);
    ctx.accounts.arcnft =
        Account::uninitialized(find_arcnft(&CORE, &ctx.accounts.mint, &ctx.accounts.entity.key).unwrap());
    assert_eq!(mint_arcnft(&mut ctx), Ok(()));
    let link = ctx.accounts.arcnft.data.as_ref().unwrap();
    assert_eq!(link.entity, ctx.accounts.entity.key);
    assert_eq!(link.mint, (0, 900));
    assert_eq!(mint_arcnft(&mut ctx), Err(ComponentError::AlreadyLinked));

    // The instance that is given has to be granted, whatever the instance of the entity.
    let mut ctx = mint_ctx(true);
    ctx.accounts.action_bundle_registration = registration(7, &[9], &[]);
    ctx.accounts.entity = entity_account(9, 42, vec![]);
    ctx.accounts.arcnft =
        Account::uninitialized(find_arcnft(&CORE, &ctx.accounts.mint, &ctx.accounts.entity.key).unwrap());
    assert_eq!(mint_arcnft(&mut ctx), Err(ComponentError::Unauthorized));
    assert!(ctx.accounts.arcnft.data.is_none());

    // An entity of another registry is for the data store to refuse.
    let mut ctx = mint_ctx(true);
    ctx.accounts.entity.data.as_mut().unwrap().registry = (4, 4);
    assert_eq!(mint_arcnft(&mut ctx), Err(ComponentError::Unauthorized));
    // A missing entity is for the data store to report.
    let mut ctx = mint_ctx(true);
    ctx.accounts.entity.data = None;
    assert_eq!(mint_arcnft(&mut ctx), Err(ComponentError::NotFound));
}
