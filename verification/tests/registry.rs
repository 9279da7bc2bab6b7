use component_registry::registration::ComponentRegistration;
use component_registry::registry::ComponentRegistryBuilder;
use legion::storage::ComponentTypeId;

struct Position {
    _x: u32,
    _y: u32,
}

struct Velocity {
    _dx: u32,
    _dy: u32,
}

struct Translation {
    _x: u32,
    _y: u32,
}

#[test]
fn empty_builder_builds_empty_registry() {
    let registry = ComponentRegistryBuilder::new().build();
    assert_eq!(registry.components().len(), 0);
    assert_eq!(registry.components_by_uuid().len(), 0);
    assert_eq!(registry.spawn_mappings().len(), 0);
}

#[test]
fn default_builder_is_empty() {
    let registry = ComponentRegistryBuilder::default().build();
    assert_eq!(registry.components().len(), 0);
    assert_eq!(registry.components_by_uuid().len(), 0);
    assert_eq!(registry.spawn_mappings().len(), 0);
}

#[test]
fn registration_accessors_return_what_was_given() {
    let id = ComponentTypeId::of::<Position>();
    let uuid: [u8; 16] = [3u8; 16];
    let reg = ComponentRegistration::new(id, uuid);
    assert_eq!(reg.component_type_id(), id);
    assert_eq!(reg.uuid(), uuid);
}

#[test]
fn register_single_component() {
    let id = ComponentTypeId::of::<Position>();
    let uuid: [u8; 16] = [1u8; 16];
    let reg = ComponentRegistration::new(id, uuid);
    let registry = ComponentRegistryBuilder::new().register_component(&reg).build();

    assert_eq!(registry.components().len(), 1);
    assert_eq!(registry.components_by_uuid().len(), 1);
    let by_id = registry.components().get(&id).expect("entry under the type id");
    assert_eq!(by_id.uuid(), uuid);
    let by_uuid = registry.components_by_uuid().get(&uuid).expect("entry under the uuid");
    assert_eq!(by_uuid.component_type_id(), id);
}

#[test]
fn register_two_distinct_components() {
    let pos = ComponentRegistration::new(ComponentTypeId::of::<Position>(), [1u8; 16]);
    let vel = ComponentRegistration::new(ComponentTypeId::of::<Velocity>(), [2u8; 16]);
    let registry = ComponentRegistryBuilder::new()
        .register_component(&pos)
        .register_component(&vel)
        .build();

    assert_eq!(registry.components().len(), 2);
    assert_eq!(registry.components_by_uuid().len(), 2);
    assert_eq!(
        registry.components().get(&ComponentTypeId::of::<Position>()).unwrap().uuid(),
        [1u8; 16]
    );
    assert_eq!(
        registry.components().get(&ComponentTypeId::of::<Velocity>()).unwrap().uuid(),
        [2u8; 16]
    );
}

#[test]
fn reregistering_a_type_replaces_its_entry() {
    let id = ComponentTypeId::of::<Position>();
    let first = ComponentRegistration::new(id, [1u8; 16]);
    let second = ComponentRegistration::new(id, [9u8; 16]);
    let registry = ComponentRegistryBuilder::new()
        .register_component(&first)
        .register_component(&second)
        .build();

    // The id-keyed table keeps only the later registration; the uuid-keyed
    // table keeps one entry per distinct uuid.
    assert_eq!(registry.components().len(), 1);
    assert_eq!(registry.components().get(&id).unwrap().uuid(), [9u8; 16]);
    assert_eq!(registry.components_by_uuid().len(), 2);
    assert_eq!(
        registry.components_by_uuid().get(&[1u8; 16]).unwrap().component_type_id(),
        id
    );
    assert_eq!(
        registry.components_by_uuid().get(&[9u8; 16]).unwrap().component_type_id(),
        id
    );
}

#[test]
fn register_components_registers_in_order() {
    let pos_id = ComponentTypeId::of::<Position>();
    let vel_id = ComponentTypeId::of::<Velocity>();
    let regs = vec![
        ComponentRegistration::new(pos_id, [1u8; 16]),
        ComponentRegistration::new(vel_id, [2u8; 16]),
        ComponentRegistration::new(pos_id, [8u8; 16]),
    ];
    let registry = ComponentRegistryBuilder::new().register_components(&regs).build();

    assert_eq!(registry.components().len(), 2);
    assert_eq!(registry.components().get(&pos_id).unwrap().uuid(), [8u8; 16]);
    assert_eq!(registry.components().get(&vel_id).unwrap().uuid(), [2u8; 16]);
    assert_eq!(registry.components_by_uuid().len(), 3);
}

#[test]
fn spawn_mapping_is_recorded() {
    let from = ComponentTypeId::of::<Position>();
    let into = ComponentTypeId::of::<Translation>();
    let registry = ComponentRegistryBuilder::new().add_spawn_mapping(from, into).build();

    assert_eq!(registry.spawn_mappings().len(), 1);
    assert_eq!(*registry.spawn_mappings().get(&from).unwrap(), into);
    assert_eq!(registry.components().len(), 0);
}

#[test]
fn later_spawn_mapping_for_same_source_wins() {
    let from = ComponentTypeId::of::<Position>();
    let registry = ComponentRegistryBuilder::new()
        .add_spawn_mapping(from, ComponentTypeId::of::<Velocity>())
        .add_spawn_mapping(from, ComponentTypeId::of::<Translation>())
        .build();

    assert_eq!(registry.spawn_mappings().len(), 1);
    assert_eq!(
        *registry.spawn_mappings().get(&from).unwrap(),
        ComponentTypeId::of::<Translation>()
    );
}

#[test]
fn build_keeps_every_table() {
    let pos = ComponentRegistration::new(ComponentTypeId::of::<Position>(), [1u8; 16]);
    let registry = ComponentRegistryBuilder::new()
        .register_component(&pos)
        .add_spawn_mapping(
            ComponentTypeId::of::<Position>(),
            ComponentTypeId::of::<Translation>(),
        )
        .build();

    assert_eq!(registry.components().len(), 1);
    assert_eq!(registry.components_by_uuid().len(), 1);
    assert_eq!(registry.spawn_mappings().len(), 1);
}
