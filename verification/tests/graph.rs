use inexor_rgf::components::ComponentManager;
use inexor_rgf::entity_type::Component;
use inexor_rgf::errors::validation_error_text;
use inexor_rgf::errors::ReactiveRelationInstanceCreationError;
use inexor_rgf::errors::ValidationError;
use inexor_rgf::events::RelationInstanceId;
use inexor_rgf::instances::EntityInstance;
use inexor_rgf::instances::EntityInstanceImportError;
use inexor_rgf::instances::EntityInstanceManagerImpl;
use inexor_rgf::json::Json;
use inexor_rgf::json::JsonNumber;
use inexor_rgf::model::DataType;
use inexor_rgf::model::PropertyType;
use inexor_rgf::relation_type::ComponentOrEntityTypeId;
use inexor_rgf::relation_type::RelationType;
use inexor_rgf::relations::PluginRelationInstanceCreationError;
use inexor_rgf::relations::ReactiveRelationCreationError;
use inexor_rgf::relations::RelationInstance;
use inexor_rgf::relations::RelationInstanceCreationError;
use inexor_rgf::relations::RelationInstanceImportError;
use inexor_rgf::relations::RelationInstanceManagerImpl;
use inexor_rgf::types::ComponentTypeId;
use inexor_rgf::types::EntityTypeId;
use inexor_rgf::types::RelationTypeId;

fn entity(id: u128) -> EntityInstance {
    EntityInstance { ty: EntityTypeId::new_from_type("ns", "thing"), id, properties: vec![("label".to_string(), Json::Null)] }
}

fn key(outbound_id: u128, inbound_id: u128) -> RelationInstanceId {
    RelationInstanceId { outbound_id, ty: RelationTypeId::new_from_type("ns", "connects"), inbound_id }
}

#[test]
fn entity_instances() {
    let mut m = EntityInstanceManagerImpl::new();
    assert_eq!(Ok(1), m.create_from_instance(entity(1)).map_err(|_| ()));
    assert!(m.has(1));
    assert!(m.create_from_instance(entity(1)).is_err());
    assert_eq!(Ok(1), m.create_from_instance_if_not_exist(entity(1)).map_err(|_| ()));
    assert_eq!(1, m.count());
    let random = m.create(&EntityTypeId::new_from_type("ns", "thing"), vec![]).unwrap();
    assert!(m.has(random));
    assert_eq!(2, m.count());
    let mut changed = entity(1);
    changed.properties = vec![("label".to_string(), Json::Bool(true))];
    m.commit(changed);
    match &m.get(1).unwrap().properties[0].1 {
        Json::Bool(true) => {},
        _ => panic!("not committed"),
    }
    match m.import(entity(1)) {
        Err(EntityInstanceImportError::EntityAlreadyExists(1)) => {},
        _ => panic!("imported twice"),
    }
    m.delete(1);
    assert!(!m.has(1));
    m.delete(1);
    assert!(m.get(1).is_none());
    assert!(m.import(entity(1)).is_ok());
}

#[test]
fn relation_creation_checks_in_order() {
    let mut entities = EntityInstanceManagerImpl::new();
    let mut relations = RelationInstanceManagerImpl::new();
    match relations.create(&entities, &key(1, 2), vec![]) {
        Err(RelationInstanceCreationError::MissingOutboundEntityInstance(1)) => {},
        _ => panic!("outbound entity should be missing"),
    }
    entities.create_from_instance(entity(1)).unwrap();
    match relations.create(&entities, &key(1, 2), vec![]) {
        Err(RelationInstanceCreationError::MissingInboundEntityInstance(2)) => {},
        _ => panic!("inbound entity should be missing"),
    }
    entities.create_from_instance(entity(2)).unwrap();
    assert!(relations.create(&entities, &key(1, 2), vec![]).is_ok());
    assert!(relations.has(&key(1, 2)));
    match relations.create(&entities, &key(1, 2), vec![]) {
        Err(RelationInstanceCreationError::EdgeAlreadyExists(k)) => assert_eq!(1, k.outbound_id),
        _ => panic!("edge should exist"),
    }
    assert_eq!(1, relations.get_by_outbound_entity(1).len());
    assert_eq!(0, relations.get_by_outbound_entity(2).len());
    // the lookup by inbound entity goes by the outbound id
    assert_eq!(1, relations.get_by_inbound_entity(1).len());
    assert_eq!(0, relations.get_by_inbound_entity(2).len());
    assert!(relations.delete(&key(1, 2)));
    assert!(!relations.has(&key(1, 2)));
    let imported = RelationInstance { outbound_id: 7, ty: RelationTypeId::new_from_type("ns", "connects"), inbound_id: 8, properties: vec![] };
    assert!(relations.import(imported).is_ok());
}

#[test]
fn typed_creation_adds_default_values() {
    let mut entities = EntityInstanceManagerImpl::new();
    entities.create_from_instance(entity(1)).unwrap();
    entities.create_from_instance(entity(2)).unwrap();
    let mut components = ComponentManager::new();
    let labeled = ComponentTypeId::new_from_type("core", "labeled");
    components
        .register(Component::new(labeled.duplicate(), "", vec![PropertyType::new("label", DataType::String), PropertyType::new("count", DataType::Number)], vec![]))
        .unwrap();
    let rt = RelationType::new(
        ComponentOrEntityTypeId::EntityType(EntityTypeId::new_from_type("ns", "thing")),
        RelationTypeId::new_from_type("ns", "connects"),
        ComponentOrEntityTypeId::EntityType(EntityTypeId::new_from_type("ns", "thing")),
        "",
        vec![labeled.duplicate(), ComponentTypeId::new_from_type("core", "missing")],
        vec![PropertyType::new("weight", DataType::Array), PropertyType::new("flag", DataType::Bool)],
        vec![],
    );
    let mut relations = RelationInstanceManagerImpl::new();
    let instance = RelationInstance {
        outbound_id: 1,
        ty: RelationTypeId::new_from_type("ns", "connects"),
        inbound_id: 2,
        properties: vec![("flag".to_string(), Json::Bool(true))],
    };
    match relations.create_typed(&entities, &components, None, instance) {
        Err(ReactiveRelationCreationError::UnknownRelationType(t)) => assert_eq!("connects", t.name),
        _ => panic!("relation type should be unknown"),
    }
    let instance = RelationInstance {
        outbound_id: 1,
        ty: RelationTypeId::new_from_type("ns", "connects"),
        inbound_id: 2,
        properties: vec![("flag".to_string(), Json::Bool(true))],
    };
    let created = relations.create_typed(&entities, &components, Some(&rt), instance).unwrap();
    let names: Vec<&str> = created.properties.iter().map(|(n, _)| n.as_str()).collect();
    assert_eq!(vec!["flag", "weight", "label", "count"], names);
    match &created.properties[0].1 {
        Json::Bool(true) => {},
        _ => panic!("own value should be kept"),
    }
    match &created.properties[3].1 {
        Json::Number(JsonNumber::PosInt(0)) => {},
        _ => panic!("default number should be 0"),
    }
    // a second creation hands back the existing instance
    let again = RelationInstance { outbound_id: 1, ty: RelationTypeId::new_from_type("ns", "connects"), inbound_id: 2, properties: vec![] };
    let existing = relations.create_typed(&entities, &components, Some(&rt), again).unwrap();
    assert_eq!(4, existing.properties.len());
}

#[test]
fn error_messages() {
    assert_eq!("invalid value", validation_error_text(&ValidationError::InvalidValue));
    assert_eq!("value too long", validation_error_text(&ValidationError::ValueTooLong));
    assert_eq!("could not increment the UUID", validation_error_text(&ValidationError::CannotIncrementUuid));
    assert_eq!(
        "Validation Error: value too long",
        ReactiveRelationInstanceCreationError::ValidationError(ValidationError::ValueTooLong).message()
    );
    assert_eq!("The edge key is invalid", ReactiveRelationInstanceCreationError::InvalidEdgeKey.message());
    assert_eq!("The created instance cannot be found", ReactiveRelationInstanceCreationError::MissingInstance.message());
    assert_eq!(
        "The outbound entity instance 00000000-0000-0000-0000-00000000002a cannot be found",
        ReactiveRelationInstanceCreationError::MissingOutboundEntityInstance(42).message()
    );
    assert_eq!(
        "Failed to create reactive relation instance: The inbound entity instance 67e55044-10b1-426f-9247-bb680e5fe0c8 cannot be found",
        ReactiveRelationInstanceCreationError::RelationInstanceCreationError(RelationInstanceCreationError::MissingInboundEntityInstance(
            0x67e55044_10b1_426f_9247_bb680e5fe0c8
        ))
        .message()
    );
}

#[test]
fn plugin_creation_adds_relation_type_defaults_only() {
    let mut entities = EntityInstanceManagerImpl::new();
    entities.create_from_instance(entity(1)).unwrap();
    entities.create_from_instance(entity(2)).unwrap();
    let labeled = ComponentTypeId::new_from_type("core", "labeled");
    let rt = RelationType::new(
        ComponentOrEntityTypeId::EntityType(EntityTypeId::new_from_type("ns", "thing")),
        RelationTypeId::new_from_type("ns", "connects"),
        ComponentOrEntityTypeId::EntityType(EntityTypeId::new_from_type("ns", "thing")),
        "",
        vec![labeled],
        vec![PropertyType::new("weight", DataType::Array), PropertyType::new("flag", DataType::Bool)],
        vec![],
    );
    let mut relations = RelationInstanceManagerImpl::new();
    let instance = || RelationInstance {
        outbound_id: 1,
        ty: RelationTypeId::new_from_type("ns", "connects"),
        inbound_id: 2,
        properties: vec![("flag".to_string(), Json::Bool(true))],
    };
    assert_eq!(Some(PluginRelationInstanceCreationError::Failed), relations.create_with_type_defaults(&entities, None, instance()).err());
    assert!(!relations.has(&key(1, 2)));
    let created = relations.create_with_type_defaults(&entities, Some(&rt), instance()).unwrap();
    let names: Vec<&str> = created.properties.iter().map(|(n, _)| n.as_str()).collect();
    assert_eq!(vec!["flag", "weight"], names);
    match &created.properties[1].1 {
        Json::Array(items) => assert!(items.is_empty()),
        _ => panic!("default array should be empty"),
    }
    assert!(relations.has(&key(1, 2)));
    // the key is taken now
    assert_eq!(Some(PluginRelationInstanceCreationError::Failed), relations.create_with_type_defaults(&entities, Some(&rt), instance()).err());
    // an end that does not exist
    let dangling = RelationInstance { outbound_id: 1, ty: RelationTypeId::new_from_type("ns", "connects"), inbound_id: 9, properties: vec![] };
    assert_eq!(Some(PluginRelationInstanceCreationError::Failed), relations.create_with_type_defaults(&entities, Some(&rt), dangling).err());
}

#[test]
fn relation_edge_of_an_invalid_type_is_refused() {
    let mut entities = EntityInstanceManagerImpl::new();
    entities.create_from_instance(entity(1)).unwrap();
    entities.create_from_instance(entity(2)).unwrap();
    let mut relations = RelationInstanceManagerImpl::new();
    let bad = RelationInstanceId { outbound_id: 1, ty: RelationTypeId::new_from_type("ns", "con nects"), inbound_id: 2 };
    match relations.create(&entities, &bad, vec![]) {
        Err(RelationInstanceCreationError::RelationEdgeCreationError(ValidationError::InvalidValue)) => {},
        _ => panic!("the edge type should be refused"),
    }
    assert!(!relations.has(&bad));
    let long = RelationInstanceId { outbound_id: 1, ty: RelationTypeId::new_from_type("ns", &"a".repeat(260)), inbound_id: 2 };
    match relations.create(&entities, &long, vec![]) {
        Err(RelationInstanceCreationError::RelationEdgeCreationError(ValidationError::ValueTooLong)) => {},
        _ => panic!("the edge type should be too long"),
    }
    let imported = RelationInstance { outbound_id: 7, ty: RelationTypeId::new_from_type("ns", "con nects"), inbound_id: 8, properties: vec![] };
    match relations.import(imported) {
        Err(RelationInstanceImportError::RelationEdgeCreation(ValidationError::InvalidValue)) => {},
        _ => panic!("the imported edge type should be refused"),
    }
    assert_eq!(
        "The relation edge cannot be created: invalid value",
        RelationInstanceCreationError::RelationEdgeCreationError(ValidationError::InvalidValue).message()
    );
}
