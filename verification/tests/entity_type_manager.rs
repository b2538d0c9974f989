use std::sync::atomic::AtomicU64;
use std::sync::atomic::Ordering;

use inexor_rgf::components::ComponentManager;
use inexor_rgf::divergent::is_divergent;
use inexor_rgf::entity_type::Component;
use inexor_rgf::entity_type::EntityType;
use inexor_rgf::entity_types::EntityTypeManagerImpl;
use inexor_rgf::entity_types::EntityTypeRegistrationError;
use inexor_rgf::events::SystemEvent;
use inexor_rgf::json::Json;
use inexor_rgf::model::DataType;
use inexor_rgf::model::PropertyType;
use inexor_rgf::types::ComponentTypeId;
use inexor_rgf::types::EntityTypeId;
use inexor_rgf::types::ExtensionTypeId;

static COUNTER: AtomicU64 = AtomicU64::new(1);

const CHARSET_LETTERS: &str = "abcdefghijklmnopqrstuvwxyzABCDEFGHIJKLMNOPQRSTUVWXYZ";

fn r_string() -> String {
    let mut n = COUNTER.fetch_add(1, Ordering::SeqCst).wrapping_mul(6364136223846793005).wrapping_add(1442695040888963407);
    let letters: Vec<char> = CHARSET_LETTERS.chars().collect();
    let mut s = String::new();
    for _ in 0..10 {
        s.push(letters[(n % 52) as usize]);
        n = n.wrapping_mul(6364136223846793005).wrapping_add(1442695040888963407) >> 3;
    }
    s
}

fn default_entity_type() -> EntityType {
    let ty = EntityTypeId::new_from_type(&r_string(), &r_string());
    EntityType::new(ty, &r_string(), vec![], vec![PropertyType::new(&r_string(), DataType::String)], vec![])
}

fn default_component() -> Component {
    let ty = ComponentTypeId::new_from_type(&r_string(), &r_string());
    Component::new(ty, &r_string(), vec![PropertyType::new(&r_string(), DataType::String)], vec![])
}

#[test]
fn test_register_entity_type() {
    let component_manager = ComponentManager::new();
    let mut entity_type_manager = EntityTypeManagerImpl::new();

    let namespace = r_string();
    let name_of_type = r_string();
    let description = r_string();

    let component_ty = ComponentTypeId::new_from_type(&namespace, &r_string());
    let entity_type = EntityType::new(
        EntityTypeId::new_from_type(&namespace, &name_of_type),
        &description,
        vec![component_ty],
        vec![PropertyType::new("x", DataType::String)],
        vec![],
    );
    let ty = entity_type.ty().duplicate();
    let result = entity_type_manager.register(&component_manager, entity_type);
    assert!(result.is_ok());
    assert!(entity_type_manager.has_by_type(&namespace, &name_of_type));
    assert!(entity_type_manager.has(&ty));

    assert_eq!(name_of_type, entity_type_manager.get_by_type(&namespace, &name_of_type).unwrap().ty().name());
    assert_eq!(name_of_type, entity_type_manager.get(&ty).unwrap().ty().name());
}

#[test]
fn test_create_and_delete_entity_type() {
    let component_manager = ComponentManager::new();
    let mut entity_type_manager = EntityTypeManagerImpl::new();

    let entity_type = entity_type_manager.register(&component_manager, default_entity_type()).expect("Failed to register the entity type!");
    let ty = entity_type.ty().duplicate();

    assert!(entity_type_manager.has(&ty), "The entity type should be registered!");
    entity_type_manager.delete(&ty).expect("Failed to delete the entity type!");
    assert!(!entity_type_manager.has(&ty), "The entity type shouldn't be registered anymore!");
    assert!(entity_type_manager.get(&ty).is_none(), "The entity type shouldn't be registered anymore!");
}

#[test]
fn test_get_entity_types() {
    let component_manager = ComponentManager::new();
    let mut entity_type_manager = EntityTypeManagerImpl::new();

    let entity_type = entity_type_manager.register(&component_manager, default_entity_type()).expect("Failed to register the entity type!");
    assert!(entity_type_manager.has(entity_type.ty()), "The entity type should be registered!");
    let entity_types = entity_type_manager.get_all();
    assert_eq!(1, entity_types.len(), "There should be exactly one entity type!");
    for entity_type in entity_types.iter() {
        assert!(entity_type_manager.has(entity_type.ty()), "It should be possible to check if the returned entity types are registered!");
        let _ = entity_type_manager.get(entity_type.ty()).expect("It should be possible to get the returned entity types by type id!");
    }
}

#[test]
fn test_register_entity_type_has_component() {
    let mut component_manager = ComponentManager::new();
    let mut entity_type_manager = EntityTypeManagerImpl::new();

    let component = component_manager.register(default_component()).expect("Failed to register component!");

    let entity_ty = EntityTypeId::new_from_type(&r_string(), &r_string());
    let entity_type = EntityType::new(entity_ty.duplicate(), "", vec![component.ty().duplicate()], vec![], vec![]);

    let _entity_type = entity_type_manager.register(&component_manager, entity_type).expect("Failed to register entity type!");
    let entity_type = entity_type_manager.get(&entity_ty).expect("It should be possible to get the entity type by type id!");
    assert!(entity_type.is_a(component.ty()), "The entity type should contain the component!");
    assert!(entity_type.components().iter().any(|c| c.same(component.ty())), "The entity type should contain the component!");
}

#[test]
fn test_register_entity_type_has_property() {
    let component_manager = ComponentManager::new();
    let mut entity_type_manager = EntityTypeManagerImpl::new();

    let property_type = PropertyType::new(&r_string(), DataType::String);

    let entity_ty = EntityTypeId::new_from_type(&r_string(), &r_string());
    let components = vec![
        ComponentTypeId::new_from_type(&r_string(), &r_string()),
        ComponentTypeId::new_from_type(&r_string(), &r_string()),
    ];
    let entity_type = EntityType::new(entity_ty.duplicate(), "", components, vec![property_type.duplicate()], vec![]);

    let _entity_type = entity_type_manager.register(&component_manager, entity_type).expect("Failed to register entity type!");
    let entity_type = entity_type_manager.get(&entity_ty).expect("It should be possible to get the entity type by type id!");
    assert!(entity_type.has_own_property(&property_type.name));
    assert!(entity_type.properties().iter().any(|p| p.name == property_type.name));
}

fn divergent_list(entity_type: &EntityType) -> Vec<String> {
    let ty = ExtensionTypeId::new_from_type("core", "divergent");
    match entity_type.get_own_extension(&ty).expect("divergent extension").extension {
        Json::Array(items) => items
            .into_iter()
            .map(|i| match i {
                Json::String(s) => s,
                _ => panic!("not a string"),
            })
            .collect(),
        _ => panic!("not an array"),
    }
}

#[test]
fn register_merges_component_properties_and_lists_divergent_components() {
    let mut component_manager = ComponentManager::new();
    let mut entity_type_manager = EntityTypeManagerImpl::new();

    let http = ComponentTypeId::new_from_type("http", "http");
    let logical = ComponentTypeId::new_from_type("logical", "action");
    let missing = ComponentTypeId::new_from_type("base", "missing");
    component_manager
        .register(Component::new(
            http.duplicate(),
            "",
            vec![PropertyType::new("url", DataType::String), PropertyType::new("result", DataType::Object)],
            vec![],
        ))
        .unwrap();
    component_manager
        .register(Component::new(logical.duplicate(), "", vec![PropertyType::new("trigger", DataType::Bool)], vec![]))
        .unwrap();

    let ty = EntityTypeId::new_from_type("test", "request");
    let entity_type = EntityType::new(
        ty.duplicate(),
        "a request",
        vec![logical.duplicate(), missing.duplicate(), http.duplicate()],
        vec![PropertyType::new("result", DataType::String)],
        vec![],
    );
    let registered = entity_type_manager.register(&component_manager, entity_type).unwrap();

    let names: Vec<String> = registered.properties().iter().map(|p| p.name.clone()).collect();
    assert_eq!(vec!["result", "trigger", "url"], names);
    // the own property keeps its data type
    assert_eq!(DataType::String, registered.get_own_property("result").unwrap().data_type);
    // the missing component and the one with the divergent data type are listed, sorted
    assert_eq!(vec!["c__base__missing".to_string(), "c__http__http".to_string()], divergent_list(&registered));
    assert!(is_divergent(&registered, &http));
    assert!(is_divergent(&registered, &missing));
    assert!(!is_divergent(&registered, &logical));

    let events = entity_type_manager.take_events();
    assert_eq!(1, events.len());
    match &events[0] {
        SystemEvent::EntityTypeCreated(t) => assert!(t.same(&ty)),
        _ => panic!("unexpected event"),
    }
    assert!(entity_type_manager.take_events().is_empty());
}

#[test]
fn register_twice_is_refused() {
    let component_manager = ComponentManager::new();
    let mut entity_type_manager = EntityTypeManagerImpl::new();
    let ty = EntityTypeId::new_from_type("ns", "t");
    entity_type_manager.register(&component_manager, EntityType::new(ty.duplicate(), "", vec![], vec![], vec![])).unwrap();
    match entity_type_manager.register(&component_manager, EntityType::new(ty.duplicate(), "other", vec![], vec![], vec![])) {
        Err(EntityTypeRegistrationError::EntityTypeAlreadyExists(t)) => assert!(t.same(&ty)),
        Ok(_) => panic!("registered twice"),
    }
    assert_eq!(1, entity_type_manager.count());
    assert_eq!("", entity_type_manager.get(&ty).unwrap().description());
    assert_eq!(Vec::<String>::new(), divergent_list(&entity_type_manager.get(&ty).unwrap()));
}

#[test]
fn own_divergent_extension_is_kept() {
    let component_manager = ComponentManager::new();
    let mut entity_type_manager = EntityTypeManagerImpl::new();
    let ty = EntityTypeId::new_from_type("ns", "t");
    let own = inexor_rgf::model::Extension::new(ExtensionTypeId::new_from_type("core", "divergent"), "mine".to_string(), Json::Null);
    let entity_type = EntityType::new(ty.duplicate(), "", vec![ComponentTypeId::new_from_type("a", "b")], vec![], vec![own]);
    let registered = entity_type_manager.register(&component_manager, entity_type).unwrap();
    assert_eq!(1, registered.extensions().len());
    assert_eq!("mine", registered.extensions()[0].description);
}

#[test]
fn queries_by_namespace_and_component() {
    let component_manager = ComponentManager::new();
    let mut m = EntityTypeManagerImpl::new();
    let c = ComponentTypeId::new_from_type("core", "labeled");
    m.register(&component_manager, EntityType::new(EntityTypeId::new_from_type("a", "x"), "", vec![c.duplicate()], vec![], vec![])).unwrap();
    m.register(&component_manager, EntityType::new(EntityTypeId::new_from_type("b", "y"), "", vec![], vec![], vec![])).unwrap();
    m.register(&component_manager, EntityType::new(EntityTypeId::new_from_type("a", "z"), "", vec![c.duplicate()], vec![], vec![])).unwrap();
    assert_eq!(3, m.count());
    assert_eq!(2, m.count_by_namespace("a"));
    assert_eq!(0, m.count_by_namespace("c"));
    let names: Vec<String> = m.get_by_namespace("a").iter().map(|e| e.ty().name()).collect();
    assert_eq!(vec!["x", "z"], names);
    let ids: Vec<String> = m.get_types_by_namespace("b").iter().map(|t| t.name()).collect();
    assert_eq!(vec!["y"], ids);
    assert_eq!(vec!["a".to_string(), "b".to_string()], m.get_namespaces());
    assert_eq!(2, m.get_by_having_component(&c).len());
    assert_eq!(3, m.get_type_ids().len());
    m.shutdown();
    assert_eq!(0, m.count());
}

#[test]
fn create_builds_and_registers() {
    let component_manager = ComponentManager::new();
    let mut m = EntityTypeManagerImpl::new();
    let ty = EntityTypeId::new_from_type("ns", "made");
    let created = m
        .create(
            &component_manager,
            &ty,
            "made by create",
            vec![],
            vec![PropertyType::new("p", DataType::Number), PropertyType::new("p", DataType::Bool)],
            vec![],
        )
        .unwrap();
    // a later property of a name takes the place of an earlier one
    assert_eq!(1, created.properties().len());
    assert_eq!(DataType::Bool, created.properties()[0].data_type);
    assert!(m.create(&component_manager, &ty, "", vec![], vec![], vec![]).is_err());
}

#[test]
fn component_and_property_changes() {
    let mut component_manager = ComponentManager::new();
    let mut m = EntityTypeManagerImpl::new();
    let ty = EntityTypeId::new_from_type("ns", "t");
    let c = ComponentTypeId::new_from_type("ns", "c");
    m.register(&component_manager, EntityType::new(ty.duplicate(), "", vec![], vec![], vec![])).unwrap();
    // the component must be registered
    assert!(m.add_component(&component_manager, &ty, &c).is_err());
    component_manager.register(Component::new(c.duplicate(), "", vec![], vec![])).unwrap();
    assert!(m.add_component(&component_manager, &ty, &c).is_ok());
    assert!(m.add_component(&component_manager, &ty, &c).is_err());
    assert!(m.validate(&component_manager, &ty));
    assert!(m.remove_component(&ty, &c).is_ok());
    assert!(m.remove_component(&ty, &c).is_err());

    assert!(m.add_property(&ty, PropertyType::new("a", DataType::String)).is_ok());
    assert!(m.add_property(&ty, PropertyType::new("a", DataType::Bool)).is_err());
    let old = m.update_property(&ty, "a", PropertyType::new("b", DataType::Number)).unwrap();
    assert_eq!("a", old.name);
    let e = m.get(&ty).unwrap();
    assert!(!e.has_own_property("a"));
    assert_eq!(DataType::Number, e.get_own_property("b").unwrap().data_type);
    assert!(m.remove_property(&ty, "b").is_ok());
    assert!(m.remove_property(&ty, "b").is_err());

    let x = ExtensionTypeId::new_from_type("ns", "x");
    assert!(m.add_extension(&ty, inexor_rgf::model::Extension::new(x.duplicate(), String::new(), Json::Bool(true))).is_ok());
    assert!(m.add_extension(&ty, inexor_rgf::model::Extension::new(x.duplicate(), String::new(), Json::Null)).is_err());
    assert!(m.update_extension(&ty, &x, inexor_rgf::model::Extension::new(x.duplicate(), "new".to_string(), Json::Null)).is_ok());
    assert_eq!("new", m.get(&ty).unwrap().get_own_extension(&x).unwrap().description);
    assert!(m.remove_extension(&ty, &x).is_ok());
    assert!(m.remove_extension(&ty, &x).is_err());

    let unknown = EntityTypeId::new_from_type("ns", "unknown");
    assert!(m.add_property(&unknown, PropertyType::new("a", DataType::String)).is_err());
    assert!(!m.validate(&component_manager, &unknown));
}

#[test]
fn provider_registers_new_types_and_merges_known_ones() {
    let component_manager = ComponentManager::new();
    let mut m = EntityTypeManagerImpl::new();
    let ty = EntityTypeId::new_from_type("ns", "t");
    m.register(&component_manager, EntityType::new(ty.duplicate(), "first", vec![], vec![PropertyType::new("a", DataType::String)], vec![])).unwrap();
    let _ = m.take_events();
    let provided = vec![
        EntityType::new(ty.duplicate(), "second", vec![], vec![PropertyType::new("b", DataType::Bool)], vec![]),
        EntityType::new(EntityTypeId::new_from_type("ns", "u"), "", vec![], vec![], vec![]),
    ];
    m.add_provider(&component_manager, provided);
    assert_eq!(2, m.count());
    assert!(m.has(&ty));
    assert!(m.has(&EntityTypeId::new_from_type("ns", "u")));
    let merged = m.get(&ty).unwrap();
    assert_eq!("second", merged.description());
    assert!(merged.has_own_property("a"));
    assert!(merged.has_own_property("b"));
    let events = m.take_events();
    assert_eq!(1, events.len());
    match &events[0] {
        SystemEvent::EntityTypeCreated(t) => assert_eq!("u", t.name),
        _ => panic!("unexpected event"),
    }
}

#[test]
fn component_registry() {
    let mut cm = ComponentManager::new();
    let c = default_component();
    let ty = c.ty().duplicate();
    assert!(cm.register(c).is_ok());
    assert!(cm.has(&ty));
    assert!(cm.register(Component::new(ty.duplicate(), "", vec![], vec![])).is_err());
    assert_eq!(1, cm.count());
    assert!(cm.delete(&ty));
    assert!(!cm.delete(&ty));
    assert!(cm.get(&ty).is_none());
}
