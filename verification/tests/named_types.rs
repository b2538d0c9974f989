use inexor_rgf::errors::ValidationError;
use inexor_rgf::model::DataType;
use inexor_rgf::model::PropertyType;
use inexor_rgf::named_types::create_external_type_dependency;
use inexor_rgf::named_types::EntityTypeManagerImpl;
use inexor_rgf::named_types::NamedComponent;
use inexor_rgf::named_types::NamedEntityType;

fn components() -> Vec<NamedComponent> {
    vec![
        NamedComponent { name: "labeled".to_string(), properties: vec![PropertyType::new("label", DataType::String)] },
        NamedComponent {
            name: "sized".to_string(),
            properties: vec![PropertyType::new("width", DataType::Number), PropertyType::new("height", DataType::Number)],
        },
    ]
}

fn thing(name: &str, group: &str, component_names: &[&str]) -> NamedEntityType {
    NamedEntityType::new(
        name.to_string(),
        group.to_string(),
        component_names.iter().map(|c| c.to_string()).collect(),
        vec!["blink".to_string()],
        vec![PropertyType::new("x", DataType::Bool)],
        vec![],
    )
}

fn names(entity_type: &NamedEntityType) -> Vec<String> {
    entity_type.properties.iter().map(|p| p.name.clone()).collect()
}

#[test]
fn named_register_appends_component_properties() {
    let mut manager = EntityTypeManagerImpl::new();
    let registered = manager.register(&components(), thing("thing", "g", &["sized", "missing", "labeled"]));
    assert_eq!("thing", registered.t);
    assert_eq!(vec!["x", "width", "height", "label"], names(&registered));
    assert!(manager.has("thing".to_string()));
    assert!(!manager.has("other".to_string()));
    let found = manager.get("thing".to_string()).unwrap();
    assert_eq!(vec!["x", "width", "height", "label"], names(&found));
    assert_eq!(vec!["blink".to_string()], found.behaviours);
    assert_eq!(1, manager.get_entity_types().len());
}

#[test]
fn named_register_keeps_a_property_twice() {
    let mut manager = EntityTypeManagerImpl::new();
    let mut entity_type = thing("twice", "g", &["labeled", "labeled"]);
    entity_type.properties.push(PropertyType::new("label", DataType::Number));
    let registered = manager.register(&components(), entity_type);
    assert_eq!(vec!["x", "label", "label", "label"], names(&registered));
}

#[test]
fn named_lookup_finds_the_first_of_a_name() {
    let mut manager = EntityTypeManagerImpl::new();
    manager.register(&components(), thing("thing", "first", &[]));
    manager.register(&components(), thing("thing", "second", &[]));
    assert_eq!(2, manager.get_entity_types().len());
    assert_eq!("first", manager.get("thing".to_string()).unwrap().group);
    manager.delete("thing".to_string());
    assert!(!manager.has("thing".to_string()));
    assert!(manager.get_entity_types().is_empty());
}

#[test]
fn named_delete_keeps_other_names() {
    let mut manager = EntityTypeManagerImpl::new();
    manager.register(&components(), thing("a", "g", &[]));
    manager.register(&components(), thing("b", "g", &[]));
    manager.register(&components(), thing("a", "g", &[]));
    manager.delete("a".to_string());
    let left = manager.get_entity_types();
    assert_eq!(1, left.len());
    assert_eq!("b", left[0].name);
}

#[test]
fn named_invalid_identifiers_are_refused() {
    let mut manager = EntityTypeManagerImpl::new();
    assert_eq!(Some(ValidationError::InvalidValue), manager.try_register(&components(), thing("a b", "g", &[])).err());
    let long = "a".repeat(256);
    assert_eq!(Some(ValidationError::ValueTooLong), manager.try_register(&components(), thing(&long, "g", &[])).err());
    assert!(manager.get_entity_types().is_empty());
    let registered = manager.try_register(&components(), thing("straße-1_x", "g", &["labeled"])).unwrap();
    assert_eq!("straße-1_x", registered.t);
    assert_eq!(vec!["x", "label"], names(&registered));
    assert!(manager.try_register(&components(), thing(&"a".repeat(255), "g", &[])).is_ok());
    assert_eq!(2, manager.get_entity_types().len());
}

#[test]
fn named_create_and_providers() {
    let mut manager = EntityTypeManagerImpl::new();
    manager.create(
        &components(),
        "lamp".to_string(),
        "light".to_string(),
        vec!["labeled".to_string()],
        vec![],
        vec![],
        vec![],
    );
    assert_eq!(vec!["label"], names(&manager.get("lamp".to_string()).unwrap()));
    assert_eq!(
        Some(ValidationError::InvalidValue),
        manager.try_create(&components(), "no/slash".to_string(), String::new(), vec![], vec![], vec![], vec![]).err()
    );
    assert!(manager.try_create(&components(), "switch".to_string(), String::new(), vec![], vec![], vec![], vec![]).is_ok());
    assert_eq!(
        Some(ValidationError::InvalidValue),
        manager.try_add_provider(&components(), vec![thing("fine", "g", &[]), thing("not fine", "g", &[])]).err()
    );
    assert!(!manager.has("fine".to_string()));
    manager.add_provider(&components(), vec![thing("p", "g", &["sized"]), thing("q", "g", &[])]);
    let all = manager.get_entity_types();
    let all_names: Vec<String> = all.iter().map(|e| e.name.clone()).collect();
    assert_eq!(vec!["lamp", "switch", "p", "q"], all_names);
    assert_eq!(vec!["x", "width", "height"], names(&all[2]));
    manager.shutdown();
    assert!(manager.get_entity_types().is_empty());
    assert!(create_external_type_dependency().0.is_empty());
}
