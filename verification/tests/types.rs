use inexor_rgf::cli::components_reply;
use inexor_rgf::cli::components_without_command;
use inexor_rgf::cli::CommandError;
use inexor_rgf::cli::ComponentsCommand;
use inexor_rgf::client;
use inexor_rgf::events::RelationInstanceId;
use inexor_rgf::events::SystemEvent;
use inexor_rgf::events::SystemEventTypes;
use inexor_rgf::instance_info::GraphQLInstanceInfo;
use inexor_rgf::instance_info::InstanceInfo;
use inexor_rgf::json::Json;
use inexor_rgf::json::JsonNumber;
use inexor_rgf::model::DataType;
use inexor_rgf::model::Extension;
use inexor_rgf::model::PropertyType;
use inexor_rgf::plugins::filter_plugins;
use inexor_rgf::plugins::PluginFilter;
use inexor_rgf::plugins::PluginRecord;
use inexor_rgf::plugins::PluginState;
use inexor_rgf::relation_type::ComponentOrEntityTypeId;
use inexor_rgf::relation_type::RelationType;
use inexor_rgf::strings::sort_strings;
use inexor_rgf::types::ComponentTypeId;
use inexor_rgf::types::EntityTypeId;
use inexor_rgf::types::ExtensionTypeId;
use inexor_rgf::types::RelationTypeId;

#[test]
fn create_relation_type_test() {
    let name_of_type = "connector".to_string();
    let outbound_name_of_type = "source".to_string();
    let inbound_name_of_type = "sink".to_string();
    let namespace = "core".to_string();
    let description = "A relation".to_string();
    let component_name = "labeled".to_string();
    let property_name = "weight".to_string();
    let extension_value = Json::String("JSON".to_string());
    let component_ty = ComponentTypeId::new_from_type(&namespace, &component_name);
    let property_type = PropertyType::new(&property_name, DataType::String);
    let extension_ty = ExtensionTypeId::new_from_type(&namespace, "ext");
    let extension = Extension::new(extension_ty.duplicate(), String::new(), extension_value.duplicate());
    let ty = RelationTypeId::new_from_type(&namespace, &name_of_type);
    let outbound_type = EntityTypeId::new_from_type(&namespace, &outbound_name_of_type);
    let inbound_type = EntityTypeId::new_from_type(&namespace, &inbound_name_of_type);
    let relation_type = RelationType::new(
        ComponentOrEntityTypeId::EntityType(outbound_type.duplicate()),
        ty,
        ComponentOrEntityTypeId::EntityType(inbound_type.duplicate()),
        &description,
        vec![component_ty.duplicate()],
        vec![property_type.duplicate()],
        vec![extension],
    );

    assert_eq!(namespace, relation_type.namespace());
    assert_eq!(name_of_type, relation_type.name());
    assert_eq!(format!("r__{}__{}", &namespace, &name_of_type), relation_type.type_definition());
    assert!(indradb::Identifier::new(relation_type.type_definition()).is_ok());
    match &relation_type.outbound_type {
        ComponentOrEntityTypeId::EntityType(t) => assert_eq!(outbound_type, *t),
        _ => panic!("wrong outbound type"),
    }
    match &relation_type.inbound_type {
        ComponentOrEntityTypeId::EntityType(t) => assert_eq!(inbound_type, *t),
        _ => panic!("wrong inbound type"),
    }
    assert_eq!(description, relation_type.description);
    assert_eq!(component_ty, *relation_type.components.first().unwrap());
    assert!(relation_type.is_a(&component_ty));
    assert_eq!(property_name, relation_type.properties.first().unwrap().name);
    assert!(relation_type.has_own_property(&property_name));
    assert!(!relation_type.has_own_property("other"));
    assert_eq!(property_type.data_type, relation_type.get_own_property(&property_name).unwrap().data_type);
    assert_eq!(extension_ty, relation_type.extensions.get(0).unwrap().ty);
    assert!(relation_type.has_own_extension(&extension_ty));
    assert!(!relation_type.has_own_extension(&ExtensionTypeId::new_from_type(&namespace, "other")));
    match relation_type.get_own_extension(&extension_ty).unwrap().extension {
        Json::String(s) => assert_eq!("JSON", s),
        _ => panic!("wrong extension value"),
    }
}

#[test]
fn type_definitions() {
    assert_eq!("c__core__label", ComponentTypeId::new_from_type("core", "label").type_definition());
    assert_eq!("e__core__thing", EntityTypeId::new_from_type("core", "thing").type_definition());
    assert_eq!("x__core__divergent", ExtensionTypeId::new_from_type("core", "divergent").type_definition());
    assert!(ComponentTypeId::new_from_type("a", "b").same(&ComponentTypeId::new_from_type("a", "b")));
    assert!(!ComponentTypeId::new_from_type("a", "b").same(&ComponentTypeId::new_from_type("a", "c")));
}

#[test]
fn event_types() {
    let ty = EntityTypeId::new_from_type("ns", "t");
    assert_eq!(SystemEventTypes::EntityTypeCreated, SystemEventTypes::from(&SystemEvent::EntityTypeCreated(ty.duplicate())));
    assert_eq!(
        SystemEventTypes::EntityTypePropertyRenamed,
        SystemEventTypes::from(&SystemEvent::EntityTypePropertyRenamed(ty.duplicate(), "a".to_string(), "b".to_string()))
    );
    assert_eq!(SystemEventTypes::TypeSystemChanged, SystemEventTypes::from(&SystemEvent::TypeSystemChanged));
    assert_eq!(SystemEventTypes::FlowInstanceDeleted, SystemEventTypes::from(&SystemEvent::FlowInstanceDeleted(7)));
    let key = RelationInstanceId { outbound_id: 1, ty: RelationTypeId::new_from_type("ns", "r"), inbound_id: 2 };
    assert_eq!(SystemEventTypes::RelationInstanceCreated, SystemEventTypes::from(&SystemEvent::RelationInstanceCreated(key)));
}

#[test]
fn json_copies_and_string_arrays() {
    let value = Json::Object(vec![
        ("a".to_string(), Json::Array(vec![Json::Number(JsonNumber::NegInt(-3)), Json::Number(JsonNumber::Float("1.5".to_string()))])),
        ("b".to_string(), Json::Null),
    ]);
    let copy = value.duplicate();
    assert_eq!(format!("{:?}", value), format!("{:?}", copy));
    let array = Json::string_array(&vec!["x".to_string(), "y".to_string()]);
    assert!(array.contains_string(&"y".to_string()));
    assert!(!array.contains_string(&"z".to_string()));
    assert!(!Json::Null.contains_string(&"y".to_string()));
    assert_eq!(Some(5), Json::Number(JsonNumber::PosInt(5)).as_u64());
    assert_eq!(None, Json::Number(JsonNumber::NegInt(-5)).as_u64());
    assert_eq!(Some(true), Json::Bool(true).as_bool());
    assert!(Json::Number(JsonNumber::Float("0.5".to_string())).is_number());
    match DataType::String.default_value() {
        Json::String(s) => assert_eq!("", s),
        _ => panic!("wrong default"),
    }
}

#[test]
fn strings_sort_by_bytes() {
    let sorted = sort_strings(&vec!["b".to_string(), "B".to_string(), "ab".to_string(), "a".to_string(), "é".to_string(), "z".to_string()]);
    assert_eq!(vec!["B", "a", "ab", "b", "z", "é"], sorted);
}

#[test]
fn client_conversions() {
    let ty = ExtensionTypeId::new_from_type("core", "divergent");
    let client_ty = client::ExtensionTypeId::from(ty.duplicate());
    assert_eq!("divergent", client_ty.name);
    assert_eq!("core", client_ty.namespace);
    let definitions = client::ExtensionDefinitions::from_extensions(vec![Extension::new(ty.duplicate(), "d".to_string(), Json::Null)]);
    let list: Vec<client::ExtensionDefinition> = definitions.into();
    assert_eq!(1, list.len());
    assert_eq!("d", list[0].description);
    assert_eq!("core", list[0].type_.namespace);
    assert_eq!(0, client::ExtensionDefinitions::new().0.len());
    let received = client::Extensions(vec![client::Extension {
        namespace: "core".to_string(),
        name: "x".to_string(),
        description: "y".to_string(),
        extension: Json::Bool(true),
    }]);
    let extensions = received.into_extensions();
    assert_eq!(ExtensionTypeId::new_from_type("core", "x"), extensions[0].ty);
    assert_eq!("y", extensions[0].description);
}

#[test]
fn instance_info_getters() {
    let info = GraphQLInstanceInfo {
        instance_info: InstanceInfo {
            name: "n".to_string(),
            description: "d".to_string(),
            hostname: "h".to_string(),
            port: 31415,
            secure: true,
            version: "v".to_string(),
            build_date: "b".to_string(),
            git_branch: "g".to_string(),
            git_commit: "c".to_string(),
            rustc_version: "r".to_string(),
            plugin_api_version: "p".to_string(),
        },
    };
    assert_eq!("n", info.name());
    assert_eq!("d", info.description());
    assert_eq!("h", info.hostname());
    assert_eq!(31415, info.port());
    assert!(info.secure());
    assert_eq!("v", info.version());
    assert_eq!("b", info.build_date());
    assert_eq!("g", info.git_branch());
    assert_eq!("c", info.git_commit());
    assert_eq!("r", info.rustc_version());
    assert_eq!("p", info.plugin_api_version());
}

fn plugins() -> Vec<PluginRecord> {
    vec![
        PluginRecord { id: 1, name: Some("base".to_string()), state: Some(PluginState::Active) },
        PluginRecord { id: 2, name: Some("http".to_string()), state: Some(PluginState::Resolved) },
        PluginRecord { id: 3, name: None, state: None },
    ]
}

#[test]
fn plugin_filter() {
    let all = PluginFilter { id: None, stem_id: None, name: None, state: None };
    assert_eq!(vec![1, 2, 3], filter_plugins(&plugins(), &all));
    let by_id = PluginFilter { id: Some(2), stem_id: None, name: None, state: None };
    assert_eq!(vec![2], filter_plugins(&plugins(), &by_id));
    let unknown_stem = PluginFilter { id: None, stem_id: Some(None), name: None, state: None };
    assert!(filter_plugins(&plugins(), &unknown_stem).is_empty());
    let by_stem = PluginFilter { id: None, stem_id: Some(Some(3)), name: None, state: None };
    assert_eq!(vec![3], filter_plugins(&plugins(), &by_stem));
    let by_name = PluginFilter { id: None, stem_id: None, name: Some("http".to_string()), state: None };
    assert_eq!(vec![2], filter_plugins(&plugins(), &by_name));
    let by_state = PluginFilter { id: None, stem_id: None, name: None, state: Some("Active".to_string()) };
    assert_eq!(vec![1], filter_plugins(&plugins(), &by_state));
    let none = PluginFilter { id: Some(1), stem_id: None, name: None, state: Some("Resolved".to_string()) };
    assert!(filter_plugins(&plugins(), &none).is_empty());
}

#[test]
fn components_command_replies() {
    let get = ComponentsCommand::Get(ComponentTypeId::new_from_type("core", "label"));
    match components_reply::<u8>(&get, Ok(None)) {
        Err(CommandError::NotFound(s)) => assert_eq!("Component core__label not found", s),
        _ => panic!("should not be found"),
    }
    match components_reply::<u8>(&ComponentsCommand::List, Ok(None)) {
        Err(CommandError::NoContent(s)) => assert_eq!("No components found", s),
        _ => panic!("should have no content"),
    }
    let create = ComponentsCommand::Create(ComponentTypeId::new_from_type("core", "label"), String::new());
    match components_reply::<u8>(&create, Ok(None)) {
        Err(CommandError::NotCreated(s)) => assert_eq!("Component wasn't created", s),
        _ => panic!("should not be created"),
    }
    assert_eq!(Some(3), components_reply(&ComponentsCommand::List, Ok(Some(3u8))).ok());
    match components_reply::<u8>(&ComponentsCommand::List, Err("down".to_string())) {
        Err(CommandError::Failed(s)) => assert_eq!("down", s),
        _ => panic!("should fail"),
    }
    assert!(matches!(components_without_command(None), Some(CommandError::MissingSubCommand)));
    assert!(components_without_command(Some(&ComponentsCommand::List)).is_none());
}
