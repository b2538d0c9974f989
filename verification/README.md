# inexor_rgf

The verified core of a reactive graph runtime.

`src/` is the library, checked by Verus:

- `types`, `model`, `entity_type`, `relation_type`: type ids, property types,
  extensions, components, entity types and relation types.
- `components`, `entity_types`: the registries of components and entity types.
  Registering an entity type adds the properties of its registered components
  (its own properties win) and lists the divergent components in the
  extension `core__divergent`; `divergent` reads that list back.
- `named_types`: a registry of entity types known by their names, whose
  registration checks the name as an identifier of the graph database and
  appends all the properties of the components.
- `instances`, `relations`: the entity and relation instances of the graph.
- `events`: the system events and their kinds.
- `builder`, `shutdown`: the runtime builder, its configuration and lifecycle,
  and the shutdown flag.
- `plugins`, `cli`, `client`, `instance_info`, `errors`, `json`, `strings`:
  the plugin search, the answers of the component commands, the types of the
  GraphQL client, instance information, error texts, JSON values and the
  order of strings.
- `laws`: properties that span several operations, stated and proved.

`app/` holds what Verus does not check: conversions from and to
`serde_json` values, reading and writing files, timers, the GraphQL resolvers,
the plugin proxy and tables.
