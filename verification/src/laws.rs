use vstd::prelude::*;
use vstd::relations::sorted_by;

use crate::components::{component_lookup, components_wf};
use crate::divergent::is_divergent_spec;
use crate::entity_type::{ComponentView, EntityTypeView};
use crate::entity_types::{
    absorb, divergent_components, divergent_extension, divergent_extension_ty, divergent_names,
    diverges, diverges_at, entity_types_wf, lemma_absorb, merged, provided, registered_entity_type, registered_properties, type_index,
    type_lookup,
};
use crate::json::{array_contains_string, string_array_view, JsonView};
use crate::model::{
    default_value_view, property_named,
    extension_typed, has_extension, has_property, remove_extension, remove_id, remove_property,
    unique_extension_types, unique_property_names, ExtensionView, PropertyTypeView,
};
use crate::instances::{entity_index, entity_lookup, unique_ids, EntityInstanceView};
use crate::named_types::{
    entity_type_named, lemma_entity_type_named_exists, lemma_entity_type_named_push, registered_named,
    NamedComponentView, NamedEntityTypeView,
};
use crate::plugins::{plugin_matches, state_name, PluginFilter, PluginRecord, PluginState};
use crate::events::{event_type, SystemEvent, SystemEventTypes};
use crate::relations::{
    completed_properties, has_key, relation_index, relation_lookup, unique_keys, with_defaults, RelationInstanceView,
};
use crate::strings::{lemma_str_le_total, str_le};
use crate::types::{type_definition_view, ComponentKind, TypeIdView, TypeKind};

verus! {

/// A registered entity type is found by its id: after `register`, `has` is
/// true and `get` returns the registered entity type, whose id, description
/// and components are those of the entity type that was given.
pub proof fn law_registered_entity_type_is_found(
    s: Seq<EntityTypeView>,
    e: EntityTypeView,
    registry: Seq<ComponentView>,
)
    requires
        entity_types_wf(s),
        type_lookup(s, e.ty) is None,
    ensures
        ({
            let x = registered_entity_type(e, registry);
            &&& x.ty == e.ty
            &&& x.description == e.description
            &&& x.components == e.components
            &&& type_lookup(s.push(x), e.ty) == Some(x)
        }),
{
    let x = registered_entity_type(e, registry);
    let t = s.push(x);
    assert(t[s.len() as int].ty == e.ty);
    let i = type_index(t, e.ty);
    if i != s.len() {
        assert(s[i].ty == e.ty);
    }
}

/// Deleting an entity type right after registering it gives back the
/// registry as it was, in which the id is not found.
pub proof fn law_delete_undoes_register(s: Seq<EntityTypeView>, e: EntityTypeView, registry: Seq<ComponentView>)
    requires
        entity_types_wf(s),
        type_lookup(s, e.ty) is None,
    ensures
        ({
            let t = s.push(registered_entity_type(e, registry));
            &&& t.remove(type_index(t, e.ty)) == s
            &&& type_lookup(t.remove(type_index(t, e.ty)), e.ty) is None
        }),
{
    law_registered_entity_type_is_found(s, e, registry);
    let t = s.push(registered_entity_type(e, registry));
    let i = type_index(t, e.ty);
    if i != s.len() {
        assert(s[i].ty == e.ty);
    }
    assert(t.remove(i) =~= s);
}

/// Every entity type of the registry is found by its id.
pub proof fn law_every_entity_type_is_found(s: Seq<EntityTypeView>, i: int)
    requires
        entity_types_wf(s),
        0 <= i < s.len(),
    ensures
        type_lookup(s, s[i].ty) == Some(s[i]),
{
    crate::entity_types::lemma_type_at(s, i);
}

/// Adding the properties of components keeps the properties that were there
/// first, in their places; the names taken afterwards are those taken before
/// and those of the properties of the registered components.
proof fn lemma_registered_properties(props: Seq<PropertyTypeView>, comps: Seq<TypeIdView>, registry: Seq<ComponentView>)
    requires
        unique_property_names(props),
        components_wf(registry),
    ensures
        unique_property_names(registered_properties(props, comps, registry)),
        registered_properties(props, comps, registry).len() >= props.len(),
        registered_properties(props, comps, registry).subrange(0, props.len() as int) == props,
        forall|n: Seq<char>| #[trigger] has_property(registered_properties(props, comps, registry), n) <==> (has_property(props, n) || exists|k: int|
            0 <= k < comps.len() && (#[trigger] component_lookup(registry, comps[k])) is Some && has_property(component_lookup(registry, comps[k]).unwrap().properties, n)),
    decreases comps.len(),
{
    if comps.len() > 0 {
        let rest = comps.drop_last();
        lemma_registered_properties(props, rest, registry);
        let p = registered_properties(props, rest, registry);
        let c = comps.last();
        match component_lookup(registry, c) {
            Some(comp) => {
                let i = choose|i: int| 0 <= i < registry.len() && #[trigger] registry[i].ty == c;
                assert(registry[i].wf());
                lemma_absorb(p, comp.properties);
                let a = absorb(p, comp.properties);
                assert(a.subrange(0, props.len() as int) =~= a.subrange(0, p.len() as int).subrange(0, props.len() as int));
            },
            None => {},
        }
        assert forall|n: Seq<char>| #[trigger] has_property(registered_properties(props, comps, registry), n) <==> (has_property(props, n) || exists|k: int|
            0 <= k < comps.len() && (#[trigger] component_lookup(registry, comps[k])) is Some && has_property(component_lookup(registry, comps[k]).unwrap().properties, n)) by {
            if exists|k: int| 0 <= k < comps.len() && (#[trigger] component_lookup(registry, comps[k])) is Some && has_property(component_lookup(registry, comps[k]).unwrap().properties, n) {
                let k = choose|k: int| 0 <= k < comps.len() && (#[trigger] component_lookup(registry, comps[k])) is Some && has_property(component_lookup(registry, comps[k]).unwrap().properties, n);
                if k < comps.len() - 1 {
                    assert(rest[k] == comps[k]);
                }
            }
            if exists|k: int| 0 <= k < rest.len() && (#[trigger] component_lookup(registry, rest[k])) is Some && has_property(component_lookup(registry, rest[k]).unwrap().properties, n) {
                let k = choose|k: int| 0 <= k < rest.len() && (#[trigger] component_lookup(registry, rest[k])) is Some && has_property(component_lookup(registry, rest[k]).unwrap().properties, n);
                assert(comps[k] == rest[k]);
            }
        }
    }
}

/// Registration keeps the own properties of an entity type: each keeps its
/// place and its data type, whatever the components hold under the same
/// name. The registered entity type has a property of a name exactly when the
/// entity type had one or one of its registered components has one.
pub proof fn law_own_properties_win(e: EntityTypeView, registry: Seq<ComponentView>)
    requires
        e.wf(),
        components_wf(registry),
    ensures
        ({
            let x = registered_entity_type(e, registry);
            &&& x.properties.subrange(0, e.properties.len() as int) == e.properties
            &&& forall|n: Seq<char>| #[trigger] has_property(x.properties, n) <==> (has_property(e.properties, n) || exists|k: int|
                0 <= k < e.components.len() && (#[trigger] component_lookup(registry, e.components[k])) is Some && has_property(
                    component_lookup(registry, e.components[k]).unwrap().properties,
                    n,
                ))
        }),
{
    lemma_registered_properties(e.properties, e.components, registry);
}

/// Every component listed as divergent is one of the components of the
/// entity type, and every component that is not registered is listed.
proof fn lemma_divergent_components(props: Seq<PropertyTypeView>, comps: Seq<TypeIdView>, registry: Seq<ComponentView>)
    ensures
        forall|c: TypeIdView| #[trigger] divergent_components(props, comps, registry).contains(c) ==> comps.contains(c),
        forall|k: int| 0 <= k < comps.len() && #[trigger] component_lookup(registry, comps[k]) is None ==> divergent_components(
            props,
            comps,
            registry,
        ).contains(comps[k]),
    decreases comps.len(),
{
    if comps.len() > 0 {
        let rest = comps.drop_last();
        lemma_divergent_components(props, rest, registry);
        let d = divergent_components(props, rest, registry);
        let r = divergent_components(props, comps, registry);
        assert forall|c: TypeIdView| #[trigger] r.contains(c) implies comps.contains(c) by {
            if d.contains(c) {
                let j = choose|j: int| 0 <= j < rest.len() && rest[j] == c;
                assert(comps[j] == c);
            } else {
                assert(c == comps.last());
                assert(comps[comps.len() - 1] == c);
            }
        }
        assert forall|k: int| 0 <= k < comps.len() && #[trigger] component_lookup(registry, comps[k]) is None implies r.contains(comps[k]) by {
            if k < comps.len() - 1 {
                assert(rest[k] == comps[k]);
                let j = choose|j: int| 0 <= j < d.len() && d[j] == comps[k];
                assert(r[j] == comps[k]);
            } else {
                assert(r[r.len() - 1] == comps[k]);
            }
        }
    }
}

/// The extension `core__divergent` lists the type definitions of the
/// divergent components sorted in the order of strings, and only those of
/// components of the entity type.
pub proof fn law_divergent_list_is_sorted(e: EntityTypeView, registry: Seq<ComponentView>)
    ensures
        sorted_by(
            divergent_names(divergent_components(e.properties, e.components, registry)),
            |a: Seq<char>, b: Seq<char>| str_le(a, b),
        ),
        forall|n: Seq<char>| #[trigger] divergent_names(divergent_components(e.properties, e.components, registry)).contains(n)
            ==> exists|k: int| 0 <= k < e.components.len() && n == type_definition_view(ComponentKind::prefix_spec(), #[trigger] e.components[k]),
{
    lemma_str_le_total();
    let d = divergent_components(e.properties, e.components, registry);
    let names = d.map_values(|c: TypeIdView| type_definition_view(ComponentKind::prefix_spec(), c));
    names.lemma_sort_by_ensures(|a: Seq<char>, b: Seq<char>| str_le(a, b));
    lemma_divergent_components(e.properties, e.components, registry);
    assert forall|n: Seq<char>| #[trigger] divergent_names(d).contains(n) implies exists|k: int|
        0 <= k < e.components.len() && n == type_definition_view(ComponentKind::prefix_spec(), #[trigger] e.components[k]) by {
        let j = choose|j: int| 0 <= j < names.len() && names[j] == n;
        assert(d.contains(d[j]));
        assert(e.components.contains(d[j]));
        let k = choose|k: int| 0 <= k < e.components.len() && e.components[k] == d[j];
        assert(n == type_definition_view(ComponentKind::prefix_spec(), e.components[k]));
    }
}

/// A component of an entity type that is not registered is divergent in the
/// registered entity type, where the entity type had no extension
/// `core__divergent` of its own.
pub proof fn law_missing_component_is_divergent(e: EntityTypeView, registry: Seq<ComponentView>, k: int)
    requires
        e.wf(),
        0 <= k < e.components.len(),
        component_lookup(registry, e.components[k]) is None,
        !has_extension(e.extensions, divergent_extension_ty()),
    ensures
        is_divergent_spec(registered_entity_type(e, registry).extensions, e.components[k]),
{
    lemma_str_le_total();
    let d = divergent_components(e.properties, e.components, registry);
    lemma_divergent_components(e.properties, e.components, registry);
    let c = e.components[k];
    let names = d.map_values(|x: TypeIdView| type_definition_view(ComponentKind::prefix_spec(), x));
    names.lemma_sort_by_ensures(|a: Seq<char>, b: Seq<char>| str_le(a, b));
    let j = choose|j: int| 0 <= j < d.len() && d[j] == c;
    let n = type_definition_view(ComponentKind::prefix_spec(), c);
    assert(names[j] == n);
    assert(names.contains(n));
    assert(names.to_multiset().count(n) > 0) by {
        broadcast use vstd::seq_lib::group_to_multiset_ensures;
    }
    let sorted = divergent_names(d);
    assert(sorted.contains(n)) by {
        broadcast use vstd::seq_lib::group_to_multiset_ensures;
    }
    let ext = divergent_extension(d);
    let exts = e.extensions.push(ext);
    assert(exts[e.extensions.len() as int].ty == divergent_extension_ty());
    let i = choose|i: int| 0 <= i < exts.len() && #[trigger] exts[i].ty == divergent_extension_ty();
    if i != e.extensions.len() {
        assert(e.extensions[i].ty == divergent_extension_ty());
    }
    assert(extension_typed(exts, divergent_extension_ty()) == Some(ext));
    let p = choose|p: int| 0 <= p < sorted.len() && sorted[p] == n;
    let items = sorted.map_values(|s: Seq<char>| JsonView::String(s));
    assert(items[p] == JsonView::String(n));
    assert(array_contains_string(string_array_view(sorted), n));
}

/// A created entity instance is found by its id, and deleting it gives back
/// the store as it was.
pub proof fn law_entity_instance_create_then_delete(s: Seq<EntityInstanceView>, e: EntityInstanceView)
    requires
        unique_ids(s),
        entity_lookup(s, e.id) is None,
    ensures
        entity_lookup(s.push(e), e.id) == Some(e),
        s.push(e).remove(entity_index(s.push(e), e.id)) == s,
{
    let t = s.push(e);
    assert(t[s.len() as int].id == e.id);
    let i = entity_index(t, e.id);
    if i != s.len() {
        assert(s[i].id == e.id);
    }
    assert(t.remove(i) =~= s);
}

/// A created relation instance is found by its key, and deleting it gives
/// back the store as it was.
pub proof fn law_relation_instance_create_then_delete(s: Seq<RelationInstanceView>, r: RelationInstanceView)
    requires
        unique_keys(s),
        relation_lookup(s, r.key) is None,
    ensures
        relation_lookup(s.push(r), r.key) == Some(r),
        s.push(r).remove(relation_index(s.push(r), r.key)) == s,
{
    let t = s.push(r);
    assert(t[s.len() as int].key == r.key);
    let i = relation_index(t, r.key);
    if i != s.len() {
        assert(s[i].key == r.key);
    }
    assert(t.remove(i) =~= s);
}

/// A search for plugins that gives no criterion finds every plugin.
pub proof fn law_no_criterion_finds_every_plugin(plugins: Seq<PluginRecord>, f: PluginFilter)
    requires
        f.id is None,
        f.stem_id is None,
        f.name is None,
        f.state is None,
    ensures
        plugins.filter(|p: PluginRecord| plugin_matches(p, f)) == plugins,
    decreases plugins.len(),
{
    reveal(Seq::filter);
    if plugins.len() > 0 {
        law_no_criterion_finds_every_plugin(plugins.drop_last(), f);
        assert(plugins.drop_last().push(plugins.last()) =~= plugins);
    }
}

/// Removing a property right after adding it gives back the properties as
/// they were.
pub proof fn law_remove_property_undoes_add(s: Seq<PropertyTypeView>, p: PropertyTypeView)
    requires
        unique_property_names(s),
        !has_property(s, p.name),
    ensures
        remove_property(s.push(p), p.name) == s,
{
    let t = s.push(p);
    assert(t[s.len() as int].name == p.name);
    let i = choose|i: int| 0 <= i < t.len() && #[trigger] t[i].name == p.name;
    if i != s.len() {
        assert(s[i].name == p.name);
    }
    assert(t.remove(i) =~= s);
}

/// Removing an extension right after adding it gives back the extensions as
/// they were.
pub proof fn law_remove_extension_undoes_add(s: Seq<ExtensionView>, e: ExtensionView)
    requires
        unique_extension_types(s),
        !has_extension(s, e.ty),
    ensures
        remove_extension(s.push(e), e.ty) == s,
{
    let t = s.push(e);
    assert(t[s.len() as int].ty == e.ty);
    let i = choose|i: int| 0 <= i < t.len() && #[trigger] t[i].ty == e.ty;
    if i != s.len() {
        assert(s[i].ty == e.ty);
    }
    assert(t.remove(i) =~= s);
}

/// Removing a component right after adding it gives back the components as
/// they were.
pub proof fn law_remove_component_undoes_add(s: Seq<TypeIdView>, c: TypeIdView)
    requires
        !s.contains(c),
    ensures
        remove_id(s.push(c), c) == s,
{
    let t = s.push(c);
    assert(t[s.len() as int] == c);
    assert(t.contains(c));
    let i = t.index_of(c);
    if i != s.len() {
        assert(s[i] == c);
    }
    assert(t.remove(i) =~= s);
}

/// An entity type known by its name is found by that name once it is
/// registered, where no entity type of that name was there; where one was,
/// the lookup keeps finding the earlier one.
pub proof fn law_named_type_is_found(s: Seq<NamedEntityTypeView>, e: NamedEntityTypeView, reg: Seq<NamedComponentView>)
    ensures
        entity_type_named(s, e.name) is None ==> entity_type_named(s.push(registered_named(e, reg)), e.name)
            == Some(registered_named(e, reg)),
        entity_type_named(s, e.name) is Some ==> entity_type_named(s.push(registered_named(e, reg)), e.name)
            == entity_type_named(s, e.name),
{
    lemma_entity_type_named_push(s, registered_named(e, reg), e.name);
}

/// Deleting the entity types of a name right after registering one of a
/// name that no entity type had gives back the registry as it was.
pub proof fn law_named_delete_undoes_register(s: Seq<NamedEntityTypeView>, e: NamedEntityTypeView, reg: Seq<NamedComponentView>)
    requires
        entity_type_named(s, e.name) is None,
    ensures
        s.push(registered_named(e, reg)).filter(|x: NamedEntityTypeView| x.name != e.name) == s,
{
    let pred = |x: NamedEntityTypeView| x.name != e.name;
    lemma_entity_type_named_exists(s, e.name);
    assert(s.filter(pred) == s) by {
        lemma_filter_keeps_all(s, pred);
    }
    reveal(Seq::filter);
    assert(s.push(registered_named(e, reg)).drop_last() =~= s);
}

/// Filtering keeps a sequence whose elements all pass.
proof fn lemma_filter_keeps_all<A>(s: Seq<A>, pred: spec_fn(A) -> bool)
    requires
        forall|i: int| 0 <= i < s.len() ==> pred(#[trigger] s[i]),
    ensures
        s.filter(pred) == s,
    decreases s.len(),
{
    reveal(Seq::filter);
    if s.len() > 0 {
        lemma_filter_keeps_all(s.drop_last(), pred);
        assert(s.drop_last().push(s.last()) =~= s);
    }
}

/// One step of registering or merging a provided entity type keeps every id
/// that was found, and finds the id of the provided type.
proof fn lemma_provided_step(p: Seq<EntityTypeView>, e: EntityTypeView, registry: Seq<ComponentView>, t: TypeIdView)
    ensures
        ({
            let q = match type_lookup(p, e.ty) {
                None => p.push(registered_entity_type(e, registry)),
                Some(x) => p.update(type_index(p, e.ty), merged(x, e)),
            };
            &&& type_lookup(p, t) is Some ==> type_lookup(q, t) is Some
            &&& type_lookup(q, e.ty) is Some
        }),
{
    match type_lookup(p, e.ty) {
        None => {
            let q = p.push(registered_entity_type(e, registry));
            assert(q[p.len() as int].ty == e.ty);
            if type_lookup(p, t) is Some {
                let i = type_index(p, t);
                assert(q[i] == p[i]);
            }
        },
        Some(x) => {
            let j = type_index(p, e.ty);
            let q = p.update(j, merged(x, e));
            assert(q[j].ty == e.ty);
            if type_lookup(p, t) is Some {
                let i = type_index(p, t);
                if i != j {
                    assert(q[i] == p[i]);
                } else {
                    assert(q[i].ty == p[i].ty);
                }
            }
        },
    }
}

/// Providing more entity types keeps every id that was found.
proof fn lemma_provided_keeps(s: Seq<EntityTypeView>, list: Seq<EntityTypeView>, registry: Seq<ComponentView>, t: TypeIdView)
    requires
        type_lookup(s, t) is Some,
    ensures
        type_lookup(provided(s, list, registry), t) is Some,
    decreases list.len(),
{
    if list.len() > 0 {
        lemma_provided_keeps(s, list.drop_last(), registry, t);
        lemma_provided_step(provided(s, list.drop_last(), registry), list.last(), registry, t);
    }
}

/// Every entity type given to `add_provider` is found by its id afterwards,
/// whether it was registered or merged into the registered one of its id.
pub proof fn law_provided_entity_types_are_found(
    s: Seq<EntityTypeView>,
    list: Seq<EntityTypeView>,
    registry: Seq<ComponentView>,
    k: int,
)
    requires
        0 <= k < list.len(),
    ensures
        type_lookup(provided(s, list, registry), list[k].ty) is Some,
    decreases list.len(),
{
    let p = provided(s, list.drop_last(), registry);
    if k == list.len() - 1 {
        lemma_provided_step(p, list.last(), registry, list[k].ty);
    } else {
        law_provided_entity_types_are_found(s, list.drop_last(), registry, k);
        assert(list.drop_last()[k] == list[k]);
        lemma_provided_step(p, list.last(), registry, list[k].ty);
    }
}

/// The plugin states go by their own names, no two of them by the same; a
/// search by state keeps a plugin exactly when its state goes by the given
/// text, so searches for two different states never keep the same plugin.
pub proof fn law_plugin_states_go_by_their_names(s1: PluginState, s2: PluginState, p: PluginRecord, f: PluginFilter)
    ensures
        state_name(PluginState::Installed) == "Installed"@,
        state_name(PluginState::Resolving) == "Resolving"@,
        state_name(PluginState::Resolved) == "Resolved"@,
        state_name(PluginState::Starting) == "Starting"@,
        state_name(PluginState::Active) == "Active"@,
        state_name(PluginState::Stopping) == "Stopping"@,
        state_name(PluginState::Refreshing) == "Refreshing"@,
        state_name(PluginState::Uninstalling) == "Uninstalling"@,
        state_name(PluginState::Uninstalled) == "Uninstalled"@,
        state_name(s1) == state_name(s2) ==> s1 == s2,
        (f.id is None && f.stem_id is None && f.name is None && f.state is Some) ==> (plugin_matches(p, f) <==> (p.state is Some
            && state_name(p.state->0) == f.state->0@)),
{
    reveal_strlit("Installed");
    reveal_strlit("Resolving");
    reveal_strlit("Resolved");
    reveal_strlit("Starting");
    reveal_strlit("Active");
    reveal_strlit("Stopping");
    reveal_strlit("Refreshing");
    reveal_strlit("Uninstalling");
    reveal_strlit("Uninstalled");
    if state_name(s1) == state_name(s2) && s1 != s2 {
        let a = state_name(s1);
        let b = state_name(s2);
        assert(a.len() != b.len() || a[0] != b[0] || a[1] != b[1] || a[2] != b[2] || a[3] != b[3] || a[4] != b[4] || a[5] != b[5] || a[6] != b[6] || a[7] != b[7]);
    }
}

/// Every system event is classified as the event type of its own name: the
/// event type is the one named like the event's variant, and no event of
/// another variant gets that type.
pub proof fn law_event_type_is_named_like_the_event(event: SystemEvent)
    ensures
        (event_type(event) == SystemEventTypes::ComponentCreated) == (event is ComponentCreated),
        (event_type(event) == SystemEventTypes::ComponentPropertyAdded) == (event is ComponentPropertyAdded),
        (event_type(event) == SystemEventTypes::ComponentPropertyRenamed) == (event is ComponentPropertyRenamed),
        (event_type(event) == SystemEventTypes::ComponentPropertyUpdated) == (event is ComponentPropertyUpdated),
        (event_type(event) == SystemEventTypes::ComponentPropertyRemoved) == (event is ComponentPropertyRemoved),
        (event_type(event) == SystemEventTypes::ComponentExtensionAdded) == (event is ComponentExtensionAdded),
        (event_type(event) == SystemEventTypes::ComponentExtensionRenamed) == (event is ComponentExtensionRenamed),
        (event_type(event) == SystemEventTypes::ComponentExtensionUpdated) == (event is ComponentExtensionUpdated),
        (event_type(event) == SystemEventTypes::ComponentExtensionRemoved) == (event is ComponentExtensionRemoved),
        (event_type(event) == SystemEventTypes::ComponentDeleted) == (event is ComponentDeleted),
        (event_type(event) == SystemEventTypes::EntityTypeCreated) == (event is EntityTypeCreated),
        (event_type(event) == SystemEventTypes::EntityTypeComponentAdded) == (event is EntityTypeComponentAdded),
        (event_type(event) == SystemEventTypes::EntityTypeComponentRenamed) == (event is EntityTypeComponentRenamed),
        (event_type(event) == SystemEventTypes::EntityTypeComponentUpdated) == (event is EntityTypeComponentUpdated),
        (event_type(event) == SystemEventTypes::EntityTypeComponentRemoved) == (event is EntityTypeComponentRemoved),
        (event_type(event) == SystemEventTypes::EntityTypePropertyAdded) == (event is EntityTypePropertyAdded),
        (event_type(event) == SystemEventTypes::EntityTypePropertyRenamed) == (event is EntityTypePropertyRenamed),
        (event_type(event) == SystemEventTypes::EntityTypePropertyUpdated) == (event is EntityTypePropertyUpdated),
        (event_type(event) == SystemEventTypes::EntityTypePropertyRemoved) == (event is EntityTypePropertyRemoved),
        (event_type(event) == SystemEventTypes::EntityTypeExtensionAdded) == (event is EntityTypeExtensionAdded),
        (event_type(event) == SystemEventTypes::EntityTypeExtensionRenamed) == (event is EntityTypeExtensionRenamed),
        (event_type(event) == SystemEventTypes::EntityTypeExtensionUpdated) == (event is EntityTypeExtensionUpdated),
        (event_type(event) == SystemEventTypes::EntityTypeExtensionRemoved) == (event is EntityTypeExtensionRemoved),
        (event_type(event) == SystemEventTypes::EntityTypeDeleted) == (event is EntityTypeDeleted),
        (event_type(event) == SystemEventTypes::RelationTypeCreated) == (event is RelationTypeCreated),
        (event_type(event) == SystemEventTypes::RelationTypeComponentAdded) == (event is RelationTypeComponentAdded),
        (event_type(event) == SystemEventTypes::RelationTypeComponentRenamed) == (event is RelationTypeComponentRenamed),
        (event_type(event) == SystemEventTypes::RelationTypeComponentUpdated) == (event is RelationTypeComponentUpdated),
        (event_type(event) == SystemEventTypes::RelationTypeComponentRemoved) == (event is RelationTypeComponentRemoved),
        (event_type(event) == SystemEventTypes::RelationTypePropertyAdded) == (event is RelationTypePropertyAdded),
        (event_type(event) == SystemEventTypes::RelationTypePropertyRenamed) == (event is RelationTypePropertyRenamed),
        (event_type(event) == SystemEventTypes::RelationTypePropertyUpdated) == (event is RelationTypePropertyUpdated),
        (event_type(event) == SystemEventTypes::RelationTypePropertyRemoved) == (event is RelationTypePropertyRemoved),
        (event_type(event) == SystemEventTypes::RelationTypeExtensionAdded) == (event is RelationTypeExtensionAdded),
        (event_type(event) == SystemEventTypes::RelationTypeExtensionRenamed) == (event is RelationTypeExtensionRenamed),
        (event_type(event) == SystemEventTypes::RelationTypeExtensionUpdated) == (event is RelationTypeExtensionUpdated),
        (event_type(event) == SystemEventTypes::RelationTypeExtensionRemoved) == (event is RelationTypeExtensionRemoved),
        (event_type(event) == SystemEventTypes::RelationTypeDeleted) == (event is RelationTypeDeleted),
        (event_type(event) == SystemEventTypes::FlowTypeCreated) == (event is FlowTypeCreated),
        (event_type(event) == SystemEventTypes::FlowTypeUpdated) == (event is FlowTypeUpdated),
        (event_type(event) == SystemEventTypes::FlowTypeDeleted) == (event is FlowTypeDeleted),
        (event_type(event) == SystemEventTypes::TypeSystemChanged) == (event is TypeSystemChanged),
        (event_type(event) == SystemEventTypes::EntityInstanceCreated) == (event is EntityInstanceCreated),
        (event_type(event) == SystemEventTypes::EntityInstanceDeleted) == (event is EntityInstanceDeleted),
        (event_type(event) == SystemEventTypes::RelationInstanceCreated) == (event is RelationInstanceCreated),
        (event_type(event) == SystemEventTypes::RelationInstanceDeleted) == (event is RelationInstanceDeleted),
        (event_type(event) == SystemEventTypes::FlowInstanceCreated) == (event is FlowInstanceCreated),
        (event_type(event) == SystemEventTypes::FlowInstanceDeleted) == (event is FlowInstanceDeleted),
{
}

/// A registered component whose properties agree in data type with every
/// property of the same name already on the entity type adds nothing to
/// the divergent components; one with a property of a name already taken by
/// a property of another data type is added to them.
pub proof fn law_divergence_is_a_clash_of_data_types(e: EntityTypeView, registry: Seq<ComponentView>, k: int)
    requires
        e.wf(),
        components_wf(registry),
        0 <= k < e.components.len(),
        component_lookup(registry, e.components[k]) is Some,
    ensures
        ({
            let c = component_lookup(registry, e.components[k]).unwrap();
            let p = registered_properties(e.properties, e.components.take(k), registry);
            let before = divergent_components(e.properties, e.components.take(k), registry);
            let after = divergent_components(e.properties, e.components.take(k + 1), registry);
            &&& (forall|i: int, j: int|
                0 <= i < c.properties.len() && 0 <= j < p.len() && #[trigger] p[j].name == #[trigger] c.properties[i].name
                    ==> p[j].data_type == c.properties[i].data_type) ==> after == before
            &&& (exists|i: int, j: int|
                0 <= i < c.properties.len() && 0 <= j < p.len() && #[trigger] p[j].name == #[trigger] c.properties[i].name
                    && p[j].data_type != c.properties[i].data_type) ==> after == before.push(e.components[k])
        }),
{
    let c = component_lookup(registry, e.components[k]).unwrap();
    let p = registered_properties(e.properties, e.components.take(k), registry);
    let comps = e.components.take(k + 1);
    lemma_registered_properties(e.properties, e.components.take(k), registry);
    assert(comps.drop_last() =~= e.components.take(k));
    assert(comps.last() == e.components[k]);
    if forall|i: int, j: int|
        0 <= i < c.properties.len() && 0 <= j < p.len() && #[trigger] p[j].name == #[trigger] c.properties[i].name
            ==> p[j].data_type == c.properties[i].data_type {
        assert forall|i: int| 0 <= i < c.properties.len() implies !#[trigger] diverges_at(p, c.properties[i]) by {
            let n = c.properties[i].name;
            if has_property(p, n) {
                let j = choose|j: int| 0 <= j < p.len() && #[trigger] p[j].name == n;
                assert(property_named(p, n) == Some(p[j]));
            }
        }
        assert(!diverges(p, c.properties));
    }
    if exists|i: int, j: int|
        0 <= i < c.properties.len() && 0 <= j < p.len() && #[trigger] p[j].name == #[trigger] c.properties[i].name
            && p[j].data_type != c.properties[i].data_type {
        let (i, j) = choose|i: int, j: int|
            0 <= i < c.properties.len() && 0 <= j < p.len() && #[trigger] p[j].name == #[trigger] c.properties[i].name
                && p[j].data_type != c.properties[i].data_type;
        let n = c.properties[i].name;
        let m = choose|m: int| 0 <= m < p.len() && #[trigger] p[m].name == n;
        assert(m == j);
        assert(diverges_at(p, c.properties[i]));
        assert(diverges(p, c.properties));
    }
}

/// Filling in default values keeps the given values, in their places, gives
/// every property type a value, and adds only values for names that had
/// none, each the default value of the data type of a property type of that
/// name.
proof fn lemma_with_defaults(props: Seq<(Seq<char>, JsonView)>, defs: Seq<PropertyTypeView>)
    ensures
        ({
            let w = with_defaults(props, defs);
            &&& w.len() >= props.len()
            &&& w.subrange(0, props.len() as int) == props
            &&& forall|i: int| 0 <= i < defs.len() ==> has_key(w, (#[trigger] defs[i]).name)
            &&& forall|i: int| props.len() <= i < w.len() ==> !has_key(props, (#[trigger] w[i]).0) && exists|q: int|
                0 <= q < defs.len() && (#[trigger] defs[q]).name == w[i].0 && w[i].1 == default_value_view(defs[q].data_type)
        }),
    decreases defs.len(),
{
    if defs.len() > 0 {
        let rest = defs.drop_last();
        lemma_with_defaults(props, rest);
        let p = with_defaults(props, rest);
        let w = with_defaults(props, defs);
        let last = defs.last();
        assert(defs[defs.len() - 1] == last);
        assert forall|i: int| 0 <= i < defs.len() implies has_key(w, (#[trigger] defs[i]).name) by {
            if i < defs.len() - 1 {
                assert(rest[i] == defs[i]);
                let k = choose|k: int| 0 <= k < p.len() && #[trigger] p[k].0 == rest[i].name;
                assert(w[k] == p[k]);
            } else if !has_key(p, last.name) {
                assert(w[p.len() as int].0 == last.name);
            }
        }
        assert forall|i: int| props.len() <= i < w.len() implies !has_key(props, (#[trigger] w[i]).0) && exists|q: int|
            0 <= q < defs.len() && (#[trigger] defs[q]).name == w[i].0 && w[i].1 == default_value_view(defs[q].data_type) by {
            if i < p.len() {
                assert(w[i] == p[i]);
                let q = choose|q: int| 0 <= q < rest.len() && (#[trigger] rest[q]).name == p[i].0 && p[i].1 == default_value_view(rest[q].data_type);
                assert(defs[q] == rest[q]);
            } else {
                assert(w[i] == (last.name, default_value_view(last.data_type)));
                if has_key(props, last.name) {
                    let k = choose|k: int| 0 <= k < props.len() && #[trigger] props[k].0 == last.name;
                    assert(p[k] == p.subrange(0, props.len() as int)[k]);
                    assert(p[k].0 == last.name);
                }
            }
        }
        if !has_key(p, last.name) {
            assert(w.subrange(0, props.len() as int) =~= p.subrange(0, props.len() as int));
        }
    }
}

/// A relation instance created with a relation type keeps its own values,
/// in their places, and has a value for every property of the relation type
/// and for every property of each of its registered components; every value
/// added is for a name that the instance had no value for, and is the
/// default value of the data type of a property of that name, of the
/// relation type or of one of its registered components.
pub proof fn law_typed_creation_fills_every_property(
    props: Seq<(Seq<char>, JsonView)>,
    type_properties: Seq<PropertyTypeView>,
    components: Seq<TypeIdView>,
    registry: Seq<ComponentView>,
)
    ensures
        ({
            let c = completed_properties(props, type_properties, components, registry);
            &&& c.len() >= props.len()
            &&& c.subrange(0, props.len() as int) == props
            &&& forall|i: int| 0 <= i < type_properties.len() ==> has_key(c, (#[trigger] type_properties[i]).name)
            &&& forall|k: int, i: int|
                0 <= k < components.len() && (#[trigger] component_lookup(registry, components[k])) is Some && 0 <= i
                    < component_lookup(registry, components[k]).unwrap().properties.len() ==> has_key(
                    c,
                    (#[trigger] component_lookup(registry, components[k]).unwrap().properties[i]).name,
                )
            &&& forall|i: int| props.len() <= i < c.len() ==> !has_key(props, (#[trigger] c[i]).0) && ((exists|q: int|
                0 <= q < type_properties.len() && (#[trigger] type_properties[q]).name == c[i].0 && c[i].1 == default_value_view(
                    type_properties[q].data_type,
                )) || (exists|k: int, q: int|
                0 <= k < components.len() && (#[trigger] component_lookup(registry, components[k])) is Some && 0 <= q
                    < component_lookup(registry, components[k]).unwrap().properties.len() && (#[trigger] component_lookup(
                    registry,
                    components[k],
                ).unwrap().properties[q]).name == c[i].0 && c[i].1 == default_value_view(
                    component_lookup(registry, components[k]).unwrap().properties[q].data_type,
                )))
        }),
    decreases components.len(),
{
    if components.len() == 0 {
        lemma_with_defaults(props, type_properties);
    } else {
        let rest = components.drop_last();
        law_typed_creation_fills_every_property(props, type_properties, rest, registry);
        let p = completed_properties(props, type_properties, rest, registry);
        let c = completed_properties(props, type_properties, components, registry);
        let last = components.last();
        assert(components[components.len() - 1] == last);
        assert forall|k: int| 0 <= k < rest.len() implies #[trigger] rest[k] == components[k] by {}
        match component_lookup(registry, last) {
            None => {
                assert(c == p);
                assert forall|k: int, i: int|
                    0 <= k < components.len() && (#[trigger] component_lookup(registry, components[k])) is Some && 0 <= i
                        < component_lookup(registry, components[k]).unwrap().properties.len() implies has_key(
                        c,
                        (#[trigger] component_lookup(registry, components[k]).unwrap().properties[i]).name,
                    ) by {
                    assert(k < components.len() - 1);
                    assert(rest[k] == components[k]);
                    assert(has_key(p, component_lookup(registry, rest[k]).unwrap().properties[i].name));
                }
            },
            Some(cv) => {
                lemma_with_defaults(p, cv.properties);
                assert(c == with_defaults(p, cv.properties));
                assert(c.subrange(0, props.len() as int) =~= c.subrange(0, p.len() as int).subrange(0, props.len() as int));
                assert forall|n: Seq<char>| has_key(p, n) implies #[trigger] has_key(c, n) by {
                    let k = choose|k: int| 0 <= k < p.len() && #[trigger] p[k].0 == n;
                    assert(c[k] == c.subrange(0, p.len() as int)[k]);
                }
                assert forall|i: int| 0 <= i < type_properties.len() implies has_key(c, (#[trigger] type_properties[i]).name) by {
                    assert(has_key(p, type_properties[i].name));
                }
                assert forall|k: int, i: int|
                    0 <= k < components.len() && (#[trigger] component_lookup(registry, components[k])) is Some && 0 <= i
                        < component_lookup(registry, components[k]).unwrap().properties.len() implies has_key(
                        c,
                        (#[trigger] component_lookup(registry, components[k]).unwrap().properties[i]).name,
                    ) by {
                    if k < components.len() - 1 {
                        assert(rest[k] == components[k]);
                        assert(has_key(p, component_lookup(registry, rest[k]).unwrap().properties[i].name));
                    } else {
                        assert(cv.properties[i] == component_lookup(registry, components[k]).unwrap().properties[i]);
                    }
                }
                assert forall|i: int| props.len() <= i < c.len() implies !has_key(props, (#[trigger] c[i]).0) && ((exists|q: int|
                    0 <= q < type_properties.len() && (#[trigger] type_properties[q]).name == c[i].0 && c[i].1 == default_value_view(
                        type_properties[q].data_type,
                    )) || (exists|k: int, q: int|
                    0 <= k < components.len() && (#[trigger] component_lookup(registry, components[k])) is Some && 0 <= q
                        < component_lookup(registry, components[k]).unwrap().properties.len() && (#[trigger] component_lookup(
                        registry,
                        components[k],
                    ).unwrap().properties[q]).name == c[i].0 && c[i].1 == default_value_view(
                        component_lookup(registry, components[k]).unwrap().properties[q].data_type,
                    ))) by {
                    if i < p.len() {
                        assert(c[i] == c.subrange(0, p.len() as int)[i]);
                        assert(c[i] == p[i]);
                        if exists|k: int, q: int|
                            0 <= k < rest.len() && (#[trigger] component_lookup(registry, rest[k])) is Some && 0 <= q
                                < component_lookup(registry, rest[k]).unwrap().properties.len() && (#[trigger] component_lookup(
                                registry,
                                rest[k],
                            ).unwrap().properties[q]).name == p[i].0 && p[i].1 == default_value_view(
                                component_lookup(registry, rest[k]).unwrap().properties[q].data_type,
                            ) {
                            let (k, q) = choose|k: int, q: int|
                                0 <= k < rest.len() && (#[trigger] component_lookup(registry, rest[k])) is Some && 0 <= q
                                    < component_lookup(registry, rest[k]).unwrap().properties.len() && (#[trigger] component_lookup(
                                    registry,
                                    rest[k],
                                ).unwrap().properties[q]).name == p[i].0 && p[i].1 == default_value_view(
                                    component_lookup(registry, rest[k]).unwrap().properties[q].data_type,
                                );
                            assert(rest[k] == components[k]);
                        }
                    } else {
                        let q = choose|q: int| 0 <= q < cv.properties.len() && (#[trigger] cv.properties[q]).name == c[i].0
                            && c[i].1 == default_value_view(cv.properties[q].data_type);
                        let k = components.len() - 1;
                        assert(component_lookup(registry, components[k]) == Some(cv));
                        if has_key(props, c[i].0) {
                            let m = choose|m: int| 0 <= m < props.len() && #[trigger] props[m].0 == c[i].0;
                            assert(p[m] == p.subrange(0, props.len() as int)[m]);
                            assert(has_key(p, c[i].0));
                        }
                    }
                }
            },
        }
    }
}

} // verus!
