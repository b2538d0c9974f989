use vstd::prelude::*;

use crate::components::{component_lookup, ComponentManager};
use crate::entity_type::{
    insert_extensions, insert_ids, insert_properties, lemma_insert_property_unique,
    lemma_property_at, EntityType, EntityTypeAddComponentError, EntityTypeAddExtensionError,
    EntityTypeAddPropertyError, EntityTypeRemoveComponentError, EntityTypeRemoveExtensionError,
    EntityTypeRemovePropertyError, EntityTypeUpdateExtensionError, EntityTypeUpdatePropertyError,
    EntityTypeView,
};
use crate::json::{string_array_view, Json};
use crate::events::SystemEvent;
use crate::model::{
    find_property, has_extension, has_property, properties_view, property_named,
    unique_property_names, Extension, ExtensionView, PropertyType, PropertyTypeView,
};
use crate::strings::{sort_strings, str_le, strings_view};
use crate::types::{
    type_definition_view, ComponentKind, ComponentTypeId, ExtensionTypeId, TypeIdView, TypeKind,
};

verus! {

broadcast use vstd::std_specs::vec::group_vec_axioms;

/// The properties with those of a component added whose names are not
/// there yet, in the component's order.
pub open spec fn absorb(s: Seq<PropertyTypeView>, t: Seq<PropertyTypeView>) -> Seq<PropertyTypeView>
    decreases t.len(),
{
    if t.len() == 0 {
        s
    } else {
        let m = absorb(s, t.drop_last());
        if has_property(m, t.last().name) {
            m
        } else {
            m.push(t.last())
        }
    }
}

/// True when the properties have a property of the name of `q` whose data
/// type differs from that of `q`.
pub open spec fn diverges_at(s: Seq<PropertyTypeView>, q: PropertyTypeView) -> bool {
    has_property(s, q.name) && property_named(s, q.name).unwrap().data_type != q.data_type
}

/// True when one of the properties of a component diverges from the
/// properties `s`: `s` has a property of its name with another data type.
pub open spec fn diverges(s: Seq<PropertyTypeView>, t: Seq<PropertyTypeView>) -> bool {
    exists|j: int| 0 <= j < t.len() && #[trigger] diverges_at(s, t[j])
}

/// The properties of an entity type once the properties of the registered
/// components that it is made of are added, component after component.
pub open spec fn registered_properties(
    props: Seq<PropertyTypeView>,
    comps: Seq<TypeIdView>,
    registry: Seq<crate::entity_type::ComponentView>,
) -> Seq<PropertyTypeView>
    decreases comps.len(),
{
    if comps.len() == 0 {
        props
    } else {
        let p = registered_properties(props, comps.drop_last(), registry);
        match component_lookup(registry, comps.last()) {
            Some(c) => absorb(p, c.properties),
            None => p,
        }
    }
}

/// The components of an entity type that diverge, in the order of the
/// entity type: those that are not registered, and those with a property
/// whose name is already taken by a property of another data type.
pub open spec fn divergent_components(
    props: Seq<PropertyTypeView>,
    comps: Seq<TypeIdView>,
    registry: Seq<crate::entity_type::ComponentView>,
) -> Seq<TypeIdView>
    decreases comps.len(),
{
    if comps.len() == 0 {
        Seq::empty()
    } else {
        let d = divergent_components(props, comps.drop_last(), registry);
        let p = registered_properties(props, comps.drop_last(), registry);
        match component_lookup(registry, comps.last()) {
            Some(c) => if diverges(p, c.properties) {
                d.push(comps.last())
            } else {
                d
            },
            None => d.push(comps.last()),
        }
    }
}

/// The type of the extension that lists the divergent components of a type.
pub open spec fn divergent_extension_ty() -> TypeIdView {
    TypeIdView {
        namespace: seq!['c', 'o', 'r', 'e'],
        name: seq!['d', 'i', 'v', 'e', 'r', 'g', 'e', 'n', 't'],
    }
}

/// The sorted type definitions of the divergent components.
pub open spec fn divergent_names(divergent: Seq<TypeIdView>) -> Seq<Seq<char>> {
    divergent.map_values(|c: TypeIdView| type_definition_view(ComponentKind::prefix_spec(), c)).sort_by(
        |a: Seq<char>, b: Seq<char>| str_le(a, b),
    )
}

/// The extension that lists the divergent components.
pub open spec fn divergent_extension(divergent: Seq<TypeIdView>) -> ExtensionView {
    ExtensionView {
        ty: divergent_extension_ty(),
        description: Seq::empty(),
        extension: string_array_view(divergent_names(divergent)),
    }
}

/// The entity type as it is registered: the properties of its registered
/// components are added, and the extension that lists its divergent
/// components is added unless it has an extension of that type.
pub open spec fn registered_entity_type(
    e: EntityTypeView,
    registry: Seq<crate::entity_type::ComponentView>,
) -> EntityTypeView {
    let ext = divergent_extension(divergent_components(e.properties, e.components, registry));
    EntityTypeView {
        properties: registered_properties(e.properties, e.components, registry),
        extensions: if has_extension(e.extensions, ext.ty) {
            e.extensions
        } else {
            e.extensions.push(ext)
        },
        ..e
    }
}

/// The entity type `e` with `other` merged into it.
pub open spec fn merged(e: EntityTypeView, other: EntityTypeView) -> EntityTypeView {
    EntityTypeView {
        ty: e.ty,
        description: other.description,
        components: insert_ids(e.components, other.components),
        properties: insert_properties(e.properties, other.properties),
        extensions: insert_extensions(e.extensions, other.extensions),
    }
}

/// The registry after each of the given entity types is registered, or,
/// where one with its id is registered already, merged into that one.
pub open spec fn provided(
    s: Seq<EntityTypeView>,
    list: Seq<EntityTypeView>,
    registry: Seq<crate::entity_type::ComponentView>,
) -> Seq<EntityTypeView>
    decreases list.len(),
{
    if list.len() == 0 {
        s
    } else {
        let p = provided(s, list.drop_last(), registry);
        let e = list.last();
        match type_lookup(p, e.ty) {
            None => p.push(registered_entity_type(e, registry)),
            Some(x) => p.update(type_index(p, e.ty), merged(x, e)),
        }
    }
}

/// The ids of the entity types that are registered, rather than merged, in
/// order, when the given entity types are provided.
pub open spec fn provided_created(
    s: Seq<EntityTypeView>,
    list: Seq<EntityTypeView>,
    registry: Seq<crate::entity_type::ComponentView>,
) -> Seq<TypeIdView>
    decreases list.len(),
{
    if list.len() == 0 {
        Seq::empty()
    } else {
        let p = provided(s, list.drop_last(), registry);
        let c = provided_created(s, list.drop_last(), registry);
        let e = list.last();
        match type_lookup(p, e.ty) {
            None => c.push(e.ty),
            Some(x) => c,
        }
    }
}

/// Facts about adding the properties of a component.
pub proof fn lemma_absorb(s: Seq<PropertyTypeView>, t: Seq<PropertyTypeView>)
    requires
        unique_property_names(s),
    ensures
        unique_property_names(absorb(s, t)),
        forall|n: Seq<char>| #[trigger] has_property(absorb(s, t), n) <==> (has_property(s, n) || has_property(t, n)),
        absorb(s, t).len() >= s.len(),
        absorb(s, t).subrange(0, s.len() as int) == s,
    decreases t.len(),
{
    if t.len() > 0 {
        let m = absorb(s, t.drop_last());
        lemma_absorb(s, t.drop_last());
        let q = t.last();
        assert forall|n: Seq<char>| has_property(t.drop_last(), n) || n == q.name <==> #[trigger] has_property(t, n) by {
            if has_property(t.drop_last(), n) {
                let k = choose|k: int| 0 <= k < t.drop_last().len() && #[trigger] t.drop_last()[k].name == n;
                assert(t[k].name == n);
            }
            if n == q.name {
                assert(t[t.len() - 1].name == n);
            }
            if has_property(t, n) && n != q.name {
                let k = choose|k: int| 0 <= k < t.len() && #[trigger] t[k].name == n;
                assert(t.drop_last()[k].name == n);
            }
        }
        if !has_property(m, q.name) {
            lemma_insert_property_unique(m, q);
            assert(crate::model::insert_property(m, q) == m.push(q));
            assert(m.push(q).subrange(0, s.len() as int) =~= m.subrange(0, s.len() as int));
        }
    }
}

/// While the properties of a component are added one after the other, the
/// name of a property that is yet to come is taken only where it was taken
/// before, by the same property.
pub proof fn lemma_absorb_prefix_named(s: Seq<PropertyTypeView>, t: Seq<PropertyTypeView>, j: int)
    requires
        unique_property_names(s),
        unique_property_names(t),
        0 <= j < t.len(),
    ensures
        has_property(absorb(s, t.take(j)), t[j].name) == has_property(s, t[j].name),
        has_property(s, t[j].name) ==> property_named(absorb(s, t.take(j)), t[j].name) == property_named(s, t[j].name),
        diverges_at(absorb(s, t.take(j)), t[j]) == diverges_at(s, t[j]),
{
    let m = absorb(s, t.take(j));
    lemma_absorb(s, t.take(j));
    let n = t[j].name;
    if has_property(t.take(j), n) {
        let k = choose|k: int| 0 <= k < t.take(j).len() && #[trigger] t.take(j)[k].name == n;
        assert(t[k].name == t[j].name);
    }
    if has_property(s, n) {
        let i = choose|i: int| 0 <= i < s.len() && #[trigger] s[i].name == n;
        lemma_property_at(s, i);
        assert(m[i] == m.subrange(0, s.len() as int)[i]);
        assert(m[i] == s[i]);
        lemma_property_at(m, i);
    }
}

/// Adds to the properties those of a component whose names are not there
/// yet, and tells whether the component diverges.
fn absorb_component(props: &mut Vec<PropertyType>, cp: &Vec<PropertyType>) -> (d: bool)
    requires
        unique_property_names(properties_view(old(props)@)),
        unique_property_names(properties_view(cp@)),
    ensures
        properties_view(final(props)@) == absorb(properties_view(old(props)@), properties_view(cp@)),
        unique_property_names(properties_view(final(props)@)),
        d == diverges(properties_view(old(props)@), properties_view(cp@)),
{
    let ghost s = properties_view(props@);
    let ghost t = properties_view(cp@);
    let mut d = false;
    let mut j: usize = 0;
    assert(t.take(0) =~= Seq::<PropertyTypeView>::empty());
    while j < cp.len()
        invariant
            j <= cp.len(),
            s == properties_view(old(props)@),
            t == properties_view(cp@),
            unique_property_names(s),
            unique_property_names(t),
            properties_view(props@) == absorb(s, t.take(j as int)),
            unique_property_names(properties_view(props@)),
            d == (exists|k: int| 0 <= k < j && #[trigger] diverges_at(s, t[k])),
        decreases cp.len() - j,
    {
        let q = &cp[j];
        proof {
            lemma_absorb_prefix_named(s, t, j as int);
            assert(t.take(j + 1).drop_last() =~= t.take(j as int));
            assert(t.take(j + 1).last() == t[j as int]);
        }
        match find_property(props, &q.name) {
            Some(i) => {
                proof {
                    lemma_property_at(properties_view(props@), i as int);
                }
                if props[i].data_type != q.data_type {
                    d = true;
                }
                proof {
                    assert(diverges_at(s, t[j as int]) == (props@[i as int].data_type != q.data_type));
                }
            },
            None => {
                let ghost before = properties_view(props@);
                proof {
                    lemma_absorb(s, t.take(j as int));
                }
                props.push(q.duplicate());
                proof {
                    assert(properties_view(props@) =~= before.push(t[j as int]));
                    lemma_insert_property_unique(before, t[j as int]);
                    assert(crate::model::insert_property(before, t[j as int]) == before.push(t[j as int]));
                }
            },
        }
        j = j + 1;
    }
    assert(t.take(cp.len() as int) =~= t);
    d
}


/// The entity type with the given id, where there is one.
pub open spec fn type_lookup(s: Seq<EntityTypeView>, ty: TypeIdView) -> Option<EntityTypeView> {
    if exists|i: int| 0 <= i < s.len() && #[trigger] s[i].ty == ty {
        Some(s[type_index(s, ty)])
    } else {
        None
    }
}

/// The position of the entity type with the given id.
pub open spec fn type_index(s: Seq<EntityTypeView>, ty: TypeIdView) -> int {
    choose|i: int| 0 <= i < s.len() && #[trigger] s[i].ty == ty
}

/// True when no two entity types share an id and each is well formed.
pub open spec fn entity_types_wf(s: Seq<EntityTypeView>) -> bool {
    &&& forall|i: int, j: int| 0 <= i < s.len() && 0 <= j < s.len() && i != j ==> #[trigger] s[i].ty != #[trigger] s[j].ty
    &&& forall|i: int| 0 <= i < s.len() ==> (#[trigger] s[i]).wf()
}

/// In a sequence of entity types with unique ids, the one at `i` is the one
/// that has its id.
pub proof fn lemma_type_at(s: Seq<EntityTypeView>, i: int)
    requires
        entity_types_wf(s),
        0 <= i < s.len(),
    ensures
        type_index(s, s[i].ty) == i,
        type_lookup(s, s[i].ty) == Some(s[i]),
{
    assert(s[i].ty == s[i].ty);
}

/// The error when an entity type cannot be registered.
#[derive(Debug)]
pub enum EntityTypeRegistrationError {
    EntityTypeAlreadyExists(crate::types::EntityTypeId),
}

/// The error when an entity type cannot be created.
#[derive(Debug)]
pub enum EntityTypeCreationError {
    RegistrationError(EntityTypeRegistrationError),
}

/// The error when an entity type cannot be merged.
#[derive(Debug)]
pub enum EntityTypeMergeError {
    EntityTypeDoesNotExist(crate::types::EntityTypeId),
}

/// The registry of the entity types. It records the events that its changes
/// emit, for the event manager to take.
pub struct EntityTypeManagerImpl {
    entity_types: Vec<EntityType>,
    events: Vec<SystemEvent>,
}

impl View for EntityTypeManagerImpl {
    type V = Seq<EntityTypeView>;

    closed spec fn view(&self) -> Seq<EntityTypeView> {
        self.entity_types@.map_values(|e: EntityType| e@)
    }
}

impl EntityTypeManagerImpl {
    #[verifier::type_invariant]
    closed spec fn inv(&self) -> bool {
        entity_types_wf(self@)
    }

    /// The events that the registry has emitted and that were not taken yet.
    pub closed spec fn emitted(&self) -> Seq<SystemEvent> {
        self.events@
    }

    /// Creates an empty registry.
    pub fn new() -> (r: EntityTypeManagerImpl)
        ensures
            r@ == Seq::<EntityTypeView>::empty(),
            r.emitted() == Seq::<SystemEvent>::empty(),
    {
        let r = EntityTypeManagerImpl { entity_types: Vec::new(), events: Vec::new() };
        assert(r@ =~= Seq::<EntityTypeView>::empty());
        r
    }

    /// Returns the position of the entity type with the given id.
    fn position(&self, ty: &crate::types::EntityTypeId) -> (r: Option<usize>)
        ensures
            entity_types_wf(self@),
            match r {
                Some(i) => i < self@.len() && self@[i as int].ty == ty@ && type_index(self@, ty@) == i
                    && type_lookup(self@, ty@) == Some(self@[i as int]),
                None => type_lookup(self@, ty@) is None,
            },
    {
        proof {
            use_type_invariant(self);
        }
        let mut i: usize = 0;
        while i < self.entity_types.len()
            invariant
                i <= self.entity_types.len(),
                self@.len() == self.entity_types.len(),
                forall|k: int| 0 <= k < i ==> self@[k].ty != ty@,
                entity_types_wf(self@),
            decreases self.entity_types.len() - i,
        {
            if self.entity_types[i].ty().same(ty) {
                proof {
                    lemma_type_at(self@, i as int);
                }
                return Some(i);
            }
            i = i + 1;
        }
        None
    }

    /// Appends an entity type whose id is not registered yet.
    fn append(&mut self, entity_type: EntityType)
        requires
            type_lookup(old(self)@, entity_type@.ty) is None,
        ensures
            final(self)@ == old(self)@.push(entity_type@),
            final(self).emitted() == old(self).emitted(),
    {
        proof {
            use_type_invariant(&*self);
            use_type_invariant(&entity_type);
        }
        let ghost ev = entity_type@;
        let ghost old_view = self@;
        let mut entity_types = Vec::new();
        std::mem::swap(&mut entity_types, &mut self.entity_types);
        entity_types.push(entity_type);
        proof {
            assert(entity_types@.map_values(|e: EntityType| e@) =~= old_view.push(ev));
            assert forall|i: int, j: int| 0 <= i < old_view.len() + 1 && 0 <= j < old_view.len() + 1 && i != j implies #[trigger] old_view.push(ev)[i].ty != #[trigger] old_view.push(ev)[j].ty by {
                if i == old_view.len() && j < old_view.len() {
                    assert(old_view[j].ty == old_view.push(ev)[j].ty);
                }
                if j == old_view.len() && i < old_view.len() {
                    assert(old_view[i].ty == old_view.push(ev)[i].ty);
                }
            }
        }
        self.entity_types = entity_types;
    }

    /// Registers the entity type, unless one with its id is registered. The
    /// properties of the registered components that it is made of are added
    /// to it where it has no property of their names; the components that
    /// are not registered, or that have a property whose name is already
    /// taken by a property of another data type, are listed, sorted, in the
    /// extension `core__divergent`, which is added unless the entity type has
    /// an extension of that type. Emits `EntityTypeCreated`.
    pub fn register(&mut self, components: &ComponentManager, entity_type: EntityType) -> (r: Result<EntityType, EntityTypeRegistrationError>)
        ensures
            match r {
                Ok(e) => {
                    &&& type_lookup(old(self)@, entity_type@.ty) is None
                    &&& e@ == registered_entity_type(entity_type@, components@)
                    &&& final(self)@ == old(self)@.push(e@)
                    &&& final(self).emitted().len() == old(self).emitted().len() + 1
                    &&& final(self).emitted().drop_last() == old(self).emitted()
                    &&& (final(self).emitted().last() matches SystemEvent::EntityTypeCreated(t) && t@ == entity_type@.ty)
                },
                Err(EntityTypeRegistrationError::EntityTypeAlreadyExists(t)) => {
                    &&& t@ == entity_type@.ty
                    &&& type_lookup(old(self)@, entity_type@.ty) is Some
                    &&& final(self)@ == old(self)@
                    &&& final(self).emitted() == old(self).emitted()
                },
            },
    {
        if self.position(entity_type.ty()).is_some() {
            return Err(EntityTypeRegistrationError::EntityTypeAlreadyExists(entity_type.ty().duplicate()));
        }
        let ghost e0 = entity_type@;
        let ghost registry = components@;
        let mut props = entity_type.copy_of_properties();
        let comps = entity_type.components();
        let mut divergent: Vec<String> = Vec::new();
        let ghost cv = crate::model::ids_view(comps@);
        let mut i: usize = 0;
        assert(cv.take(0) =~= Seq::<TypeIdView>::empty());
        assert(strings_view(divergent@) =~= Seq::<Seq<char>>::empty());
        while i < comps.len()
            invariant
                i <= comps.len(),
                cv == crate::model::ids_view(comps@),
                cv == e0.components,
                registry == components@,
                properties_view(props@) == registered_properties(e0.properties, cv.take(i as int), registry),
                unique_property_names(properties_view(props@)),
                strings_view(divergent@) == divergent_components(e0.properties, cv.take(i as int), registry).map_values(
                    |x: TypeIdView| type_definition_view(ComponentKind::prefix_spec(), x),
                ),
            decreases comps.len() - i,
        {
            let c = &comps[i];
            proof {
                assert(cv.take(i + 1).drop_last() =~= cv.take(i as int));
                assert(cv.take(i + 1).last() == c@);
            }
            let ghost before = divergent_components(e0.properties, cv.take(i as int), registry);
            match components.get(c) {
                Some(comp) => {
                    let d = absorb_component(&mut props, comp.properties());
                    if d {
                        let name = c.type_definition();
                        let ghost dv = strings_view(divergent@);
                        divergent.push(name);
                        proof {
                            assert(strings_view(divergent@) =~= dv.push(type_definition_view(ComponentKind::prefix_spec(), c@)));
                            assert(before.push(c@).map_values(|x: TypeIdView| type_definition_view(ComponentKind::prefix_spec(), x))
                                =~= before.map_values(|x: TypeIdView| type_definition_view(ComponentKind::prefix_spec(), x)).push(type_definition_view(ComponentKind::prefix_spec(), c@)));
                        }
                    }
                },
                None => {
                    let name = c.type_definition();
                    let ghost dv = strings_view(divergent@);
                    divergent.push(name);
                    proof {
                        assert(strings_view(divergent@) =~= dv.push(type_definition_view(ComponentKind::prefix_spec(), c@)));
                        assert(before.push(c@).map_values(|x: TypeIdView| type_definition_view(ComponentKind::prefix_spec(), x))
                            =~= before.map_values(|x: TypeIdView| type_definition_view(ComponentKind::prefix_spec(), x)).push(type_definition_view(ComponentKind::prefix_spec(), c@)));
                    }
                },
            }
            i = i + 1;
        }
        proof {
            assert(cv.take(comps.len() as int) =~= cv);
        }
        let sorted = sort_strings(&divergent);
        let ty = entity_type.ty().duplicate();
        let mut entity_type = entity_type;
        entity_type.replace_properties(props);
        proof {
            reveal_strlit("core");
            reveal_strlit("divergent");
        }
        let ext_ty = ExtensionTypeId::new_from_type("core", "divergent");
        let value = Json::string_array(&sorted);
        proof {
            assert(sorted@.map_values(|s: String| s@) =~= strings_view(sorted@));
        }
        let extension = Extension::new(ext_ty, String::new(), value);
        proof {
            let dc = divergent_components(e0.properties, e0.components, registry);
            assert("core"@ =~= seq!['c', 'o', 'r', 'e']);
            assert("divergent"@ =~= seq!['d', 'i', 'v', 'e', 'r', 'g', 'e', 'n', 't']);
            assert(ext_ty@ == divergent_extension_ty());
            assert(dc.map_values(|x: TypeIdView| type_definition_view(ComponentKind::prefix_spec(), x))
                =~= dc.map_values(|c: TypeIdView| type_definition_view(ComponentKind::prefix_spec(), c)));
            assert(extension@ == divergent_extension(dc));
            assert(entity_type@ == EntityTypeView { properties: registered_properties(e0.properties, e0.components, registry), ..e0 });
        }
        let _ = entity_type.add_extension(extension);
        let copy = entity_type.duplicate();
        self.append(entity_type);
        self.emit(SystemEvent::EntityTypeCreated(ty));
        Ok(copy)
    }

    /// Records an emitted event.
    fn emit(&mut self, event: SystemEvent)
        ensures
            final(self)@ == old(self)@,
            final(self).emitted() == old(self).emitted().push(event),
    {
        proof {
            use_type_invariant(&*self);
        }
        let mut events = Vec::new();
        std::mem::swap(&mut events, &mut self.events);
        events.push(event);
        self.events = events;
    }

    /// Takes the events that the registry has emitted.
    pub fn take_events(&mut self) -> (r: Vec<SystemEvent>)
        ensures
            r@ == old(self).emitted(),
            final(self)@ == old(self)@,
            final(self).emitted() == Seq::<SystemEvent>::empty(),
    {
        proof {
            use_type_invariant(&*self);
        }
        let mut events = Vec::new();
        std::mem::swap(&mut events, &mut self.events);
        events
    }

    /// Puts an entity type with the same id in the place of the one at `i`.
    fn replace_at(&mut self, i: usize, entity_type: EntityType)
        requires
            i < old(self)@.len(),
            entity_type@.ty == old(self)@[i as int].ty,
        ensures
            final(self)@ == old(self)@.update(i as int, entity_type@),
            final(self).emitted() == old(self).emitted(),
    {
        proof {
            use_type_invariant(&*self);
            use_type_invariant(&entity_type);
        }
        let ghost ev = entity_type@;
        let ghost old_view = self@;
        let mut entity_types = Vec::new();
        std::mem::swap(&mut entity_types, &mut self.entity_types);
        entity_types.set(i, entity_type);
        proof {
            assert(entity_types@.map_values(|e: EntityType| e@) =~= old_view.update(i as int, ev));
            let nv = old_view.update(i as int, ev);
            assert forall|a: int, b: int| 0 <= a < nv.len() && 0 <= b < nv.len() && a != b implies #[trigger] nv[a].ty != #[trigger] nv[b].ty by {
                assert(nv[a].ty == old_view[a].ty);
                assert(nv[b].ty == old_view[b].ty);
            }
        }
        self.entity_types = entity_types;
    }

    /// Returns all entity types.
    pub fn get_all(&self) -> (r: Vec<EntityType>)
        ensures
            r@.map_values(|e: EntityType| e@) == self@,
            entity_types_wf(self@),
    {
        proof {
            use_type_invariant(self);
        }
        let mut out: Vec<EntityType> = Vec::new();
        let mut i: usize = 0;
        while i < self.entity_types.len()
            invariant
                i <= self.entity_types.len(),
                out.len() == i,
                forall|k: int| 0 <= k < i ==> (#[trigger] out@[k])@ == self.entity_types@[k]@,
            decreases self.entity_types.len() - i,
        {
            out.push(self.entity_types[i].duplicate());
            i = i + 1;
        }
        assert(out@.map_values(|e: EntityType| e@) =~= self@);
        out
    }

    /// Returns the ids of all entity types.
    pub fn get_type_ids(&self) -> (r: Vec<crate::types::EntityTypeId>)
        ensures
            crate::model::ids_view(r@) == self@.map_values(|e: EntityTypeView| e.ty),
    {
        let mut out: Vec<crate::types::EntityTypeId> = Vec::new();
        let mut i: usize = 0;
        while i < self.entity_types.len()
            invariant
                i <= self.entity_types.len(),
                out.len() == i,
                forall|k: int| 0 <= k < i ==> (#[trigger] out@[k])@ == self.entity_types@[k]@.ty,
            decreases self.entity_types.len() - i,
        {
            out.push(self.entity_types[i].ty().duplicate());
            i = i + 1;
        }
        assert(crate::model::ids_view(out@) =~= self@.map_values(|e: EntityTypeView| e.ty));
        out
    }

    /// Returns the namespaces of the entity types, each once.
    pub fn get_namespaces(&self) -> (r: Vec<String>)
        ensures
            strings_view(r@).no_duplicates(),
            strings_view(r@).to_set() == self@.map_values(|e: EntityTypeView| e.ty.namespace).to_set(),
    {
        let ghost all = self@.map_values(|e: EntityTypeView| e.ty.namespace);
        let mut out: Vec<String> = Vec::new();
        let mut i: usize = 0;
        while i < self.entity_types.len()
            invariant
                i <= self.entity_types.len(),
                all == self@.map_values(|e: EntityTypeView| e.ty.namespace),
                all.len() == self.entity_types.len(),
                strings_view(out@).no_duplicates(),
                forall|n: Seq<char>| strings_view(out@).contains(n) <==> all.take(i as int).contains(n),
            decreases self.entity_types.len() - i,
        {
            let ns = self.entity_types[i].ty().namespace();
            let mut found = false;
            let mut j: usize = 0;
            while j < out.len()
                invariant
                    j <= out.len(),
                    found == (exists|k: int| 0 <= k < j && out@[k]@ == ns@),
                decreases out.len() - j,
            {
                if out[j] == ns {
                    found = true;
                }
                j = j + 1;
            }
            let ghost before = strings_view(out@);
            proof {
                assert(all[i as int] == ns@);
                assert(all.take(i + 1) =~= all.take(i as int).push(ns@));
                if found {
                    let k = choose|k: int| 0 <= k < out.len() && out@[k]@ == ns@;
                    assert(before[k] == ns@);
                    assert forall|n: Seq<char>| strings_view(out@).contains(n) <==> all.take(i + 1).contains(n) by {
                        if n == ns@ {
                            assert(strings_view(out@)[k] == n);
                            assert(all.take(i + 1)[i as int] == n);
                        }
                        if all.take(i + 1).contains(n) && n != ns@ {
                            let j = choose|j: int| 0 <= j < all.take(i + 1).len() && #[trigger] all.take(i + 1)[j] == n;
                            assert(all.take(i as int)[j] == n);
                        }
                        if all.take(i as int).contains(n) {
                            let j = choose|j: int| 0 <= j < all.take(i as int).len() && #[trigger] all.take(i as int)[j] == n;
                            assert(all.take(i + 1)[j] == n);
                        }
                    }
                }
            }
            if !found {
                out.push(ns);
                proof {
                    assert(strings_view(out@) =~= before.push(ns@));
                    assert forall|n: Seq<char>| strings_view(out@).contains(n) <==> all.take(i + 1).contains(n) by {
                        if strings_view(out@).contains(n) && n != ns@ {
                            let k = choose|k: int| 0 <= k < strings_view(out@).len() && strings_view(out@)[k] == n;
                            assert(before[k] == n);
                        }
                        if before.contains(n) {
                            let k = choose|k: int| 0 <= k < before.len() && before[k] == n;
                            assert(strings_view(out@)[k] == n);
                        }
                        if n == ns@ {
                            assert(strings_view(out@)[before.len() as int] == n);
                            assert(all.take(i + 1)[i as int] == n);
                        }
                        if all.take(i + 1).contains(n) && n != ns@ {
                            let j = choose|j: int| 0 <= j < all.take(i + 1).len() && #[trigger] all.take(i + 1)[j] == n;
                            assert(all.take(i as int)[j] == n);
                        }
                        if all.take(i as int).contains(n) {
                            let j = choose|j: int| 0 <= j < all.take(i as int).len() && #[trigger] all.take(i as int)[j] == n;
                            assert(all.take(i + 1)[j] == n);
                        }
                    }
                    assert(!before.contains(ns@)) by {
                        if before.contains(ns@) {
                            let k = choose|k: int| 0 <= k < before.len() && before[k] == ns@;
                            assert(out@[k]@ == ns@);
                        }
                    }
                }
            }
            i = i + 1;
        }
        proof {
            assert(all.take(self.entity_types.len() as int) =~= all);
            assert(strings_view(out@).to_set() =~= all.to_set());
        }
        out
    }

    /// Returns true when an entity type with the given id is registered.
    pub fn has(&self, ty: &crate::types::EntityTypeId) -> (r: bool)
        ensures
            r == (type_lookup(self@, ty@) is Some),
    {
        self.position(ty).is_some()
    }

    /// Returns true when an entity type with the given namespace and name is registered.
    pub fn has_by_type(&self, namespace: &str, name: &str) -> (r: bool)
        ensures
            r == (type_lookup(self@, TypeIdView { namespace: namespace@, name: name@ }) is Some),
    {
        self.has(&crate::types::EntityTypeId::new_from_type(namespace, name))
    }

    /// Returns the entity type with the given id.
    pub fn get(&self, ty: &crate::types::EntityTypeId) -> (r: Option<EntityType>)
        ensures
            match r {
                Some(e) => type_lookup(self@, ty@) == Some(e@),
                None => type_lookup(self@, ty@) is None,
            },
    {
        match self.position(ty) {
            Some(i) => Some(self.entity_types[i].duplicate()),
            None => None,
        }
    }

    /// Returns the entity type with the given namespace and name.
    pub fn get_by_type(&self, namespace: &str, name: &str) -> (r: Option<EntityType>)
        ensures
            match r {
                Some(e) => type_lookup(self@, TypeIdView { namespace: namespace@, name: name@ }) == Some(e@),
                None => type_lookup(self@, TypeIdView { namespace: namespace@, name: name@ }) is None,
            },
    {
        self.get(&crate::types::EntityTypeId::new_from_type(namespace, name))
    }

    /// Returns the number of entity types.
    pub fn count(&self) -> (r: usize)
        ensures
            r == self@.len(),
    {
        self.entity_types.len()
    }

    /// Returns the entity types of the given namespace.
    pub fn get_by_namespace(&self, namespace: &str) -> (r: Vec<EntityType>)
        ensures
            r@.map_values(|e: EntityType| e@) == self@.filter(|e: EntityTypeView| e.ty.namespace == namespace@),
    {
        let ghost pred = |e: EntityTypeView| e.ty.namespace == namespace@;
        let ns = namespace.to_owned();
        let mut out: Vec<EntityType> = Vec::new();
        let mut i: usize = 0;
        assert(self@.take(0).filter(pred) =~= Seq::<EntityTypeView>::empty()) by {
            reveal(Seq::filter);
        }
        assert(out@.map_values(|e: EntityType| e@) =~= Seq::<EntityTypeView>::empty());
        while i < self.entity_types.len()
            invariant
                i <= self.entity_types.len(),
                self@.len() == self.entity_types.len(),
                pred == (|e: EntityTypeView| e.ty.namespace == namespace@),
                ns@ == namespace@,
                out@.map_values(|e: EntityType| e@) == self@.take(i as int).filter(pred),
            decreases self.entity_types.len() - i,
        {
            let ghost before = out@.map_values(|e: EntityType| e@);
            proof {
                reveal(Seq::filter);
                assert(self@.take(i + 1).drop_last() =~= self@.take(i as int));
                assert(self@.take(i + 1).last() == self@[i as int]);
            }
            if self.entity_types[i].ty().namespace == ns {
                out.push(self.entity_types[i].duplicate());
                assert(out@.map_values(|e: EntityType| e@) =~= before.push(self@[i as int]));
            }
            i = i + 1;
        }
        assert(self@.take(self.entity_types.len() as int) =~= self@);
        out
    }

    /// Returns the ids of the entity types of the given namespace.
    pub fn get_types_by_namespace(&self, namespace: &str) -> (r: Vec<crate::types::EntityTypeId>)
        ensures
            crate::model::ids_view(r@) == self@.filter(|e: EntityTypeView| e.ty.namespace == namespace@).map_values(
                |e: EntityTypeView| e.ty,
            ),
    {
        let ghost pred = |e: EntityTypeView| e.ty.namespace == namespace@;
        let ns = namespace.to_owned();
        let mut out: Vec<crate::types::EntityTypeId> = Vec::new();
        let mut i: usize = 0;
        assert(self@.take(0).filter(pred) =~= Seq::<EntityTypeView>::empty()) by {
            reveal(Seq::filter);
        }
        assert(crate::model::ids_view(out@) =~= Seq::<EntityTypeView>::empty().map_values(|e: EntityTypeView| e.ty));
        while i < self.entity_types.len()
            invariant
                i <= self.entity_types.len(),
                self@.len() == self.entity_types.len(),
                pred == (|e: EntityTypeView| e.ty.namespace == namespace@),
                ns@ == namespace@,
                crate::model::ids_view(out@) == self@.take(i as int).filter(pred).map_values(|e: EntityTypeView| e.ty),
            decreases self.entity_types.len() - i,
        {
            let ghost before = self@.take(i as int).filter(pred);
            let ghost bv = crate::model::ids_view(out@);
            proof {
                reveal(Seq::filter);
                assert(self@.take(i + 1).drop_last() =~= self@.take(i as int));
                assert(self@.take(i + 1).last() == self@[i as int]);
            }
            if self.entity_types[i].ty().namespace == ns {
                let t = self.entity_types[i].ty().duplicate();
                let ghost tv = t@;
                out.push(t);
                assert(crate::model::ids_view(out@) =~= bv.push(tv));
                assert(crate::model::ids_view(out@) =~= before.push(self@[i as int]).map_values(|e: EntityTypeView| e.ty));
            }
            i = i + 1;
        }
        assert(self@.take(self.entity_types.len() as int) =~= self@);
        out
    }

    /// Returns the number of entity types of the given namespace.
    pub fn count_by_namespace(&self, namespace: &str) -> (r: usize)
        ensures
            r == self@.filter(|e: EntityTypeView| e.ty.namespace == namespace@).len(),
    {
        let v = self.get_types_by_namespace(namespace);
        assert(crate::model::ids_view(v@).len() == v.len());
        v.len()
    }

    /// Returns the entity types that are made of the given component.
    pub fn get_by_having_component(&self, component_ty: &ComponentTypeId) -> (r: Vec<EntityType>)
        ensures
            r@.map_values(|e: EntityType| e@) == self@.filter(|e: EntityTypeView| e.components.contains(component_ty@)),
    {
        let ghost pred = |e: EntityTypeView| e.components.contains(component_ty@);
        let mut out: Vec<EntityType> = Vec::new();
        let mut i: usize = 0;
        assert(self@.take(0).filter(pred) =~= Seq::<EntityTypeView>::empty()) by {
            reveal(Seq::filter);
        }
        assert(out@.map_values(|e: EntityType| e@) =~= Seq::<EntityTypeView>::empty());
        while i < self.entity_types.len()
            invariant
                i <= self.entity_types.len(),
                self@.len() == self.entity_types.len(),
                pred == (|e: EntityTypeView| e.components.contains(component_ty@)),
                out@.map_values(|e: EntityType| e@) == self@.take(i as int).filter(pred),
            decreases self.entity_types.len() - i,
        {
            let ghost before = out@.map_values(|e: EntityType| e@);
            proof {
                reveal(Seq::filter);
                assert(self@.take(i + 1).drop_last() =~= self@.take(i as int));
                assert(self@.take(i + 1).last() == self@[i as int]);
            }
            if self.entity_types[i].is_a(component_ty) {
                out.push(self.entity_types[i].duplicate());
                assert(out@.map_values(|e: EntityType| e@) =~= before.push(self@[i as int]));
            }
            i = i + 1;
        }
        assert(self@.take(self.entity_types.len() as int) =~= self@);
        out
    }

    /// Creates an entity type and registers it.
    pub fn create(
        &mut self,
        components: &ComponentManager,
        ty: &crate::types::EntityTypeId,
        description: &str,
        component_tys: Vec<ComponentTypeId>,
        properties: Vec<PropertyType>,
        extensions: Vec<Extension>,
    ) -> (r: Result<EntityType, EntityTypeCreationError>)
        ensures
            ({
                let e = EntityTypeView {
                    ty: ty@,
                    description: description@,
                    components: crate::entity_type::ids_from(crate::model::ids_view(component_tys@)),
                    properties: crate::entity_type::properties_from(properties_view(properties@)),
                    extensions: crate::entity_type::extensions_from(crate::model::extensions_view(extensions@)),
                };
                match r {
                    Ok(x) => {
                        &&& type_lookup(old(self)@, ty@) is None
                        &&& x@ == registered_entity_type(e, components@)
                        &&& final(self)@ == old(self)@.push(x@)
                        &&& final(self).emitted().len() == old(self).emitted().len() + 1
                        &&& final(self).emitted().drop_last() == old(self).emitted()
                        &&& (final(self).emitted().last() matches SystemEvent::EntityTypeCreated(t) && t@ == ty@)
                    },
                    Err(EntityTypeCreationError::RegistrationError(EntityTypeRegistrationError::EntityTypeAlreadyExists(t))) => {
                        &&& t@ == ty@
                        &&& type_lookup(old(self)@, ty@) is Some
                        &&& final(self)@ == old(self)@
                        &&& final(self).emitted() == old(self).emitted()
                    },
                }
            }),
    {
        let entity_type = EntityType::new(ty.duplicate(), description, component_tys, properties, extensions);
        match self.register(components, entity_type) {
            Ok(e) => Ok(e),
            Err(e) => Err(EntityTypeCreationError::RegistrationError(e)),
        }
    }

    /// Merges the given entity type into the registered entity type with its
    /// id, and returns the merged entity type.
    pub fn merge(&mut self, entity_type_to_merge: EntityType) -> (r: Result<EntityType, EntityTypeMergeError>)
        ensures
            final(self).emitted() == old(self).emitted(),
            match r {
                Ok(x) => {
                    &&& type_lookup(old(self)@, entity_type_to_merge@.ty) is Some
                    &&& x@ == merged(type_lookup(old(self)@, entity_type_to_merge@.ty).unwrap(), entity_type_to_merge@)
                    &&& final(self)@ == old(self)@.update(type_index(old(self)@, entity_type_to_merge@.ty), x@)
                },
                Err(EntityTypeMergeError::EntityTypeDoesNotExist(t)) => {
                    &&& t@ == entity_type_to_merge@.ty
                    &&& type_lookup(old(self)@, entity_type_to_merge@.ty) is None
                    &&& final(self)@ == old(self)@
                },
            },
    {
        match self.position(entity_type_to_merge.ty()) {
            Some(i) => {
                let mut e = self.entity_types[i].duplicate();
                e.merge(&entity_type_to_merge);
                let copy = e.duplicate();
                self.replace_at(i, e);
                Ok(copy)
            },
            None => Err(EntityTypeMergeError::EntityTypeDoesNotExist(entity_type_to_merge.ty().duplicate())),
        }
    }

    /// Adds the component to the entity type; the component must be registered.
    pub fn add_component(&mut self, components: &ComponentManager, entity_ty: &crate::types::EntityTypeId, component_ty: &ComponentTypeId) -> (r: Result<(), EntityTypeAddComponentError>)
        ensures
            final(self).emitted() == old(self).emitted(),
            match r {
                Ok(()) => {
                    &&& component_lookup(components@, component_ty@) is Some
                    &&& type_lookup(old(self)@, entity_ty@) is Some
                    &&& !type_lookup(old(self)@, entity_ty@).unwrap().components.contains(component_ty@)
                    &&& final(self)@ == old(self)@.update(type_index(old(self)@, entity_ty@), EntityTypeView {
                        components: type_lookup(old(self)@, entity_ty@).unwrap().components.push(component_ty@),
                        ..type_lookup(old(self)@, entity_ty@).unwrap()
                    })
                },
                Err(EntityTypeAddComponentError::ComponentDoesNotExist(c)) => {
                    &&& c@ == component_ty@
                    &&& component_lookup(components@, component_ty@) is None
                    &&& final(self)@ == old(self)@
                },
                Err(EntityTypeAddComponentError::EntityTypeDoesNotExist(t)) => {
                    &&& t@ == entity_ty@
                    &&& component_lookup(components@, component_ty@) is Some
                    &&& type_lookup(old(self)@, entity_ty@) is None
                    &&& final(self)@ == old(self)@
                },
                Err(EntityTypeAddComponentError::ComponentAlreadyAssigned(c)) => {
                    &&& c@ == component_ty@
                    &&& component_lookup(components@, component_ty@) is Some
                    &&& type_lookup(old(self)@, entity_ty@) is Some
                    &&& type_lookup(old(self)@, entity_ty@).unwrap().components.contains(component_ty@)
                    &&& final(self)@ == old(self)@
                },
            },
    {
        if !components.has(component_ty) {
            return Err(EntityTypeAddComponentError::ComponentDoesNotExist(component_ty.duplicate()));
        }
        match self.position(entity_ty) {
            Some(i) => {
                let mut e = self.entity_types[i].duplicate();
                let r = e.add_component(component_ty);
                if r.is_ok() {
                    self.replace_at(i, e);
                }
                r
            },
            None => Err(EntityTypeAddComponentError::EntityTypeDoesNotExist(entity_ty.duplicate())),
        }
    }

    /// Removes the component from the entity type and returns its id.
    pub fn remove_component(&mut self, entity_ty: &crate::types::EntityTypeId, component_ty: &ComponentTypeId) -> (r: Result<ComponentTypeId, EntityTypeRemoveComponentError>)
        ensures
            final(self).emitted() == old(self).emitted(),
            match r {
                Ok(c) => {
                    &&& c@ == component_ty@
                    &&& type_lookup(old(self)@, entity_ty@) is Some
                    &&& type_lookup(old(self)@, entity_ty@).unwrap().components.contains(component_ty@)
                    &&& final(self)@ == old(self)@.update(type_index(old(self)@, entity_ty@), EntityTypeView {
                        components: crate::model::remove_id(type_lookup(old(self)@, entity_ty@).unwrap().components, component_ty@),
                        ..type_lookup(old(self)@, entity_ty@).unwrap()
                    })
                },
                Err(EntityTypeRemoveComponentError::IsNotAComponent(c)) => {
                    &&& c@ == component_ty@
                    &&& type_lookup(old(self)@, entity_ty@) is Some
                    &&& !type_lookup(old(self)@, entity_ty@).unwrap().components.contains(component_ty@)
                    &&& final(self)@ == old(self)@
                },
                Err(EntityTypeRemoveComponentError::EntityTypeDoesNotExist(t)) => {
                    &&& t@ == entity_ty@
                    &&& type_lookup(old(self)@, entity_ty@) is None
                    &&& final(self)@ == old(self)@
                },
            },
    {
        match self.position(entity_ty) {
            Some(i) => {
                let mut e = self.entity_types[i].duplicate();
                let r = e.remove_component(component_ty);
                if r.is_ok() {
                    self.replace_at(i, e);
                }
                r
            },
            None => Err(EntityTypeRemoveComponentError::EntityTypeDoesNotExist(entity_ty.duplicate())),
        }
    }

    /// Adds the property to the entity type and returns it.
    pub fn add_property(&mut self, entity_ty: &crate::types::EntityTypeId, property_type: PropertyType) -> (r: Result<PropertyType, EntityTypeAddPropertyError>)
        ensures
            final(self).emitted() == old(self).emitted(),
            match r {
                Ok(p) => {
                    &&& p@ == property_type@
                    &&& type_lookup(old(self)@, entity_ty@) is Some
                    &&& !has_property(type_lookup(old(self)@, entity_ty@).unwrap().properties, property_type@.name)
                    &&& final(self)@ == old(self)@.update(type_index(old(self)@, entity_ty@), EntityTypeView {
                        properties: type_lookup(old(self)@, entity_ty@).unwrap().properties.push(property_type@),
                        ..type_lookup(old(self)@, entity_ty@).unwrap()
                    })
                },
                Err(EntityTypeAddPropertyError::PropertyAlreadyExists(n)) => {
                    &&& n@ == property_type@.name
                    &&& type_lookup(old(self)@, entity_ty@) is Some
                    &&& has_property(type_lookup(old(self)@, entity_ty@).unwrap().properties, property_type@.name)
                    &&& final(self)@ == old(self)@
                },
                Err(EntityTypeAddPropertyError::EntityTypeDoesNotExist(t)) => {
                    &&& t@ == entity_ty@
                    &&& type_lookup(old(self)@, entity_ty@) is None
                    &&& final(self)@ == old(self)@
                },
            },
    {
        match self.position(entity_ty) {
            Some(i) => {
                let mut e = self.entity_types[i].duplicate();
                let r = e.add_property(property_type);
                if r.is_ok() {
                    self.replace_at(i, e);
                }
                r
            },
            None => Err(EntityTypeAddPropertyError::EntityTypeDoesNotExist(entity_ty.duplicate())),
        }
    }

    /// Replaces the property of the given name of the entity type by the
    /// given property, and returns the replaced property.
    pub fn update_property(&mut self, entity_ty: &crate::types::EntityTypeId, name: &str, property_type: PropertyType) -> (r: Result<PropertyType, EntityTypeUpdatePropertyError>)
        ensures
            final(self).emitted() == old(self).emitted(),
            match r {
                Ok(p) => {
                    &&& type_lookup(old(self)@, entity_ty@) is Some
                    &&& property_named(type_lookup(old(self)@, entity_ty@).unwrap().properties, name@) == Some(p@)
                    &&& final(self)@ == old(self)@.update(type_index(old(self)@, entity_ty@), EntityTypeView {
                        properties: crate::model::insert_property(
                            crate::model::remove_property(type_lookup(old(self)@, entity_ty@).unwrap().properties, name@),
                            property_type@,
                        ),
                        ..type_lookup(old(self)@, entity_ty@).unwrap()
                    })
                },
                Err(EntityTypeUpdatePropertyError::PropertyDoesNotExist(n)) => {
                    &&& n@ == name@
                    &&& type_lookup(old(self)@, entity_ty@) is Some
                    &&& !has_property(type_lookup(old(self)@, entity_ty@).unwrap().properties, name@)
                    &&& final(self)@ == old(self)@
                },
                Err(EntityTypeUpdatePropertyError::EntityTypeDoesNotExist(t)) => {
                    &&& t@ == entity_ty@
                    &&& type_lookup(old(self)@, entity_ty@) is None
                    &&& final(self)@ == old(self)@
                },
            },
    {
        match self.position(entity_ty) {
            Some(i) => {
                let mut e = self.entity_types[i].duplicate();
                let r = e.update_property(name, property_type);
                if r.is_ok() {
                    self.replace_at(i, e);
                }
                r
            },
            None => Err(EntityTypeUpdatePropertyError::EntityTypeDoesNotExist(entity_ty.duplicate())),
        }
    }

    /// Removes the property of the given name from the entity type and returns it.
    pub fn remove_property(&mut self, entity_ty: &crate::types::EntityTypeId, name: &str) -> (r: Result<PropertyType, EntityTypeRemovePropertyError>)
        ensures
            final(self).emitted() == old(self).emitted(),
            match r {
                Ok(p) => {
                    &&& type_lookup(old(self)@, entity_ty@) is Some
                    &&& property_named(type_lookup(old(self)@, entity_ty@).unwrap().properties, name@) == Some(p@)
                    &&& final(self)@ == old(self)@.update(type_index(old(self)@, entity_ty@), EntityTypeView {
                        properties: crate::model::remove_property(type_lookup(old(self)@, entity_ty@).unwrap().properties, name@),
                        ..type_lookup(old(self)@, entity_ty@).unwrap()
                    })
                },
                Err(EntityTypeRemovePropertyError::PropertyDoesNotExist(n)) => {
                    &&& n@ == name@
                    &&& type_lookup(old(self)@, entity_ty@) is Some
                    &&& !has_property(type_lookup(old(self)@, entity_ty@).unwrap().properties, name@)
                    &&& final(self)@ == old(self)@
                },
                Err(EntityTypeRemovePropertyError::EntityTypeDoesNotExist(t)) => {
                    &&& t@ == entity_ty@
                    &&& type_lookup(old(self)@, entity_ty@) is None
                    &&& final(self)@ == old(self)@
                },
            },
    {
        match self.position(entity_ty) {
            Some(i) => {
                let mut e = self.entity_types[i].duplicate();
                let r = e.remove_property(name);
                if r.is_ok() {
                    self.replace_at(i, e);
                }
                r
            },
            None => Err(EntityTypeRemovePropertyError::EntityTypeDoesNotExist(entity_ty.duplicate())),
        }
    }

    /// Adds the extension to the entity type and returns its type.
    pub fn add_extension(&mut self, entity_ty: &crate::types::EntityTypeId, extension: Extension) -> (r: Result<ExtensionTypeId, EntityTypeAddExtensionError>)
        ensures
            final(self).emitted() == old(self).emitted(),
            match r {
                Ok(t) => {
                    &&& t@ == extension@.ty
                    &&& type_lookup(old(self)@, entity_ty@) is Some
                    &&& !has_extension(type_lookup(old(self)@, entity_ty@).unwrap().extensions, extension@.ty)
                    &&& final(self)@ == old(self)@.update(type_index(old(self)@, entity_ty@), EntityTypeView {
                        extensions: type_lookup(old(self)@, entity_ty@).unwrap().extensions.push(extension@),
                        ..type_lookup(old(self)@, entity_ty@).unwrap()
                    })
                },
                Err(EntityTypeAddExtensionError::ExtensionAlreadyExists(t)) => {
                    &&& t@ == extension@.ty
                    &&& type_lookup(old(self)@, entity_ty@) is Some
                    &&& has_extension(type_lookup(old(self)@, entity_ty@).unwrap().extensions, extension@.ty)
                    &&& final(self)@ == old(self)@
                },
                Err(EntityTypeAddExtensionError::EntityTypeDoesNotExist(t)) => {
                    &&& t@ == entity_ty@
                    &&& type_lookup(old(self)@, entity_ty@) is None
                    &&& final(self)@ == old(self)@
                },
            },
    {
        match self.position(entity_ty) {
            Some(i) => {
                let mut e = self.entity_types[i].duplicate();
                let r = e.add_extension(extension);
                if r.is_ok() {
                    self.replace_at(i, e);
                }
                r
            },
            None => Err(EntityTypeAddExtensionError::EntityTypeDoesNotExist(entity_ty.duplicate())),
        }
    }

    /// Replaces the extension of the given type of the entity type by the
    /// given extension, and returns the replaced extension.
    pub fn update_extension(&mut self, entity_ty: &crate::types::EntityTypeId, extension_ty: &ExtensionTypeId, extension: Extension) -> (r: Result<Extension, EntityTypeUpdateExtensionError>)
        ensures
            final(self).emitted() == old(self).emitted(),
            match r {
                Ok(x) => {
                    &&& type_lookup(old(self)@, entity_ty@) is Some
                    &&& crate::model::extension_typed(type_lookup(old(self)@, entity_ty@).unwrap().extensions, extension_ty@) == Some(x@)
                    &&& final(self)@ == old(self)@.update(type_index(old(self)@, entity_ty@), EntityTypeView {
                        extensions: crate::model::insert_extension(
                            crate::model::remove_extension(type_lookup(old(self)@, entity_ty@).unwrap().extensions, extension_ty@),
                            extension@,
                        ),
                        ..type_lookup(old(self)@, entity_ty@).unwrap()
                    })
                },
                Err(EntityTypeUpdateExtensionError::ExtensionDoesNotExist(t)) => {
                    &&& t@ == extension_ty@
                    &&& type_lookup(old(self)@, entity_ty@) is Some
                    &&& !has_extension(type_lookup(old(self)@, entity_ty@).unwrap().extensions, extension_ty@)
                    &&& final(self)@ == old(self)@
                },
                Err(EntityTypeUpdateExtensionError::EntityTypeDoesNotExist(t)) => {
                    &&& t@ == entity_ty@
                    &&& type_lookup(old(self)@, entity_ty@) is None
                    &&& final(self)@ == old(self)@
                },
            },
    {
        match self.position(entity_ty) {
            Some(i) => {
                let mut e = self.entity_types[i].duplicate();
                let r = e.update_extension(extension_ty, extension);
                if r.is_ok() {
                    self.replace_at(i, e);
                }
                r
            },
            None => Err(EntityTypeUpdateExtensionError::EntityTypeDoesNotExist(entity_ty.duplicate())),
        }
    }

    /// Removes the extension of the given type from the entity type and returns it.
    pub fn remove_extension(&mut self, entity_ty: &crate::types::EntityTypeId, extension_ty: &ExtensionTypeId) -> (r: Result<Extension, EntityTypeRemoveExtensionError>)
        ensures
            final(self).emitted() == old(self).emitted(),
            match r {
                Ok(x) => {
                    &&& type_lookup(old(self)@, entity_ty@) is Some
                    &&& crate::model::extension_typed(type_lookup(old(self)@, entity_ty@).unwrap().extensions, extension_ty@) == Some(x@)
                    &&& final(self)@ == old(self)@.update(type_index(old(self)@, entity_ty@), EntityTypeView {
                        extensions: crate::model::remove_extension(type_lookup(old(self)@, entity_ty@).unwrap().extensions, extension_ty@),
                        ..type_lookup(old(self)@, entity_ty@).unwrap()
                    })
                },
                Err(EntityTypeRemoveExtensionError::ExtensionDoesNotExist(t)) => {
                    &&& t@ == extension_ty@
                    &&& type_lookup(old(self)@, entity_ty@) is Some
                    &&& !has_extension(type_lookup(old(self)@, entity_ty@).unwrap().extensions, extension_ty@)
                    &&& final(self)@ == old(self)@
                },
                Err(EntityTypeRemoveExtensionError::EntityTypeDoesNotExist(t)) => {
                    &&& t@ == entity_ty@
                    &&& type_lookup(old(self)@, entity_ty@) is None
                    &&& final(self)@ == old(self)@
                },
            },
    {
        match self.position(entity_ty) {
            Some(i) => {
                let mut e = self.entity_types[i].duplicate();
                let r = e.remove_extension(extension_ty);
                if r.is_ok() {
                    self.replace_at(i, e);
                }
                r
            },
            None => Err(EntityTypeRemoveExtensionError::EntityTypeDoesNotExist(entity_ty.duplicate())),
        }
    }

    /// Deletes the entity type with the given id and returns it. Emits
    /// `EntityTypeDeleted` when there was one.
    pub fn delete(&mut self, entity_ty: &crate::types::EntityTypeId) -> (r: Option<EntityType>)
        ensures
            match r {
                Some(e) => {
                    &&& type_lookup(old(self)@, entity_ty@) == Some(e@)
                    &&& final(self)@ == old(self)@.remove(type_index(old(self)@, entity_ty@))
                    &&& type_lookup(final(self)@, entity_ty@) is None
                    &&& final(self).emitted().len() == old(self).emitted().len() + 1
                    &&& final(self).emitted().drop_last() == old(self).emitted()
                    &&& (final(self).emitted().last() matches SystemEvent::EntityTypeDeleted(t) && t@ == entity_ty@)
                },
                None => {
                    &&& type_lookup(old(self)@, entity_ty@) is None
                    &&& final(self)@ == old(self)@
                    &&& final(self).emitted() == old(self).emitted()
                },
            },
    {
        proof {
            use_type_invariant(&*self);
        }
        match self.position(entity_ty) {
            Some(i) => {
                let ghost old_view = self@;
                let mut entity_types = Vec::new();
                std::mem::swap(&mut entity_types, &mut self.entity_types);
                let removed = entity_types.remove(i);
                proof {
                    let nv = entity_types@.map_values(|e: EntityType| e@);
                    assert(nv =~= old_view.remove(i as int));
                    assert forall|a: int, b: int| 0 <= a < nv.len() && 0 <= b < nv.len() && a != b implies #[trigger] nv[a].ty != #[trigger] nv[b].ty by {
                        let x = if a < i { a } else { a + 1 };
                        let y = if b < i { b } else { b + 1 };
                        assert(nv[a] == old_view[x]);
                        assert(nv[b] == old_view[y]);
                    }
                    assert forall|k: int| 0 <= k < nv.len() implies (#[trigger] nv[k]).wf() by {
                        let x = if k < i { k } else { k + 1 };
                        assert(nv[k] == old_view[x]);
                    }
                    if exists|k: int| 0 <= k < nv.len() && #[trigger] nv[k].ty == entity_ty@ {
                        let k = choose|k: int| 0 <= k < nv.len() && #[trigger] nv[k].ty == entity_ty@;
                        let x = if k < i { k } else { k + 1 };
                        assert(nv[k] == old_view[x]);
                    }
                }
                self.entity_types = entity_types;
                self.emit(SystemEvent::EntityTypeDeleted(entity_ty.duplicate()));
                Some(removed)
            },
            None => None,
        }
    }

    /// Returns true when the entity type with the given id is registered and
    /// every component that it is made of is registered.
    pub fn validate(&self, components: &ComponentManager, entity_ty: &crate::types::EntityTypeId) -> (r: bool)
        ensures
            r == match type_lookup(self@, entity_ty@) {
                Some(e) => forall|k: int| 0 <= k < e.components.len() ==> (#[trigger] component_lookup(components@, e.components[k])) is Some,
                None => false,
            },
    {
        match self.get(entity_ty) {
            Some(entity_type) => {
                let comps = entity_type.components();
                let mut i: usize = 0;
                while i < comps.len()
                    invariant
                        i <= comps.len(),
                        crate::model::ids_view(comps@) == entity_type@.components,
                        type_lookup(self@, entity_ty@) == Some(entity_type@),
                        forall|k: int| 0 <= k < i ==> (#[trigger] component_lookup(components@, entity_type@.components[k])) is Some,
                    decreases comps.len() - i,
                {
                    if !components.has(&comps[i]) {
                        assert(entity_type@.components[i as int] == comps@[i as int]@);
                        assert(component_lookup(components@, entity_type@.components[i as int]) is None);
                        return false;
                    }
                    assert(entity_type@.components[i as int] == comps@[i as int]@);
                    i = i + 1;
                }
                true
            },
            None => false,
        }
    }

    /// Removes every entity type.
    pub fn shutdown(&mut self)
        ensures
            final(self)@ == Seq::<EntityTypeView>::empty(),
            final(self).emitted() == old(self).emitted(),
    {
        proof {
            use_type_invariant(&*self);
        }
        let mut entity_types = Vec::new();
        std::mem::swap(&mut entity_types, &mut self.entity_types);
        assert(self@ =~= Seq::<EntityTypeView>::empty());
    }

    /// Registers each of the entity types of a provider in turn; one whose
    /// id is registered already is merged into the registered one.
    pub fn add_provider(&mut self, components: &ComponentManager, entity_types: Vec<EntityType>)
        ensures
            ({
                let list = entity_types@.map_values(|e: EntityType| e@);
                let created = provided_created(old(self)@, list, components@);
                &&& final(self)@ == provided(old(self)@, list, components@)
                &&& final(self).emitted().len() == old(self).emitted().len() + created.len()
                &&& final(self).emitted().subrange(0, old(self).emitted().len() as int) == old(self).emitted()
                &&& forall|k: int| 0 <= k < created.len() ==>
                    (#[trigger] final(self).emitted()[old(self).emitted().len() + k] matches SystemEvent::EntityTypeCreated(t) && t@ == created[k])
            }),
    {
        let ghost list = entity_types@.map_values(|e: EntityType| e@);
        let ghost s0 = self@;
        let ghost ev0 = self.emitted();
        let mut i: usize = 0;
        assert(list.take(0) =~= Seq::<EntityTypeView>::empty());
        assert(self.emitted().subrange(0, ev0.len() as int) =~= ev0);
        while i < entity_types.len()
            invariant
                i <= entity_types.len(),
                list == entity_types@.map_values(|e: EntityType| e@),
                self@ == provided(s0, list.take(i as int), components@),
                self.emitted().len() == ev0.len() + provided_created(s0, list.take(i as int), components@).len(),
                self.emitted().subrange(0, ev0.len() as int) == ev0,
                forall|k: int| 0 <= k < provided_created(s0, list.take(i as int), components@).len() ==>
                    (#[trigger] self.emitted()[ev0.len() + k] matches SystemEvent::EntityTypeCreated(t)
                        && t@ == provided_created(s0, list.take(i as int), components@)[k]),
            decreases entity_types.len() - i,
        {
            let ghost created_before = provided_created(s0, list.take(i as int), components@);
            let ghost emitted_before = self.emitted();
            proof {
                assert(list.take(i + 1).drop_last() =~= list.take(i as int));
                assert(list.take(i + 1).last() == list[i as int]);
            }
            let entity_type = entity_types[i].duplicate();
            match self.register(components, entity_type) {
                Ok(_) => {
                    proof {
                        let created = provided_created(s0, list.take(i + 1), components@);
                        assert(created == created_before.push(list[i as int].ty));
                        assert(self.emitted() == emitted_before.push(self.emitted().last()));
                        assert(self.emitted().subrange(0, ev0.len() as int) =~= emitted_before.subrange(0, ev0.len() as int));
                        assert forall|k: int| 0 <= k < created.len() implies
                            (#[trigger] self.emitted()[ev0.len() + k] matches SystemEvent::EntityTypeCreated(t) && t@ == created[k]) by {
                            if k < created_before.len() {
                                assert(self.emitted()[ev0.len() + k] == emitted_before[ev0.len() + k]);
                            }
                        }
                    }
                },
                Err(_) => {
                    let entity_type = entity_types[i].duplicate();
                    let _ = self.merge(entity_type);
                },
            }
            i = i + 1;
        }
        assert(list.take(entity_types.len() as int) =~= list);
    }
}

} // verus!
