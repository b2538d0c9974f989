use vstd::prelude::*;

use crate::entity_type::{copy_extensions, copy_properties};
use crate::errors::ValidationError;
use crate::model::{extensions_view, properties_view, Extension, ExtensionView, PropertyType, PropertyTypeView};
use crate::strings::strings_view;
use crate::wrappers::{identifier_result, new_identifier};

verus! {

broadcast use vstd::std_specs::vec::group_vec_axioms;

/// The model of a component known by its name.
pub struct NamedComponentView {
    pub name: Seq<char>,
    pub properties: Seq<PropertyTypeView>,
}

/// A component known by its name: the properties that it gives to the
/// entity types made of it.
#[derive(Debug)]
pub struct NamedComponent {
    pub name: String,
    pub properties: Vec<PropertyType>,
}

impl View for NamedComponent {
    type V = NamedComponentView;

    open spec fn view(&self) -> NamedComponentView {
        NamedComponentView { name: self.name@, properties: properties_view(self.properties@) }
    }
}

/// The model of an entity type known by its name.
pub struct NamedEntityTypeView {
    pub name: Seq<char>,
    pub group: Seq<char>,
    pub components: Seq<Seq<char>>,
    pub behaviours: Seq<Seq<char>>,
    pub properties: Seq<PropertyTypeView>,
    pub extensions: Seq<ExtensionView>,
    pub t: Seq<char>,
}

/// An entity type known by its name, with the names of its components and
/// behaviours; `t` is its identifier in the graph database, empty until the
/// type is registered.
#[derive(Debug)]
pub struct NamedEntityType {
    pub name: String,
    pub group: String,
    pub components: Vec<String>,
    pub behaviours: Vec<String>,
    pub properties: Vec<PropertyType>,
    pub extensions: Vec<Extension>,
    pub t: String,
}

impl View for NamedEntityType {
    type V = NamedEntityTypeView;

    open spec fn view(&self) -> NamedEntityTypeView {
        NamedEntityTypeView {
            name: self.name@,
            group: self.group@,
            components: strings_view(self.components@),
            behaviours: strings_view(self.behaviours@),
            properties: properties_view(self.properties@),
            extensions: extensions_view(self.extensions@),
            t: self.t@,
        }
    }
}

/// Copies a vector of strings.
fn copy_strings(input: &Vec<String>) -> (r: Vec<String>)
    ensures
        strings_view(r@) == strings_view(input@),
{
    let mut out: Vec<String> = Vec::new();
    let mut i: usize = 0;
    while i < input.len()
        invariant
            i <= input.len(),
            out.len() == i,
            forall|k: int| 0 <= k < i ==> (#[trigger] out@[k])@ == input@[k]@,
        decreases input.len() - i,
    {
        out.push(input[i].clone());
        i = i + 1;
    }
    assert(strings_view(out@) =~= strings_view(input@));
    out
}

impl NamedEntityType {
    /// Creates an entity type that is not registered yet.
    pub fn new(
        name: String,
        group: String,
        components: Vec<String>,
        behaviours: Vec<String>,
        properties: Vec<PropertyType>,
        extensions: Vec<Extension>,
    ) -> (r: NamedEntityType)
        ensures
            r@ == (NamedEntityTypeView {
                name: name@,
                group: group@,
                components: strings_view(components@),
                behaviours: strings_view(behaviours@),
                properties: properties_view(properties@),
                extensions: extensions_view(extensions@),
                t: Seq::empty(),
            }),
    {
        NamedEntityType { name, group, components, behaviours, properties, extensions, t: String::new() }
    }

    /// Returns a copy of the entity type.
    pub fn duplicate(&self) -> (r: NamedEntityType)
        ensures
            r@ == self@,
    {
        NamedEntityType {
            name: self.name.clone(),
            group: self.group.clone(),
            components: copy_strings(&self.components),
            behaviours: copy_strings(&self.behaviours),
            properties: copy_properties(&self.properties),
            extensions: copy_extensions(&self.extensions),
            t: self.t.clone(),
        }
    }
}

/// The models of a sequence of components.
pub open spec fn named_components_view(s: Seq<NamedComponent>) -> Seq<NamedComponentView> {
    s.map_values(|c: NamedComponent| c@)
}

/// The models of a sequence of entity types.
pub open spec fn named_types_view(s: Seq<NamedEntityType>) -> Seq<NamedEntityTypeView> {
    s.map_values(|e: NamedEntityType| e@)
}

/// The first component of the given name.
pub open spec fn component_named(reg: Seq<NamedComponentView>, name: Seq<char>) -> Option<NamedComponentView>
    decreases reg.len(),
{
    if reg.len() == 0 {
        None
    } else if reg[0].name == name {
        Some(reg[0])
    } else {
        component_named(reg.drop_first(), name)
    }
}

/// The first entity type of the given name.
pub open spec fn entity_type_named(s: Seq<NamedEntityTypeView>, name: Seq<char>) -> Option<NamedEntityTypeView>
    decreases s.len(),
{
    if s.len() == 0 {
        None
    } else if s[0].name == name {
        Some(s[0])
    } else {
        entity_type_named(s.drop_first(), name)
    }
}

/// The properties of an entity type followed by all the properties of each
/// of its known components, in the order of the components; a component
/// that is not known adds nothing.
pub open spec fn with_component_properties(
    props: Seq<PropertyTypeView>,
    comps: Seq<Seq<char>>,
    reg: Seq<NamedComponentView>,
) -> Seq<PropertyTypeView>
    decreases comps.len(),
{
    if comps.len() == 0 {
        props
    } else {
        let p = with_component_properties(props, comps.drop_last(), reg);
        match component_named(reg, comps.last()) {
            Some(c) => p + c.properties,
            None => p,
        }
    }
}

/// The entity type as it is registered: its identifier is its name, and the
/// properties of its known components are appended to its own.
pub open spec fn registered_named(e: NamedEntityTypeView, reg: Seq<NamedComponentView>) -> NamedEntityTypeView {
    NamedEntityTypeView { properties: with_component_properties(e.properties, e.components, reg), t: e.name, ..e }
}

/// Returns the position of the first component of the given name.
fn find_component(components: &Vec<NamedComponent>, name: &String) -> (r: Option<usize>)
    ensures
        match r {
            Some(j) => j < components.len() && component_named(named_components_view(components@), name@)
                == Some(components@[j as int]@),
            None => component_named(named_components_view(components@), name@) is None,
        },
{
    let ghost reg = named_components_view(components@);
    let mut i: usize = 0;
    assert(reg.skip(0) =~= reg);
    while i < components.len()
        invariant
            i <= components.len(),
            reg == named_components_view(components@),
            component_named(reg, name@) == component_named(reg.skip(i as int), name@),
        decreases components.len() - i,
    {
        assert(reg.skip(i as int)[0] == reg[i as int]);
        if components[i].name == *name {
            return Some(i);
        }
        assert(reg.skip(i as int).drop_first() =~= reg.skip(i + 1));
        i = i + 1;
    }
    assert(reg.skip(i as int).len() == 0);
    None
}

/// Appends copies of the given properties.
fn append_properties(props: &mut Vec<PropertyType>, more: &Vec<PropertyType>)
    ensures
        properties_view(final(props)@) == properties_view(old(props)@) + properties_view(more@),
{
    let ghost p0 = properties_view(props@);
    let mut k: usize = 0;
    while k < more.len()
        invariant
            k <= more.len(),
            p0 == properties_view(old(props)@),
            properties_view(props@) == p0 + properties_view(more@).take(k as int),
        decreases more.len() - k,
    {
        let ghost before = properties_view(props@);
        props.push(more[k].duplicate());
        assert(properties_view(props@) =~= before.push(more@[k as int]@));
        assert(properties_view(more@).take(k + 1) =~= properties_view(more@).take(k as int).push(more@[k as int]@));
        k = k + 1;
    }
    assert(properties_view(more@).take(more.len() as int) =~= properties_view(more@));
}

/// The entity types known by their names.
#[derive(Debug)]
pub struct EntityTypes(pub Vec<NamedEntityType>);

/// Creates the empty store of entity types.
pub fn create_external_type_dependency() -> (r: EntityTypes)
    ensures
        r.0@.len() == 0,
{
    EntityTypes(Vec::new())
}

/// The registry of entity types known by their names. Several entity types
/// may share a name; a lookup finds the first of them.
#[derive(Debug)]
pub struct EntityTypeManagerImpl {
    entity_types: EntityTypes,
}

impl View for EntityTypeManagerImpl {
    type V = Seq<NamedEntityTypeView>;

    closed spec fn view(&self) -> Seq<NamedEntityTypeView> {
        named_types_view(self.entity_types.0@)
    }
}

impl EntityTypeManagerImpl {
    /// Creates an empty registry.
    pub fn new() -> (r: EntityTypeManagerImpl)
        ensures
            r@ == Seq::<NamedEntityTypeView>::empty(),
    {
        let r = EntityTypeManagerImpl { entity_types: create_external_type_dependency() };
        assert(r@ =~= Seq::<NamedEntityTypeView>::empty());
        r
    }

    /// Registers an entity type whose name is a valid identifier: its
    /// identifier is set, all the properties of its known components are
    /// appended to its own, and it is stored after the entity types that are
    /// there, whatever their names.
    pub fn register(&mut self, components: &Vec<NamedComponent>, entity_type: NamedEntityType) -> (r: NamedEntityType)
        requires
            identifier_result(entity_type@.name) is Ok,
        ensures
            r@ == registered_named(entity_type@, named_components_view(components@)),
            final(self)@ == old(self)@.push(r@),
    {
        let ghost e0 = entity_type@;
        let ghost reg = named_components_view(components@);
        let mut entity_type = entity_type;
        entity_type.t = new_identifier(&entity_type.name).unwrap();
        let mut i: usize = 0;
        assert(e0.components.take(0) =~= Seq::<Seq<char>>::empty());
        while i < entity_type.components.len()
            invariant
                i <= entity_type.components.len(),
                reg == named_components_view(components@),
                entity_type@ == (NamedEntityTypeView {
                    properties: with_component_properties(e0.properties, e0.components.take(i as int), reg),
                    t: e0.name,
                    ..e0
                }),
            decreases entity_type.components.len() - i,
        {
            proof {
                assert(e0.components.take(i + 1).drop_last() =~= e0.components.take(i as int));
                assert(e0.components.take(i + 1).last() == entity_type.components@[i as int]@);
            }
            match find_component(components, &entity_type.components[i]) {
                Some(j) => {
                    append_properties(&mut entity_type.properties, &components[j].properties);
                },
                None => {},
            }
            i = i + 1;
        }
        assert(e0.components.take(entity_type.components.len() as int) =~= e0.components);
        let ghost before = self@;
        self.entity_types.0.push(entity_type.duplicate());
        assert(self@ =~= before.push(entity_type@));
        entity_type
    }

    /// Registers the entity type where its name is a valid identifier, as
    /// `register` does; otherwise changes nothing and returns why the name
    /// is refused.
    pub fn try_register(&mut self, components: &Vec<NamedComponent>, entity_type: NamedEntityType) -> (r: Result<NamedEntityType, ValidationError>)
        ensures
            match identifier_result(entity_type@.name) {
                Ok(_) => r matches Ok(x) && x@ == registered_named(entity_type@, named_components_view(components@))
                    && final(self)@ == old(self)@.push(x@),
                Err(e) => r == Err::<NamedEntityType, ValidationError>(e) && final(self)@ == old(self)@,
            },
    {
        match new_identifier(&entity_type.name) {
            Ok(_) => Ok(self.register(components, entity_type)),
            Err(e) => Err(e),
        }
    }

    /// Returns copies of all entity types, in the order of registration.
    pub fn get_entity_types(&self) -> (r: Vec<NamedEntityType>)
        ensures
            named_types_view(r@) == self@,
    {
        let mut out: Vec<NamedEntityType> = Vec::new();
        let mut i: usize = 0;
        while i < self.entity_types.0.len()
            invariant
                i <= self.entity_types.0.len(),
                out.len() == i,
                forall|k: int| 0 <= k < i ==> (#[trigger] out@[k])@ == self.entity_types.0@[k]@,
            decreases self.entity_types.0.len() - i,
        {
            out.push(self.entity_types.0[i].duplicate());
            i = i + 1;
        }
        assert(named_types_view(out@) =~= self@);
        out
    }

    /// Returns the position of the first entity type of the given name.
    fn find(&self, name: &String) -> (r: Option<usize>)
        ensures
            match r {
                Some(j) => j < self@.len() && entity_type_named(self@, name@) == Some(self@[j as int]),
                None => entity_type_named(self@, name@) is None,
            },
    {
        let ghost s = self@;
        let mut i: usize = 0;
        assert(s.skip(0) =~= s);
        while i < self.entity_types.0.len()
            invariant
                i <= self.entity_types.0.len(),
                s == self@,
                s.len() == self.entity_types.0.len(),
                entity_type_named(s, name@) == entity_type_named(s.skip(i as int), name@),
            decreases self.entity_types.0.len() - i,
        {
            assert(s.skip(i as int)[0] == s[i as int]);
            if self.entity_types.0[i].name == *name {
                return Some(i);
            }
            assert(s.skip(i as int).drop_first() =~= s.skip(i + 1));
            i = i + 1;
        }
        assert(s.skip(i as int).len() == 0);
        None
    }

    /// Returns true when an entity type of the given name is registered.
    pub fn has(&self, name: String) -> (r: bool)
        ensures
            r == (entity_type_named(self@, name@) is Some),
    {
        self.find(&name).is_some()
    }

    /// Returns a copy of the first entity type of the given name.
    pub fn get(&self, name: String) -> (r: Option<NamedEntityType>)
        ensures
            match r {
                Some(x) => entity_type_named(self@, name@) == Some(x@),
                None => entity_type_named(self@, name@) is None,
            },
    {
        match self.find(&name) {
            Some(j) => Some(self.entity_types.0[j].duplicate()),
            None => None,
        }
    }

    /// Creates and registers an entity type whose name is a valid
    /// identifier.
    pub fn create(
        &mut self,
        components: &Vec<NamedComponent>,
        name: String,
        group: String,
        component_names: Vec<String>,
        behaviours: Vec<String>,
        properties: Vec<PropertyType>,
        extensions: Vec<Extension>,
    )
        requires
            identifier_result(name@) is Ok,
        ensures
            final(self)@ == old(self)@.push(registered_named(
                NamedEntityTypeView {
                    name: name@,
                    group: group@,
                    components: strings_view(component_names@),
                    behaviours: strings_view(behaviours@),
                    properties: properties_view(properties@),
                    extensions: extensions_view(extensions@),
                    t: Seq::empty(),
                },
                named_components_view(components@),
            )),
    {
        let entity_type = NamedEntityType::new(name, group, component_names, behaviours, properties, extensions);
        let _ = self.register(components, entity_type);
    }

    /// Creates and registers the entity type where its name is a valid
    /// identifier, as `create` does; otherwise changes nothing and returns
    /// why the name is refused.
    pub fn try_create(
        &mut self,
        components: &Vec<NamedComponent>,
        name: String,
        group: String,
        component_names: Vec<String>,
        behaviours: Vec<String>,
        properties: Vec<PropertyType>,
        extensions: Vec<Extension>,
    ) -> (r: Result<(), ValidationError>)
        ensures
            match identifier_result(name@) {
                Ok(_) => r is Ok && final(self)@ == old(self)@.push(registered_named(
                    NamedEntityTypeView {
                        name: name@,
                        group: group@,
                        components: strings_view(component_names@),
                        behaviours: strings_view(behaviours@),
                        properties: properties_view(properties@),
                        extensions: extensions_view(extensions@),
                        t: Seq::empty(),
                    },
                    named_components_view(components@),
                )),
                Err(e) => r == Err::<(), ValidationError>(e) && final(self)@ == old(self)@,
            },
    {
        match new_identifier(&name) {
            Ok(_) => {
                self.create(components, name, group, component_names, behaviours, properties, extensions);
                Ok(())
            },
            Err(e) => Err(e),
        }
    }

    /// Deletes every entity type of the given name.
    pub fn delete(&mut self, name: String)
        ensures
            final(self)@ == old(self)@.filter(|e: NamedEntityTypeView| e.name != name@),
            entity_type_named(final(self)@, name@) is None,
    {
        let ghost s = self@;
        let ghost pred = |e: NamedEntityTypeView| e.name != name@;
        let mut kept: Vec<NamedEntityType> = Vec::new();
        let mut old_types: Vec<NamedEntityType> = Vec::new();
        std::mem::swap(&mut old_types, &mut self.entity_types.0);
        assert(s.take(0).filter(pred) =~= Seq::<NamedEntityTypeView>::empty()) by {
            reveal(Seq::filter);
        }
        assert(named_types_view(kept@) =~= Seq::<NamedEntityTypeView>::empty());
        let mut i: usize = 0;
        while i < old_types.len()
            invariant
                i <= old_types.len(),
                s == named_types_view(old_types@),
                pred == (|e: NamedEntityTypeView| e.name != name@),
                named_types_view(kept@) == s.take(i as int).filter(pred),
            decreases old_types.len() - i,
        {
            let ghost before = named_types_view(kept@);
            proof {
                reveal(Seq::filter);
                assert(s.take(i + 1).drop_last() =~= s.take(i as int));
                assert(s.take(i + 1).last() == s[i as int]);
            }
            if old_types[i].name != name {
                kept.push(old_types[i].duplicate());
                assert(named_types_view(kept@) =~= before.push(s[i as int]));
            }
            i = i + 1;
        }
        assert(s.take(old_types.len() as int) =~= s);
        self.entity_types.0 = kept;
        proof {
            broadcast use vstd::seq_lib::group_filter_ensures;

            lemma_no_entity_type_named(self@, name@);
        }
    }

    /// Registers each of the given entity types, whose names are valid
    /// identifiers, in order.
    pub fn add_provider(&mut self, components: &Vec<NamedComponent>, entity_types: Vec<NamedEntityType>)
        requires
            forall|k: int| 0 <= k < entity_types.len() ==> identifier_result(#[trigger] entity_types@[k]@.name) is Ok,
        ensures
            final(self)@ == old(self)@ + named_types_view(entity_types@).map_values(
                |e: NamedEntityTypeView| registered_named(e, named_components_view(components@)),
            ),
    {
        let ghost s0 = self@;
        let ghost reg = named_components_view(components@);
        let ghost f = |e: NamedEntityTypeView| registered_named(e, reg);
        let ghost given = named_types_view(entity_types@);
        let mut i: usize = 0;
        assert(given.take(0).map_values(f) =~= Seq::<NamedEntityTypeView>::empty());
        while i < entity_types.len()
            invariant
                i <= entity_types.len(),
                given == named_types_view(entity_types@),
                forall|k: int| 0 <= k < entity_types.len() ==> identifier_result(#[trigger] entity_types@[k]@.name) is Ok,
                reg == named_components_view(components@),
                f == (|e: NamedEntityTypeView| registered_named(e, reg)),
                self@ == s0 + given.take(i as int).map_values(f),
            decreases entity_types.len() - i,
        {
            let e = entity_types[i].duplicate();
            assert(identifier_result(entity_types@[i as int]@.name) is Ok);
            let _ = self.register(components, e);
            proof {
                assert(given.take(i + 1).map_values(f) =~= given.take(i as int).map_values(f).push(f(given[i as int])));
                assert(self@ =~= s0 + given.take(i + 1).map_values(f));
            }
            i = i + 1;
        }
        assert(given.take(i as int) =~= given);
    }

    /// Registers the given entity types, as `add_provider` does, where the
    /// names of all of them are valid identifiers; otherwise registers none
    /// and returns why the first refused name is refused.
    pub fn try_add_provider(&mut self, components: &Vec<NamedComponent>, entity_types: Vec<NamedEntityType>) -> (r: Result<(), ValidationError>)
        ensures
            (forall|k: int| 0 <= k < entity_types.len() ==> identifier_result(#[trigger] entity_types@[k]@.name) is Ok) ==> {
                &&& r is Ok
                &&& final(self)@ == old(self)@ + named_types_view(entity_types@).map_values(
                    |e: NamedEntityTypeView| registered_named(e, named_components_view(components@)),
                )
            },
            !(forall|k: int| 0 <= k < entity_types.len() ==> identifier_result(#[trigger] entity_types@[k]@.name) is Ok) ==> {
                &&& r matches Err(e) && exists|k: int| 0 <= k < entity_types.len()
                    && identifier_result(#[trigger] entity_types@[k]@.name) == Err::<Seq<char>, ValidationError>(e)
                    && forall|j: int| 0 <= j < k ==> identifier_result(#[trigger] entity_types@[j]@.name) is Ok
                &&& final(self)@ == old(self)@
            },
    {
        let mut i: usize = 0;
        while i < entity_types.len()
            invariant
                i <= entity_types.len(),
                forall|j: int| 0 <= j < i ==> identifier_result(#[trigger] entity_types@[j]@.name) is Ok,
            decreases entity_types.len() - i,
        {
            match new_identifier(&entity_types[i].name) {
                Ok(_) => {},
                Err(e) => {
                    assert(identifier_result(entity_types@[i as int]@.name) == Err::<Seq<char>, ValidationError>(e));
                    return Err(e);
                },
            }
            i = i + 1;
        }
        self.add_provider(components, entity_types);
        Ok(())
    }

    /// Removes every entity type.
    pub fn shutdown(&mut self)
        ensures
            final(self)@ == Seq::<NamedEntityTypeView>::empty(),
    {
        self.entity_types.0 = Vec::new();
        assert(self@ =~= Seq::<NamedEntityTypeView>::empty());
    }
}

/// No entity type is found by a name that none of them has.
pub proof fn lemma_no_entity_type_named(s: Seq<NamedEntityTypeView>, name: Seq<char>)
    requires
        forall|i: int| 0 <= i < s.len() ==> #[trigger] s[i].name != name,
    ensures
        entity_type_named(s, name) is None,
    decreases s.len(),
{
    if s.len() > 0 {
        assert forall|i: int| 0 <= i < s.drop_first().len() implies #[trigger] s.drop_first()[i].name != name by {
            assert(s.drop_first()[i] == s[i + 1]);
        }
        lemma_no_entity_type_named(s.drop_first(), name);
    }
}

/// An entity type is found by a name exactly when one of them has it.
pub proof fn lemma_entity_type_named_exists(s: Seq<NamedEntityTypeView>, name: Seq<char>)
    ensures
        (entity_type_named(s, name) is Some) == (exists|i: int| 0 <= i < s.len() && #[trigger] s[i].name == name),
        entity_type_named(s, name) matches Some(x) ==> x.name == name,
    decreases s.len(),
{
    if s.len() > 0 {
        lemma_entity_type_named_exists(s.drop_first(), name);
        if s[0].name != name {
            if exists|i: int| 0 <= i < s.len() && #[trigger] s[i].name == name {
                let i = choose|i: int| 0 <= i < s.len() && #[trigger] s[i].name == name;
                assert(s.drop_first()[i - 1] == s[i]);
            }
            if exists|i: int| 0 <= i < s.drop_first().len() && #[trigger] s.drop_first()[i].name == name {
                let i = choose|i: int| 0 <= i < s.drop_first().len() && #[trigger] s.drop_first()[i].name == name;
                assert(s[i + 1] == s.drop_first()[i]);
            }
        }
    }
}

/// The lookup by name after an entity type is appended: the first one of
/// that name before, else the appended one where it has the name.
pub proof fn lemma_entity_type_named_push(s: Seq<NamedEntityTypeView>, x: NamedEntityTypeView, name: Seq<char>)
    ensures
        entity_type_named(s.push(x), name) == (match entity_type_named(s, name) {
            Some(y) => Some(y),
            None => if x.name == name {
                Some(x)
            } else {
                None::<NamedEntityTypeView>
            },
        }),
    decreases s.len(),
{
    if s.len() == 0 {
        assert(s.push(x).drop_first() =~= Seq::<NamedEntityTypeView>::empty());
    } else {
        assert(s.push(x)[0] == s[0]);
        assert(s.push(x).drop_first() =~= s.drop_first().push(x));
        lemma_entity_type_named_push(s.drop_first(), x, name);
    }
}

} // verus!
