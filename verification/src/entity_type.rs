use vstd::prelude::*;

use crate::model::{
    contains_id, extension_typed, extensions_view, find_extension, find_property, has_extension,
    has_property, ids_view, insert_extension, insert_id, insert_property, properties_view,
    property_named, unique_extension_types, unique_property_names, Extension, ExtensionView,
    PropertyType, PropertyTypeView,
};
use crate::types::{ComponentTypeId, EntityTypeId, ExtensionTypeId, TypeIdView};

verus! {

/// The model of a component.
pub struct ComponentView {
    pub ty: TypeIdView,
    pub description: Seq<char>,
    pub properties: Seq<PropertyTypeView>,
    pub extensions: Seq<ExtensionView>,
}

impl ComponentView {
    /// No two properties share a name and no two extensions share a type.
    pub open spec fn wf(self) -> bool {
        &&& unique_property_names(self.properties)
        &&& unique_extension_types(self.extensions)
    }
}

/// The model of an entity type.
pub struct EntityTypeView {
    pub ty: TypeIdView,
    pub description: Seq<char>,
    pub components: Seq<TypeIdView>,
    pub properties: Seq<PropertyTypeView>,
    pub extensions: Seq<ExtensionView>,
}

impl EntityTypeView {
    /// No component is named twice, no two properties share a name and no
    /// two extensions share a type.
    pub open spec fn wf(self) -> bool {
        &&& self.components.no_duplicates()
        &&& unique_property_names(self.properties)
        &&& unique_extension_types(self.extensions)
    }
}

/// The properties, in order, with a later property of a name taking the
/// place of an earlier one.
pub open spec fn properties_from(s: Seq<PropertyTypeView>) -> Seq<PropertyTypeView>
    decreases s.len(),
{
    if s.len() == 0 {
        Seq::empty()
    } else {
        insert_property(properties_from(s.drop_last()), s.last())
    }
}

/// The extensions, in order, with a later extension of a type taking the
/// place of an earlier one.
pub open spec fn extensions_from(s: Seq<ExtensionView>) -> Seq<ExtensionView>
    decreases s.len(),
{
    if s.len() == 0 {
        Seq::empty()
    } else {
        insert_extension(extensions_from(s.drop_last()), s.last())
    }
}

/// The ids, in the order of their first occurrence, each once.
pub open spec fn ids_from(s: Seq<TypeIdView>) -> Seq<TypeIdView>
    decreases s.len(),
{
    if s.len() == 0 {
        Seq::empty()
    } else {
        insert_id(ids_from(s.drop_last()), s.last())
    }
}

/// Inserting a property keeps the names unique.
pub proof fn lemma_insert_property_unique(s: Seq<PropertyTypeView>, p: PropertyTypeView)
    requires
        unique_property_names(s),
    ensures
        unique_property_names(insert_property(s, p)),
        has_property(insert_property(s, p), p.name),
        forall|n: Seq<char>| #[trigger] has_property(insert_property(s, p), n) <==> (has_property(s, n) || n == p.name),
{
    let r = insert_property(s, p);
    if has_property(s, p.name) {
        let i = choose|i: int| 0 <= i < s.len() && #[trigger] s[i].name == p.name;
        assert(r[i].name == p.name);
        assert forall|n: Seq<char>| #[trigger] has_property(r, n) <==> (has_property(s, n) || n == p.name) by {
            if has_property(s, n) {
                let k = choose|k: int| 0 <= k < s.len() && #[trigger] s[k].name == n;
                assert(r[k].name == n);
            }
            if has_property(r, n) {
                let k = choose|k: int| 0 <= k < r.len() && #[trigger] r[k].name == n;
                if k != i {
                    assert(s[k].name == n);
                }
            }
        }
    } else {
        assert(r[s.len() as int].name == p.name);
        assert forall|n: Seq<char>| #[trigger] has_property(r, n) <==> (has_property(s, n) || n == p.name) by {
            if has_property(s, n) {
                let k = choose|k: int| 0 <= k < s.len() && #[trigger] s[k].name == n;
                assert(r[k].name == n);
            }
            if has_property(r, n) {
                let k = choose|k: int| 0 <= k < r.len() && #[trigger] r[k].name == n;
                if k < s.len() {
                    assert(s[k].name == n);
                }
            }
        }
    }
}

/// Inserting an extension keeps the types unique.
pub proof fn lemma_insert_extension_unique(s: Seq<ExtensionView>, e: ExtensionView)
    requires
        unique_extension_types(s),
    ensures
        unique_extension_types(insert_extension(s, e)),
        has_extension(insert_extension(s, e), e.ty),
        forall|t: TypeIdView| #[trigger] has_extension(insert_extension(s, e), t) <==> (has_extension(s, t) || t == e.ty),
{
    let r = insert_extension(s, e);
    if has_extension(s, e.ty) {
        let i = choose|i: int| 0 <= i < s.len() && #[trigger] s[i].ty == e.ty;
        assert(r[i].ty == e.ty);
        assert forall|t: TypeIdView| #[trigger] has_extension(r, t) <==> (has_extension(s, t) || t == e.ty) by {
            if has_extension(s, t) {
                let k = choose|k: int| 0 <= k < s.len() && #[trigger] s[k].ty == t;
                assert(r[k].ty == t);
            }
            if has_extension(r, t) {
                let k = choose|k: int| 0 <= k < r.len() && #[trigger] r[k].ty == t;
                if k != i {
                    assert(s[k].ty == t);
                }
            }
        }
    } else {
        assert(r[s.len() as int].ty == e.ty);
        assert forall|t: TypeIdView| #[trigger] has_extension(r, t) <==> (has_extension(s, t) || t == e.ty) by {
            if has_extension(s, t) {
                let k = choose|k: int| 0 <= k < s.len() && #[trigger] s[k].ty == t;
                assert(r[k].ty == t);
            }
            if has_extension(r, t) {
                let k = choose|k: int| 0 <= k < r.len() && #[trigger] r[k].ty == t;
                if k < s.len() {
                    assert(s[k].ty == t);
                }
            }
        }
    }
}

/// Puts a property into a vector of properties with unique names: it takes
/// the place of the property with the same name, or is appended.
pub fn put_property(v: &mut Vec<PropertyType>, p: PropertyType)
    requires
        unique_property_names(properties_view(old(v)@)),
    ensures
        properties_view(final(v)@) == insert_property(properties_view(old(v)@), p@),
        unique_property_names(properties_view(final(v)@)),
{
    proof {
        lemma_insert_property_unique(properties_view(v@), p@);
    }
    let ghost pv = p@;
    match find_property(v, &p.name) {
        Some(i) => {
            proof {
                let s = properties_view(v@);
                let j = choose|j: int| 0 <= j < s.len() && #[trigger] s[j].name == pv.name;
                assert(s[i as int].name == pv.name);
                assert(j == i);
            }
            v.set(i, p);
            assert(properties_view(v@) =~= insert_property(properties_view(old(v)@), pv));
        },
        None => {
            v.push(p);
            assert(properties_view(v@) =~= insert_property(properties_view(old(v)@), pv));
        },
    }
}

/// Puts an extension into a vector of extensions with unique types: it takes
/// the place of the extension with the same type, or is appended.
pub fn put_extension(v: &mut Vec<Extension>, e: Extension)
    requires
        unique_extension_types(extensions_view(old(v)@)),
    ensures
        extensions_view(final(v)@) == insert_extension(extensions_view(old(v)@), e@),
        unique_extension_types(extensions_view(final(v)@)),
{
    proof {
        lemma_insert_extension_unique(extensions_view(v@), e@);
    }
    let ghost ev = e@;
    match find_extension(v, &e.ty) {
        Some(i) => {
            proof {
                let s = extensions_view(v@);
                let j = choose|j: int| 0 <= j < s.len() && #[trigger] s[j].ty == ev.ty;
                assert(s[i as int].ty == ev.ty);
                assert(j == i);
            }
            v.set(i, e);
            assert(extensions_view(v@) =~= insert_extension(extensions_view(old(v)@), ev));
        },
        None => {
            v.push(e);
            assert(extensions_view(v@) =~= insert_extension(extensions_view(old(v)@), ev));
        },
    }
}

/// Adds an id to a vector of distinct ids, unless it is already there.
pub fn put_id<K: crate::types::TypeKind>(v: &mut Vec<crate::types::TypeId<K>>, t: crate::types::TypeId<K>)
    requires
        ids_view(old(v)@).no_duplicates(),
    ensures
        ids_view(final(v)@) == insert_id(ids_view(old(v)@), t@),
        ids_view(final(v)@).no_duplicates(),
{
    if !contains_id(v, &t) {
        let ghost tv = t@;
        v.push(t);
        assert(ids_view(v@) =~= ids_view(old(v)@).push(tv));
    }
}



/// A component: a named set of properties and extensions that types take on.
#[derive(Debug)]
pub struct Component {
    ty: ComponentTypeId,
    description: String,
    properties: Vec<PropertyType>,
    extensions: Vec<Extension>,
}

impl View for Component {
    type V = ComponentView;

    closed spec fn view(&self) -> ComponentView {
        ComponentView {
            ty: self.ty@,
            description: self.description@,
            properties: properties_view(self.properties@),
            extensions: extensions_view(self.extensions@),
        }
    }
}

/// Collects properties into a vector in which a later property of a name
/// takes the place of an earlier one.
fn collect_properties(input: &Vec<PropertyType>) -> (r: Vec<PropertyType>)
    ensures
        properties_view(r@) == properties_from(properties_view(input@)),
        unique_property_names(properties_view(r@)),
{
    let mut out: Vec<PropertyType> = Vec::new();
    let mut i: usize = 0;
    while i < input.len()
        invariant
            i <= input.len(),
            properties_view(out@) == properties_from(properties_view(input@).take(i as int)),
            unique_property_names(properties_view(out@)),
        decreases input.len() - i,
    {
        let p = input[i].duplicate();
        put_property(&mut out, p);
        proof {
            let t = properties_view(input@).take(i + 1);
            assert(t.drop_last() =~= properties_view(input@).take(i as int));
        }
        i = i + 1;
    }
    assert(properties_view(input@).take(input.len() as int) =~= properties_view(input@));
    out
}

/// Collects extensions into a vector in which a later extension of a type
/// takes the place of an earlier one.
fn collect_extensions(input: &Vec<Extension>) -> (r: Vec<Extension>)
    ensures
        extensions_view(r@) == extensions_from(extensions_view(input@)),
        unique_extension_types(extensions_view(r@)),
{
    let mut out: Vec<Extension> = Vec::new();
    let mut i: usize = 0;
    while i < input.len()
        invariant
            i <= input.len(),
            extensions_view(out@) == extensions_from(extensions_view(input@).take(i as int)),
            unique_extension_types(extensions_view(out@)),
        decreases input.len() - i,
    {
        let e = input[i].duplicate();
        put_extension(&mut out, e);
        proof {
            let t = extensions_view(input@).take(i + 1);
            assert(t.drop_last() =~= extensions_view(input@).take(i as int));
        }
        i = i + 1;
    }
    assert(extensions_view(input@).take(input.len() as int) =~= extensions_view(input@));
    out
}

/// Collects ids into a vector that holds each once, in the order of their
/// first occurrence.
fn collect_ids<K: crate::types::TypeKind>(input: &Vec<crate::types::TypeId<K>>) -> (r: Vec<crate::types::TypeId<K>>)
    ensures
        ids_view(r@) == ids_from(ids_view(input@)),
        ids_view(r@).no_duplicates(),
{
    let mut out: Vec<crate::types::TypeId<K>> = Vec::new();
    let mut i: usize = 0;
    while i < input.len()
        invariant
            i <= input.len(),
            ids_view(out@) == ids_from(ids_view(input@).take(i as int)),
            ids_view(out@).no_duplicates(),
        decreases input.len() - i,
    {
        let t = input[i].duplicate();
        put_id(&mut out, t);
        proof {
            let tk = ids_view(input@).take(i + 1);
            assert(tk.drop_last() =~= ids_view(input@).take(i as int));
        }
        i = i + 1;
    }
    assert(ids_view(input@).take(input.len() as int) =~= ids_view(input@));
    out
}

/// Copies a vector of properties.
pub(crate) fn copy_properties(input: &Vec<PropertyType>) -> (r: Vec<PropertyType>)
    ensures
        properties_view(r@) == properties_view(input@),
{
    let mut out: Vec<PropertyType> = Vec::new();
    let mut i: usize = 0;
    while i < input.len()
        invariant
            i <= input.len(),
            out.len() == i,
            forall|k: int| 0 <= k < i ==> (#[trigger] out@[k])@ == input@[k]@,
        decreases input.len() - i,
    {
        out.push(input[i].duplicate());
        i = i + 1;
    }
    assert(properties_view(out@) =~= properties_view(input@));
    out
}

/// Copies a vector of extensions.
pub(crate) fn copy_extensions(input: &Vec<Extension>) -> (r: Vec<Extension>)
    ensures
        extensions_view(r@) == extensions_view(input@),
{
    let mut out: Vec<Extension> = Vec::new();
    let mut i: usize = 0;
    while i < input.len()
        invariant
            i <= input.len(),
            out.len() == i,
            forall|k: int| 0 <= k < i ==> (#[trigger] out@[k])@ == input@[k]@,
        decreases input.len() - i,
    {
        out.push(input[i].duplicate());
        i = i + 1;
    }
    assert(extensions_view(out@) =~= extensions_view(input@));
    out
}

/// Copies a vector of ids.
pub fn copy_ids<K: crate::types::TypeKind>(input: &Vec<crate::types::TypeId<K>>) -> (r: Vec<crate::types::TypeId<K>>)
    ensures
        ids_view(r@) == ids_view(input@),
{
    let mut out: Vec<crate::types::TypeId<K>> = Vec::new();
    let mut i: usize = 0;
    while i < input.len()
        invariant
            i <= input.len(),
            out.len() == i,
            forall|k: int| 0 <= k < i ==> (#[trigger] out@[k])@ == input@[k]@,
        decreases input.len() - i,
    {
        out.push(input[i].duplicate());
        i = i + 1;
    }
    assert(ids_view(out@) =~= ids_view(input@));
    out
}

impl Component {
    #[verifier::type_invariant]
    pub open spec fn inv(&self) -> bool {
        self@.wf()
    }

    /// Creates a component. A later property of a name takes the place of an
    /// earlier one, and so does a later extension of a type.
    pub fn new(ty: ComponentTypeId, description: &str, properties: Vec<PropertyType>, extensions: Vec<Extension>) -> (r: Component)
        ensures
            r@ == (ComponentView {
                ty: ty@,
                description: description@,
                properties: properties_from(properties_view(properties@)),
                extensions: extensions_from(extensions_view(extensions@)),
            }),
    {
        let properties = collect_properties(&properties);
        let extensions = collect_extensions(&extensions);
        Component { ty, description: description.to_owned(), properties, extensions }
    }

    /// Returns the id of the component.
    pub fn ty(&self) -> (r: &ComponentTypeId)
        ensures
            r@ == self@.ty,
    {
        &self.ty
    }

    /// Returns the description of the component.
    pub fn description(&self) -> (r: &String)
        ensures
            r@ == self@.description,
    {
        &self.description
    }

    /// Returns the properties of the component.
    pub fn properties(&self) -> (r: &Vec<PropertyType>)
        ensures
            properties_view(r@) == self@.properties,
            self@.wf(),
    {
        proof {
            use_type_invariant(self);
        }
        &self.properties
    }

    /// Returns the extensions of the component.
    pub fn extensions(&self) -> (r: &Vec<Extension>)
        ensures
            extensions_view(r@) == self@.extensions,
            self@.wf(),
    {
        proof {
            use_type_invariant(self);
        }
        &self.extensions
    }

    /// Returns true when the component has a property of the given name.
    pub fn has_own_property(&self, name: &str) -> (r: bool)
        ensures
            r == has_property(self@.properties, name@),
    {
        let n = name.to_owned();
        match find_property(&self.properties, &n) {
            Some(i) => {
                assert(properties_view(self.properties@)[i as int].name == name@);
                true
            },
            None => false,
        }
    }

    /// Returns the extension of the given type.
    pub fn get_own_extension(&self, extension_ty: &ExtensionTypeId) -> (r: Option<Extension>)
        ensures
            match r {
                Some(e) => extension_typed(self@.extensions, extension_ty@) == Some(e@),
                None => !has_extension(self@.extensions, extension_ty@),
            },
    {
        proof {
            use_type_invariant(self);
        }
        match find_extension(&self.extensions, extension_ty) {
            Some(i) => {
                proof {
                    lemma_extension_at(extensions_view(self.extensions@), i as int);
                }
                Some(self.extensions[i].duplicate())
            },
            None => None,
        }
    }

    /// Returns a copy of the component.
    pub fn duplicate(&self) -> (r: Component)
        ensures
            r@ == self@,
    {
        proof {
            use_type_invariant(self);
        }
        Component {
            ty: self.ty.duplicate(),
            description: self.description.clone(),
            properties: copy_properties(&self.properties),
            extensions: copy_extensions(&self.extensions),
        }
    }
}


/// The properties with the given properties put into them, in order.
pub open spec fn insert_properties(s: Seq<PropertyTypeView>, t: Seq<PropertyTypeView>) -> Seq<PropertyTypeView>
    decreases t.len(),
{
    if t.len() == 0 {
        s
    } else {
        insert_property(insert_properties(s, t.drop_last()), t.last())
    }
}

/// The extensions with the given extensions put into them, in order.
pub open spec fn insert_extensions(s: Seq<ExtensionView>, t: Seq<ExtensionView>) -> Seq<ExtensionView>
    decreases t.len(),
{
    if t.len() == 0 {
        s
    } else {
        insert_extension(insert_extensions(s, t.drop_last()), t.last())
    }
}

/// The ids with the given ids added to them, in order.
pub open spec fn insert_ids(s: Seq<TypeIdView>, t: Seq<TypeIdView>) -> Seq<TypeIdView>
    decreases t.len(),
{
    if t.len() == 0 {
        s
    } else {
        insert_id(insert_ids(s, t.drop_last()), t.last())
    }
}

/// In a sequence of properties with unique names, the property at `i` is
/// the one that has its name.
pub proof fn lemma_property_at(s: Seq<PropertyTypeView>, i: int)
    requires
        unique_property_names(s),
        0 <= i < s.len(),
    ensures
        has_property(s, s[i].name),
        (choose|j: int| 0 <= j < s.len() && #[trigger] s[j].name == s[i].name) == i,
        property_named(s, s[i].name) == Some(s[i]),
{
    assert(s[i].name == s[i].name);
}

/// In a sequence of extensions with unique types, the extension at `i` is
/// the one that has its type.
pub proof fn lemma_extension_at(s: Seq<ExtensionView>, i: int)
    requires
        unique_extension_types(s),
        0 <= i < s.len(),
    ensures
        has_extension(s, s[i].ty),
        (choose|j: int| 0 <= j < s.len() && #[trigger] s[j].ty == s[i].ty) == i,
        extension_typed(s, s[i].ty) == Some(s[i]),
{
    assert(s[i].ty == s[i].ty);
}

/// Removing a property keeps the names unique and removes only its name.
pub proof fn lemma_remove_property_at(s: Seq<PropertyTypeView>, i: int)
    requires
        unique_property_names(s),
        0 <= i < s.len(),
    ensures
        unique_property_names(s.remove(i)),
        forall|n: Seq<char>| #[trigger] has_property(s.remove(i), n) <==> (has_property(s, n) && n != s[i].name),
{
    let r = s.remove(i);
    assert forall|n: Seq<char>| #[trigger] has_property(r, n) <==> (has_property(s, n) && n != s[i].name) by {
        if has_property(s, n) && n != s[i].name {
            let k = choose|k: int| 0 <= k < s.len() && #[trigger] s[k].name == n;
            if k < i {
                assert(r[k].name == n);
            } else {
                assert(r[k - 1].name == n);
            }
        }
        if has_property(r, n) {
            let k = choose|k: int| 0 <= k < r.len() && #[trigger] r[k].name == n;
            if k < i {
                assert(s[k].name == n);
            } else {
                assert(s[k + 1].name == n);
            }
        }
    }
}

/// Removing an extension keeps the types unique and removes only its type.
pub proof fn lemma_remove_extension_at(s: Seq<ExtensionView>, i: int)
    requires
        unique_extension_types(s),
        0 <= i < s.len(),
    ensures
        unique_extension_types(s.remove(i)),
        forall|t: TypeIdView| #[trigger] has_extension(s.remove(i), t) <==> (has_extension(s, t) && t != s[i].ty),
{
    let r = s.remove(i);
    assert forall|t: TypeIdView| #[trigger] has_extension(r, t) <==> (has_extension(s, t) && t != s[i].ty) by {
        if has_extension(s, t) && t != s[i].ty {
            let k = choose|k: int| 0 <= k < s.len() && #[trigger] s[k].ty == t;
            if k < i {
                assert(r[k].ty == t);
            } else {
                assert(r[k - 1].ty == t);
            }
        }
        if has_extension(r, t) {
            let k = choose|k: int| 0 <= k < r.len() && #[trigger] r[k].ty == t;
            if k < i {
                assert(s[k].ty == t);
            } else {
                assert(s[k + 1].ty == t);
            }
        }
    }
}

/// The error when a component cannot be added to an entity type.
#[derive(Debug)]
pub enum EntityTypeAddComponentError {
    ComponentAlreadyAssigned(ComponentTypeId),
    ComponentDoesNotExist(ComponentTypeId),
    EntityTypeDoesNotExist(EntityTypeId),
}

/// The error when a component cannot be removed from an entity type.
#[derive(Debug)]
pub enum EntityTypeRemoveComponentError {
    IsNotAComponent(ComponentTypeId),
    EntityTypeDoesNotExist(EntityTypeId),
}

/// The error when a property cannot be added to an entity type.
#[derive(Debug)]
pub enum EntityTypeAddPropertyError {
    PropertyAlreadyExists(String),
    EntityTypeDoesNotExist(EntityTypeId),
}

/// The error when a property of an entity type cannot be updated.
#[derive(Debug)]
pub enum EntityTypeUpdatePropertyError {
    PropertyDoesNotExist(String),
    EntityTypeDoesNotExist(EntityTypeId),
}

/// The error when a property cannot be removed from an entity type.
#[derive(Debug)]
pub enum EntityTypeRemovePropertyError {
    PropertyDoesNotExist(String),
    EntityTypeDoesNotExist(EntityTypeId),
}

/// The error when an extension cannot be added to an entity type.
#[derive(Debug)]
pub enum EntityTypeAddExtensionError {
    ExtensionAlreadyExists(ExtensionTypeId),
    EntityTypeDoesNotExist(EntityTypeId),
}

/// The error when an extension of an entity type cannot be updated.
#[derive(Debug)]
pub enum EntityTypeUpdateExtensionError {
    ExtensionDoesNotExist(ExtensionTypeId),
    EntityTypeDoesNotExist(EntityTypeId),
}

/// The error when an extension cannot be removed from an entity type.
#[derive(Debug)]
pub enum EntityTypeRemoveExtensionError {
    ExtensionDoesNotExist(ExtensionTypeId),
    EntityTypeDoesNotExist(EntityTypeId),
}

/// An entity type: the components that it is made of, its properties and its
/// extensions.
#[derive(Debug)]
pub struct EntityType {
    ty: EntityTypeId,
    description: String,
    components: Vec<ComponentTypeId>,
    properties: Vec<PropertyType>,
    extensions: Vec<Extension>,
}

impl View for EntityType {
    type V = EntityTypeView;

    closed spec fn view(&self) -> EntityTypeView {
        EntityTypeView {
            ty: self.ty@,
            description: self.description@,
            components: ids_view(self.components@),
            properties: properties_view(self.properties@),
            extensions: extensions_view(self.extensions@),
        }
    }
}

impl EntityType {
    #[verifier::type_invariant]
    pub open spec fn inv(&self) -> bool {
        self@.wf()
    }

    /// Creates an entity type. Each component counts once; a later property
    /// of a name takes the place of an earlier one, and so does a later
    /// extension of a type.
    pub fn new(
        ty: EntityTypeId,
        description: &str,
        components: Vec<ComponentTypeId>,
        properties: Vec<PropertyType>,
        extensions: Vec<Extension>,
    ) -> (r: EntityType)
        ensures
            r@ == (EntityTypeView {
                ty: ty@,
                description: description@,
                components: ids_from(ids_view(components@)),
                properties: properties_from(properties_view(properties@)),
                extensions: extensions_from(extensions_view(extensions@)),
            }),
    {
        let components = collect_ids(&components);
        let properties = collect_properties(&properties);
        let extensions = collect_extensions(&extensions);
        EntityType { ty, description: description.to_owned(), components, properties, extensions }
    }

    /// Returns the id of the entity type.
    pub fn ty(&self) -> (r: &EntityTypeId)
        ensures
            r@ == self@.ty,
    {
        &self.ty
    }

    /// Returns the description of the entity type.
    pub fn description(&self) -> (r: &String)
        ensures
            r@ == self@.description,
    {
        &self.description
    }

    /// Returns the components of the entity type.
    pub fn components(&self) -> (r: &Vec<ComponentTypeId>)
        ensures
            ids_view(r@) == self@.components,
            self@.wf(),
    {
        proof {
            use_type_invariant(self);
        }
        &self.components
    }

    /// Returns the properties of the entity type.
    pub fn properties(&self) -> (r: &Vec<PropertyType>)
        ensures
            properties_view(r@) == self@.properties,
            self@.wf(),
    {
        proof {
            use_type_invariant(self);
        }
        &self.properties
    }

    /// Returns the extensions of the entity type.
    pub fn extensions(&self) -> (r: &Vec<Extension>)
        ensures
            extensions_view(r@) == self@.extensions,
            self@.wf(),
    {
        proof {
            use_type_invariant(self);
        }
        &self.extensions
    }

    /// Returns a copy of the entity type.
    pub fn duplicate(&self) -> (r: EntityType)
        ensures
            r@ == self@,
    {
        proof {
            use_type_invariant(self);
        }
        EntityType {
            ty: self.ty.duplicate(),
            description: self.description.clone(),
            components: copy_ids(&self.components),
            properties: copy_properties(&self.properties),
            extensions: copy_extensions(&self.extensions),
        }
    }

    /// Returns true when the entity type is made of the given component.
    pub fn is_a(&self, component_ty: &ComponentTypeId) -> (r: bool)
        ensures
            r == self@.components.contains(component_ty@),
    {
        contains_id(&self.components, component_ty)
    }

    /// Returns true when the entity type has a property of the given name.
    pub fn has_own_property(&self, name: &str) -> (r: bool)
        ensures
            r == has_property(self@.properties, name@),
    {
        let n = name.to_owned();
        match find_property(&self.properties, &n) {
            Some(i) => {
                assert(properties_view(self.properties@)[i as int].name == name@);
                true
            },
            None => false,
        }
    }

    /// Returns the property of the given name.
    pub fn get_own_property(&self, name: &str) -> (r: Option<PropertyType>)
        ensures
            match r {
                Some(p) => property_named(self@.properties, name@) == Some(p@),
                None => !has_property(self@.properties, name@),
            },
    {
        proof {
            use_type_invariant(self);
        }
        let n = name.to_owned();
        match find_property(&self.properties, &n) {
            Some(i) => {
                proof {
                    lemma_property_at(properties_view(self.properties@), i as int);
                }
                Some(self.properties[i].duplicate())
            },
            None => None,
        }
    }

    /// Returns true when the entity type has an extension of the given type.
    pub fn has_own_extension(&self, extension_ty: &ExtensionTypeId) -> (r: bool)
        ensures
            r == has_extension(self@.extensions, extension_ty@),
    {
        match find_extension(&self.extensions, extension_ty) {
            Some(i) => {
                assert(extensions_view(self.extensions@)[i as int].ty == extension_ty@);
                true
            },
            None => false,
        }
    }

    /// Returns the extension of the given type.
    pub fn get_own_extension(&self, extension_ty: &ExtensionTypeId) -> (r: Option<Extension>)
        ensures
            match r {
                Some(e) => extension_typed(self@.extensions, extension_ty@) == Some(e@),
                None => !has_extension(self@.extensions, extension_ty@),
            },
    {
        proof {
            use_type_invariant(self);
        }
        match find_extension(&self.extensions, extension_ty) {
            Some(i) => {
                proof {
                    lemma_extension_at(extensions_view(self.extensions@), i as int);
                }
                Some(self.extensions[i].duplicate())
            },
            None => None,
        }
    }

    /// Adds the component, unless the entity type is already made of it.
    pub fn add_component(&mut self, component_ty: &ComponentTypeId) -> (r: Result<(), EntityTypeAddComponentError>)
        ensures
            match r {
                Ok(()) => {
                    &&& !old(self)@.components.contains(component_ty@)
                    &&& final(self)@ == (EntityTypeView { components: old(self)@.components.push(component_ty@), ..old(self)@ })
                },
                Err(EntityTypeAddComponentError::ComponentAlreadyAssigned(c)) => {
                    &&& c@ == component_ty@
                    &&& old(self)@.components.contains(component_ty@)
                    &&& final(self)@ == old(self)@
                },
                Err(_) => false,
            },
    {
        proof {
            use_type_invariant(&*self);
        }
        if contains_id(&self.components, component_ty) {
            return Err(EntityTypeAddComponentError::ComponentAlreadyAssigned(component_ty.duplicate()));
        }
        let mut components = copy_ids(&self.components);
        let ghost cv = component_ty@;
        components.push(component_ty.duplicate());
        assert(ids_view(components@) =~= ids_view(self.components@).push(cv));
        self.components = components;
        Ok(())
    }

    /// Removes the component and returns its id.
    pub fn remove_component(&mut self, component_ty: &ComponentTypeId) -> (r: Result<ComponentTypeId, EntityTypeRemoveComponentError>)
        ensures
            match r {
                Ok(c) => {
                    &&& c@ == component_ty@
                    &&& old(self)@.components.contains(component_ty@)
                    &&& final(self)@ == (EntityTypeView { components: crate::model::remove_id(old(self)@.components, component_ty@), ..old(self)@ })
                },
                Err(EntityTypeRemoveComponentError::IsNotAComponent(c)) => {
                    &&& c@ == component_ty@
                    &&& !old(self)@.components.contains(component_ty@)
                    &&& final(self)@ == old(self)@
                },
                Err(_) => false,
            },
    {
        proof {
            use_type_invariant(&*self);
        }
        let mut i: usize = 0;
        while i < self.components.len()
            invariant
                i <= self.components.len(),
                forall|k: int| 0 <= k < i ==> self.components@[k]@ != component_ty@,
                *self == *old(self),
                self@.wf(),
            decreases self.components.len() - i,
        {
            if self.components[i].same(component_ty) {
                let ghost old_ids = ids_view(self.components@);
                let mut components = copy_ids(&self.components);
                assert(ids_view(components@).len() == components.len());
                assert(ids_view(self.components@).len() == self.components.len());
                assert(components.len() == self.components.len());
                let removed = components.remove(i);
                proof {
                    assert(old_ids[i as int] == component_ty@);
                    assert(old_ids.contains(component_ty@));
                    assert(old_ids.index_of(component_ty@) == i) by {
                        let j = old_ids.index_of(component_ty@);
                        assert(old_ids[j] == component_ty@);
                    }
                    assert(ids_view(components@) =~= old_ids.remove(i as int));
                    assert forall|a: int, b: int| 0 <= a < ids_view(components@).len() && 0 <= b < ids_view(components@).len() && a != b implies ids_view(components@)[a] != ids_view(components@)[b] by {
                        let x = if a < i { a } else { a + 1 };
                        let y = if b < i { b } else { b + 1 };
                        assert(ids_view(components@)[a] == old_ids[x]);
                        assert(ids_view(components@)[b] == old_ids[y]);
                    }
                }
                self.components = components;
                return Ok(removed);
            }
            i = i + 1;
        }
        assert(!ids_view(self.components@).contains(component_ty@)) by {
            if ids_view(self.components@).contains(component_ty@) {
                let k = choose|k: int| 0 <= k < self.components.len() && #[trigger] ids_view(self.components@)[k] == component_ty@;
                assert(self.components@[k]@ != component_ty@);
            }
        }
        Err(EntityTypeRemoveComponentError::IsNotAComponent(component_ty.duplicate()))
    }

    /// Adds the property, unless the entity type has a property of its name.
    pub fn add_property(&mut self, property_type: PropertyType) -> (r: Result<PropertyType, EntityTypeAddPropertyError>)
        ensures
            match r {
                Ok(p) => {
                    &&& p@ == property_type@
                    &&& !has_property(old(self)@.properties, property_type@.name)
                    &&& final(self)@ == (EntityTypeView { properties: old(self)@.properties.push(property_type@), ..old(self)@ })
                },
                Err(EntityTypeAddPropertyError::PropertyAlreadyExists(n)) => {
                    &&& n@ == property_type@.name
                    &&& has_property(old(self)@.properties, property_type@.name)
                    &&& final(self)@ == old(self)@
                },
                Err(_) => false,
            },
    {
        proof {
            use_type_invariant(&*self);
        }
        match find_property(&self.properties, &property_type.name) {
            Some(i) => {
                assert(properties_view(self.properties@)[i as int].name == property_type@.name);
                return Err(EntityTypeAddPropertyError::PropertyAlreadyExists(property_type.name.clone()));
            },
            None => {},
        }
        let mut properties = copy_properties(&self.properties);
        let ghost pv = property_type@;
        let r = property_type.duplicate();
        proof {
            lemma_insert_property_unique(properties_view(properties@), pv);
        }
        properties.push(property_type);
        assert(properties_view(properties@) =~= properties_view(self.properties@).push(pv));
        assert(properties_view(properties@) == insert_property(properties_view(self.properties@), pv));
        self.properties = properties;
        Ok(r)
    }

    /// Removes the property of the given name and returns it.
    pub fn remove_property(&mut self, name: &str) -> (r: Result<PropertyType, EntityTypeRemovePropertyError>)
        ensures
            match r {
                Ok(p) => {
                    &&& property_named(old(self)@.properties, name@) == Some(p@)
                    &&& final(self)@ == (EntityTypeView { properties: crate::model::remove_property(old(self)@.properties, name@), ..old(self)@ })
                },
                Err(EntityTypeRemovePropertyError::PropertyDoesNotExist(n)) => {
                    &&& n@ == name@
                    &&& !has_property(old(self)@.properties, name@)
                    &&& final(self)@ == old(self)@
                },
                Err(_) => false,
            },
    {
        proof {
            use_type_invariant(&*self);
        }
        let n = name.to_owned();
        match find_property(&self.properties, &n) {
            Some(i) => {
                let ghost old_props = properties_view(self.properties@);
                proof {
                    lemma_property_at(old_props, i as int);
                    lemma_remove_property_at(old_props, i as int);
                }
                let mut properties = copy_properties(&self.properties);
                let removed = properties.remove(i);
                assert(properties_view(properties@) =~= old_props.remove(i as int));
                self.properties = properties;
                Ok(removed)
            },
            None => Err(EntityTypeRemovePropertyError::PropertyDoesNotExist(n)),
        }
    }

    /// Replaces the property of the given name by the given property, which
    /// may have another name, and returns the replaced property.
    pub fn update_property(&mut self, name: &str, property_type: PropertyType) -> (r: Result<PropertyType, EntityTypeUpdatePropertyError>)
        ensures
            match r {
                Ok(p) => {
                    &&& property_named(old(self)@.properties, name@) == Some(p@)
                    &&& final(self)@ == (EntityTypeView {
                        properties: insert_property(crate::model::remove_property(old(self)@.properties, name@), property_type@),
                        ..old(self)@
                    })
                },
                Err(EntityTypeUpdatePropertyError::PropertyDoesNotExist(n)) => {
                    &&& n@ == name@
                    &&& !has_property(old(self)@.properties, name@)
                    &&& final(self)@ == old(self)@
                },
                Err(_) => false,
            },
    {
        proof {
            use_type_invariant(&*self);
        }
        let n = name.to_owned();
        match find_property(&self.properties, &n) {
            Some(i) => {
                let ghost old_props = properties_view(self.properties@);
                proof {
                    lemma_property_at(old_props, i as int);
                    lemma_remove_property_at(old_props, i as int);
                }
                let mut properties = copy_properties(&self.properties);
                let removed = properties.remove(i);
                assert(properties_view(properties@) =~= old_props.remove(i as int));
                put_property(&mut properties, property_type);
                self.properties = properties;
                Ok(removed)
            },
            None => Err(EntityTypeUpdatePropertyError::PropertyDoesNotExist(n)),
        }
    }

    /// Adds the extension, unless the entity type has an extension of its type.
    pub fn add_extension(&mut self, extension: Extension) -> (r: Result<ExtensionTypeId, EntityTypeAddExtensionError>)
        ensures
            match r {
                Ok(t) => {
                    &&& t@ == extension@.ty
                    &&& !has_extension(old(self)@.extensions, extension@.ty)
                    &&& final(self)@ == (EntityTypeView { extensions: old(self)@.extensions.push(extension@), ..old(self)@ })
                },
                Err(EntityTypeAddExtensionError::ExtensionAlreadyExists(t)) => {
                    &&& t@ == extension@.ty
                    &&& has_extension(old(self)@.extensions, extension@.ty)
                    &&& final(self)@ == old(self)@
                },
                Err(_) => false,
            },
    {
        proof {
            use_type_invariant(&*self);
        }
        match find_extension(&self.extensions, &extension.ty) {
            Some(i) => {
                assert(extensions_view(self.extensions@)[i as int].ty == extension@.ty);
                return Err(EntityTypeAddExtensionError::ExtensionAlreadyExists(extension.ty.duplicate()));
            },
            None => {},
        }
        let mut extensions = copy_extensions(&self.extensions);
        let ghost ev = extension@;
        let t = extension.ty.duplicate();
        proof {
            lemma_insert_extension_unique(extensions_view(extensions@), ev);
        }
        extensions.push(extension);
        assert(extensions_view(extensions@) =~= extensions_view(self.extensions@).push(ev));
        assert(extensions_view(extensions@) == insert_extension(extensions_view(self.extensions@), ev));
        self.extensions = extensions;
        Ok(t)
    }

    /// Removes the extension of the given type and returns it.
    pub fn remove_extension(&mut self, extension_ty: &ExtensionTypeId) -> (r: Result<Extension, EntityTypeRemoveExtensionError>)
        ensures
            match r {
                Ok(e) => {
                    &&& extension_typed(old(self)@.extensions, extension_ty@) == Some(e@)
                    &&& final(self)@ == (EntityTypeView { extensions: crate::model::remove_extension(old(self)@.extensions, extension_ty@), ..old(self)@ })
                },
                Err(EntityTypeRemoveExtensionError::ExtensionDoesNotExist(t)) => {
                    &&& t@ == extension_ty@
                    &&& !has_extension(old(self)@.extensions, extension_ty@)
                    &&& final(self)@ == old(self)@
                },
                Err(_) => false,
            },
    {
        proof {
            use_type_invariant(&*self);
        }
        match find_extension(&self.extensions, extension_ty) {
            Some(i) => {
                let ghost old_exts = extensions_view(self.extensions@);
                proof {
                    lemma_extension_at(old_exts, i as int);
                    lemma_remove_extension_at(old_exts, i as int);
                }
                let mut extensions = copy_extensions(&self.extensions);
                let removed = extensions.remove(i);
                assert(extensions_view(extensions@) =~= old_exts.remove(i as int));
                self.extensions = extensions;
                Ok(removed)
            },
            None => Err(EntityTypeRemoveExtensionError::ExtensionDoesNotExist(extension_ty.duplicate())),
        }
    }

    /// Replaces the extension of the given type by the given extension, which
    /// may have another type, and returns the replaced extension.
    pub fn update_extension(&mut self, extension_ty: &ExtensionTypeId, extension: Extension) -> (r: Result<Extension, EntityTypeUpdateExtensionError>)
        ensures
            match r {
                Ok(e) => {
                    &&& extension_typed(old(self)@.extensions, extension_ty@) == Some(e@)
                    &&& final(self)@ == (EntityTypeView {
                        extensions: insert_extension(crate::model::remove_extension(old(self)@.extensions, extension_ty@), extension@),
                        ..old(self)@
                    })
                },
                Err(EntityTypeUpdateExtensionError::ExtensionDoesNotExist(t)) => {
                    &&& t@ == extension_ty@
                    &&& !has_extension(old(self)@.extensions, extension_ty@)
                    &&& final(self)@ == old(self)@
                },
                Err(_) => false,
            },
    {
        proof {
            use_type_invariant(&*self);
        }
        match find_extension(&self.extensions, extension_ty) {
            Some(i) => {
                let ghost old_exts = extensions_view(self.extensions@);
                proof {
                    lemma_extension_at(old_exts, i as int);
                    lemma_remove_extension_at(old_exts, i as int);
                }
                let mut extensions = copy_extensions(&self.extensions);
                let removed = extensions.remove(i);
                assert(extensions_view(extensions@) =~= old_exts.remove(i as int));
                put_extension(&mut extensions, extension);
                self.extensions = extensions;
                Ok(removed)
            },
            None => Err(EntityTypeUpdateExtensionError::ExtensionDoesNotExist(extension_ty.duplicate())),
        }
    }

    /// Replaces the properties of the entity type.
    pub(crate) fn replace_properties(&mut self, properties: Vec<PropertyType>)
        requires
            unique_property_names(properties_view(properties@)),
        ensures
            final(self)@ == (EntityTypeView { properties: properties_view(properties@), ..old(self)@ }),
    {
        proof {
            use_type_invariant(&*self);
        }
        self.properties = properties;
    }

    /// Returns a copy of the properties of the entity type.
    pub(crate) fn copy_of_properties(&self) -> (r: Vec<PropertyType>)
        ensures
            properties_view(r@) == self@.properties,
            unique_property_names(self@.properties),
    {
        proof {
            use_type_invariant(self);
        }
        copy_properties(&self.properties)
    }

    /// Merges the given entity type into this one: its description replaces
    /// this one's, its components are added, and its properties and
    /// extensions are put in, taking the place of those of the same name or
    /// type.
    pub fn merge(&mut self, other: &EntityType)
        ensures
            final(self)@ == (EntityTypeView {
                ty: old(self)@.ty,
                description: other@.description,
                components: insert_ids(old(self)@.components, other@.components),
                properties: insert_properties(old(self)@.properties, other@.properties),
                extensions: insert_extensions(old(self)@.extensions, other@.extensions),
            }),
    {
        proof {
            use_type_invariant(&*self);
            use_type_invariant(other);
        }
        let mut components = copy_ids(&self.components);
        let mut i: usize = 0;
        while i < other.components.len()
            invariant
                i <= other.components.len(),
                ids_view(components@) == insert_ids(ids_view(self.components@), ids_view(other.components@).take(i as int)),
                ids_view(components@).no_duplicates(),
            decreases other.components.len() - i,
        {
            put_id(&mut components, other.components[i].duplicate());
            proof {
                let t = ids_view(other.components@).take(i + 1);
                assert(t.drop_last() =~= ids_view(other.components@).take(i as int));
            }
            i = i + 1;
        }
        assert(ids_view(other.components@).take(other.components.len() as int) =~= ids_view(other.components@));
        let mut properties = copy_properties(&self.properties);
        let mut i: usize = 0;
        while i < other.properties.len()
            invariant
                i <= other.properties.len(),
                properties_view(properties@) == insert_properties(properties_view(self.properties@), properties_view(other.properties@).take(i as int)),
                unique_property_names(properties_view(properties@)),
            decreases other.properties.len() - i,
        {
            put_property(&mut properties, other.properties[i].duplicate());
            proof {
                let t = properties_view(other.properties@).take(i + 1);
                assert(t.drop_last() =~= properties_view(other.properties@).take(i as int));
            }
            i = i + 1;
        }
        assert(properties_view(other.properties@).take(other.properties.len() as int) =~= properties_view(other.properties@));
        let mut extensions = copy_extensions(&self.extensions);
        let mut i: usize = 0;
        while i < other.extensions.len()
            invariant
                i <= other.extensions.len(),
                extensions_view(extensions@) == insert_extensions(extensions_view(self.extensions@), extensions_view(other.extensions@).take(i as int)),
                unique_extension_types(extensions_view(extensions@)),
            decreases other.extensions.len() - i,
        {
            put_extension(&mut extensions, other.extensions[i].duplicate());
            proof {
                let t = extensions_view(other.extensions@).take(i + 1);
                assert(t.drop_last() =~= extensions_view(other.extensions@).take(i as int));
            }
            i = i + 1;
        }
        assert(extensions_view(other.extensions@).take(other.extensions.len() as int) =~= extensions_view(other.extensions@));
        let ty = self.ty.duplicate();
        *self = EntityType { ty, description: other.description.clone(), components, properties, extensions };
    }
}

} // verus!
