use vstd::prelude::*;

use crate::json::{Json, JsonNumber, JsonView, NumberView};
use crate::types::{ExtensionTypeId, TypeId, TypeIdView, TypeKind};

verus! {

/// The data type of a property.
#[derive(Debug, Clone, Copy, PartialEq, Eq, Structural)]
pub enum DataType {
    Null,
    Bool,
    Number,
    String,
    Array,
    Object,
    Any,
}

/// Whether a property is an input, an output or neither.
#[derive(Debug, Clone, Copy, PartialEq, Eq, Structural)]
pub enum SocketType {
    NoSocket,
    Input,
    Output,
}

/// Whether the value of a property may be changed.
#[derive(Debug, Clone, Copy, PartialEq, Eq, Structural)]
pub enum Mutability {
    Mutable,
    Immutable,
}

/// The value that a property of the given data type starts with.
pub open spec fn default_value_view(data_type: DataType) -> JsonView {
    match data_type {
        DataType::Null => JsonView::Null,
        DataType::Bool => JsonView::Bool(false),
        DataType::Number => JsonView::Number(NumberView::PosInt(0)),
        DataType::String => JsonView::String(Seq::empty()),
        DataType::Array => JsonView::Array(Seq::empty()),
        DataType::Object => JsonView::Object(Seq::empty()),
        DataType::Any => JsonView::Null,
    }
}

impl DataType {
    /// Returns the value that a property of this data type starts with.
    pub fn default_value(&self) -> (r: Json)
        ensures
            r@ == default_value_view(*self),
    {
        match self {
            DataType::Null => Json::Null,
            DataType::Bool => Json::Bool(false),
            DataType::Number => Json::Number(JsonNumber::PosInt(0)),
            DataType::String => Json::String(String::new()),
            DataType::Array => Json::Array(Vec::new()),
            DataType::Object => Json::Object(Vec::new()),
            DataType::Any => Json::Null,
        }
    }
}

/// The model of a property type.
pub struct PropertyTypeView {
    pub name: Seq<char>,
    pub description: Seq<char>,
    pub data_type: DataType,
    pub socket_type: SocketType,
    pub mutability: Mutability,
}

/// The type of a property: its name, its data type and how it may be used.
#[derive(Debug)]
pub struct PropertyType {
    pub name: String,
    pub description: String,
    pub data_type: DataType,
    pub socket_type: SocketType,
    pub mutability: Mutability,
}

impl View for PropertyType {
    type V = PropertyTypeView;

    open spec fn view(&self) -> PropertyTypeView {
        PropertyTypeView {
            name: self.name@,
            description: self.description@,
            data_type: self.data_type,
            socket_type: self.socket_type,
            mutability: self.mutability,
        }
    }
}

impl PropertyType {
    /// Creates a mutable property type with no socket and no description.
    pub fn new(name: &str, data_type: DataType) -> (r: PropertyType)
        ensures
            r@ == (PropertyTypeView {
                name: name@,
                description: Seq::empty(),
                data_type,
                socket_type: SocketType::NoSocket,
                mutability: Mutability::Mutable,
            }),
    {
        PropertyType {
            name: name.to_owned(),
            description: String::new(),
            data_type,
            socket_type: SocketType::NoSocket,
            mutability: Mutability::Mutable,
        }
    }

    /// Returns a copy of the property type.
    pub fn duplicate(&self) -> (r: PropertyType)
        ensures
            r@ == self@,
    {
        PropertyType {
            name: self.name.clone(),
            description: self.description.clone(),
            data_type: self.data_type,
            socket_type: self.socket_type,
            mutability: self.mutability,
        }
    }
}

/// The model of an extension.
pub struct ExtensionView {
    pub ty: TypeIdView,
    pub description: Seq<char>,
    pub extension: JsonView,
}

/// An extension: a typed JSON value attached to a type.
#[derive(Debug)]
pub struct Extension {
    pub ty: ExtensionTypeId,
    pub description: String,
    pub extension: Json,
}

impl View for Extension {
    type V = ExtensionView;

    open spec fn view(&self) -> ExtensionView {
        ExtensionView { ty: self.ty@, description: self.description@, extension: self.extension@ }
    }
}

impl Extension {
    /// Creates an extension.
    pub fn new(ty: ExtensionTypeId, description: String, extension: Json) -> (r: Extension)
        ensures
            r@ == (ExtensionView { ty: ty@, description: description@, extension: extension@ }),
    {
        Extension { ty, description, extension }
    }

    /// Returns a copy of the extension.
    pub fn duplicate(&self) -> (r: Extension)
        ensures
            r@ == self@,
    {
        Extension {
            ty: self.ty.duplicate(),
            description: self.description.clone(),
            extension: self.extension.duplicate(),
        }
    }
}

// ---------------------------------------------------------------------------
// Sequences of properties, extensions and component ids, used as maps and sets

/// The models of a sequence of property types.
pub open spec fn properties_view(s: Seq<PropertyType>) -> Seq<PropertyTypeView> {
    s.map_values(|p: PropertyType| p@)
}

/// The models of a sequence of extensions.
pub open spec fn extensions_view(s: Seq<Extension>) -> Seq<ExtensionView> {
    s.map_values(|e: Extension| e@)
}

/// The models of a sequence of type ids.
pub open spec fn ids_view<K>(s: Seq<TypeId<K>>) -> Seq<TypeIdView> {
    s.map_values(|t: TypeId<K>| t@)
}

/// True when one of the properties has the given name.
pub open spec fn has_property(s: Seq<PropertyTypeView>, name: Seq<char>) -> bool {
    exists|i: int| 0 <= i < s.len() && #[trigger] s[i].name == name
}

/// True when no two properties share a name.
pub open spec fn unique_property_names(s: Seq<PropertyTypeView>) -> bool {
    forall|i: int, j: int| 0 <= i < s.len() && 0 <= j < s.len() && i != j ==> #[trigger] s[i].name != #[trigger] s[j].name
}

/// The property with the given name, where there is one.
pub open spec fn property_named(s: Seq<PropertyTypeView>, name: Seq<char>) -> Option<PropertyTypeView> {
    if has_property(s, name) {
        Some(s[choose|i: int| 0 <= i < s.len() && #[trigger] s[i].name == name])
    } else {
        None
    }
}

/// True when one of the extensions has the given type.
pub open spec fn has_extension(s: Seq<ExtensionView>, ty: TypeIdView) -> bool {
    exists|i: int| 0 <= i < s.len() && #[trigger] s[i].ty == ty
}

/// True when no two extensions share a type.
pub open spec fn unique_extension_types(s: Seq<ExtensionView>) -> bool {
    forall|i: int, j: int| 0 <= i < s.len() && 0 <= j < s.len() && i != j ==> #[trigger] s[i].ty != #[trigger] s[j].ty
}

/// The extension with the given type, where there is one.
pub open spec fn extension_typed(s: Seq<ExtensionView>, ty: TypeIdView) -> Option<ExtensionView> {
    if has_extension(s, ty) {
        Some(s[choose|i: int| 0 <= i < s.len() && #[trigger] s[i].ty == ty])
    } else {
        None
    }
}

/// Puts the property into the sequence: it takes the place of the property
/// with the same name, or is appended where there is none.
pub open spec fn insert_property(s: Seq<PropertyTypeView>, p: PropertyTypeView) -> Seq<PropertyTypeView> {
    if has_property(s, p.name) {
        s.update(choose|i: int| 0 <= i < s.len() && #[trigger] s[i].name == p.name, p)
    } else {
        s.push(p)
    }
}

/// Puts the extension into the sequence: it takes the place of the extension
/// with the same type, or is appended where there is none.
pub open spec fn insert_extension(s: Seq<ExtensionView>, e: ExtensionView) -> Seq<ExtensionView> {
    if has_extension(s, e.ty) {
        s.update(choose|i: int| 0 <= i < s.len() && #[trigger] s[i].ty == e.ty, e)
    } else {
        s.push(e)
    }
}

/// Adds the id to the set of ids, unless it is already there.
pub open spec fn insert_id(s: Seq<TypeIdView>, t: TypeIdView) -> Seq<TypeIdView> {
    if s.contains(t) {
        s
    } else {
        s.push(t)
    }
}

/// The sequence without the property of the given name.
pub open spec fn remove_property(s: Seq<PropertyTypeView>, name: Seq<char>) -> Seq<PropertyTypeView> {
    if has_property(s, name) {
        s.remove(choose|i: int| 0 <= i < s.len() && #[trigger] s[i].name == name)
    } else {
        s
    }
}

/// The sequence without the extension of the given type.
pub open spec fn remove_extension(s: Seq<ExtensionView>, ty: TypeIdView) -> Seq<ExtensionView> {
    if has_extension(s, ty) {
        s.remove(choose|i: int| 0 <= i < s.len() && #[trigger] s[i].ty == ty)
    } else {
        s
    }
}

/// The set of ids without the given id.
pub open spec fn remove_id(s: Seq<TypeIdView>, t: TypeIdView) -> Seq<TypeIdView> {
    if s.contains(t) {
        s.remove(s.index_of(t))
    } else {
        s
    }
}

// ---------------------------------------------------------------------------
// Executable helpers on these sequences

/// Returns the position of the property with the given name.
pub fn find_property(v: &Vec<PropertyType>, name: &String) -> (r: Option<usize>)
    ensures
        match r {
            Some(i) => i < v.len() && v@[i as int].name@ == name@,
            None => !has_property(properties_view(v@), name@),
        },
{
    let mut i: usize = 0;
    while i < v.len()
        invariant
            i <= v.len(),
            forall|k: int| 0 <= k < i ==> v@[k].name@ != name@,
        decreases v.len() - i,
    {
        if v[i].name == *name {
            return Some(i);
        }
        i = i + 1;
    }
    assert(!has_property(properties_view(v@), name@)) by {
        if has_property(properties_view(v@), name@) {
            let k = choose|k: int| 0 <= k < v.len() && #[trigger] properties_view(v@)[k].name == name@;
            assert(v@[k].name@ != name@);
        }
    }
    None
}

/// Returns the position of the extension with the given type.
pub fn find_extension(v: &Vec<Extension>, ty: &ExtensionTypeId) -> (r: Option<usize>)
    ensures
        match r {
            Some(i) => i < v.len() && v@[i as int].ty@ == ty@,
            None => !has_extension(extensions_view(v@), ty@),
        },
{
    let mut i: usize = 0;
    while i < v.len()
        invariant
            i <= v.len(),
            forall|k: int| 0 <= k < i ==> v@[k].ty@ != ty@,
        decreases v.len() - i,
    {
        if v[i].ty.same(ty) {
            return Some(i);
        }
        i = i + 1;
    }
    assert(!has_extension(extensions_view(v@), ty@)) by {
        if has_extension(extensions_view(v@), ty@) {
            let k = choose|k: int| 0 <= k < v.len() && #[trigger] extensions_view(v@)[k].ty == ty@;
            assert(v@[k].ty@ != ty@);
        }
    }
    None
}

/// Returns true when the id is in the sequence.
pub fn contains_id<K: TypeKind>(v: &Vec<TypeId<K>>, t: &TypeId<K>) -> (r: bool)
    ensures
        r == ids_view(v@).contains(t@),
{
    let mut i: usize = 0;
    while i < v.len()
        invariant
            i <= v.len(),
            forall|k: int| 0 <= k < i ==> v@[k]@ != t@,
        decreases v.len() - i,
    {
        if v[i].same(t) {
            assert(ids_view(v@)[i as int] == t@);
            return true;
        }
        i = i + 1;
    }
    assert(!ids_view(v@).contains(t@)) by {
        if ids_view(v@).contains(t@) {
            let k = choose|k: int| 0 <= k < v.len() && #[trigger] ids_view(v@)[k] == t@;
            assert(v@[k]@ != t@);
        }
    }
    false
}

} // verus!
