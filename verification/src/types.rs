use core::marker::PhantomData;
use vstd::prelude::*;
use vstd::string::StringExecFns;

verus! {

/// The kind of a type id: what the first part of its type definition names.
pub trait TypeKind: Sized {
    /// The prefix of the type definition of an id of this kind.
    spec fn prefix_spec() -> Seq<char>;

    /// Returns the prefix of the type definition of an id of this kind.
    fn prefix() -> (r: &'static str)
        ensures
            r@ == Self::prefix_spec(),
    ;
}

/// The kind of the ids of components.
#[derive(Debug, Clone, Copy, PartialEq, Eq, Hash)]
pub struct ComponentKind;

/// The kind of the ids of entity types.
#[derive(Debug, Clone, Copy, PartialEq, Eq, Hash)]
pub struct EntityTypeKind;

/// The kind of the ids of relation types.
#[derive(Debug, Clone, Copy, PartialEq, Eq, Hash)]
pub struct RelationTypeKind;

/// The kind of the ids of flow types.
#[derive(Debug, Clone, Copy, PartialEq, Eq, Hash)]
pub struct FlowTypeKind;

/// The kind of the ids of extensions.
#[derive(Debug, Clone, Copy, PartialEq, Eq, Hash)]
pub struct ExtensionKind;

impl TypeKind for ComponentKind {
    open spec fn prefix_spec() -> Seq<char> {
        seq!['c']
    }

    fn prefix() -> (r: &'static str) {
        proof {
            reveal_strlit("c");
        }
        "c"
    }
}

impl TypeKind for EntityTypeKind {
    open spec fn prefix_spec() -> Seq<char> {
        seq!['e']
    }

    fn prefix() -> (r: &'static str) {
        proof {
            reveal_strlit("e");
        }
        "e"
    }
}

impl TypeKind for RelationTypeKind {
    open spec fn prefix_spec() -> Seq<char> {
        seq!['r']
    }

    fn prefix() -> (r: &'static str) {
        proof {
            reveal_strlit("r");
        }
        "r"
    }
}

impl TypeKind for FlowTypeKind {
    open spec fn prefix_spec() -> Seq<char> {
        seq!['f']
    }

    fn prefix() -> (r: &'static str) {
        proof {
            reveal_strlit("f");
        }
        "f"
    }
}

impl TypeKind for ExtensionKind {
    open spec fn prefix_spec() -> Seq<char> {
        seq!['x']
    }

    fn prefix() -> (r: &'static str) {
        proof {
            reveal_strlit("x");
        }
        "x"
    }
}

/// The model of a type id: its namespace and its name.
pub struct TypeIdView {
    pub namespace: Seq<char>,
    pub name: Seq<char>,
}

/// A namespaced type id of the kind `K`.
#[derive(Debug, PartialEq, Eq, Hash)]
pub struct TypeId<K> {
    pub namespace: String,
    pub name: String,
    pub kind: PhantomData<K>,
}

/// The id of a component.
pub type ComponentTypeId = TypeId<ComponentKind>;

/// The id of an entity type.
pub type EntityTypeId = TypeId<EntityTypeKind>;

/// The id of a relation type.
pub type RelationTypeId = TypeId<RelationTypeKind>;

/// The id of a flow type.
pub type FlowTypeId = TypeId<FlowTypeKind>;

/// The id of an extension.
pub type ExtensionTypeId = TypeId<ExtensionKind>;

/// The separator between the parts of a type definition.
pub open spec fn separator() -> Seq<char> {
    seq!['_', '_']
}

/// The textual type definition of an id: its kind's prefix, its namespace and
/// its name, joined by two underscores.
pub open spec fn type_definition_view(prefix: Seq<char>, id: TypeIdView) -> Seq<char> {
    prefix + separator() + id.namespace + separator() + id.name
}

impl<K> View for TypeId<K> {
    type V = TypeIdView;

    open spec fn view(&self) -> TypeIdView {
        TypeIdView { namespace: self.namespace@, name: self.name@ }
    }
}

impl<K: TypeKind> TypeId<K> {
    /// Creates the id of the type with the given namespace and name.
    pub fn new_from_type(namespace: &str, name: &str) -> (r: Self)
        ensures
            r@ == (TypeIdView { namespace: namespace@, name: name@ }),
    {
        TypeId { namespace: namespace.to_owned(), name: name.to_owned(), kind: PhantomData }
    }

    /// Returns the namespace of the type.
    pub fn namespace(&self) -> (r: String)
        ensures
            r@ == self@.namespace,
    {
        self.namespace.clone()
    }

    /// Returns the name of the type.
    pub fn name(&self) -> (r: String)
        ensures
            r@ == self@.name,
    {
        self.name.clone()
    }

    /// Returns true when both ids name the same type.
    pub fn same(&self, other: &Self) -> (r: bool)
        ensures
            r == (self@ == other@),
    {
        self.namespace == other.namespace && self.name == other.name
    }

    /// Returns a copy of the id.
    pub fn duplicate(&self) -> (r: Self)
        ensures
            r@ == self@,
    {
        TypeId { namespace: self.namespace.clone(), name: self.name.clone(), kind: PhantomData }
    }

    /// Returns the textual type definition of the id, such as `c__core__label`
    /// for the component `label` of the namespace `core`.
    pub fn type_definition(&self) -> (r: String)
        ensures
            r@ == type_definition_view(K::prefix_spec(), self@),
    {
        proof {
            reveal_strlit("__");
        }
        let mut s = K::prefix().to_owned();
        s.append("__");
        s.append(self.namespace.as_str());
        s.append("__");
        s.append(self.name.as_str());
        s
    }
}

} // verus!
