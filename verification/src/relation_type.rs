use vstd::prelude::*;

use crate::model::{
    extensions_view, find_extension, find_property, has_extension, has_property, ids_view,
    properties_view, Extension, ExtensionView, PropertyType, PropertyTypeView,
};
use crate::types::{ComponentTypeId, EntityTypeId, ExtensionTypeId, RelationTypeId, TypeIdView};

verus! {

/// The type at one end of a relation type: a component or an entity type.
#[derive(Debug)]
pub enum ComponentOrEntityTypeId {
    Component(ComponentTypeId),
    EntityType(EntityTypeId),
}

/// The model of a relation type.
pub struct RelationTypeView {
    pub ty: TypeIdView,
    pub description: Seq<char>,
    pub components: Seq<TypeIdView>,
    pub properties: Seq<PropertyTypeView>,
    pub extensions: Seq<ExtensionView>,
}

/// A relation type: the types it connects, the components it is made of, its
/// properties and its extensions.
#[derive(Debug)]
pub struct RelationType {
    pub outbound_type: ComponentOrEntityTypeId,
    pub ty: RelationTypeId,
    pub inbound_type: ComponentOrEntityTypeId,
    pub description: String,
    pub components: Vec<ComponentTypeId>,
    pub properties: Vec<PropertyType>,
    pub extensions: Vec<Extension>,
}

impl View for RelationType {
    type V = RelationTypeView;

    open spec fn view(&self) -> RelationTypeView {
        RelationTypeView {
            ty: self.ty@,
            description: self.description@,
            components: ids_view(self.components@),
            properties: properties_view(self.properties@),
            extensions: extensions_view(self.extensions@),
        }
    }
}

impl RelationType {
    /// Creates a relation type.
    pub fn new(
        outbound_type: ComponentOrEntityTypeId,
        ty: RelationTypeId,
        inbound_type: ComponentOrEntityTypeId,
        description: &str,
        components: Vec<ComponentTypeId>,
        properties: Vec<PropertyType>,
        extensions: Vec<Extension>,
    ) -> (r: RelationType)
        ensures
            r@ == (RelationTypeView {
                ty: ty@,
                description: description@,
                components: ids_view(components@),
                properties: properties_view(properties@),
                extensions: extensions_view(extensions@),
            }),
            r.outbound_type == outbound_type,
            r.inbound_type == inbound_type,
    {
        RelationType { outbound_type, ty, inbound_type, description: description.to_owned(), components, properties, extensions }
    }

    /// Returns the namespace of the relation type.
    pub fn namespace(&self) -> (r: String)
        ensures
            r@ == self@.ty.namespace,
    {
        self.ty.namespace()
    }

    /// Returns the name of the relation type.
    pub fn name(&self) -> (r: String)
        ensures
            r@ == self@.ty.name,
    {
        self.ty.name()
    }

    /// Returns the textual type definition of the relation type, such as
    /// `r__core__connector`.
    pub fn type_definition(&self) -> (r: String)
        ensures
            r@ == crate::types::type_definition_view(seq!['r'], self@.ty),
    {
        self.ty.type_definition()
    }

    /// Returns true when the relation type is made of the given component.
    pub fn is_a(&self, component_ty: &ComponentTypeId) -> (r: bool)
        ensures
            r == self@.components.contains(component_ty@),
    {
        crate::model::contains_id(&self.components, component_ty)
    }

    /// Returns true when the relation type has a property of the given name.
    pub fn has_own_property(&self, name: &str) -> (r: bool)
        ensures
            r == has_property(self@.properties, name@),
    {
        let n = name.to_owned();
        match find_property(&self.properties, &n) {
            Some(i) => {
                assert(properties_view(self.properties@)[i as int].name == name@);
                true
            },
            None => false,
        }
    }

    /// Returns the first property of the given name.
    pub fn get_own_property(&self, name: &str) -> (r: Option<PropertyType>)
        ensures
            match r {
                Some(p) => has_property(self@.properties, name@) && p@.name == name@
                    && exists|i: int| 0 <= i < self@.properties.len() && self@.properties[i] == p@,
                None => !has_property(self@.properties, name@),
            },
    {
        let n = name.to_owned();
        match find_property(&self.properties, &n) {
            Some(i) => {
                assert(properties_view(self.properties@)[i as int].name == name@);
                let p = self.properties[i].duplicate();
                assert(self@.properties[i as int] == p@);
                Some(p)
            },
            None => None,
        }
    }

    /// Returns true when the relation type has an extension of the given type.
    pub fn has_own_extension(&self, extension_ty: &ExtensionTypeId) -> (r: bool)
        ensures
            r == has_extension(self@.extensions, extension_ty@),
    {
        match find_extension(&self.extensions, extension_ty) {
            Some(i) => {
                assert(extensions_view(self.extensions@)[i as int].ty == extension_ty@);
                true
            },
            None => false,
        }
    }

    /// Returns the first extension of the given type.
    pub fn get_own_extension(&self, extension_ty: &ExtensionTypeId) -> (r: Option<Extension>)
        ensures
            match r {
                Some(e) => e@.ty == extension_ty@ && exists|i: int| 0 <= i < self@.extensions.len() && self@.extensions[i] == e@,
                None => !has_extension(self@.extensions, extension_ty@),
            },
    {
        match find_extension(&self.extensions, extension_ty) {
            Some(i) => {
                let e = self.extensions[i].duplicate();
                assert(self@.extensions[i as int] == e@);
                Some(e)
            },
            None => None,
        }
    }
}

} // verus!
