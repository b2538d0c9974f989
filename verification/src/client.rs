use vstd::prelude::*;

use crate::json::Json;
use crate::model::ExtensionView;
use crate::types::TypeIdView;

verus! {

/// The id of an extension as the GraphQL client sends it.
#[derive(Debug)]
pub struct ExtensionTypeId {
    pub name: String,
    pub namespace: String,
}

impl View for ExtensionTypeId {
    type V = TypeIdView;

    open spec fn view(&self) -> TypeIdView {
        TypeIdView { namespace: self.namespace@, name: self.name@ }
    }
}

impl vstd::std_specs::convert::FromSpecImpl<crate::types::ExtensionTypeId> for ExtensionTypeId {
    open spec fn obeys_from_spec() -> bool {
        true
    }

    open spec fn from_spec(ty: crate::types::ExtensionTypeId) -> ExtensionTypeId {
        ExtensionTypeId { name: ty.name, namespace: ty.namespace }
    }
}

impl From<crate::types::ExtensionTypeId> for ExtensionTypeId {
    /// The id with the name and the namespace of the type id.
    fn from(ty: crate::types::ExtensionTypeId) -> (r: ExtensionTypeId) {
        ExtensionTypeId { name: ty.name, namespace: ty.namespace }
    }
}

/// The definition of an extension as the GraphQL client sends it.
#[derive(Debug)]
pub struct ExtensionDefinition {
    pub type_: ExtensionTypeId,
    pub description: String,
    pub extension: Json,
}

impl View for ExtensionDefinition {
    type V = ExtensionView;

    open spec fn view(&self) -> ExtensionView {
        ExtensionView { ty: self.type_@, description: self.description@, extension: self.extension@ }
    }
}

impl vstd::std_specs::convert::FromSpecImpl<crate::model::Extension> for ExtensionDefinition {
    open spec fn obeys_from_spec() -> bool {
        true
    }

    open spec fn from_spec(extension: crate::model::Extension) -> ExtensionDefinition {
        ExtensionDefinition {
            type_: ExtensionTypeId { name: extension.ty.name, namespace: extension.ty.namespace },
            description: extension.description,
            extension: extension.extension,
        }
    }
}

impl From<crate::model::Extension> for ExtensionDefinition {
    /// The definition of the extension.
    fn from(extension: crate::model::Extension) -> (r: ExtensionDefinition) {
        ExtensionDefinition {
            type_: ExtensionTypeId { name: extension.ty.name, namespace: extension.ty.namespace },
            description: extension.description,
            extension: extension.extension,
        }
    }
}

/// A list of definitions of extensions.
#[derive(Debug)]
pub struct ExtensionDefinitions(pub Vec<ExtensionDefinition>);

impl ExtensionDefinitions {
    /// An empty list.
    pub fn new() -> (r: ExtensionDefinitions)
        ensures
            r.0@ == Seq::<ExtensionDefinition>::empty(),
    {
        ExtensionDefinitions(Vec::new())
    }

    /// The definitions of the given extensions, in their order.
    pub fn from_extensions(extensions: Vec<crate::model::Extension>) -> (r: ExtensionDefinitions)
        ensures
            r.0@.map_values(|d: ExtensionDefinition| d@) == extensions@.map_values(|e: crate::model::Extension| e@),
    {
        let mut out = ExtensionDefinitions::new();
        let mut i: usize = 0;
        while i < extensions.len()
            invariant
                i <= extensions.len(),
                out.0.len() == i,
                forall|k: int| 0 <= k < i ==> (#[trigger] out.0@[k])@ == extensions@[k]@,
            decreases extensions.len() - i,
        {
            let e = extensions[i].duplicate();
            out.0.push(ExtensionDefinition::from(e));
            i = i + 1;
        }
        assert(out.0@.map_values(|d: ExtensionDefinition| d@) =~= extensions@.map_values(|e: crate::model::Extension| e@));
        out
    }
}

impl vstd::std_specs::convert::FromSpecImpl<ExtensionDefinitions> for Vec<ExtensionDefinition> {
    open spec fn obeys_from_spec() -> bool {
        true
    }

    open spec fn from_spec(extensions: ExtensionDefinitions) -> Vec<ExtensionDefinition> {
        extensions.0
    }
}

impl From<ExtensionDefinitions> for Vec<ExtensionDefinition> {
    /// The definitions, in their order.
    fn from(extensions: ExtensionDefinitions) -> (r: Vec<ExtensionDefinition>) {
        extensions.0
    }
}

/// An extension as the GraphQL client receives it.
#[derive(Debug)]
pub struct Extension {
    /// The namespace of the extension.
    pub namespace: String,
    /// The name of the extension.
    pub name: String,
    /// Textual description of the extension.
    pub description: String,
    /// The extension as JSON representation.
    pub extension: Json,
}

impl View for Extension {
    type V = ExtensionView;

    open spec fn view(&self) -> ExtensionView {
        ExtensionView {
            ty: TypeIdView { namespace: self.namespace@, name: self.name@ },
            description: self.description@,
            extension: self.extension@,
        }
    }
}

impl Extension {
    /// The extension of the type system with the same type, description and value.
    pub fn into_extension(self) -> (r: crate::model::Extension)
        ensures
            r@ == self@,
    {
        let ty = crate::types::ExtensionTypeId::new_from_type(self.namespace.as_str(), self.name.as_str());
        crate::model::Extension::new(ty, self.description, self.extension)
    }
}

/// A list of extensions as the GraphQL client receives it.
#[derive(Debug)]
pub struct Extensions(pub Vec<Extension>);

impl Extensions {
    /// The extensions of the type system with the same types, descriptions
    /// and values, in their order.
    pub fn into_extensions(self) -> (r: Vec<crate::model::Extension>)
        ensures
            r@.map_values(|e: crate::model::Extension| e@) == self.0@.map_values(|e: Extension| e@),
    {
        let mut out: Vec<crate::model::Extension> = Vec::new();
        let mut i: usize = 0;
        while i < self.0.len()
            invariant
                i <= self.0.len(),
                out.len() == i,
                forall|k: int| 0 <= k < i ==> (#[trigger] out@[k])@ == self.0@[k]@,
            decreases self.0.len() - i,
        {
            let e = &self.0[i];
            let copy = Extension {
                namespace: e.namespace.clone(),
                name: e.name.clone(),
                description: e.description.clone(),
                extension: e.extension.duplicate(),
            };
            out.push(copy.into_extension());
            i = i + 1;
        }
        assert(out@.map_values(|e: crate::model::Extension| e@) =~= self.0@.map_values(|e: Extension| e@));
        out
    }
}

} // verus!
