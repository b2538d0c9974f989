use vstd::prelude::*;

use crate::entity_type::{Component, EntityType};
use crate::entity_types::divergent_extension_ty;
use crate::json::array_contains_string;
use crate::model::{extension_typed, Extension, ExtensionView};
use crate::types::{type_definition_view, ComponentKind, ComponentTypeId, ExtensionTypeId, TypeKind};

verus! {

/// A type that carries extensions.
pub trait ExtensionContainer {
    /// The extensions of the value.
    spec fn extensions_spec(&self) -> Seq<ExtensionView>;

    /// Returns the extension of the given type.
    fn get_own_extension(&self, extension_ty: &ExtensionTypeId) -> (r: Option<Extension>)
        ensures
            match r {
                Some(e) => extension_typed(self.extensions_spec(), extension_ty@) == Some(e@),
                None => extension_typed(self.extensions_spec(), extension_ty@) is None,
            },
    ;
}

impl ExtensionContainer for EntityType {
    open spec fn extensions_spec(&self) -> Seq<ExtensionView> {
        self@.extensions
    }

    fn get_own_extension(&self, extension_ty: &ExtensionTypeId) -> (r: Option<Extension>) {
        EntityType::get_own_extension(self, extension_ty)
    }
}

impl ExtensionContainer for Component {
    open spec fn extensions_spec(&self) -> Seq<ExtensionView> {
        self@.extensions
    }

    fn get_own_extension(&self, extension_ty: &ExtensionTypeId) -> (r: Option<Extension>) {
        Component::get_own_extension(self, extension_ty)
    }
}

/// True when the extension `core__divergent` of the extensions lists the
/// type definition of the component.
pub open spec fn is_divergent_spec(extensions: Seq<ExtensionView>, component_ty: crate::types::TypeIdView) -> bool {
    match extension_typed(extensions, divergent_extension_ty()) {
        Some(e) => array_contains_string(e.extension, type_definition_view(ComponentKind::prefix_spec(), component_ty)),
        None => false,
    }
}

/// Returns true when the extension `core__divergent` of the container lists
/// the component.
pub fn is_divergent<T: ExtensionContainer>(extension_container: &T, component_ty: &ComponentTypeId) -> (r: bool)
    ensures
        r == is_divergent_spec(extension_container.extensions_spec(), component_ty@),
{
    proof {
        reveal_strlit("core");
        reveal_strlit("divergent");
        assert("core"@ =~= seq!['c', 'o', 'r', 'e']);
        assert("divergent"@ =~= seq!['d', 'i', 'v', 'e', 'r', 'g', 'e', 'n', 't']);
    }
    let divergent_ty = ExtensionTypeId::new_from_type("core", "divergent");
    match extension_container.get_own_extension(&divergent_ty) {
        Some(divergent) => {
            let name = component_ty.type_definition();
            divergent.extension.contains_string(&name)
        },
        None => false,
    }
}

} // verus!
