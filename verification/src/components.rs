use vstd::prelude::*;

use crate::entity_type::{Component, ComponentView};
use crate::types::{ComponentTypeId, TypeIdView};

verus! {

/// The component with the given id, where there is one.
pub open spec fn component_lookup(s: Seq<ComponentView>, ty: TypeIdView) -> Option<ComponentView> {
    if exists|i: int| 0 <= i < s.len() && #[trigger] s[i].ty == ty {
        Some(s[choose|i: int| 0 <= i < s.len() && #[trigger] s[i].ty == ty])
    } else {
        None
    }
}

/// True when no two components share an id and each is well formed.
pub open spec fn components_wf(s: Seq<ComponentView>) -> bool {
    &&& forall|i: int, j: int| 0 <= i < s.len() && 0 <= j < s.len() && i != j ==> #[trigger] s[i].ty != #[trigger] s[j].ty
    &&& forall|i: int| 0 <= i < s.len() ==> (#[trigger] s[i]).wf()
}

/// In a sequence of components with unique ids, the component at `i` is the
/// one that has its id.
pub proof fn lemma_component_at(s: Seq<ComponentView>, i: int)
    requires
        components_wf(s),
        0 <= i < s.len(),
    ensures
        component_lookup(s, s[i].ty) == Some(s[i]),
{
    assert(s[i].ty == s[i].ty);
}

/// The error when a component cannot be registered.
#[derive(Debug)]
pub enum ComponentRegistrationError {
    ComponentAlreadyExists(ComponentTypeId),
}

/// The registry of the components.
pub struct ComponentManager {
    components: Vec<Component>,
}

impl View for ComponentManager {
    type V = Seq<ComponentView>;

    closed spec fn view(&self) -> Seq<ComponentView> {
        self.components@.map_values(|c: Component| c@)
    }
}

impl ComponentManager {
    #[verifier::type_invariant]
    closed spec fn inv(&self) -> bool {
        components_wf(self@)
    }

    /// Creates an empty registry.
    pub fn new() -> (r: ComponentManager)
        ensures
            r@ == Seq::<ComponentView>::empty(),
    {
        let r = ComponentManager { components: Vec::new() };
        assert(r@ =~= Seq::<ComponentView>::empty());
        r
    }

    /// Returns the position of the component with the given id.
    fn position(&self, ty: &ComponentTypeId) -> (r: Option<usize>)
        ensures
            match r {
                Some(i) => i < self@.len() && self@[i as int].ty == ty@ && component_lookup(self@, ty@) == Some(self@[i as int]),
                None => component_lookup(self@, ty@) is None,
            },
    {
        proof {
            use_type_invariant(self);
        }
        let mut i: usize = 0;
        while i < self.components.len()
            invariant
                i <= self.components.len(),
                self@.len() == self.components.len(),
                forall|k: int| 0 <= k < i ==> self@[k].ty != ty@,
                components_wf(self@),
            decreases self.components.len() - i,
        {
            if self.components[i].ty().same(ty) {
                proof {
                    lemma_component_at(self@, i as int);
                }
                return Some(i);
            }
            i = i + 1;
        }
        None
    }

    /// Returns true when a component with the given id is registered.
    pub fn has(&self, ty: &ComponentTypeId) -> (r: bool)
        ensures
            r == (component_lookup(self@, ty@) is Some),
    {
        self.position(ty).is_some()
    }

    /// Returns the component with the given id.
    pub fn get(&self, ty: &ComponentTypeId) -> (r: Option<Component>)
        ensures
            match r {
                Some(c) => component_lookup(self@, ty@) == Some(c@),
                None => component_lookup(self@, ty@) is None,
            },
    {
        match self.position(ty) {
            Some(i) => Some(self.components[i].duplicate()),
            None => None,
        }
    }

    /// Returns the number of registered components.
    pub fn count(&self) -> (r: usize)
        ensures
            r == self@.len(),
    {
        self.components.len()
    }

    /// Registers the component, unless one with its id is registered, and
    /// returns a copy of it.
    pub fn register(&mut self, component: Component) -> (r: Result<Component, ComponentRegistrationError>)
        ensures
            match r {
                Ok(c) => {
                    &&& c@ == component@
                    &&& component_lookup(old(self)@, component@.ty) is None
                    &&& final(self)@ == old(self)@.push(component@)
                },
                Err(ComponentRegistrationError::ComponentAlreadyExists(t)) => {
                    &&& t@ == component@.ty
                    &&& component_lookup(old(self)@, component@.ty) is Some
                    &&& final(self)@ == old(self)@
                },
            },
    {
        proof {
            use_type_invariant(&*self);
            use_type_invariant(&component);
        }
        if self.position(component.ty()).is_some() {
            return Err(ComponentRegistrationError::ComponentAlreadyExists(component.ty().duplicate()));
        }
        let copy = component.duplicate();
        let ghost cv = component@;
        let ghost old_view = self@;
        let mut components = Vec::new();
        std::mem::swap(&mut components, &mut self.components);
        components.push(component);
        proof {
            assert(components@.map_values(|c: Component| c@) =~= old_view.push(cv));
            assert forall|i: int, j: int| 0 <= i < old_view.len() + 1 && 0 <= j < old_view.len() + 1 && i != j implies #[trigger] old_view.push(cv)[i].ty != #[trigger] old_view.push(cv)[j].ty by {
                if i == old_view.len() && j < old_view.len() {
                    assert(old_view[j].ty == old_view.push(cv)[j].ty);
                }
                if j == old_view.len() && i < old_view.len() {
                    assert(old_view[i].ty == old_view.push(cv)[i].ty);
                }
            }
        }
        self.components = components;
        Ok(copy)
    }

    /// Deletes the component with the given id; returns true when there was one.
    pub fn delete(&mut self, ty: &ComponentTypeId) -> (r: bool)
        ensures
            r == (component_lookup(old(self)@, ty@) is Some),
            r ==> exists|i: int| 0 <= i < old(self)@.len() && old(self)@[i].ty == ty@ && final(self)@ == old(self)@.remove(i),
            !r ==> final(self)@ == old(self)@,
            component_lookup(final(self)@, ty@) is None,
    {
        proof {
            use_type_invariant(&*self);
        }
        match self.position(ty) {
            Some(i) => {
                let ghost old_view = self@;
                let mut components = Vec::new();
                std::mem::swap(&mut components, &mut self.components);
                components.remove(i);
                proof {
                    let nv = components@.map_values(|c: Component| c@);
                    assert(nv =~= old_view.remove(i as int));
                    assert forall|a: int, b: int| 0 <= a < nv.len() && 0 <= b < nv.len() && a != b implies #[trigger] nv[a].ty != #[trigger] nv[b].ty by {
                        let x = if a < i { a } else { a + 1 };
                        let y = if b < i { b } else { b + 1 };
                        assert(nv[a] == old_view[x]);
                        assert(nv[b] == old_view[y]);
                    }
                    assert forall|k: int| 0 <= k < nv.len() implies (#[trigger] nv[k]).wf() by {
                        let x = if k < i { k } else { k + 1 };
                        assert(nv[k] == old_view[x]);
                    }
                    if exists|k: int| 0 <= k < nv.len() && #[trigger] nv[k].ty == ty@ {
                        let k = choose|k: int| 0 <= k < nv.len() && #[trigger] nv[k].ty == ty@;
                        let x = if k < i { k } else { k + 1 };
                        assert(nv[k] == old_view[x]);
                        assert(old_view[i as int].ty == ty@);
                    }
                }
                self.components = components;
                true
            },
            None => false,
        }
    }
}

} // verus!
