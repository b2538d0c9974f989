use vstd::prelude::*;

use crate::json::{Json, JsonView};
use crate::types::{EntityTypeId, TypeIdView};

verus! {

/// The models of the properties of an instance: names with values.
pub open spec fn property_values_view(v: Seq<(String, Json)>) -> Seq<(Seq<char>, JsonView)> {
    v.map_values(|e: (String, Json)| (e.0@, e.1@))
}

/// Copies the properties of an instance.
pub fn copy_property_values(v: &Vec<(String, Json)>) -> (r: Vec<(String, Json)>)
    ensures
        property_values_view(r@) == property_values_view(v@),
{
    let mut out: Vec<(String, Json)> = Vec::new();
    let mut i: usize = 0;
    while i < v.len()
        invariant
            i <= v.len(),
            out.len() == i,
            forall|k: int| 0 <= k < i ==> (#[trigger] out@[k]).0@ == v@[k].0@ && out@[k].1@ == v@[k].1@,
        decreases v.len() - i,
    {
        out.push((v[i].0.clone(), v[i].1.duplicate()));
        i = i + 1;
    }
    assert(property_values_view(out@) =~= property_values_view(v@));
    out
}

/// Returns true when one of the properties has the given name.
pub fn contains_key(v: &Vec<(String, Json)>, name: &String) -> (r: bool)
    ensures
        r == (exists|k: int| 0 <= k < v.len() && #[trigger] property_values_view(v@)[k].0 == name@),
{
    let mut i: usize = 0;
    while i < v.len()
        invariant
            i <= v.len(),
            forall|k: int| 0 <= k < i ==> v@[k].0@ != name@,
        decreases v.len() - i,
    {
        if v[i].0 == *name {
            assert(property_values_view(v@)[i as int].0 == name@);
            return true;
        }
        i = i + 1;
    }
    assert forall|k: int| 0 <= k < v.len() implies #[trigger] property_values_view(v@)[k].0 != name@ by {
        assert(property_values_view(v@)[k].0 == v@[k].0@);
    }
    false
}

/// The model of an entity instance.
pub struct EntityInstanceView {
    pub ty: TypeIdView,
    pub id: u128,
    pub properties: Seq<(Seq<char>, JsonView)>,
}

/// An entity instance: an instance of an entity type, with its id and the
/// values of its properties.
#[derive(Debug)]
pub struct EntityInstance {
    pub ty: EntityTypeId,
    pub id: u128,
    pub properties: Vec<(String, Json)>,
}

impl View for EntityInstance {
    type V = EntityInstanceView;

    open spec fn view(&self) -> EntityInstanceView {
        EntityInstanceView { ty: self.ty@, id: self.id, properties: property_values_view(self.properties@) }
    }
}

impl EntityInstance {
    /// Returns a copy of the entity instance.
    pub fn duplicate(&self) -> (r: EntityInstance)
        ensures
            r@ == self@,
    {
        EntityInstance { ty: self.ty.duplicate(), id: self.id, properties: copy_property_values(&self.properties) }
    }
}

/// The error when the vertex of an entity instance cannot be created.
#[derive(Debug)]
pub enum EntityVertexCreationError {
    UuidTaken(u128),
}

/// The error when an entity instance cannot be created.
#[derive(Debug)]
pub enum EntityInstanceCreationError {
    EntityVertexCreationError(EntityVertexCreationError),
}

/// The error when an entity instance cannot be imported.
#[derive(Debug)]
pub enum EntityInstanceImportError {
    EntityAlreadyExists(u128),
    EntityVertexCreationError(EntityVertexCreationError),
}

/// The entity instance with the given id, where there is one.
pub open spec fn entity_lookup(s: Seq<EntityInstanceView>, id: u128) -> Option<EntityInstanceView> {
    if exists|i: int| 0 <= i < s.len() && #[trigger] s[i].id == id {
        Some(s[choose|i: int| 0 <= i < s.len() && #[trigger] s[i].id == id])
    } else {
        None
    }
}

/// The position of the entity instance with the given id.
pub open spec fn entity_index(s: Seq<EntityInstanceView>, id: u128) -> int {
    choose|i: int| 0 <= i < s.len() && #[trigger] s[i].id == id
}

/// True when no two entity instances share an id.
pub open spec fn unique_ids(s: Seq<EntityInstanceView>) -> bool {
    forall|i: int, j: int| 0 <= i < s.len() && 0 <= j < s.len() && i != j ==> #[trigger] s[i].id != #[trigger] s[j].id
}

/// The entity instances of the graph.
pub struct EntityInstanceManagerImpl {
    entities: Vec<EntityInstance>,
}

impl View for EntityInstanceManagerImpl {
    type V = Seq<EntityInstanceView>;

    closed spec fn view(&self) -> Seq<EntityInstanceView> {
        self.entities@.map_values(|e: EntityInstance| e@)
    }
}

impl EntityInstanceManagerImpl {
    #[verifier::type_invariant]
    closed spec fn inv(&self) -> bool {
        unique_ids(self@)
    }

    /// Creates an empty store of entity instances.
    pub fn new() -> (r: EntityInstanceManagerImpl)
        ensures
            r@ == Seq::<EntityInstanceView>::empty(),
    {
        let r = EntityInstanceManagerImpl { entities: Vec::new() };
        assert(r@ =~= Seq::<EntityInstanceView>::empty());
        r
    }

    /// Returns the position of the entity instance with the given id.
    fn position(&self, id: u128) -> (r: Option<usize>)
        ensures
            unique_ids(self@),
            match r {
                Some(i) => i < self@.len() && self@[i as int].id == id && entity_index(self@, id) == i
                    && entity_lookup(self@, id) == Some(self@[i as int]),
                None => entity_lookup(self@, id) is None,
            },
    {
        proof {
            use_type_invariant(self);
        }
        let mut i: usize = 0;
        while i < self.entities.len()
            invariant
                i <= self.entities.len(),
                self@.len() == self.entities.len(),
                forall|k: int| 0 <= k < i ==> self@[k].id != id,
                unique_ids(self@),
            decreases self.entities.len() - i,
        {
            if self.entities[i].id == id {
                assert(self@[i as int].id == id);
                return Some(i);
            }
            i = i + 1;
        }
        None
    }

    /// Returns the number of entity instances.
    pub fn count(&self) -> (r: usize)
        ensures
            r == self@.len(),
    {
        self.entities.len()
    }

    /// Returns true when an entity instance with the given id exists.
    pub fn has(&self, id: u128) -> (r: bool)
        ensures
            r == (entity_lookup(self@, id) is Some),
    {
        self.position(id).is_some()
    }

    /// Returns the entity instance with the given id.
    pub fn get(&self, id: u128) -> (r: Option<EntityInstance>)
        ensures
            match r {
                Some(e) => entity_lookup(self@, id) == Some(e@),
                None => entity_lookup(self@, id) is None,
            },
    {
        match self.position(id) {
            Some(i) => Some(self.entities[i].duplicate()),
            None => None,
        }
    }

    /// Creates an entity instance with the given id, unless the id is taken.
    pub fn create_with_id(&mut self, ty: &EntityTypeId, id: u128, properties: Vec<(String, Json)>) -> (r: Result<u128, EntityInstanceCreationError>)
        ensures
            match r {
                Ok(x) => {
                    &&& x == id
                    &&& entity_lookup(old(self)@, id) is None
                    &&& final(self)@ == old(self)@.push(EntityInstanceView { ty: ty@, id, properties: property_values_view(properties@) })
                },
                Err(EntityInstanceCreationError::EntityVertexCreationError(EntityVertexCreationError::UuidTaken(x))) => {
                    &&& x == id
                    &&& entity_lookup(old(self)@, id) is Some
                    &&& final(self)@ == old(self)@
                },
            },
    {
        if self.position(id).is_some() {
            return Err(EntityInstanceCreationError::EntityVertexCreationError(EntityVertexCreationError::UuidTaken(id)));
        }
        let instance = EntityInstance { ty: ty.duplicate(), id, properties };
        let ghost iv = instance@;
        let ghost old_view = self@;
        let mut entities = Vec::new();
        std::mem::swap(&mut entities, &mut self.entities);
        entities.push(instance);
        proof {
            assert(entities@.map_values(|e: EntityInstance| e@) =~= old_view.push(iv));
            assert forall|a: int, b: int| 0 <= a < old_view.len() + 1 && 0 <= b < old_view.len() + 1 && a != b implies #[trigger] old_view.push(iv)[a].id != #[trigger] old_view.push(iv)[b].id by {
                if a == old_view.len() && b < old_view.len() {
                    assert(old_view[b].id == old_view.push(iv)[b].id);
                }
                if b == old_view.len() && a < old_view.len() {
                    assert(old_view[a].id == old_view.push(iv)[a].id);
                }
            }
        }
        self.entities = entities;
        Ok(id)
    }

    /// Creates an entity instance with a new random id.
    pub fn create(&mut self, ty: &EntityTypeId, properties: Vec<(String, Json)>) -> (r: Result<u128, EntityInstanceCreationError>)
        ensures
            match r {
                Ok(x) => {
                    &&& entity_lookup(old(self)@, x) is None
                    &&& final(self)@ == old(self)@.push(EntityInstanceView { ty: ty@, id: x, properties: property_values_view(properties@) })
                },
                Err(EntityInstanceCreationError::EntityVertexCreationError(EntityVertexCreationError::UuidTaken(x))) => {
                    &&& entity_lookup(old(self)@, x) is Some
                    &&& final(self)@ == old(self)@
                },
            },
    {
        let id = crate::wrappers::new_random_id();
        self.create_with_id(ty, id, properties)
    }

    /// Creates the given entity instance, unless its id is taken.
    pub fn create_from_instance(&mut self, entity_instance: EntityInstance) -> (r: Result<u128, EntityInstanceCreationError>)
        ensures
            match r {
                Ok(x) => {
                    &&& x == entity_instance@.id
                    &&& entity_lookup(old(self)@, x) is None
                    &&& final(self)@ == old(self)@.push(entity_instance@)
                },
                Err(EntityInstanceCreationError::EntityVertexCreationError(EntityVertexCreationError::UuidTaken(x))) => {
                    &&& x == entity_instance@.id
                    &&& entity_lookup(old(self)@, x) is Some
                    &&& final(self)@ == old(self)@
                },
            },
    {
        self.create_with_id(&entity_instance.ty, entity_instance.id, entity_instance.properties)
    }

    /// Creates the given entity instance unless an entity instance with its
    /// id exists; returns its id either way.
    pub fn create_from_instance_if_not_exist(&mut self, entity_instance: EntityInstance) -> (r: Result<u128, EntityInstanceCreationError>)
        ensures
            r == Ok::<u128, EntityInstanceCreationError>(entity_instance@.id),
            entity_lookup(old(self)@, entity_instance@.id) is Some ==> final(self)@ == old(self)@,
            entity_lookup(old(self)@, entity_instance@.id) is None ==> final(self)@ == old(self)@.push(entity_instance@),
    {
        if self.has(entity_instance.id) {
            Ok(entity_instance.id)
        } else {
            self.create_from_instance(entity_instance)
        }
    }

    /// Puts the properties of the given entity instance into the stored one
    /// with its id; does nothing where there is none.
    pub fn commit(&mut self, entity_instance: EntityInstance)
        ensures
            match entity_lookup(old(self)@, entity_instance@.id) {
                Some(e) => final(self)@ == old(self)@.update(
                    entity_index(old(self)@, entity_instance@.id),
                    EntityInstanceView { properties: entity_instance@.properties, ..e },
                ),
                None => final(self)@ == old(self)@,
            },
    {
        proof {
            use_type_invariant(&*self);
        }
        match self.position(entity_instance.id) {
            Some(i) => {
                let ghost old_view = self@;
                let mut entities = Vec::new();
                std::mem::swap(&mut entities, &mut self.entities);
                let ty = entities[i].ty.duplicate();
                let updated = EntityInstance { ty, id: entity_instance.id, properties: entity_instance.properties };
                let ghost uv = updated@;
                entities.set(i, updated);
                proof {
                    let nv = entities@.map_values(|e: EntityInstance| e@);
                    assert(nv =~= old_view.update(i as int, uv));
                    assert forall|a: int, b: int| 0 <= a < nv.len() && 0 <= b < nv.len() && a != b implies #[trigger] nv[a].id != #[trigger] nv[b].id by {
                        assert(nv[a].id == old_view[a].id);
                        assert(nv[b].id == old_view[b].id);
                    }
                }
                self.entities = entities;
            },
            None => {},
        }
    }

    /// Deletes the entity instance with the given id, where there is one.
    pub fn delete(&mut self, id: u128)
        ensures
            entity_lookup(old(self)@, id) is Some ==> final(self)@ == old(self)@.remove(entity_index(old(self)@, id)),
            entity_lookup(old(self)@, id) is None ==> final(self)@ == old(self)@,
            entity_lookup(final(self)@, id) is None,
    {
        proof {
            use_type_invariant(&*self);
        }
        match self.position(id) {
            Some(i) => {
                let ghost old_view = self@;
                let mut entities = Vec::new();
                std::mem::swap(&mut entities, &mut self.entities);
                entities.remove(i);
                proof {
                    let nv = entities@.map_values(|e: EntityInstance| e@);
                    assert(nv =~= old_view.remove(i as int));
                    assert forall|a: int, b: int| 0 <= a < nv.len() && 0 <= b < nv.len() && a != b implies #[trigger] nv[a].id != #[trigger] nv[b].id by {
                        let x = if a < i { a } else { a + 1 };
                        let y = if b < i { b } else { b + 1 };
                        assert(nv[a] == old_view[x]);
                        assert(nv[b] == old_view[y]);
                    }
                    if exists|k: int| 0 <= k < nv.len() && #[trigger] nv[k].id == id {
                        let k = choose|k: int| 0 <= k < nv.len() && #[trigger] nv[k].id == id;
                        let x = if k < i { k } else { k + 1 };
                        assert(nv[k] == old_view[x]);
                    }
                }
                self.entities = entities;
            },
            None => {},
        }
    }

    /// Creates an entity instance that was read from a file, unless an
    /// entity instance with its id exists.
    pub fn import(&mut self, entity_instance: EntityInstance) -> (r: Result<u128, EntityInstanceImportError>)
        ensures
            match r {
                Ok(x) => {
                    &&& x == entity_instance@.id
                    &&& entity_lookup(old(self)@, x) is None
                    &&& final(self)@ == old(self)@.push(entity_instance@)
                },
                Err(EntityInstanceImportError::EntityAlreadyExists(x)) => {
                    &&& x == entity_instance@.id
                    &&& entity_lookup(old(self)@, x) is Some
                    &&& final(self)@ == old(self)@
                },
                Err(EntityInstanceImportError::EntityVertexCreationError(_)) => false,
            },
    {
        if self.has(entity_instance.id) {
            return Err(EntityInstanceImportError::EntityAlreadyExists(entity_instance.id));
        }
        match self.create_from_instance(entity_instance) {
            Ok(id) => Ok(id),
            Err(EntityInstanceCreationError::EntityVertexCreationError(e)) => Err(EntityInstanceImportError::EntityVertexCreationError(e)),
        }
    }
}

} // verus!
