use vstd::prelude::*;

use crate::components::{component_lookup, ComponentManager};
use crate::entity_type::ComponentView;
use crate::events::{RelationInstanceId, RelationInstanceIdView};
use crate::instances::{
    contains_key, copy_property_values, entity_lookup, property_values_view,
    EntityInstanceManagerImpl,
};
use crate::json::{Json, JsonView};
use crate::model::{default_value_view, properties_view, PropertyType, PropertyTypeView};
use crate::relation_type::RelationType;
use crate::errors::ValidationError;
use crate::types::{type_definition_view, RelationTypeId, RelationTypeKind, TypeKind};
use crate::wrappers::{identifier_result, new_identifier};

verus! {

/// The model of a relation instance.
pub struct RelationInstanceView {
    pub key: RelationInstanceIdView,
    pub properties: Seq<(Seq<char>, JsonView)>,
}

/// A relation instance: an instance of a relation type from one entity
/// instance to another, with the values of its properties.
#[derive(Debug)]
pub struct RelationInstance {
    pub outbound_id: u128,
    pub ty: RelationTypeId,
    pub inbound_id: u128,
    pub properties: Vec<(String, Json)>,
}

impl View for RelationInstance {
    type V = RelationInstanceView;

    open spec fn view(&self) -> RelationInstanceView {
        RelationInstanceView {
            key: RelationInstanceIdView { outbound_id: self.outbound_id, ty: self.ty@, inbound_id: self.inbound_id },
            properties: property_values_view(self.properties@),
        }
    }
}

impl RelationInstance {
    /// Returns the key of the relation instance.
    pub fn get_key(&self) -> (r: RelationInstanceId)
        ensures
            r@ == self@.key,
    {
        RelationInstanceId { outbound_id: self.outbound_id, ty: self.ty.duplicate(), inbound_id: self.inbound_id }
    }

    /// Returns a copy of the relation instance.
    pub fn duplicate(&self) -> (r: RelationInstance)
        ensures
            r@ == self@,
    {
        RelationInstance {
            outbound_id: self.outbound_id,
            ty: self.ty.duplicate(),
            inbound_id: self.inbound_id,
            properties: copy_property_values(&self.properties),
        }
    }
}

/// Returns true when both keys are the same.
pub fn same_key(a: &RelationInstanceId, b: &RelationInstanceId) -> (r: bool)
    ensures
        r == (a@ == b@),
{
    a.outbound_id == b.outbound_id && a.ty.same(&b.ty) && a.inbound_id == b.inbound_id
}

/// The error when a relation instance cannot be created.
#[derive(Debug)]
pub enum RelationInstanceCreationError {
    EdgeAlreadyExists(RelationInstanceId),
    MissingOutboundEntityInstance(u128),
    MissingInboundEntityInstance(u128),
    /// The edge cannot be made in the graph database: the type definition of
    /// the relation type is not a valid identifier there.
    RelationEdgeCreationError(ValidationError),
}

/// What the graph database makes of the type definition of the relation
/// type of a key: the identifier of the edge's type, or why there is none.
pub open spec fn edge_type_check(key: RelationInstanceIdView) -> Result<Seq<char>, ValidationError> {
    identifier_result(type_definition_view(RelationTypeKind::prefix_spec(), key.ty))
}

/// Checks the type definition of the relation type of a key as an
/// identifier of the graph database.
fn check_edge_type(key: &RelationInstanceId) -> (r: Result<(), ValidationError>)
    ensures
        match edge_type_check(key@) {
            Ok(_) => r is Ok,
            Err(e) => r == Err::<(), ValidationError>(e),
        },
{
    let definition = key.ty.type_definition();
    match new_identifier(&definition) {
        Ok(_) => Ok(()),
        Err(e) => Err(e),
    }
}

/// True when one of the property values has the given name.
pub open spec fn has_key(props: Seq<(Seq<char>, JsonView)>, name: Seq<char>) -> bool {
    exists|k: int| 0 <= k < props.len() && #[trigger] props[k].0 == name
}

/// The property values with, for each property type whose name is not taken
/// yet, the default value of its data type added.
pub open spec fn with_defaults(props: Seq<(Seq<char>, JsonView)>, defs: Seq<PropertyTypeView>) -> Seq<(Seq<char>, JsonView)>
    decreases defs.len(),
{
    if defs.len() == 0 {
        props
    } else {
        let p = with_defaults(props, defs.drop_last());
        if has_key(p, defs.last().name) {
            p
        } else {
            p.push((defs.last().name, default_value_view(defs.last().data_type)))
        }
    }
}

/// The property values of a relation instance completed with the defaults of
/// the properties of its relation type, then of those of each registered
/// component of the relation type.
pub open spec fn completed_properties(
    props: Seq<(Seq<char>, JsonView)>,
    type_properties: Seq<PropertyTypeView>,
    components: Seq<crate::types::TypeIdView>,
    registry: Seq<ComponentView>,
) -> Seq<(Seq<char>, JsonView)>
    decreases components.len(),
{
    if components.len() == 0 {
        with_defaults(props, type_properties)
    } else {
        let p = completed_properties(props, type_properties, components.drop_last(), registry);
        match component_lookup(registry, components.last()) {
            Some(c) => with_defaults(p, c.properties),
            None => p,
        }
    }
}

/// Adds, for each property type whose name is not taken yet, the default
/// value of its data type.
fn add_defaults(props: &mut Vec<(String, Json)>, defs: &Vec<PropertyType>)
    ensures
        property_values_view(final(props)@) == with_defaults(property_values_view(old(props)@), properties_view(defs@)),
{
    let ghost p0 = property_values_view(props@);
    let ghost d = properties_view(defs@);
    let mut i: usize = 0;
    assert(d.take(0) =~= Seq::<PropertyTypeView>::empty());
    while i < defs.len()
        invariant
            i <= defs.len(),
            p0 == property_values_view(old(props)@),
            d == properties_view(defs@),
            property_values_view(props@) == with_defaults(p0, d.take(i as int)),
        decreases defs.len() - i,
    {
        proof {
            assert(d.take(i + 1).drop_last() =~= d.take(i as int));
            assert(d.take(i + 1).last() == d[i as int]);
        }
        if !contains_key(props, &defs[i].name) {
            let ghost before = property_values_view(props@);
            let value = defs[i].data_type.default_value();
            props.push((defs[i].name.clone(), value));
            assert(property_values_view(props@) =~= before.push((d[i as int].name, default_value_view(d[i as int].data_type))));
        }
        i = i + 1;
    }
    assert(d.take(defs.len() as int) =~= d);
}

/// The error when a reactive relation instance cannot be created.
#[derive(Debug)]
pub enum ReactiveRelationCreationError {
    UnknownRelationType(RelationTypeId),
    RelationInstanceCreationError(RelationInstanceCreationError),
}

/// The error when a relation instance cannot be imported.
#[derive(Debug)]
pub enum RelationInstanceImportError {
    RelationAlreadyExists(RelationInstanceId),
    /// The edge cannot be made in the graph database.
    RelationEdgeCreation(ValidationError),
}

/// The error of the plugin interface when a relation instance cannot be
/// created.
#[derive(Debug, PartialEq, Eq, Structural)]
pub enum PluginRelationInstanceCreationError {
    Failed,
}

/// The relation instance with the given key, where there is one.
pub open spec fn relation_lookup(s: Seq<RelationInstanceView>, key: RelationInstanceIdView) -> Option<RelationInstanceView> {
    if exists|i: int| 0 <= i < s.len() && #[trigger] s[i].key == key {
        Some(s[relation_index(s, key)])
    } else {
        None
    }
}

/// The position of the relation instance with the given key.
pub open spec fn relation_index(s: Seq<RelationInstanceView>, key: RelationInstanceIdView) -> int {
    choose|i: int| 0 <= i < s.len() && #[trigger] s[i].key == key
}

/// True when no two relation instances share a key.
pub open spec fn unique_keys(s: Seq<RelationInstanceView>) -> bool {
    forall|i: int, j: int| 0 <= i < s.len() && 0 <= j < s.len() && i != j ==> #[trigger] s[i].key != #[trigger] s[j].key
}

/// The relation instances of the graph.
pub struct RelationInstanceManagerImpl {
    relations: Vec<RelationInstance>,
}

impl View for RelationInstanceManagerImpl {
    type V = Seq<RelationInstanceView>;

    closed spec fn view(&self) -> Seq<RelationInstanceView> {
        self.relations@.map_values(|r: RelationInstance| r@)
    }
}

impl RelationInstanceManagerImpl {
    #[verifier::type_invariant]
    closed spec fn inv(&self) -> bool {
        unique_keys(self@)
    }

    /// Creates an empty store of relation instances.
    pub fn new() -> (r: RelationInstanceManagerImpl)
        ensures
            r@ == Seq::<RelationInstanceView>::empty(),
    {
        let r = RelationInstanceManagerImpl { relations: Vec::new() };
        assert(r@ =~= Seq::<RelationInstanceView>::empty());
        r
    }

    /// Returns the position of the relation instance with the given key.
    fn position(&self, key: &RelationInstanceId) -> (r: Option<usize>)
        ensures
            unique_keys(self@),
            match r {
                Some(i) => i < self@.len() && self@[i as int].key == key@ && relation_index(self@, key@) == i
                    && relation_lookup(self@, key@) == Some(self@[i as int]),
                None => relation_lookup(self@, key@) is None,
            },
    {
        proof {
            use_type_invariant(self);
        }
        let mut i: usize = 0;
        while i < self.relations.len()
            invariant
                i <= self.relations.len(),
                self@.len() == self.relations.len(),
                forall|k: int| 0 <= k < i ==> self@[k].key != key@,
                unique_keys(self@),
            decreases self.relations.len() - i,
        {
            let k = self.relations[i].get_key();
            if same_key(&k, key) {
                assert(self@[i as int].key == key@);
                return Some(i);
            }
            i = i + 1;
        }
        None
    }

    /// Stores a relation instance whose key is not taken.
    fn append(&mut self, relation: RelationInstance)
        requires
            relation_lookup(old(self)@, relation@.key) is None,
        ensures
            final(self)@ == old(self)@.push(relation@),
    {
        proof {
            use_type_invariant(&*self);
        }
        let ghost rv = relation@;
        let ghost old_view = self@;
        let mut relations = Vec::new();
        std::mem::swap(&mut relations, &mut self.relations);
        relations.push(relation);
        proof {
            assert(relations@.map_values(|r: RelationInstance| r@) =~= old_view.push(rv));
            assert forall|a: int, b: int| 0 <= a < old_view.len() + 1 && 0 <= b < old_view.len() + 1 && a != b implies #[trigger] old_view.push(rv)[a].key != #[trigger] old_view.push(rv)[b].key by {
                if a == old_view.len() && b < old_view.len() {
                    assert(old_view[b].key == old_view.push(rv)[b].key);
                }
                if b == old_view.len() && a < old_view.len() {
                    assert(old_view[a].key == old_view.push(rv)[a].key);
                }
            }
        }
        self.relations = relations;
    }

    /// Returns true when a relation instance with the given key exists.
    pub fn has(&self, key: &RelationInstanceId) -> (r: bool)
        ensures
            r == (relation_lookup(self@, key@) is Some),
    {
        self.position(key).is_some()
    }

    /// Returns the relation instance with the given key.
    pub fn get(&self, key: &RelationInstanceId) -> (r: Option<RelationInstance>)
        ensures
            match r {
                Some(x) => relation_lookup(self@, key@) == Some(x@),
                None => relation_lookup(self@, key@) is None,
            },
    {
        match self.position(key) {
            Some(i) => Some(self.relations[i].duplicate()),
            None => None,
        }
    }

    /// Returns the relation instances that start at the given entity instance.
    pub fn get_by_outbound_entity(&self, outbound_entity_id: u128) -> (r: Vec<RelationInstance>)
        ensures
            r@.map_values(|x: RelationInstance| x@) == self@.filter(|x: RelationInstanceView| x.key.outbound_id == outbound_entity_id),
    {
        let ghost pred = |x: RelationInstanceView| x.key.outbound_id == outbound_entity_id;
        let mut out: Vec<RelationInstance> = Vec::new();
        let mut i: usize = 0;
        assert(self@.take(0).filter(pred) =~= Seq::<RelationInstanceView>::empty()) by {
            reveal(Seq::filter);
        }
        assert(out@.map_values(|x: RelationInstance| x@) =~= Seq::<RelationInstanceView>::empty());
        while i < self.relations.len()
            invariant
                i <= self.relations.len(),
                self@.len() == self.relations.len(),
                pred == (|x: RelationInstanceView| x.key.outbound_id == outbound_entity_id),
                out@.map_values(|x: RelationInstance| x@) == self@.take(i as int).filter(pred),
            decreases self.relations.len() - i,
        {
            let ghost before = out@.map_values(|x: RelationInstance| x@);
            proof {
                reveal(Seq::filter);
                assert(self@.take(i + 1).drop_last() =~= self@.take(i as int));
                assert(self@.take(i + 1).last() == self@[i as int]);
            }
            if self.relations[i].outbound_id == outbound_entity_id {
                out.push(self.relations[i].duplicate());
                assert(out@.map_values(|x: RelationInstance| x@) =~= before.push(self@[i as int]));
            }
            i = i + 1;
        }
        assert(self@.take(self.relations.len() as int) =~= self@);
        out
    }

    /// Looks the relation instances up by the given entity instance id. The
    /// lookup goes by the outbound entity instance, the one that they start
    /// at, not by the inbound one: it gives what `get_by_outbound_entity`
    /// gives for the same id.
    pub fn get_by_inbound_entity(&self, inbound_entity_id: u128) -> (r: Vec<RelationInstance>)
        ensures
            r@.map_values(|x: RelationInstance| x@) == self@.filter(|x: RelationInstanceView| x.key.outbound_id == inbound_entity_id),
    {
        self.get_by_outbound_entity(inbound_entity_id)
    }

    /// Creates a relation instance between two existing entity instances,
    /// unless its key is taken.
    pub fn create(
        &mut self,
        entities: &EntityInstanceManagerImpl,
        edge_key: &RelationInstanceId,
        properties: Vec<(String, Json)>,
    ) -> (r: Result<RelationInstanceId, RelationInstanceCreationError>)
        ensures
            match r {
                Ok(k) => {
                    &&& k@ == edge_key@
                    &&& relation_lookup(old(self)@, edge_key@) is None
                    &&& entity_lookup(entities@, edge_key@.outbound_id) is Some
                    &&& entity_lookup(entities@, edge_key@.inbound_id) is Some
                    &&& edge_type_check(edge_key@) is Ok
                    &&& final(self)@ == old(self)@.push(RelationInstanceView { key: edge_key@, properties: property_values_view(properties@) })
                },
                Err(RelationInstanceCreationError::EdgeAlreadyExists(k)) => {
                    &&& k@ == edge_key@
                    &&& relation_lookup(old(self)@, edge_key@) is Some
                    &&& final(self)@ == old(self)@
                },
                Err(RelationInstanceCreationError::MissingOutboundEntityInstance(id)) => {
                    &&& id == edge_key@.outbound_id
                    &&& relation_lookup(old(self)@, edge_key@) is None
                    &&& entity_lookup(entities@, edge_key@.outbound_id) is None
                    &&& final(self)@ == old(self)@
                },
                Err(RelationInstanceCreationError::MissingInboundEntityInstance(id)) => {
                    &&& id == edge_key@.inbound_id
                    &&& relation_lookup(old(self)@, edge_key@) is None
                    &&& entity_lookup(entities@, edge_key@.outbound_id) is Some
                    &&& entity_lookup(entities@, edge_key@.inbound_id) is None
                    &&& final(self)@ == old(self)@
                },
                Err(RelationInstanceCreationError::RelationEdgeCreationError(e)) => {
                    &&& relation_lookup(old(self)@, edge_key@) is None
                    &&& entity_lookup(entities@, edge_key@.outbound_id) is Some
                    &&& entity_lookup(entities@, edge_key@.inbound_id) is Some
                    &&& edge_type_check(edge_key@) == Err::<Seq<char>, ValidationError>(e)
                    &&& final(self)@ == old(self)@
                },
            },
    {
        if self.has(edge_key) {
            return Err(RelationInstanceCreationError::EdgeAlreadyExists(edge_key.duplicate()));
        }
        if !entities.has(edge_key.outbound_id) {
            return Err(RelationInstanceCreationError::MissingOutboundEntityInstance(edge_key.outbound_id));
        }
        if !entities.has(edge_key.inbound_id) {
            return Err(RelationInstanceCreationError::MissingInboundEntityInstance(edge_key.inbound_id));
        }
        match check_edge_type(edge_key) {
            Ok(_) => {},
            Err(e) => {
                return Err(RelationInstanceCreationError::RelationEdgeCreationError(e));
            },
        }
        let relation = RelationInstance {
            outbound_id: edge_key.outbound_id,
            ty: edge_key.ty.duplicate(),
            inbound_id: edge_key.inbound_id,
            properties,
        };
        self.append(relation);
        Ok(edge_key.duplicate())
    }

    /// Creates the given relation instance between two existing entity
    /// instances, unless its key is taken.
    pub fn create_from_instance(
        &mut self,
        entities: &EntityInstanceManagerImpl,
        relation_instance: RelationInstance,
    ) -> (r: Result<RelationInstanceId, RelationInstanceCreationError>)
        ensures
            match r {
                Ok(k) => {
                    &&& k@ == relation_instance@.key
                    &&& relation_lookup(old(self)@, relation_instance@.key) is None
                    &&& entity_lookup(entities@, relation_instance@.key.outbound_id) is Some
                    &&& entity_lookup(entities@, relation_instance@.key.inbound_id) is Some
                    &&& edge_type_check(relation_instance@.key) is Ok
                    &&& final(self)@ == old(self)@.push(relation_instance@)
                },
                Err(RelationInstanceCreationError::EdgeAlreadyExists(k)) => {
                    &&& k@ == relation_instance@.key
                    &&& relation_lookup(old(self)@, relation_instance@.key) is Some
                    &&& final(self)@ == old(self)@
                },
                Err(RelationInstanceCreationError::MissingOutboundEntityInstance(id)) => {
                    &&& id == relation_instance@.key.outbound_id
                    &&& relation_lookup(old(self)@, relation_instance@.key) is None
                    &&& entity_lookup(entities@, relation_instance@.key.outbound_id) is None
                    &&& final(self)@ == old(self)@
                },
                Err(RelationInstanceCreationError::MissingInboundEntityInstance(id)) => {
                    &&& id == relation_instance@.key.inbound_id
                    &&& relation_lookup(old(self)@, relation_instance@.key) is None
                    &&& entity_lookup(entities@, relation_instance@.key.outbound_id) is Some
                    &&& entity_lookup(entities@, relation_instance@.key.inbound_id) is None
                    &&& final(self)@ == old(self)@
                },
                Err(RelationInstanceCreationError::RelationEdgeCreationError(e)) => {
                    &&& relation_lookup(old(self)@, relation_instance@.key) is None
                    &&& entity_lookup(entities@, relation_instance@.key.outbound_id) is Some
                    &&& entity_lookup(entities@, relation_instance@.key.inbound_id) is Some
                    &&& edge_type_check(relation_instance@.key) == Err::<Seq<char>, ValidationError>(e)
                    &&& final(self)@ == old(self)@
                },
            },
    {
        let key = relation_instance.get_key();
        self.create(entities, &key, relation_instance.properties)
    }

    /// Creates the given relation instance unless one with its key exists;
    /// returns its key either way.
    pub fn create_from_instance_if_not_exist(
        &mut self,
        entities: &EntityInstanceManagerImpl,
        relation_instance: RelationInstance,
    ) -> (r: Result<RelationInstanceId, RelationInstanceCreationError>)
        ensures
            relation_lookup(old(self)@, relation_instance@.key) is Some ==> {
                &&& r matches Ok(k) && k@ == relation_instance@.key
                &&& final(self)@ == old(self)@
            },
            relation_lookup(old(self)@, relation_instance@.key) is None ==> match r {
                Ok(k) => {
                    &&& k@ == relation_instance@.key
                    &&& entity_lookup(entities@, relation_instance@.key.outbound_id) is Some
                    &&& entity_lookup(entities@, relation_instance@.key.inbound_id) is Some
                    &&& edge_type_check(relation_instance@.key) is Ok
                    &&& final(self)@ == old(self)@.push(relation_instance@)
                },
                Err(RelationInstanceCreationError::MissingOutboundEntityInstance(id)) => {
                    &&& id == relation_instance@.key.outbound_id
                    &&& entity_lookup(entities@, id) is None
                    &&& final(self)@ == old(self)@
                },
                Err(RelationInstanceCreationError::MissingInboundEntityInstance(id)) => {
                    &&& id == relation_instance@.key.inbound_id
                    &&& entity_lookup(entities@, relation_instance@.key.outbound_id) is Some
                    &&& entity_lookup(entities@, id) is None
                    &&& final(self)@ == old(self)@
                },
                Err(RelationInstanceCreationError::RelationEdgeCreationError(e)) => {
                    &&& entity_lookup(entities@, relation_instance@.key.outbound_id) is Some
                    &&& entity_lookup(entities@, relation_instance@.key.inbound_id) is Some
                    &&& edge_type_check(relation_instance@.key) == Err::<Seq<char>, ValidationError>(e)
                    &&& final(self)@ == old(self)@
                },
                Err(RelationInstanceCreationError::EdgeAlreadyExists(_)) => false,
            },
    {
        let key = relation_instance.get_key();
        if self.has(&key) {
            Ok(key)
        } else {
            self.create_from_instance(entities, relation_instance)
        }
    }

    /// Puts the properties of the given relation instance into the stored one
    /// with its key; does nothing where there is none.
    pub fn commit(&mut self, relation_instance: RelationInstance)
        ensures
            match relation_lookup(old(self)@, relation_instance@.key) {
                Some(x) => final(self)@ == old(self)@.update(relation_index(old(self)@, relation_instance@.key), relation_instance@),
                None => final(self)@ == old(self)@,
            },
    {
        proof {
            use_type_invariant(&*self);
        }
        let key = relation_instance.get_key();
        match self.position(&key) {
            Some(i) => {
                let ghost old_view = self@;
                let ghost rv = relation_instance@;
                let mut relations = Vec::new();
                std::mem::swap(&mut relations, &mut self.relations);
                relations.set(i, relation_instance);
                proof {
                    let nv = relations@.map_values(|r: RelationInstance| r@);
                    assert(nv =~= old_view.update(i as int, rv));
                    assert forall|a: int, b: int| 0 <= a < nv.len() && 0 <= b < nv.len() && a != b implies #[trigger] nv[a].key != #[trigger] nv[b].key by {
                        assert(nv[a].key == old_view[a].key);
                        assert(nv[b].key == old_view[b].key);
                    }
                }
                self.relations = relations;
            },
            None => {},
        }
    }

    /// Deletes the relation instance with the given key; returns true when
    /// there was one.
    pub fn delete(&mut self, edge_key: &RelationInstanceId) -> (r: bool)
        ensures
            r == (relation_lookup(old(self)@, edge_key@) is Some),
            r ==> final(self)@ == old(self)@.remove(relation_index(old(self)@, edge_key@)),
            !r ==> final(self)@ == old(self)@,
            relation_lookup(final(self)@, edge_key@) is None,
    {
        proof {
            use_type_invariant(&*self);
        }
        match self.position(edge_key) {
            Some(i) => {
                let ghost old_view = self@;
                let mut relations = Vec::new();
                std::mem::swap(&mut relations, &mut self.relations);
                relations.remove(i);
                proof {
                    let nv = relations@.map_values(|r: RelationInstance| r@);
                    assert(nv =~= old_view.remove(i as int));
                    assert forall|a: int, b: int| 0 <= a < nv.len() && 0 <= b < nv.len() && a != b implies #[trigger] nv[a].key != #[trigger] nv[b].key by {
                        let x = if a < i { a } else { a + 1 };
                        let y = if b < i { b } else { b + 1 };
                        assert(nv[a] == old_view[x]);
                        assert(nv[b] == old_view[y]);
                    }
                    if exists|k: int| 0 <= k < nv.len() && #[trigger] nv[k].key == edge_key@ {
                        let k = choose|k: int| 0 <= k < nv.len() && #[trigger] nv[k].key == edge_key@;
                        let x = if k < i { k } else { k + 1 };
                        assert(nv[k] == old_view[x]);
                    }
                }
                self.relations = relations;
                true
            },
            None => false,
        }
    }

    /// Stores a relation instance that was read from a file, unless one with
    /// its key exists; the entity instances at its ends are not checked.
    pub fn import(&mut self, relation_instance: RelationInstance) -> (r: Result<RelationInstance, RelationInstanceImportError>)
        ensures
            match r {
                Ok(x) => {
                    &&& x@ == relation_instance@
                    &&& relation_lookup(old(self)@, relation_instance@.key) is None
                    &&& edge_type_check(relation_instance@.key) is Ok
                    &&& final(self)@ == old(self)@.push(relation_instance@)
                },
                Err(RelationInstanceImportError::RelationAlreadyExists(k)) => {
                    &&& k@ == relation_instance@.key
                    &&& relation_lookup(old(self)@, relation_instance@.key) is Some
                    &&& final(self)@ == old(self)@
                },
                Err(RelationInstanceImportError::RelationEdgeCreation(e)) => {
                    &&& relation_lookup(old(self)@, relation_instance@.key) is None
                    &&& edge_type_check(relation_instance@.key) == Err::<Seq<char>, ValidationError>(e)
                    &&& final(self)@ == old(self)@
                },
            },
    {
        let key = relation_instance.get_key();
        if self.has(&key) {
            return Err(RelationInstanceImportError::RelationAlreadyExists(key));
        }
        match check_edge_type(&key) {
            Ok(_) => {},
            Err(e) => {
                return Err(RelationInstanceImportError::RelationEdgeCreation(e));
            },
        }
        let copy = relation_instance.duplicate();
        self.append(relation_instance);
        Ok(copy)
    }

    /// Creates a relation instance of the given relation type, which the
    /// caller looked up by the relation type id of the instance. Where a
    /// relation instance with its key exists, that one is returned. Otherwise
    /// the instance gets the default value of each property of the relation
    /// type, and then of each property of its registered components, whose
    /// name it has no value for yet, and is created.
    pub fn create_typed(
        &mut self,
        entities: &EntityInstanceManagerImpl,
        components: &ComponentManager,
        relation_type: Option<&RelationType>,
        relation_instance: RelationInstance,
    ) -> (r: Result<RelationInstance, ReactiveRelationCreationError>)
        ensures
            match relation_type {
                None => {
                    &&& r matches Err(ReactiveRelationCreationError::UnknownRelationType(t)) && t@ == relation_instance@.key.ty
                    &&& final(self)@ == old(self)@
                },
                Some(rt) => match relation_lookup(old(self)@, relation_instance@.key) {
                    Some(existing) => {
                        &&& r matches Ok(x) && x@ == existing
                        &&& final(self)@ == old(self)@
                    },
                    None => {
                        let completed = RelationInstanceView {
                            key: relation_instance@.key,
                            properties: completed_properties(relation_instance@.properties, rt@.properties, rt@.components, components@),
                        };
                        match r {
                            Ok(x) => {
                                &&& x@ == completed
                                &&& entity_lookup(entities@, completed.key.outbound_id) is Some
                                &&& entity_lookup(entities@, completed.key.inbound_id) is Some
                                &&& edge_type_check(completed.key) is Ok
                                &&& final(self)@ == old(self)@.push(completed)
                            },
                            Err(ReactiveRelationCreationError::RelationInstanceCreationError(RelationInstanceCreationError::MissingOutboundEntityInstance(id))) => {
                                &&& id == completed.key.outbound_id
                                &&& entity_lookup(entities@, id) is None
                                &&& final(self)@ == old(self)@
                            },
                            Err(ReactiveRelationCreationError::RelationInstanceCreationError(RelationInstanceCreationError::MissingInboundEntityInstance(id))) => {
                                &&& id == completed.key.inbound_id
                                &&& entity_lookup(entities@, completed.key.outbound_id) is Some
                                &&& entity_lookup(entities@, id) is None
                                &&& final(self)@ == old(self)@
                            },
                            Err(ReactiveRelationCreationError::RelationInstanceCreationError(RelationInstanceCreationError::RelationEdgeCreationError(e))) => {
                                &&& entity_lookup(entities@, completed.key.outbound_id) is Some
                                &&& entity_lookup(entities@, completed.key.inbound_id) is Some
                                &&& edge_type_check(completed.key) == Err::<Seq<char>, ValidationError>(e)
                                &&& final(self)@ == old(self)@
                            },
                            Err(_) => false,
                        }
                    },
                },
            },
    {
        match relation_type {
            None => Err(ReactiveRelationCreationError::UnknownRelationType(relation_instance.ty.duplicate())),
            Some(rt) => {
                let key = relation_instance.get_key();
                match self.get(&key) {
                    Some(existing) => {
                        return Ok(existing);
                    },
                    None => {},
                }
                let mut relation_instance = relation_instance;
                let mut props = copy_property_values(&relation_instance.properties);
                add_defaults(&mut props, &rt.properties);
                let ghost cv = crate::model::ids_view(rt.components@);
                let ghost p0 = relation_instance@.properties;
                let mut i: usize = 0;
                assert(cv.take(0) =~= Seq::<crate::types::TypeIdView>::empty());
                while i < rt.components.len()
                    invariant
                        i <= rt.components.len(),
                        cv == crate::model::ids_view(rt.components@),
                        property_values_view(props@) == completed_properties(p0, rt@.properties, cv.take(i as int), components@),
                    decreases rt.components.len() - i,
                {
                    proof {
                        assert(cv.take(i + 1).drop_last() =~= cv.take(i as int));
                        assert(cv.take(i + 1).last() == cv[i as int]);
                    }
                    match components.get(&rt.components[i]) {
                        Some(component) => {
                            add_defaults(&mut props, component.properties());
                        },
                        None => {},
                    }
                    i = i + 1;
                }
                assert(cv.take(rt.components.len() as int) =~= cv);
                relation_instance.properties = props;
                let copy = relation_instance.duplicate();
                match self.create_from_instance(entities, relation_instance) {
                    Ok(_) => Ok(copy),
                    Err(e) => Err(ReactiveRelationCreationError::RelationInstanceCreationError(e)),
                }
            },
        }
    }

    /// Creates a relation instance of the given relation type, which the
    /// caller found for the type of the instance. The instance gets the
    /// default value of each property of the relation type whose name it has
    /// no value for yet, and is created. Any failure, a missing relation type
    /// among them, is reported as `Failed`.
    pub fn create_with_type_defaults(
        &mut self,
        entities: &EntityInstanceManagerImpl,
        relation_type: Option<&RelationType>,
        relation_instance: RelationInstance,
    ) -> (r: Result<RelationInstance, PluginRelationInstanceCreationError>)
        ensures
            match relation_type {
                None => r is Err && final(self)@ == old(self)@,
                Some(rt) => {
                    let completed = RelationInstanceView {
                        key: relation_instance@.key,
                        properties: with_defaults(relation_instance@.properties, rt@.properties),
                    };
                    let possible = relation_lookup(old(self)@, completed.key) is None
                        && entity_lookup(entities@, completed.key.outbound_id) is Some
                        && entity_lookup(entities@, completed.key.inbound_id) is Some
                        && edge_type_check(completed.key) is Ok;
                    &&& possible ==> (r matches Ok(x) && x@ == completed && final(self)@ == old(self)@.push(completed))
                    &&& !possible ==> (r is Err && final(self)@ == old(self)@)
                },
            },
    {
        match relation_type {
            None => Err(PluginRelationInstanceCreationError::Failed),
            Some(rt) => {
                let mut relation_instance = relation_instance;
                let mut props = copy_property_values(&relation_instance.properties);
                add_defaults(&mut props, &rt.properties);
                relation_instance.properties = props;
                let copy = relation_instance.duplicate();
                match self.create_from_instance(entities, relation_instance) {
                    Ok(_) => Ok(copy),
                    Err(_) => Err(PluginRelationInstanceCreationError::Failed),
                }
            },
        }
    }
}

} // verus!
