use vstd::prelude::*;

use crate::types::{ComponentTypeId, EntityTypeId, ExtensionTypeId, FlowTypeId, RelationTypeId, TypeIdView};

verus! {

/// The id of a relation instance: the entity instance it starts at, its
/// relation type and the entity instance it ends at.
#[derive(Debug)]
pub struct RelationInstanceId {
    pub outbound_id: u128,
    pub ty: RelationTypeId,
    pub inbound_id: u128,
}

/// The model of the id of a relation instance.
pub struct RelationInstanceIdView {
    pub outbound_id: u128,
    pub ty: TypeIdView,
    pub inbound_id: u128,
}

impl View for RelationInstanceId {
    type V = RelationInstanceIdView;

    open spec fn view(&self) -> RelationInstanceIdView {
        RelationInstanceIdView { outbound_id: self.outbound_id, ty: self.ty@, inbound_id: self.inbound_id }
    }
}

impl RelationInstanceId {
    /// Returns a copy of the id.
    pub fn duplicate(&self) -> (r: RelationInstanceId)
        ensures
            r@ == self@,
    {
        RelationInstanceId { outbound_id: self.outbound_id, ty: self.ty.duplicate(), inbound_id: self.inbound_id }
    }
}

/// The kinds of the events of the system.
#[derive(Debug, Clone, Copy, PartialEq, Eq, Hash, Structural)]
pub enum SystemEventTypes {
    ComponentCreated,
    ComponentPropertyAdded,
    ComponentPropertyRenamed,
    ComponentPropertyUpdated,
    ComponentPropertyRemoved,
    ComponentExtensionAdded,
    ComponentExtensionRenamed,
    ComponentExtensionUpdated,
    ComponentExtensionRemoved,
    ComponentDeleted,
    EntityTypeCreated,
    EntityTypeComponentAdded,
    EntityTypeComponentRenamed,
    EntityTypeComponentUpdated,
    EntityTypeComponentRemoved,
    EntityTypePropertyAdded,
    EntityTypePropertyRenamed,
    EntityTypePropertyUpdated,
    EntityTypePropertyRemoved,
    EntityTypeExtensionAdded,
    EntityTypeExtensionRenamed,
    EntityTypeExtensionUpdated,
    EntityTypeExtensionRemoved,
    EntityTypeDeleted,
    RelationTypeCreated,
    RelationTypeComponentAdded,
    RelationTypeComponentRenamed,
    RelationTypeComponentUpdated,
    RelationTypeComponentRemoved,
    RelationTypePropertyAdded,
    RelationTypePropertyRenamed,
    RelationTypePropertyUpdated,
    RelationTypePropertyRemoved,
    RelationTypeExtensionAdded,
    RelationTypeExtensionRenamed,
    RelationTypeExtensionUpdated,
    RelationTypeExtensionRemoved,
    RelationTypeDeleted,
    FlowTypeCreated,
    FlowTypeUpdated,
    FlowTypeDeleted,
    /// The type system has changed
    TypeSystemChanged,
    EntityInstanceCreated,
    EntityInstanceDeleted,
    RelationInstanceCreated,
    RelationInstanceDeleted,
    FlowInstanceCreated,
    FlowInstanceDeleted,
}

/// An event of the system: a change of the type system or of the instances.
/// Entity and flow instances are named by their ids.
#[derive(Debug)]
pub enum SystemEvent {
    ComponentCreated(ComponentTypeId),
    ComponentPropertyAdded(ComponentTypeId, String),
    ComponentPropertyRenamed(ComponentTypeId, String, String),
    ComponentPropertyUpdated(ComponentTypeId, String),
    ComponentPropertyRemoved(ComponentTypeId, String),
    ComponentExtensionAdded(ComponentTypeId, ExtensionTypeId),
    ComponentExtensionRenamed(ComponentTypeId, ExtensionTypeId, ExtensionTypeId),
    ComponentExtensionUpdated(ComponentTypeId, ExtensionTypeId),
    ComponentExtensionRemoved(ComponentTypeId, ExtensionTypeId),
    ComponentDeleted(ComponentTypeId),
    EntityTypeCreated(EntityTypeId),
    EntityTypeComponentAdded(EntityTypeId, ComponentTypeId),
    EntityTypeComponentRenamed(EntityTypeId, ComponentTypeId, ComponentTypeId),
    EntityTypeComponentUpdated(EntityTypeId, ComponentTypeId),
    EntityTypeComponentRemoved(EntityTypeId, ComponentTypeId),
    EntityTypePropertyAdded(EntityTypeId, String),
    EntityTypePropertyRenamed(EntityTypeId, String, String),
    EntityTypePropertyUpdated(EntityTypeId, String),
    EntityTypePropertyRemoved(EntityTypeId, String),
    EntityTypeExtensionAdded(EntityTypeId, ExtensionTypeId),
    EntityTypeExtensionRenamed(EntityTypeId, ExtensionTypeId, ExtensionTypeId),
    EntityTypeExtensionUpdated(EntityTypeId, ExtensionTypeId),
    EntityTypeExtensionRemoved(EntityTypeId, ExtensionTypeId),
    EntityTypeDeleted(EntityTypeId),
    RelationTypeCreated(RelationTypeId),
    RelationTypeComponentAdded(RelationTypeId, ComponentTypeId),
    RelationTypeComponentRenamed(EntityTypeId, ComponentTypeId, ComponentTypeId),
    RelationTypeComponentUpdated(EntityTypeId, ComponentTypeId),
    RelationTypeComponentRemoved(RelationTypeId, ComponentTypeId),
    RelationTypePropertyAdded(RelationTypeId, String),
    RelationTypePropertyRenamed(EntityTypeId, String, String),
    RelationTypePropertyUpdated(EntityTypeId, String),
    RelationTypePropertyRemoved(RelationTypeId, String),
    RelationTypeExtensionAdded(RelationTypeId, ExtensionTypeId),
    RelationTypeExtensionRenamed(EntityTypeId, ExtensionTypeId, ExtensionTypeId),
    RelationTypeExtensionUpdated(EntityTypeId, ExtensionTypeId),
    RelationTypeExtensionRemoved(RelationTypeId, ExtensionTypeId),
    RelationTypeDeleted(RelationTypeId),
    FlowTypeCreated(FlowTypeId),
    FlowTypeUpdated(FlowTypeId),
    FlowTypeDeleted(FlowTypeId),
    TypeSystemChanged,
    EntityInstanceCreated(u128),
    EntityInstanceDeleted(u128),
    RelationInstanceCreated(RelationInstanceId),
    RelationInstanceDeleted(RelationInstanceId),
    FlowInstanceCreated(u128),
    FlowInstanceDeleted(u128),
}

/// The kind of an event.
pub open spec fn event_type(event: SystemEvent) -> SystemEventTypes {
    match event {
        SystemEvent::ComponentCreated(_) => SystemEventTypes::ComponentCreated,
        SystemEvent::ComponentPropertyAdded(_, _) => SystemEventTypes::ComponentPropertyAdded,
        SystemEvent::ComponentPropertyRenamed(_, _, _) => SystemEventTypes::ComponentPropertyRenamed,
        SystemEvent::ComponentPropertyUpdated(_, _) => SystemEventTypes::ComponentPropertyUpdated,
        SystemEvent::ComponentPropertyRemoved(_, _) => SystemEventTypes::ComponentPropertyRemoved,
        SystemEvent::ComponentExtensionAdded(_, _) => SystemEventTypes::ComponentExtensionAdded,
        SystemEvent::ComponentExtensionRenamed(_, _, _) => SystemEventTypes::ComponentExtensionRenamed,
        SystemEvent::ComponentExtensionUpdated(_, _) => SystemEventTypes::ComponentExtensionUpdated,
        SystemEvent::ComponentExtensionRemoved(_, _) => SystemEventTypes::ComponentExtensionRemoved,
        SystemEvent::ComponentDeleted(_) => SystemEventTypes::ComponentDeleted,
        SystemEvent::EntityTypeCreated(_) => SystemEventTypes::EntityTypeCreated,
        SystemEvent::EntityTypeComponentAdded(_, _) => SystemEventTypes::EntityTypeComponentAdded,
        SystemEvent::EntityTypeComponentRenamed(_, _, _) => SystemEventTypes::EntityTypeComponentRenamed,
        SystemEvent::EntityTypeComponentUpdated(_, _) => SystemEventTypes::EntityTypeComponentUpdated,
        SystemEvent::EntityTypeComponentRemoved(_, _) => SystemEventTypes::EntityTypeComponentRemoved,
        SystemEvent::EntityTypePropertyAdded(_, _) => SystemEventTypes::EntityTypePropertyAdded,
        SystemEvent::EntityTypePropertyRenamed(_, _, _) => SystemEventTypes::EntityTypePropertyRenamed,
        SystemEvent::EntityTypePropertyUpdated(_, _) => SystemEventTypes::EntityTypePropertyUpdated,
        SystemEvent::EntityTypePropertyRemoved(_, _) => SystemEventTypes::EntityTypePropertyRemoved,
        SystemEvent::EntityTypeExtensionAdded(_, _) => SystemEventTypes::EntityTypeExtensionAdded,
        SystemEvent::EntityTypeExtensionRenamed(_, _, _) => SystemEventTypes::EntityTypeExtensionRenamed,
        SystemEvent::EntityTypeExtensionUpdated(_, _) => SystemEventTypes::EntityTypeExtensionUpdated,
        SystemEvent::EntityTypeExtensionRemoved(_, _) => SystemEventTypes::EntityTypeExtensionRemoved,
        SystemEvent::EntityTypeDeleted(_) => SystemEventTypes::EntityTypeDeleted,
        SystemEvent::RelationTypeCreated(_) => SystemEventTypes::RelationTypeCreated,
        SystemEvent::RelationTypeComponentAdded(_, _) => SystemEventTypes::RelationTypeComponentAdded,
        SystemEvent::RelationTypeComponentRenamed(_, _, _) => SystemEventTypes::RelationTypeComponentRenamed,
        SystemEvent::RelationTypeComponentUpdated(_, _) => SystemEventTypes::RelationTypeComponentUpdated,
        SystemEvent::RelationTypeComponentRemoved(_, _) => SystemEventTypes::RelationTypeComponentRemoved,
        SystemEvent::RelationTypePropertyAdded(_, _) => SystemEventTypes::RelationTypePropertyAdded,
        SystemEvent::RelationTypePropertyRenamed(_, _, _) => SystemEventTypes::RelationTypePropertyRenamed,
        SystemEvent::RelationTypePropertyUpdated(_, _) => SystemEventTypes::RelationTypePropertyUpdated,
        SystemEvent::RelationTypePropertyRemoved(_, _) => SystemEventTypes::RelationTypePropertyRemoved,
        SystemEvent::RelationTypeExtensionAdded(_, _) => SystemEventTypes::RelationTypeExtensionAdded,
        SystemEvent::RelationTypeExtensionRenamed(_, _, _) => SystemEventTypes::RelationTypeExtensionRenamed,
        SystemEvent::RelationTypeExtensionUpdated(_, _) => SystemEventTypes::RelationTypeExtensionUpdated,
        SystemEvent::RelationTypeExtensionRemoved(_, _) => SystemEventTypes::RelationTypeExtensionRemoved,
        SystemEvent::RelationTypeDeleted(_) => SystemEventTypes::RelationTypeDeleted,
        SystemEvent::FlowTypeCreated(_) => SystemEventTypes::FlowTypeCreated,
        SystemEvent::FlowTypeUpdated(_) => SystemEventTypes::FlowTypeUpdated,
        SystemEvent::FlowTypeDeleted(_) => SystemEventTypes::FlowTypeDeleted,
        SystemEvent::TypeSystemChanged => SystemEventTypes::TypeSystemChanged,
        SystemEvent::EntityInstanceCreated(_) => SystemEventTypes::EntityInstanceCreated,
        SystemEvent::EntityInstanceDeleted(_) => SystemEventTypes::EntityInstanceDeleted,
        SystemEvent::RelationInstanceCreated(_) => SystemEventTypes::RelationInstanceCreated,
        SystemEvent::RelationInstanceDeleted(_) => SystemEventTypes::RelationInstanceDeleted,
        SystemEvent::FlowInstanceCreated(_) => SystemEventTypes::FlowInstanceCreated,
        SystemEvent::FlowInstanceDeleted(_) => SystemEventTypes::FlowInstanceDeleted,
    }
}

impl<'a> vstd::std_specs::convert::FromSpecImpl<&'a SystemEvent> for SystemEventTypes {
    open spec fn obeys_from_spec() -> bool {
        true
    }

    open spec fn from_spec(event: &'a SystemEvent) -> SystemEventTypes {
        event_type(*event)
    }
}

impl<'a> From<&'a SystemEvent> for SystemEventTypes {
    /// Returns the kind of the event.
    fn from(event: &'a SystemEvent) -> (r: SystemEventTypes) {
        match event {
            SystemEvent::ComponentCreated(_) => SystemEventTypes::ComponentCreated,
            SystemEvent::ComponentPropertyAdded(_, _) => SystemEventTypes::ComponentPropertyAdded,
            SystemEvent::ComponentPropertyRenamed(_, _, _) => SystemEventTypes::ComponentPropertyRenamed,
            SystemEvent::ComponentPropertyUpdated(_, _) => SystemEventTypes::ComponentPropertyUpdated,
            SystemEvent::ComponentPropertyRemoved(_, _) => SystemEventTypes::ComponentPropertyRemoved,
            SystemEvent::ComponentExtensionAdded(_, _) => SystemEventTypes::ComponentExtensionAdded,
            SystemEvent::ComponentExtensionRenamed(_, _, _) => SystemEventTypes::ComponentExtensionRenamed,
            SystemEvent::ComponentExtensionUpdated(_, _) => SystemEventTypes::ComponentExtensionUpdated,
            SystemEvent::ComponentExtensionRemoved(_, _) => SystemEventTypes::ComponentExtensionRemoved,
            SystemEvent::ComponentDeleted(_) => SystemEventTypes::ComponentDeleted,
            SystemEvent::EntityTypeCreated(_) => SystemEventTypes::EntityTypeCreated,
            SystemEvent::EntityTypeComponentAdded(_, _) => SystemEventTypes::EntityTypeComponentAdded,
            SystemEvent::EntityTypeComponentRenamed(_, _, _) => SystemEventTypes::EntityTypeComponentRenamed,
            SystemEvent::EntityTypeComponentUpdated(_, _) => SystemEventTypes::EntityTypeComponentUpdated,
            SystemEvent::EntityTypeComponentRemoved(_, _) => SystemEventTypes::EntityTypeComponentRemoved,
            SystemEvent::EntityTypePropertyAdded(_, _) => SystemEventTypes::EntityTypePropertyAdded,
            SystemEvent::EntityTypePropertyRenamed(_, _, _) => SystemEventTypes::EntityTypePropertyRenamed,
            SystemEvent::EntityTypePropertyUpdated(_, _) => SystemEventTypes::EntityTypePropertyUpdated,
            SystemEvent::EntityTypePropertyRemoved(_, _) => SystemEventTypes::EntityTypePropertyRemoved,
            SystemEvent::EntityTypeExtensionAdded(_, _) => SystemEventTypes::EntityTypeExtensionAdded,
            SystemEvent::EntityTypeExtensionRenamed(_, _, _) => SystemEventTypes::EntityTypeExtensionRenamed,
            SystemEvent::EntityTypeExtensionUpdated(_, _) => SystemEventTypes::EntityTypeExtensionUpdated,
            SystemEvent::EntityTypeExtensionRemoved(_, _) => SystemEventTypes::EntityTypeExtensionRemoved,
            SystemEvent::EntityTypeDeleted(_) => SystemEventTypes::EntityTypeDeleted,
            SystemEvent::RelationTypeCreated(_) => SystemEventTypes::RelationTypeCreated,
            SystemEvent::RelationTypeComponentAdded(_, _) => SystemEventTypes::RelationTypeComponentAdded,
            SystemEvent::RelationTypeComponentRenamed(_, _, _) => SystemEventTypes::RelationTypeComponentRenamed,
            SystemEvent::RelationTypeComponentUpdated(_, _) => SystemEventTypes::RelationTypeComponentUpdated,
            SystemEvent::RelationTypeComponentRemoved(_, _) => SystemEventTypes::RelationTypeComponentRemoved,
            SystemEvent::RelationTypePropertyAdded(_, _) => SystemEventTypes::RelationTypePropertyAdded,
            SystemEvent::RelationTypePropertyRenamed(_, _, _) => SystemEventTypes::RelationTypePropertyRenamed,
            SystemEvent::RelationTypePropertyUpdated(_, _) => SystemEventTypes::RelationTypePropertyUpdated,
            SystemEvent::RelationTypePropertyRemoved(_, _) => SystemEventTypes::RelationTypePropertyRemoved,
            SystemEvent::RelationTypeExtensionAdded(_, _) => SystemEventTypes::RelationTypeExtensionAdded,
            SystemEvent::RelationTypeExtensionRenamed(_, _, _) => SystemEventTypes::RelationTypeExtensionRenamed,
            SystemEvent::RelationTypeExtensionUpdated(_, _) => SystemEventTypes::RelationTypeExtensionUpdated,
            SystemEvent::RelationTypeExtensionRemoved(_, _) => SystemEventTypes::RelationTypeExtensionRemoved,
            SystemEvent::RelationTypeDeleted(_) => SystemEventTypes::RelationTypeDeleted,
            SystemEvent::FlowTypeCreated(_) => SystemEventTypes::FlowTypeCreated,
            SystemEvent::FlowTypeUpdated(_) => SystemEventTypes::FlowTypeUpdated,
            SystemEvent::FlowTypeDeleted(_) => SystemEventTypes::FlowTypeDeleted,
            SystemEvent::TypeSystemChanged => SystemEventTypes::TypeSystemChanged,
            SystemEvent::EntityInstanceCreated(_) => SystemEventTypes::EntityInstanceCreated,
            SystemEvent::EntityInstanceDeleted(_) => SystemEventTypes::EntityInstanceDeleted,
            SystemEvent::RelationInstanceCreated(_) => SystemEventTypes::RelationInstanceCreated,
            SystemEvent::RelationInstanceDeleted(_) => SystemEventTypes::RelationInstanceDeleted,
            SystemEvent::FlowInstanceCreated(_) => SystemEventTypes::FlowInstanceCreated,
            SystemEvent::FlowInstanceDeleted(_) => SystemEventTypes::FlowInstanceDeleted,
        }
    }
}

} // verus!
