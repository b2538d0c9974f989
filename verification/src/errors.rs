use vstd::prelude::*;
use vstd::string::StringExecFns;

use crate::relations::RelationInstanceCreationError;

verus! {

/// The error when the relation type manager cannot be set up.
#[derive(Debug)]
pub enum RelationTypeManagerError {
    InitializationError,
}

/// The error when a reactive relation instance cannot be imported.
#[derive(Debug)]
pub struct ReactiveRelationInstanceImportError;

/// Why a value does not make a valid identifier of the graph database.
#[derive(Debug, Clone, Copy, PartialEq, Eq, Structural)]
pub enum ValidationError {
    /// The value is invalid
    InvalidValue,
    /// The value is too long
    ValueTooLong,
    /// The input UUID is the maximum value, and cannot be incremented
    CannotIncrementUuid,
}

/// The text of a validation error.
pub open spec fn validation_error_message(e: ValidationError) -> Seq<char> {
    match e {
        ValidationError::InvalidValue => "invalid value"@,
        ValidationError::ValueTooLong => "value too long"@,
        ValidationError::CannotIncrementUuid => "could not increment the UUID"@,
    }
}

/// The error when a reactive relation instance cannot be created.
#[derive(Debug)]
pub enum ReactiveRelationInstanceCreationError {
    InvalidEdgeKey,
    MissingOutboundEntityInstance(u128),
    MissingInboundEntityInstance(u128),
    MissingInstance,
    RelationInstanceCreationError(RelationInstanceCreationError),
    ValidationError(ValidationError),
}

/// The text of the error of the creation of a relation instance.
pub open spec fn relation_creation_message(e: RelationInstanceCreationError) -> Seq<char> {
    match e {
        RelationInstanceCreationError::EdgeAlreadyExists(_) => "The relation instance already exists"@,
        RelationInstanceCreationError::MissingOutboundEntityInstance(id) => "The outbound entity instance "@
            + crate::wrappers::uuid_text(id) + " cannot be found"@,
        RelationInstanceCreationError::MissingInboundEntityInstance(id) => "The inbound entity instance "@
            + crate::wrappers::uuid_text(id) + " cannot be found"@,
        RelationInstanceCreationError::RelationEdgeCreationError(v) => "The relation edge cannot be created: "@
            + validation_error_message(v),
    }
}

/// The text of the error of the creation of a reactive relation instance.
pub open spec fn reactive_creation_message(e: ReactiveRelationInstanceCreationError) -> Seq<char> {
    match e {
        ReactiveRelationInstanceCreationError::InvalidEdgeKey => "The edge key is invalid"@,
        ReactiveRelationInstanceCreationError::MissingOutboundEntityInstance(id) => "The outbound entity instance "@
            + crate::wrappers::uuid_text(id) + " cannot be found"@,
        ReactiveRelationInstanceCreationError::MissingInboundEntityInstance(id) => "The inbound entity instance "@
            + crate::wrappers::uuid_text(id) + " cannot be found"@,
        ReactiveRelationInstanceCreationError::MissingInstance => "The created instance cannot be found"@,
        ReactiveRelationInstanceCreationError::RelationInstanceCreationError(inner) => "Failed to create reactive relation instance: "@
            + relation_creation_message(inner),
        ReactiveRelationInstanceCreationError::ValidationError(v) => "Validation Error: "@ + validation_error_message(v),
    }
}

/// Returns the text of a validation error.
pub fn validation_error_text(e: &ValidationError) -> (r: String)
    ensures
        r@ == validation_error_message(*e),
{
    crate::wrappers::validation_error_to_string(*e)
}

/// The text "`prefix` `id` `suffix`" with the id written as a UUID.
fn with_uuid(prefix: &str, id: u128, suffix: &str) -> (r: String)
    ensures
        r@ == prefix@ + crate::wrappers::uuid_text(id) + suffix@,
{
    let mut s = prefix.to_owned();
    let id_text = crate::wrappers::uuid_to_string(id);
    s.append(id_text.as_str());
    s.append(suffix);
    s
}

impl RelationInstanceCreationError {
    /// Returns the text of the error.
    pub fn message(&self) -> (r: String)
        ensures
            r@ == relation_creation_message(*self),
    {
        match self {
            RelationInstanceCreationError::EdgeAlreadyExists(_) => "The relation instance already exists".to_owned(),
            RelationInstanceCreationError::MissingOutboundEntityInstance(id) => with_uuid(
                "The outbound entity instance ",
                *id,
                " cannot be found",
            ),
            RelationInstanceCreationError::MissingInboundEntityInstance(id) => with_uuid(
                "The inbound entity instance ",
                *id,
                " cannot be found",
            ),
            RelationInstanceCreationError::RelationEdgeCreationError(v) => {
                let mut s = "The relation edge cannot be created: ".to_owned();
                let m = validation_error_text(v);
                s.append(m.as_str());
                s
            },
        }
    }
}

impl ReactiveRelationInstanceCreationError {
    /// Returns the text of the error.
    pub fn message(&self) -> (r: String)
        ensures
            r@ == reactive_creation_message(*self),
    {
        match self {
            ReactiveRelationInstanceCreationError::InvalidEdgeKey => "The edge key is invalid".to_owned(),
            ReactiveRelationInstanceCreationError::MissingOutboundEntityInstance(id) => with_uuid(
                "The outbound entity instance ",
                *id,
                " cannot be found",
            ),
            ReactiveRelationInstanceCreationError::MissingInboundEntityInstance(id) => with_uuid(
                "The inbound entity instance ",
                *id,
                " cannot be found",
            ),
            ReactiveRelationInstanceCreationError::MissingInstance => "The created instance cannot be found".to_owned(),
            ReactiveRelationInstanceCreationError::RelationInstanceCreationError(inner) => {
                let mut s = "Failed to create reactive relation instance: ".to_owned();
                let m = inner.message();
                s.append(m.as_str());
                s
            },
            ReactiveRelationInstanceCreationError::ValidationError(v) => {
                let mut s = "Validation Error: ".to_owned();
                let m = validation_error_text(v);
                s.append(m.as_str());
                s
            },
        }
    }
}

} // verus!
