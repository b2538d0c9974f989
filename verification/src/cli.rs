use vstd::prelude::*;
use vstd::string::StringExecFns;

use crate::types::ComponentTypeId;

verus! {

/// Why a command of the command line interface failed.
#[derive(Debug)]
pub enum CommandError {
    MissingSubCommand,
    NoContent(String),
    NotFound(String),
    NotCreated(String),
    /// The request to the runtime failed; the text of its error.
    Failed(String),
}

/// A command on the components of a runtime.
#[derive(Debug)]
pub enum ComponentsCommand {
    /// List all components.
    List,
    /// Show the component with the given id.
    Get(ComponentTypeId),
    /// Create a component with the given id and description.
    Create(ComponentTypeId, String),
}

/// The text of the error when a component is not found.
pub open spec fn not_found_text(namespace: Seq<char>, name: Seq<char>) -> Seq<char> {
    "Component "@ + namespace + "__"@ + name + " not found"@
}

/// What a command on the components answers, given the reply of the runtime:
/// the value where there is one; where there is none, the error that says
/// so for the command; the failure of the request as it is.
pub open spec fn components_outcome<T>(command: ComponentsCommand, reply: Result<Option<T>, String>) -> Result<T, (int, Seq<char>)> {
    match reply {
        Ok(Some(v)) => Ok(v),
        Ok(None) => match command {
            ComponentsCommand::List => Err((0, "No components found"@)),
            ComponentsCommand::Get(ty) => Err((1, not_found_text(ty@.namespace, ty@.name))),
            ComponentsCommand::Create(_, _) => Err((2, "Component wasn't created"@)),
        },
        Err(e) => Err((3, e@)),
    }
}

/// The kind and the text of an error, as `components_outcome` writes them.
pub open spec fn error_view(e: CommandError) -> (int, Seq<char>) {
    match e {
        CommandError::NoContent(s) => (0, s@),
        CommandError::NotFound(s) => (1, s@),
        CommandError::NotCreated(s) => (2, s@),
        CommandError::Failed(s) => (3, s@),
        CommandError::MissingSubCommand => (4, Seq::empty()),
    }
}

/// Answers a command on the components from the reply of the runtime.
pub fn components_reply<T>(command: &ComponentsCommand, reply: Result<Option<T>, String>) -> (r: Result<T, CommandError>)
    ensures
        match (r, components_outcome(*command, reply)) {
            (Ok(a), Ok(b)) => a == b,
            (Err(a), Err(b)) => error_view(a) == b,
            _ => false,
        },
{
    match reply {
        Ok(Some(v)) => Ok(v),
        Ok(None) => match command {
            ComponentsCommand::List => Err(CommandError::NoContent("No components found".to_owned())),
            ComponentsCommand::Get(ty) => {
                let mut s = "Component ".to_owned();
                s.append(ty.namespace.as_str());
                s.append("__");
                s.append(ty.name.as_str());
                s.append(" not found");
                Err(CommandError::NotFound(s))
            },
            ComponentsCommand::Create(_, _) => Err(CommandError::NotCreated("Component wasn't created".to_owned())),
        },
        Err(e) => Err(CommandError::Failed(e)),
    }
}

/// Answers a command line that names no command on the components.
pub fn components_without_command(command: Option<&ComponentsCommand>) -> (r: Option<CommandError>)
    ensures
        command is None <==> (r matches Some(CommandError::MissingSubCommand)),
        command is Some ==> r is None,
{
    match command {
        None => Some(CommandError::MissingSubCommand),
        Some(_) => None,
    }
}

} // verus!
