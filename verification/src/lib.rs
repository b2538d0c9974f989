//! The core of a reactive graph runtime: a type system of components, entity
//! types and relation types; a registry of entity types that merges the
//! properties of components into the types made of them; the entity and
//! relation instances of the graph; system events; the runtime builder with
//! its configuration and lifecycle; the shutdown state; the plugin search and
//! the answers of the command line interface.

mod wrappers;

pub mod json;
pub mod types;
pub mod model;
pub mod entity_type;
pub mod strings;
pub mod events;
pub mod components;
pub mod entity_types;
pub mod divergent;
pub mod laws;
pub mod shutdown;
pub mod builder;
pub mod client;
pub mod instance_info;
pub mod plugins;
pub mod instances;
pub mod relation_type;
pub mod relations;
pub mod errors;
pub mod cli;
pub mod named_types;
