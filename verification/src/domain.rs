//! The write side: value objects, commands, events and the aggregate.

pub mod aggregates;
pub mod commands;
pub mod errors;
pub mod events;
pub mod history;
pub mod identifiers;
pub mod instants;
pub mod messages;
pub mod sources;
pub mod value_objects;
