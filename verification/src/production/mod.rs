//! Production wiring decisions: settings persistence, delivery targets, runtime state,
//! and the mappings shown to the interface.
pub mod agents;
pub mod commands;
pub mod events;
pub mod mapping;
pub mod records;
pub mod runtime;
pub mod settings;
pub mod targets;
