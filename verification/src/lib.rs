//! Decision logic of the AgentNotify desktop host: update discovery and verification,
//! package installation rules, lifecycle and tray decisions, platform records, and
//! the settings and command mappings shown to the interface.
pub mod bridge;
pub mod json;
pub mod lifecycle;
pub mod platform;
pub mod production;
pub mod testkit;
pub mod text;
pub mod update;
pub mod winpath;
