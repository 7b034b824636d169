//! Update flow: release discovery, download checks, package verification and installation rules.
pub mod download;
pub mod cms;
pub mod error;
pub mod install;
pub mod manifest;
pub mod release;
pub mod service;
pub mod staging;
pub mod verify;
