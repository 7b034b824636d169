//! What the host exchanges with its interface: command errors, data shapes and events.
use vstd::prelude::*;

pub mod commands;
pub mod dto;
pub mod error;
pub mod events;

verus! {

} // verus!
