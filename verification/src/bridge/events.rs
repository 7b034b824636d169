//! The events sent to the interface.
use vstd::prelude::*;

use super::dto::{DeliveryStateDto, LoginSessionStateDto};

verus! {

/// The snapshot changed for the given reason.
#[derive(Clone, Debug, Eq, PartialEq)]
pub struct SnapshotChangedEvent {
    pub reason: String,
}

/// A delivery changed.
#[derive(Clone, Debug, Eq, PartialEq)]
pub struct DeliveryChangedEvent {
    pub delivery_id: String,
    pub notification_id: Option<String>,
    pub state: Option<DeliveryStateDto>,
}

/// A channel login session changed.
#[derive(Clone, Debug, Eq, PartialEq)]
pub struct ChannelLoginChangedEvent {
    pub account_id: Option<String>,
    pub session_id: Option<String>,
    pub state: LoginSessionStateDto,
    pub message: Option<String>,
}

} // verus!
