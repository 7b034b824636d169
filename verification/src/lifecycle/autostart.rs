//! Starting at login for the current user only.
use vstd::prelude::*;

use super::LifecycleError;

verus! {

/// The autostart actions; only the current user's entry exists, no machine-wide one.
#[derive(Clone, Copy, Debug, PartialEq, Eq, Structural)]
pub enum AutostartAction {
    EnableCurrentUser,
    DisableCurrentUser,
}

/// The action for the requested state.
pub fn autostart_action(enabled: bool) -> (r: AutostartAction)
    ensures
        r == (if enabled {
            AutostartAction::EnableCurrentUser
        } else {
            AutostartAction::DisableCurrentUser
        }),
{
    if enabled {
        AutostartAction::EnableCurrentUser
    } else {
        AutostartAction::DisableCurrentUser
    }
}

/// The platform side that writes the current user's login entry.
pub trait CurrentUserAutostart {
    fn set_current_user_enabled(&self, enabled: bool) -> Result<(), LifecycleError>;
}

/// Switches the current user's login entry through the adapter and hands back its result.
pub fn set_autostart<A: CurrentUserAutostart>(adapter: &A, enabled: bool) -> (r: Result<(), LifecycleError>)
    ensures
        call_ensures(A::set_current_user_enabled, (adapter, enabled), r),
{
    adapter.set_current_user_enabled(enabled)
}

} // verus!
