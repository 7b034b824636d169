//! What a second start of the application does.
use vstd::prelude::*;

verus! {

/// A second instance only brings the running one to the front.
#[derive(Clone, Copy, Debug, PartialEq, Eq, Structural)]
pub enum SecondInstanceAction {
    ShowExistingMain,
}

/// The action for a second start: show the existing main window.
pub fn second_instance_action() -> (r: SecondInstanceAction)
    ensures
        r == SecondInstanceAction::ShowExistingMain,
{
    SecondInstanceAction::ShowExistingMain
}

} // verus!
