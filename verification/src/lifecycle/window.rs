//! Window decisions: what closing the main window does, and whether it shows when the
//! runtime is ready.
use vstd::prelude::*;

verus! {

/// Label of the main window.
pub const MAIN_WINDOW_LABEL: &'static str = "main";

/// State of the notification runtime as the host sees it.
#[derive(Clone, Copy, Debug, PartialEq, Eq, Structural)]
pub enum RuntimeState {
    Starting,
    Running,
    Paused,
    Stopping,
    Stopped,
    Failed,
}

/// What closing the main window does.
#[derive(Clone, Copy, Debug, PartialEq, Eq, Structural)]
pub enum WindowAction {
    Hide,
    AllowClose,
}

/// What quitting does first.
#[derive(Clone, Copy, Debug, PartialEq, Eq, Structural)]
pub enum LifecycleAction {
    ShutdownRuntime,
    Exit,
}

/// Whether the main window shows once the runtime is ready.
#[derive(Clone, Copy, Debug, PartialEq, Eq, Structural)]
pub enum RuntimeReadyAction {
    KeepHidden,
    ShowMain,
}

/// Closing the main window hides it while the tray can bring it back.
pub fn window_action_for_close(runtime_state: RuntimeState, tray_available: bool) -> (r: WindowAction)
    ensures
        r == (if tray_available {
            WindowAction::Hide
        } else {
            WindowAction::AllowClose
        }),
{
    if tray_available {
        WindowAction::Hide
    } else {
        WindowAction::AllowClose
    }
}

/// Quitting always shuts the runtime down first, whatever its state.
pub fn replacement_for_quit(runtime_state: RuntimeState) -> (r: LifecycleAction)
    ensures
        r == LifecycleAction::ShutdownRuntime,
{
    LifecycleAction::ShutdownRuntime
}

/// The main window shows only once the runtime is ready.
pub fn runtime_ready_action(runtime_ready: bool) -> (r: RuntimeReadyAction)
    ensures
        r == (if runtime_ready {
            RuntimeReadyAction::ShowMain
        } else {
            RuntimeReadyAction::KeepHidden
        }),
{
    if runtime_ready {
        RuntimeReadyAction::ShowMain
    } else {
        RuntimeReadyAction::KeepHidden
    }
}

/// A start that asked to stay hidden, or an automatic start at login, keeps the window hidden.
pub fn determine_runtime_ready_action(start_hidden: bool, autostart: bool) -> (r: RuntimeReadyAction)
    ensures
        r == (if start_hidden || autostart {
            RuntimeReadyAction::KeepHidden
        } else {
            RuntimeReadyAction::ShowMain
        }),
{
    if start_hidden || autostart {
        RuntimeReadyAction::KeepHidden
    } else {
        RuntimeReadyAction::ShowMain
    }
}

} // verus!
