//! Lifecycle of the host: the controller state, window and tray decisions, pausing and
//! autostart.
use vstd::prelude::*;

use crate::update::error::ErrorView;
use self::pause::{
    PauseCoordinator, PauseSettingsStore, PauseStep, RuntimeControl, change_applied, change_failed_with,
    restore_failed_with, restored_from,
};
use self::window::{RuntimeReadyAction, RuntimeState};

pub mod autostart;
pub mod pause;
pub mod single_instance;
pub mod tray;
pub mod window;

verus! {

/// A stable lifecycle error, shown as it is by the tray and the host.
#[derive(Clone, Debug, Eq, PartialEq)]
pub struct LifecycleError {
    code: String,
    message: String,
}

impl View for LifecycleError {
    type V = ErrorView;

    closed spec fn view(&self) -> ErrorView {
        ErrorView { code: self.code@, message: self.message@ }
    }
}

impl LifecycleError {
    pub fn new(code: &str, message: &str) -> (r: Self)
        ensures
            r@ == (ErrorView { code: code@, message: message@ }),
    {
        LifecycleError { code: String::from_str(code), message: String::from_str(message) }
    }

    pub fn code(&self) -> (r: &str)
        ensures
            r@ == self@.code,
    {
        self.code.as_str()
    }

    pub fn message(&self) -> (r: &str)
        ensures
            r@ == self@.message,
    {
        self.message.as_str()
    }

    /// The message, as the error is displayed.
    pub fn to_display_string(&self) -> (r: String)
        ensures
            r@ == self@.message,
    {
        String::from_str(self.message.as_str())
    }
}

/// The observable state of the controller.
pub struct LifecycleView {
    /// The state the runtime reported when it was attached; `None` before one is attached.
    pub runtime: Option<RuntimeState>,
    /// The paused state of the pause coordinator; `None` before one is attached.
    pub paused: Option<bool>,
    pub quitting: bool,
    pub runtime_ready: bool,
}

pub open spec fn not_connected_view() -> ErrorView {
    ErrorView { code: "runtime_not_connected"@, message: "提醒运行时尚未连接，暂时不能暂停或恢复通知"@ }
}

/// The lifecycle controller: the attached runtime, its pause coordinator, and the
/// quitting and ready flags.
#[derive(Debug)]
pub struct LifecycleController {
    runtime: Option<RuntimeState>,
    pause: Option<PauseCoordinator>,
    quitting: bool,
    runtime_ready: bool,
}

impl View for LifecycleController {
    type V = LifecycleView;

    closed spec fn view(&self) -> LifecycleView {
        LifecycleView {
            runtime: self.runtime,
            paused: match self.pause {
                Some(p) => Some(p@),
                None => None,
            },
            quitting: self.quitting,
            runtime_ready: self.runtime_ready,
        }
    }
}

/// The outcome of connecting a runtime: on success the runtime is ready, its state is one
/// it reported, the paused state is the setting the store gave (with the outbox gated when
/// paused), and `action` is handed back; on failure, with the store's or the runtime's
/// error, nothing changed.
pub open spec fn attached<R: RuntimeControl, S: PauseSettingsStore>(
    before: LifecycleController,
    after: LifecycleController,
    runtime: &R,
    settings: &S,
    action: RuntimeReadyAction,
    r: Result<RuntimeReadyAction, LifecycleError>,
) -> bool {
    match r {
        Ok(a) => {
            &&& a == action
            &&& after@.runtime matches Some(state) && call_ensures(R::state, (runtime,), state)
            &&& after@.paused matches Some(paused) && restored_from(runtime, settings, paused)
            &&& after@.runtime_ready
            &&& after@.quitting == before@.quitting
        },
        Err(e) => after@ == before@ && restore_failed_with(runtime, settings, e),
    }
}

impl LifecycleController {
    /// A controller with no runtime yet.
    pub fn new() -> (r: Self)
        ensures
            r@.runtime is None,
            r@.paused is None,
            !r@.quitting,
            !r@.runtime_ready,
    {
        LifecycleController { runtime: None, pause: None, quitting: false, runtime_ready: false }
    }

    /// Attaches the runtime (in the state it reports) and its pause coordinator; the
    /// runtime is ready from then on, and `action` is handed back.
    pub fn attach_state(
        &mut self,
        state: RuntimeState,
        pause: PauseCoordinator,
        action: RuntimeReadyAction,
    ) -> (r: RuntimeReadyAction)
        ensures
            r == action,
            final(self)@.runtime == Some(state),
            final(self)@.paused == Some(pause@),
            final(self)@.quitting == old(self)@.quitting,
            final(self)@.runtime_ready,
    {
        self.runtime = Some(state);
        self.pause = Some(pause);
        self.runtime_ready = true;
        action
    }

    /// The runtime's state, asked of the attached runtime now; `Starting` while none is
    /// attached.
    pub fn runtime_state<R: RuntimeControl>(&self, runtime: &R) -> (r: RuntimeState)
        ensures
            self@.runtime is None ==> r == RuntimeState::Starting,
            self@.runtime is Some ==> call_ensures(R::state, (runtime,), r),
    {
        match self.runtime {
            Some(_) => runtime.state(),
            None => RuntimeState::Starting,
        }
    }

    pub fn is_runtime_ready(&self) -> (b: bool)
        ensures
            b == self@.runtime_ready,
    {
        self.runtime_ready
    }

    /// Whether notifications are paused; `false` while no coordinator is attached.
    pub fn is_paused(&self) -> (b: bool)
        ensures
            b == (self@.paused == Some(true)),
    {
        match &self.pause {
            Some(p) => p.is_paused(),
            None => false,
        }
    }

    pub fn begin_quit(&mut self)
        ensures
            final(self)@.quitting,
            final(self)@.runtime == old(self)@.runtime,
            final(self)@.paused == old(self)@.paused,
            final(self)@.runtime_ready == old(self)@.runtime_ready,
    {
        self.quitting = true;
    }

    pub fn is_quitting(&self) -> (b: bool)
        ensures
            b == self@.quitting,
    {
        self.quitting
    }

    /// First step of pausing or resuming: refused while no runtime is connected, else the
    /// coordinator's first step.
    pub fn begin_set_paused(&self, paused: bool) -> (r: Result<PauseStep, LifecycleError>)
        ensures
            match self@.paused {
                None => r matches Err(e) && e@ == not_connected_view(),
                Some(current) => r matches Ok(step) && step == PauseCoordinator::first_step(current, paused),
            },
    {
        match &self.pause {
            None => Err(LifecycleError::new("runtime_not_connected", "提醒运行时尚未连接，暂时不能暂停或恢复通知")),
            Some(p) => Ok(p.begin_set_paused(paused)),
        }
    }

    /// Hands the outcome of the outbox change to the coordinator.
    pub fn outbox_updated(&mut self, paused: bool, result: Result<(), LifecycleError>) -> (r: PauseStep)
        requires
            old(self)@.paused is Some,
        ensures
            match result {
                Ok(()) => r == PauseStep::Finished(Ok(())) && final(self)@.paused == Some(paused),
                Err(e) => r == PauseStep::RestoreSetting { previous: old(self)@.paused->0, error: e }
                    && final(self)@.paused == old(self)@.paused,
            },
            final(self)@.runtime == old(self)@.runtime,
            final(self)@.quitting == old(self)@.quitting,
            final(self)@.runtime_ready == old(self)@.runtime_ready,
    {
        let mut p = self.pause.take().unwrap();
        let step = p.outbox_updated(paused, result);
        self.pause = Some(p);
        step
    }

    /// Starts quitting; `true` when an attached runtime must be shut down first.
    pub fn begin_shutdown(&mut self) -> (r: bool)
        ensures
            r == old(self)@.runtime is Some,
            final(self)@.quitting,
            final(self)@.runtime == old(self)@.runtime,
            final(self)@.paused == old(self)@.paused,
            final(self)@.runtime_ready == old(self)@.runtime_ready,
    {
        self.quitting = true;
        self.runtime.is_some()
    }

    /// Ends quitting with the outcome of the runtime shutdown: a failure clears the
    /// quitting flag again so that the window can still be closed normally.
    pub fn finish_shutdown(&mut self, result: Result<(), LifecycleError>) -> (r: Result<(), LifecycleError>)
        ensures
            r == result,
            final(self)@.quitting == (result is Ok && old(self)@.quitting),
            final(self)@.runtime == old(self)@.runtime,
            final(self)@.paused == old(self)@.paused,
            final(self)@.runtime_ready == old(self)@.runtime_ready,
    {
        if result.is_err() {
            self.quitting = false;
        }
        result
    }

    /// Connects the runtime: restores the paused setting through a new pause coordinator,
    /// records the runtime's state and marks it ready; `ShowMain` is handed back. On an
    /// error nothing changes.
    pub fn attach_runtime<R: RuntimeControl, S: PauseSettingsStore>(&mut self, runtime: &R, settings: &S) -> (r:
        Result<RuntimeReadyAction, LifecycleError>)
        ensures
            attached(*old(self), *final(self), runtime, settings, RuntimeReadyAction::ShowMain, r),
    {
        self.attach_runtime_with_action(runtime, settings, RuntimeReadyAction::ShowMain)
    }

    /// As `attach_runtime`, handing back `action` for the window once the runtime is ready.
    pub fn attach_runtime_with_action<R: RuntimeControl, S: PauseSettingsStore>(
        &mut self,
        runtime: &R,
        settings: &S,
        action: RuntimeReadyAction,
    ) -> (r: Result<RuntimeReadyAction, LifecycleError>)
        ensures
            attached(*old(self), *final(self), runtime, settings, action, r),
    {
        let pause = PauseCoordinator::initialize_with(runtime, settings)?;
        let state = runtime.state();
        Ok(self.attach_state(state, pause, action))
    }

    /// Pauses or resumes notifications and hands back the requested state. Refused while
    /// no runtime is connected; otherwise the coordinator changes the state only when the
    /// setting was saved and the runtime switched the outbox.
    pub fn set_paused<R: RuntimeControl, S: PauseSettingsStore>(
        &mut self,
        runtime: &R,
        settings: &S,
        paused: bool,
    ) -> (r: Result<bool, LifecycleError>)
        ensures
            old(self)@.paused is None ==> (r matches Err(e) && e@ == not_connected_view()),
            old(self)@.paused == Some(paused) ==> r == Ok::<bool, LifecycleError>(paused),
            r is Ok ==> r == Ok::<bool, LifecycleError>(paused) && final(self)@.paused == Some(paused),
            r is Err ==> final(self)@.paused == old(self)@.paused,
            old(self)@.paused is Some && old(self)@.paused != Some(paused) ==> match r {
                Ok(_) => change_applied(runtime, settings, paused),
                Err(e) => change_failed_with(runtime, settings, old(self)@.paused->0, paused, e),
            },
            final(self)@.runtime == old(self)@.runtime,
            final(self)@.quitting == old(self)@.quitting,
            final(self)@.runtime_ready == old(self)@.runtime_ready,
    {
        match self.pause.take() {
            None => Err(LifecycleError::new("runtime_not_connected", "提醒运行时尚未连接，暂时不能暂停或恢复通知")),
            Some(mut pause) => {
                let result = pause.set_paused(runtime, settings, paused);
                self.pause = Some(pause);
                match result {
                    Ok(()) => Ok(paused),
                    Err(e) => Err(e),
                }
            },
        }
    }

    /// Quits: marks the host as quitting and shuts the attached runtime down; when that
    /// fails the quitting flag is cleared again and the error handed back.
    pub fn shutdown_for_quit<R: RuntimeControl>(&mut self, runtime: &R) -> (r: Result<(), LifecycleError>)
        ensures
            old(self)@.runtime is None ==> r is Ok,
            final(self)@.quitting == r is Ok,
            final(self)@.runtime == old(self)@.runtime,
            final(self)@.paused == old(self)@.paused,
            final(self)@.runtime_ready == old(self)@.runtime_ready,
    {
        if self.begin_shutdown() {
            let result = runtime.shutdown_runtime();
            self.finish_shutdown(result)
        } else {
            Ok(())
        }
    }
}

} // verus!
