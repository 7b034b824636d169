use agentnotify_desktop::lifecycle::LifecycleController;
use agentnotify_desktop::lifecycle::LifecycleError;
use agentnotify_desktop::lifecycle::autostart::{AutostartAction, CurrentUserAutostart, autostart_action, set_autostart};
use agentnotify_desktop::lifecycle::pause::{
    JsonPauseSettingsStore, PauseCoordinator, PauseSettingsStore, PauseStep, RuntimeControl, load_paused_from,
    settings_with_paused,
};
use std::cell::{Cell, RefCell};
use agentnotify_desktop::lifecycle::single_instance::{SecondInstanceAction, second_instance_action};
use agentnotify_desktop::lifecycle::tray::{TrayMenuAction, menu_event_action, tray_menu, tray_state_text};
use agentnotify_desktop::lifecycle::window::{
    LifecycleAction, RuntimeReadyAction, RuntimeState, WindowAction, determine_runtime_ready_action,
    replacement_for_quit, runtime_ready_action, window_action_for_close,
};

#[test]
fn closing_hides_to_the_tray_and_quitting_shuts_down_first() {
    assert_eq!(window_action_for_close(RuntimeState::Running, true), WindowAction::Hide);
    assert_eq!(window_action_for_close(RuntimeState::Running, false), WindowAction::AllowClose);
    assert_eq!(replacement_for_quit(RuntimeState::Failed), LifecycleAction::ShutdownRuntime);
    assert_eq!(runtime_ready_action(true), RuntimeReadyAction::ShowMain);
    assert_eq!(runtime_ready_action(false), RuntimeReadyAction::KeepHidden);
    assert_eq!(determine_runtime_ready_action(false, true), RuntimeReadyAction::KeepHidden);
    assert_eq!(determine_runtime_ready_action(true, false), RuntimeReadyAction::KeepHidden);
    assert_eq!(determine_runtime_ready_action(false, false), RuntimeReadyAction::ShowMain);
    assert_eq!(second_instance_action(), SecondInstanceAction::ShowExistingMain);
}

#[test]
fn tray_menu_offers_the_opposite_pause_state() {
    let running = tray_menu(false);
    assert_eq!(running.show.id(), "tray.show");
    assert_eq!(running.show.label(), "显示 AgentNotify");
    assert_eq!(running.pause.id(), "tray.pause");
    assert_eq!(running.pause.label(), "暂停通知");
    assert_eq!(running.pause.action(), TrayMenuAction::SetPaused(true));
    assert_eq!(running.quit.id(), "tray.quit");
    assert_eq!(running.quit.label(), "退出");
    assert_eq!(running.quit.action(), TrayMenuAction::Quit);
    let paused = tray_menu(true);
    assert_eq!(paused.pause.label(), "恢复通知");
    assert_eq!(paused.pause.action(), TrayMenuAction::SetPaused(false));
    assert_eq!(tray_state_text(true), "paused");
    assert_eq!(tray_state_text(false), "running");
}

#[test]
fn controller_reports_defaults_before_a_runtime_is_attached() {
    let mut controller = LifecycleController::new();
    let stopped = FakeRuntime { state: RuntimeState::Stopped, ..FakeRuntime::new(false) };
    assert_eq!(controller.runtime_state(&stopped), RuntimeState::Starting, "未连接运行时时不询问运行时");
    assert!(!controller.is_runtime_ready());
    assert!(!controller.is_paused());
    assert!(!controller.is_quitting());
    assert_eq!(controller.begin_set_paused(true).unwrap_err().code(), "runtime_not_connected");
    assert!(!controller.begin_shutdown());
    assert!(controller.is_quitting());

    let (pause, pause_outbox) = PauseCoordinator::initialize(true);
    assert!(pause_outbox);
    let action = controller.attach_state(RuntimeState::Running, pause, RuntimeReadyAction::KeepHidden);
    assert_eq!(action, RuntimeReadyAction::KeepHidden);
    assert!(controller.is_runtime_ready());
    assert!(controller.is_paused());
    assert_eq!(controller.runtime_state(&stopped), RuntimeState::Stopped, "已连接时每次都询问运行时");
}

#[test]
fn failed_shutdown_clears_the_quitting_flag() {
    let mut controller = LifecycleController::new();
    let (pause, _) = PauseCoordinator::initialize(false);
    controller.attach_state(RuntimeState::Running, pause, RuntimeReadyAction::ShowMain);
    assert!(controller.begin_shutdown());
    let result = controller.finish_shutdown(Err(LifecycleError::new("runtime_stop_failed", "停止失败")));
    assert!(result.is_err());
    assert!(!controller.is_quitting());
    assert!(controller.begin_shutdown());
    assert!(controller.finish_shutdown(Ok(())).is_ok());
    assert!(controller.is_quitting());
}

#[test]
fn pausing_saves_then_switches_and_rolls_back_on_failure() {
    let mut controller = LifecycleController::new();
    let (pause, _) = PauseCoordinator::initialize(false);
    controller.attach_state(RuntimeState::Running, pause, RuntimeReadyAction::ShowMain);

    assert!(matches!(controller.begin_set_paused(false).unwrap(), PauseStep::Finished(Ok(()))));
    assert!(matches!(controller.begin_set_paused(true).unwrap(), PauseStep::SaveSetting(true)));
    assert!(matches!(PauseCoordinator::setting_saved(true, Ok(())), PauseStep::SetOutboxPaused(true)));
    let failed_save = PauseCoordinator::setting_saved(true, Err(LifecycleError::new("save", "保存失败")));
    assert!(matches!(failed_save, PauseStep::Finished(Err(_))));

    let step = controller.outbox_updated(true, Err(LifecycleError::new("outbox", "运行时拒绝")));
    let PauseStep::RestoreSetting { previous, error } = step else { panic!("必须回滚设置") };
    assert!(!previous);
    assert!(!controller.is_paused());
    let reported = PauseCoordinator::setting_restored(error.clone(), Ok(()));
    assert_eq!(reported, error);
    let combined = PauseCoordinator::setting_restored(error, Err(LifecycleError::new("save", "磁盘只读")));
    assert_eq!(combined.code(), "pause_state_rollback_failed");
    assert_eq!(combined.message(), "运行时拒绝；恢复原暂停设置也失败：磁盘只读");

    assert!(matches!(controller.outbox_updated(true, Ok(())), PauseStep::Finished(Ok(()))));
    assert!(controller.is_paused());
}

#[test]
fn saved_pause_setting_is_read_strictly() {
    assert_eq!(load_paused_from(None).unwrap(), false);
    assert_eq!(load_paused_from(Some(r#"{"notificationsPaused": true, "other": 1}"#)).unwrap(), true);
    assert_eq!(load_paused_from(Some(r#"{"other": 1}"#)).unwrap(), false);
    assert_eq!(
        load_paused_from(Some(r#"{"notificationsPaused": "yes"}"#)).unwrap_err().message(),
        "暂停设置 notificationsPaused 必须是布尔值"
    );
    assert_eq!(
        load_paused_from(Some("[1, 2]")).unwrap_err().message(),
        "暂停设置文件必须是 JSON 对象"
    );
    let broken = load_paused_from(Some("{")).unwrap_err();
    assert_eq!(broken.code(), "pause_settings_invalid");
    assert!(broken.message().starts_with("暂停设置文件损坏："));
    assert_eq!(JsonPauseSettingsStore::new(r"C:\cfg").path(), r"C:\cfg\settings.json");
}

struct RecordingAutostart {
    fail: bool,
}

impl CurrentUserAutostart for RecordingAutostart {
    fn set_current_user_enabled(&self, enabled: bool) -> Result<(), LifecycleError> {
        if self.fail {
            Err(LifecycleError::new("autostart_update_failed", if enabled { "开启失败" } else { "关闭失败" }))
        } else {
            Ok(())
        }
    }
}

#[test]
fn autostart_goes_through_the_current_user_adapter() {
    assert!(set_autostart(&RecordingAutostart { fail: false }, true).is_ok());
    assert_eq!(
        set_autostart(&RecordingAutostart { fail: true }, false).unwrap_err().message(),
        "关闭失败"
    );
    assert_eq!(autostart_action(true), AutostartAction::EnableCurrentUser);
    assert_eq!(autostart_action(false), AutostartAction::DisableCurrentUser);
}

struct FakeRuntime {
    state: RuntimeState,
    refuse_outbox: bool,
    refuse_shutdown: bool,
    outbox_calls: RefCell<Vec<bool>>,
    shutdowns: Cell<u32>,
}

impl FakeRuntime {
    fn new(refuse_outbox: bool) -> Self {
        FakeRuntime {
            state: RuntimeState::Running,
            refuse_outbox,
            refuse_shutdown: false,
            outbox_calls: RefCell::new(Vec::new()),
            shutdowns: Cell::new(0),
        }
    }
}

impl RuntimeControl for FakeRuntime {
    fn state(&self) -> RuntimeState {
        self.state
    }

    fn set_outbox_paused(&self, paused: bool) -> Result<(), LifecycleError> {
        self.outbox_calls.borrow_mut().push(paused);
        if self.refuse_outbox {
            Err(LifecycleError::new("outbox_gate_failed", "运行时拒绝"))
        } else {
            Ok(())
        }
    }

    fn shutdown_runtime(&self) -> Result<(), LifecycleError> {
        self.shutdowns.set(self.shutdowns.get() + 1);
        if self.refuse_shutdown {
            Err(LifecycleError::new("runtime_stop_failed", "停止失败"))
        } else {
            Ok(())
        }
    }
}

struct FakeSettings {
    stored: Cell<bool>,
    refuse_after: Cell<u32>,
    saves: RefCell<Vec<bool>>,
}

impl FakeSettings {
    fn new(stored: bool, refuse_after: u32) -> Self {
        FakeSettings { stored: Cell::new(stored), refuse_after: Cell::new(refuse_after), saves: RefCell::new(Vec::new()) }
    }
}

impl PauseSettingsStore for FakeSettings {
    fn load_paused(&self) -> Result<bool, LifecycleError> {
        Ok(self.stored.get())
    }

    fn save_paused(&self, paused: bool) -> Result<(), LifecycleError> {
        self.saves.borrow_mut().push(paused);
        if self.refuse_after.get() == 0 {
            return Err(LifecycleError::new("pause_settings_save_failed", "写入失败"));
        }
        self.refuse_after.set(self.refuse_after.get() - 1);
        self.stored.set(paused);
        Ok(())
    }
}

#[test]
fn attaching_restores_a_saved_pause_before_the_runtime_goes_on() {
    let runtime = FakeRuntime::new(false);
    let settings = FakeSettings::new(true, 10);
    let mut controller = LifecycleController::new();
    let action = controller.attach_runtime_with_action(&runtime, &settings, RuntimeReadyAction::KeepHidden).unwrap();
    assert_eq!(action, RuntimeReadyAction::KeepHidden);
    assert!(controller.is_paused());
    assert!(controller.is_runtime_ready());
    assert_eq!(controller.runtime_state(&runtime), RuntimeState::Running);
    assert_eq!(*runtime.outbox_calls.borrow(), vec![true]);

    let fresh = FakeRuntime::new(false);
    let mut other = LifecycleController::new();
    assert_eq!(other.attach_runtime(&fresh, &FakeSettings::new(false, 10)).unwrap(), RuntimeReadyAction::ShowMain);
    assert!(fresh.outbox_calls.borrow().is_empty(), "未暂停时不得触碰 Outbox");
}

#[test]
fn a_refused_outbox_gate_fails_attaching_without_changes() {
    let runtime = FakeRuntime::new(true);
    let mut controller = LifecycleController::new();
    let error = controller.attach_runtime(&runtime, &FakeSettings::new(true, 10)).unwrap_err();
    assert_eq!(error.code(), "outbox_gate_failed");
    assert!(!controller.is_runtime_ready());
    assert_eq!(controller.set_paused(&runtime, &FakeSettings::new(false, 10), true).unwrap_err().code(), "runtime_not_connected");
}

#[test]
fn pausing_saves_then_gates_and_repeating_is_a_no_op() {
    let runtime = FakeRuntime::new(false);
    let settings = FakeSettings::new(false, 10);
    let mut controller = LifecycleController::new();
    controller.attach_runtime(&runtime, &settings).unwrap();
    assert_eq!(controller.set_paused(&runtime, &settings, true).unwrap(), true);
    assert!(controller.is_paused());
    assert!(settings.stored.get());
    assert_eq!(*runtime.outbox_calls.borrow(), vec![true]);
    assert_eq!(controller.set_paused(&runtime, &settings, true).unwrap(), true);
    assert_eq!(settings.saves.borrow().len(), 1, "状态未变时不得重复保存");
    assert_eq!(controller.set_paused(&runtime, &settings, false).unwrap(), false);
    assert!(!controller.is_paused());
    assert_eq!(*settings.saves.borrow(), vec![true, false]);
}

#[test]
fn a_refused_outbox_change_restores_the_saved_setting() {
    let runtime = FakeRuntime::new(true);
    let settings = FakeSettings::new(false, 10);
    let mut pause = PauseCoordinator::initialize(false).0;
    let error = pause.set_paused(&runtime, &settings, true).unwrap_err();
    assert_eq!(error.code(), "outbox_gate_failed");
    assert!(!pause.is_paused());
    assert_eq!(*settings.saves.borrow(), vec![true, false]);
    assert!(!settings.stored.get());

    let failing_restore = FakeSettings::new(false, 1);
    let error = pause.set_paused(&runtime, &failing_restore, true).unwrap_err();
    assert_eq!(error.code(), "pause_state_rollback_failed");
    assert_eq!(error.message(), "运行时拒绝；恢复原暂停设置也失败：写入失败");
    assert!(!pause.is_paused());
}

#[test]
fn a_failed_save_leaves_the_outbox_alone() {
    let runtime = FakeRuntime::new(false);
    let settings = FakeSettings::new(false, 0);
    let mut pause = PauseCoordinator::initialize(false).0;
    assert_eq!(pause.set_paused(&runtime, &settings, true).unwrap_err().code(), "pause_settings_save_failed");
    assert!(runtime.outbox_calls.borrow().is_empty());
    assert!(!pause.is_paused());
}

#[test]
fn quitting_shuts_the_runtime_down_and_a_failure_clears_the_flag() {
    let mut controller = LifecycleController::new();
    let runtime = FakeRuntime::new(false);
    assert!(controller.shutdown_for_quit(&runtime).is_ok());
    assert_eq!(runtime.shutdowns.get(), 0, "未连接运行时时无需停止");
    assert!(controller.is_quitting());

    let mut attached = LifecycleController::new();
    attached.attach_runtime(&runtime, &FakeSettings::new(false, 10)).unwrap();
    assert!(attached.shutdown_for_quit(&runtime).is_ok());
    assert_eq!(runtime.shutdowns.get(), 1);
    assert!(attached.is_quitting());

    let stubborn = FakeRuntime { refuse_shutdown: true, ..FakeRuntime::new(false) };
    let mut failing = LifecycleController::new();
    failing.attach_runtime(&stubborn, &FakeSettings::new(false, 10)).unwrap();
    assert_eq!(failing.shutdown_for_quit(&stubborn).unwrap_err().code(), "runtime_stop_failed");
    assert!(!failing.is_quitting());
}

#[test]
fn tray_events_do_what_the_entries_offer() {
    for paused in [false, true] {
        let menu = tray_menu(paused);
        for entry in [menu.show, menu.pause, menu.quit] {
            assert_eq!(menu_event_action(entry.id(), paused), Some(entry.action()));
        }
    }
    assert_eq!(menu_event_action("tray.pause", true), Some(TrayMenuAction::SetPaused(false)));
    assert_eq!(menu_event_action("tray.other", false), None);
}

#[test]
fn saving_the_pause_flag_keeps_the_other_settings() {
    assert_eq!(settings_with_paused(None, true).unwrap(), "{\n  \"notificationsPaused\": true\n}");
    assert_eq!(
        settings_with_paused(Some(r#"{"b": 1.5, "a": ["x", null], "notificationsPaused": true}"#), false).unwrap(),
        "{\n  \"a\": [\n    \"x\",\n    null\n  ],\n  \"b\": 1.5,\n  \"notificationsPaused\": false\n}"
    );
    assert_eq!(
        load_paused_from(Some(&settings_with_paused(Some(r#"{"theme": "dark"}"#), true).unwrap())).unwrap(),
        true
    );
    let broken = settings_with_paused(Some("{"), true).unwrap_err();
    assert_eq!(broken.code(), "pause_settings_invalid");
    assert!(broken.message().starts_with("暂停设置文件损坏："));
    let list = settings_with_paused(Some("[true]"), true).unwrap_err();
    assert_eq!(list.code(), "pause_settings_invalid");
    assert_eq!(list.message(), "暂停设置文件必须是 JSON 对象");
}
