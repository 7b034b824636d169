use agentnotify_desktop::bridge::commands::{HostCommandServiceSlot, UnavailableHostCommandService};
use agentnotify_desktop::bridge::dto::{
    BusinessCommand, HostEvent, LegacyMigrationDto, MigrationStateDto, UpdateStateDto,
};
use agentnotify_desktop::bridge::error::CommandError;
use agentnotify_desktop::lifecycle::window::RuntimeState;
use agentnotify_desktop::production::agents::{invalid_config, reply_inbox_root};
use agentnotify_desktop::production::mapping::{install_result_from_report, update_state_for_error};
use agentnotify_desktop::platform::AppPaths;
use agentnotify_desktop::production::runtime::{
    CoreRuntimeState, runtime_files, LEGACY_APP_RUNNING_CODE, MigrationAutoretryOutcome, RetryDecision, UuidGenerator,
    host_runtime_state, migration_recovered, retry_decision, retry_without_attempts,
};
use agentnotify_desktop::update::error::UpdateError;
use agentnotify_desktop::update::service::{InstallMode, InstallReport};

fn run_retry(max_attempts: u32, mut probe: impl FnMut() -> Result<bool, CommandError>) -> MigrationAutoretryOutcome {
    if max_attempts == 0 {
        return retry_without_attempts();
    }
    let mut attempt = 1;
    loop {
        match retry_decision(attempt, max_attempts, probe()) {
            RetryDecision::ProbeAgain => attempt += 1,
            RetryDecision::Stop(outcome) => return outcome,
        }
    }
}

#[test]
fn retry_until_ready_recovers_and_stops_probing() {
    let mut calls = 0;
    let outcome = run_retry(5, || {
        calls += 1;
        Ok(calls != 1)
    });
    assert_eq!(outcome, MigrationAutoretryOutcome::Recovered { attempts: 2 }, "第二次探测恢复后必须停止重试");
    assert_eq!(calls, 2);
}

#[test]
fn retry_until_ready_exhausts_attempts_when_still_blocked() {
    let mut calls = 0;
    let outcome = run_retry(3, || {
        calls += 1;
        Ok(false)
    });
    assert_eq!(outcome, MigrationAutoretryOutcome::Exhausted);
    assert_eq!(calls, 3, "用尽尝试次数后必须停止重试");
}

#[test]
fn retry_until_ready_stops_on_unrecoverable_error() {
    let mut calls = 0;
    let outcome = run_retry(4, || {
        calls += 1;
        if calls == 1 { Ok(false) } else { Err(CommandError::new("runtime_unavailable", "运行时尚未启动")) }
    });
    match outcome {
        MigrationAutoretryOutcome::Aborted { reason } => {
            assert!(reason.contains("runtime_unavailable"), "原因要带上错误码：{reason}");
            assert_eq!(reason, "runtime_unavailable：运行时尚未启动");
        }
        other => panic!("不可自愈错误必须停止重试，实际得到 {other:?}"),
    }
    assert_eq!(calls, 2, "不可自愈错误后不得继续探测");
}

#[test]
fn migration_recovered_classifies_states() {
    assert!(migration_recovered(CoreRuntimeState::Running, None).unwrap_or(false), "已恢复常规运行时即视为自愈");
    assert!(
        !migration_recovered(CoreRuntimeState::MigrationRequired, Some(LEGACY_APP_RUNNING_CODE)).unwrap_or(true),
        "旧版仍在运行属于可自愈原因，应继续重试"
    );
    assert!(
        migration_recovered(CoreRuntimeState::MigrationRequired, Some("legacy_import_failed")).is_err(),
        "其它迁移失败原因不得自动重试"
    );
    assert!(migration_recovered(CoreRuntimeState::MigrationRequired, None).is_err(), "没有失败原因时不得自动重试");
    assert_eq!(
        migration_recovered(CoreRuntimeState::MigrationRequired, Some("x")).unwrap_err().message,
        "迁移诊断模式的原因不是旧版心跳占用（x），不再自动重试"
    );
}

#[test]
fn failed_initialization_returns_specific_reason_without_waiting() {
    let mut slot = HostCommandServiceSlot::new(UnavailableHostCommandService::not_ready());
    slot.fail(UnavailableHostCommandService::failed("数据库损坏"));
    assert!(!slot.must_wait(), "失败后不得继续等待");
    let error = slot.current().error();
    assert!(error.message().contains("数据库损坏"), "错误必须包含具体原因，而不是笼统的稍后重试");
    assert_eq!(error.code(), "host_command_unavailable");
    assert!(error.retryable);
    let waiting = UnavailableHostCommandService::not_ready().error();
    assert_eq!(waiting, CommandError::unavailable());
}

#[test]
fn command_errors_are_built_step_by_step() {
    let error = CommandError::new("c", "m").with_retryable(true).with_diagnostic_id("diag-1");
    assert_eq!(error.code(), "c");
    assert_eq!(error.message(), "m");
    assert!(error.retryable);
    assert_eq!(error.diagnostic_id.as_deref(), Some("diag-1"));
    assert_eq!(CommandError::unavailable_message("正在启动").message, "正在启动");
    let invalid = invalid_config("codexHome", "必须是绝对路径");
    assert_eq!(invalid.code, "agent_config_invalid");
    assert!(invalid.message.contains("codexHome"));
    assert_eq!(reply_inbox_root(r"C:\cfg", "opencode-inbox"), r"C:\cfg\opencode-inbox");
}

#[test]
fn host_state_follows_the_core_and_the_outbox_gate() {
    assert_eq!(host_runtime_state(None, false), RuntimeState::Starting);
    assert_eq!(host_runtime_state(Some(CoreRuntimeState::Running), true), RuntimeState::Paused);
    assert_eq!(host_runtime_state(Some(CoreRuntimeState::Degraded), false), RuntimeState::Running);
    assert_eq!(host_runtime_state(Some(CoreRuntimeState::MigrationRequired), false), RuntimeState::Starting);
    assert_eq!(host_runtime_state(Some(CoreRuntimeState::Failed), true), RuntimeState::Failed);
}

#[test]
fn update_outcomes_map_to_interface_states() {
    let state = |code: &'static str| update_state_for_error(&UpdateError::new(code, String::new()));
    assert_eq!(state("update_version_unsupported"), UpdateStateDto::Unsupported);
    assert_eq!(state("update_up_to_date"), UpdateStateDto::UpToDate);
    assert_eq!(state("update_check_failed"), UpdateStateDto::Failed);
    let result = install_result_from_report(InstallReport {
        version: "1.2.3".to_owned(),
        signed: true,
        preview: false,
        mode: InstallMode::Archive,
        message: "ok".to_owned(),
    });
    assert_eq!(result.state, UpdateStateDto::ReadyToInstall);
    assert_eq!(result.installed_version.as_deref(), Some("1.2.3"));
    assert!(result.signed && !result.preview);
}

#[test]
fn interface_names_and_defaults_are_stable() {
    assert_eq!(BusinessCommand::SetRuntimePaused.name(), "set_runtime_paused");
    assert_eq!(BusinessCommand::GetUpdateStatus.name(), "get_update_status");
    assert_eq!(HostEvent::ChannelLoginChanged.name(), "channel.login.changed");
    let migration = LegacyMigrationDto::default();
    assert_eq!(migration.state, MigrationStateDto::NotConfigured);
    assert!(!migration.source_detected && migration.report.is_none());
    let id = UuidGenerator.next_id();
    assert_eq!(id.len(), 36);
    assert_eq!(id.matches('-').count(), 4);
}

#[test]
fn commands_wait_for_host_initialization_instead_of_failing_fast() {
    let mut slot = HostCommandServiceSlot::new(UnavailableHostCommandService::not_ready());
    assert!(slot.must_wait(), "初始化完成前命令必须等待");
    slot.replace(UnavailableHostCommandService::failed("已替换"));
    assert!(!slot.must_wait(), "初始化完成后立即返回");
    assert_eq!(slot.current().error().message(), "桌面宿主初始化失败：已替换");
}

#[test]
fn runtime_files_live_in_the_application_directories() {
    let paths = AppPaths::for_tests(r"C:\Users\u\AppData\Local\AgentNotify");
    let files = runtime_files(&paths, r"C:\Users\u\AppData\Local\Temp\");
    assert_eq!(files.database_path, r"C:\Users\u\AppData\Local\AgentNotify\data\state.db");
    assert_eq!(files.lock_path, r"C:\Users\u\AppData\Local\AgentNotify\data\AgentNotify.runtime.lock");
    assert_eq!(files.log_path, r"C:\Users\u\AppData\Local\AgentNotify\logs\runtime.log");
    assert_eq!(files.spool_dir, paths.spool_dir);
    assert_eq!(files.legacy_activity_path, r"C:\Users\u\AppData\Local\Temp\agent-notify\widget-alive.txt");
}
