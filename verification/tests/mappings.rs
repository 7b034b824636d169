use agentnotify_desktop::bridge::dto::{
    ComponentStateDto, DeliveryStateDto, DiagnosticLevelDto, RuntimeLifecycleStateDto, SafeErrorDto,
};
use agentnotify_desktop::platform::windows::{ProcessWaitEvent, check_program, process_result, spawn_error};
use agentnotify_desktop::platform::{ProcessError, ProcessOutcome, ProcessUnknownReason};
use agentnotify_desktop::production::commands::{paused_summary, skipped_notification_error, validate_test_notification};
use agentnotify_desktop::production::events::{
    DeliveryState, LoginSessionState, delivery_state_filter, map_delivery_state, map_login_session_event,
};
use agentnotify_desktop::production::mapping::{
    ComponentState, DiagnosticLevel, InboundMode, component_state_dto, diagnostic_level_dto,
    AccountConfig, inbound_mode_name, is_sensitive_config_key, sanitize_account_config, snapshot_lifecycle_state,
    storage_status,
};
use agentnotify_desktop::production::runtime::CoreRuntimeState;
use agentnotify_desktop::update::error::UpdateError;
use agentnotify_desktop::update::install::{
    AppliedAction, apply_preconditions, backup_failed_error, keep_first_error, record_applied_file, record_failed_write,
    rollback_delete_error, rollback_order,
};

#[test]
fn snapshot_states_prefer_migration_then_pause() {
    assert_eq!(
        snapshot_lifecycle_state(true, true, CoreRuntimeState::Running),
        RuntimeLifecycleStateDto::MigrationRequired
    );
    assert_eq!(snapshot_lifecycle_state(false, true, CoreRuntimeState::Running), RuntimeLifecycleStateDto::Paused);
    assert_eq!(snapshot_lifecycle_state(false, false, CoreRuntimeState::Degraded), RuntimeLifecycleStateDto::Running);
    assert_eq!(component_state_dto(ComponentState::Stopping), ComponentStateDto::Stopped);
    assert_eq!(component_state_dto(ComponentState::Unknown), ComponentStateDto::Failed);
    assert_eq!(diagnostic_level_dto(DiagnosticLevel::Warning), DiagnosticLevelDto::Waiting);
    assert_eq!(inbound_mode_name(InboundMode::LongPolling), "long_polling");
    let storage = storage_status(
        (1u64 << 32) + 5,
        7,
        0,
        Some(SafeErrorDto { code: "c".to_owned(), message: "m".to_owned() }),
    );
    assert_eq!(storage.notification_count, 5);
    assert_eq!(storage.delivery_count, 7);
    assert_eq!(storage.recent_error.unwrap().code, "c");
}

#[test]
fn account_configuration_hides_credentials() {
    assert!(is_sensitive_config_key("botToken"));
    assert!(is_sensitive_config_key("CLIENT_SECRET"));
    assert!(is_sensitive_config_key("Password"));
    assert!(!is_sensitive_config_key("userId"));
    let fields = vec![
        ("userId".to_owned(), 1),
        ("botToken".to_owned(), 2),
        ("region".to_owned(), 3),
        ("apiSecret".to_owned(), 4),
    ];
    match sanitize_account_config(AccountConfig::Object(fields)) {
        AccountConfig::Object(shown) => assert_eq!(shown, vec![("userId".to_owned(), 1), ("region".to_owned(), 3)]),
        other => panic!("unexpected configuration: {other:?}"),
    }
    match sanitize_account_config(AccountConfig::Other(7)) {
        AccountConfig::Other(value) => assert_eq!(value, 7),
        other => panic!("unexpected configuration: {other:?}"),
    }
}

#[test]
fn delivery_states_map_both_ways() {
    for shown in [
        DeliveryStateDto::Pending,
        DeliveryStateDto::Sent,
        DeliveryStateDto::Failed,
        DeliveryStateDto::Unknown,
        DeliveryStateDto::Skipped,
    ] {
        assert_eq!(map_delivery_state(delivery_state_filter(shown)), shown);
    }
    assert_eq!(delivery_state_filter(DeliveryStateDto::Sent), DeliveryState::Sent);
    let event = map_login_session_event(Some("acc".to_owned()), "s-1".to_owned(), LoginSessionState::QrReady, None);
    assert_eq!(event.session_id.as_deref(), Some("s-1"));
    assert_eq!(event.account_id.as_deref(), Some("acc"));
}

#[test]
fn test_notifications_need_all_parts() {
    let (title, body) = validate_test_notification(" 标题 ", " 内容\n", "acc").unwrap();
    assert_eq!((title.as_str(), body.as_str()), ("标题", "内容"));
    assert_eq!(validate_test_notification(" ", "b", "a").unwrap_err().code, "title_empty");
    assert_eq!(validate_test_notification("t", "", "a").unwrap_err().code, "body_empty");
    assert_eq!(validate_test_notification("t", "b", " ").unwrap_err().message, "请指定发送测试的目标账号");
    let skipped = skipped_notification_error("quiet_hours");
    assert_eq!(skipped.code, "quiet_hours");
    assert_eq!(skipped.message, "测试通知被策略跳过：quiet_hours");
    let summary = paused_summary("1.0.0".to_owned(), "windows".to_owned(), true);
    assert_eq!(summary.state, RuntimeLifecycleStateDto::Paused);
    assert!(summary.paused);
}

#[test]
fn waits_that_time_out_or_are_cancelled_give_unknown_results() {
    assert!(process_result(ProcessWaitEvent::TimedOut).unwrap().is_unknown());
    assert_eq!(
        process_result(ProcessWaitEvent::Cancelled).unwrap(),
        ProcessOutcome::UnknownResult { reason: ProcessUnknownReason::Cancelled }
    );
    let failed = process_result(ProcessWaitEvent::Finished(Err(ProcessError::new("process_io_failed", "x"))));
    assert_eq!(failed.unwrap_err().code(), "process_io_failed");
    assert_eq!(check_program("").unwrap_err().message(), "进程程序路径不能为空");
    assert!(check_program("git.exe").is_ok());
    assert_eq!(spawn_error("git.exe", "not found").message(), "无法启动进程 git.exe：not found");
}

#[test]
fn replaced_files_are_undone_last_first() {
    assert_eq!(apply_preconditions(r"C:\app", false, 3).unwrap_err().message(), r"安装目录不可用：C:\app");
    assert_eq!(apply_preconditions(r"C:\app", true, 0).unwrap_err().code(), "update_release_layout_invalid");
    assert!(apply_preconditions(r"C:\app", true, 1).is_ok());

    let mut actions = Vec::new();
    record_applied_file(&mut actions, "a.exe", true);
    record_applied_file(&mut actions, "b.dll", false);
    let undo = rollback_order(&actions);
    let names: Vec<String> = undo
        .iter()
        .map(|a| match a {
            AppliedAction::Created(p) => format!("created:{p}"),
            AppliedAction::BackedUp(p) => format!("backup:{p}"),
        })
        .collect();
    assert_eq!(names, vec!["created:b.dll", "created:a.exe", "backup:a.exe"]);

    record_failed_write(&mut actions, "c.dll", true);
    record_failed_write(&mut actions, "d.dll", false);
    assert_eq!(actions.len(), 4);
    assert!(matches!(rollback_order(&actions).first(), Some(AppliedAction::BackedUp(p)) if p == "c.dll"));

    let first = rollback_delete_error(r"C:\app\b.dll", "denied");
    assert_eq!(first.message(), r"删除更新文件失败（C:\app\b.dll）：denied");
    let kept = keep_first_error(Some(first.clone()), Some(UpdateError::new("x", String::new())));
    assert_eq!(kept, Some(first));
    assert_eq!(backup_failed_error("t", "e").code(), "update_install_failed");
}
