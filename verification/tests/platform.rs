use agentnotify_desktop::platform::windows::{WindowsLocalIpc, cancelled_before_wait};
use agentnotify_desktop::platform::windows::paths::PathEnvironment;
use agentnotify_desktop::platform::windows::secrets::credential_target;
use agentnotify_desktop::platform::windows::tasks::TaskRegistry;
use agentnotify_desktop::platform::{
    AppPaths, BackgroundTaskError, LocalIpcError, ProcessError, ProcessOutcome, ProcessRequest, ProcessUnknownReason,
    SystemUiError, TaskState, TrayState, child_environment,
};
use std::sync::Arc;
use std::sync::atomic::{AtomicBool, Ordering};
use std::time::Duration;

#[test]
fn test_paths_sit_below_one_root() {
    let paths = AppPaths::for_tests(r"C:\iso");
    assert_eq!(paths.config_dir, r"C:\iso\config");
    assert_eq!(paths.data_dir, r"C:\iso\data");
    assert_eq!(paths.log_dir, r"C:\iso\logs");
    assert_eq!(paths.spool_dir, r"C:\iso\spool");
    assert_eq!(paths.temp_dir, r"C:\iso\temp");
}

fn env() -> PathEnvironment {
    PathEnvironment {
        user_profile: Some(r"C:\Users\me".to_owned()),
        local_app_data: Some(r"C:\Users\me\AppData\Local".to_owned()),
        ..PathEnvironment::default()
    }
}

#[test]
fn directories_come_from_the_profile_unless_overridden() {
    let paths = AppPaths::from_environment(&env()).unwrap();
    assert_eq!(paths.config_dir, r"C:\Users\me\.config\agent-notify");
    assert_eq!(paths.data_dir, r"C:\Users\me\AppData\Local\AgentNotify\data");
    assert_eq!(paths.log_dir, r"C:\Users\me\AppData\Local\AgentNotify\logs");
    assert_eq!(paths.spool_dir, r"C:\Users\me\AppData\Local\AgentNotify\spool");
    assert_eq!(paths.temp_dir, r"C:\Users\me\AppData\Local\AgentNotify\temp");

    let overridden = PathEnvironment { temp_dir: Some(r"D:\tmp\an".to_owned()), ..env() };
    assert_eq!(AppPaths::from_environment(&overridden).unwrap().temp_dir, r"D:\tmp\an");
}

#[test]
fn relative_or_missing_locations_are_refused() {
    let relative = PathEnvironment { data_dir: Some(r"relative\data".to_owned()), ..env() };
    let error = AppPaths::from_environment(&relative).unwrap_err();
    assert_eq!(error.code(), "app_paths_relative");
    assert_eq!(error.message(), "环境变量 AGENT_NOTIFY_DATA_DIR 必须配置绝对路径，不能使用当前工作目录兜底");

    let missing = PathEnvironment { local_app_data: None, ..env() };
    let error = AppPaths::from_environment(&missing).unwrap_err();
    assert_eq!(error.code(), "app_paths_environment_missing");
    assert_eq!(error.message(), "缺少必要的 Windows 环境变量 LOCALAPPDATA");

    let all_overridden = PathEnvironment {
        config_dir: Some(r"E:\c".to_owned()),
        data_dir: Some(r"E:\d".to_owned()),
        log_dir: Some(r"E:\l".to_owned()),
        spool_dir: Some(r"E:\s".to_owned()),
        temp_dir: Some(r"E:\t".to_owned()),
        user_profile: None,
        local_app_data: None,
    };
    assert!(AppPaths::from_environment(&all_overridden).is_ok());
}

#[test]
fn task_names_are_trimmed_and_unique_while_running() {
    let mut tasks = TaskRegistry::new();
    assert_eq!(tasks.register("  ingress  ").unwrap(), 1);
    assert_eq!(tasks.register("outbox").unwrap(), 2);
    let duplicate = tasks.register("ingress").unwrap_err();
    assert_eq!(duplicate.code(), "background_task_name_duplicate");
    assert_eq!(duplicate.message(), "后台任务名称重复：ingress");
    assert_eq!(tasks.register("   ").unwrap_err().code(), "background_task_name_empty");

    tasks.update_record_state(1, TaskState::Completed);
    assert_eq!(tasks.register("ingress").unwrap(), 3);
    let snapshots = tasks.snapshots();
    assert_eq!(snapshots.len(), 3);
    assert_eq!(snapshots[0].name, "ingress");
    assert_eq!(snapshots[0].state, TaskState::Completed);
    assert_eq!(snapshots[2].state, TaskState::Running);
}

#[test]
fn shutdown_refuses_new_tasks_and_marks_stragglers_unknown() {
    let mut tasks = TaskRegistry::new();
    tasks.register("a").unwrap();
    tasks.register("b").unwrap();
    tasks.update_record_state(2, TaskState::Failed);
    assert!(!tasks.begin_shutdown());
    assert!(tasks.begin_shutdown());
    assert_eq!(tasks.register("c").unwrap_err().code(), "background_tasks_shutting_down");
    tasks.mark_running_unknown();
    let states: Vec<TaskState> = tasks.snapshots().iter().map(|s| s.state).collect();
    assert_eq!(states, vec![TaskState::Unknown, TaskState::Failed]);
    assert_eq!(TaskState::Unknown.as_str(), "unknown");
    assert_eq!(TaskState::Cancelled.as_str(), "cancelled");
}

#[test]
fn credential_names_hide_the_account() {
    assert_eq!(
        credential_target("acc-1", "bot_token"),
        "AgentNotify/69f89560620a8892d13cba8ae3e5ca410542bf21cd9f1b8406721db3600fd0be"
    );
    assert_ne!(credential_target("acc-1", "bot_token"), credential_target("acc-2", "bot_token"));
}

#[test]
fn platform_errors_and_values_keep_what_they_are_given() {
    let e = ProcessError::new("process_spawn_failed", "无法启动");
    assert_eq!((e.code(), e.message()), ("process_spawn_failed", "无法启动"));
    let e = BackgroundTaskError::new("a", "b");
    assert_eq!((e.code(), e.message()), ("a", "b"));
    let e = LocalIpcError::new("pipe_busy", "管道忙");
    assert_eq!((e.code(), e.message()), ("pipe_busy", "管道忙"));
    let e = SystemUiError::new("ui", "窗口");
    assert_eq!((e.code(), e.message()), ("ui", "窗口"));
    assert_eq!(TrayState::Paused.as_str(), "paused");
    assert_eq!(WindowsLocalIpc::with_pipe_name(r"\\.\pipe\x").pipe_name(), Some(r"\\.\pipe\x"));
    assert_eq!(WindowsLocalIpc::new().pipe_name(), None);
}

#[test]
fn default_timeout_is_bounded() {
    assert_eq!(Duration::from_millis(ProcessRequest::new("test.exe").time_limit_millis()), Duration::from_secs(30));
}

#[test]
fn a_child_sees_only_allowlisted_and_explicit_variables() {
    let request = ProcessRequest::new("codex.exe")
        .args(vec!["queue".to_owned()])
        .env_allowlist(vec!["PATH".to_owned(), "HOME".to_owned(), "USERPROFILE".to_owned()])
        .env("CODEX_HOME", r"D:\codex")
        .env("PATH", r"C:\tools")
        .timeout_millis(5000);
    assert_eq!(request.program(), "codex.exe");
    assert_eq!(request.time_limit_millis(), 5000);
    assert_eq!(request.arguments(), &vec!["queue".to_owned()]);
    assert_eq!(request.working_dir(), None);
    assert_eq!(request.allowlisted_names().len(), 3);
    assert_eq!(request.clone().current_dir(r"D:\work").working_dir(), Some(r"D:\work"));
    let host = vec![Some(r"C:\Windows".to_owned()), None, Some(r"C:\Users\u".to_owned())];
    let env = child_environment(&request, &host);
    let pairs: Vec<(&str, &str)> = env.iter().map(|(k, v)| (k.as_str(), v.as_str())).collect();
    assert_eq!(
        pairs,
        vec![
            ("PATH", r"C:\Windows"),
            ("USERPROFILE", r"C:\Users\u"),
            ("CODEX_HOME", r"D:\codex"),
            ("PATH", r"C:\tools"),
        ]
    );
}

#[test]
fn a_raised_cancel_flag_ends_the_wait_as_cancelled() {
    assert_eq!(ProcessRequest::new("git.exe").cancel_requested(), None);
    let flag = Arc::new(AtomicBool::new(false));
    let request = ProcessRequest::new("git.exe").cancel_flag(flag.clone());
    assert_eq!(request.cancel_requested(), Some(false));
    assert!(cancelled_before_wait(request.cancel_requested()).is_none());
    flag.store(true, Ordering::SeqCst);
    assert_eq!(request.cancel_requested(), Some(true));
    assert!(matches!(
        cancelled_before_wait(request.cancel_requested()),
        Some(ProcessOutcome::UnknownResult { reason: ProcessUnknownReason::Cancelled })
    ));
    assert!(cancelled_before_wait(None).is_none());
}
