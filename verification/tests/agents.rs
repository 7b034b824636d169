use agentnotify_desktop::json::JsonValue;
use agentnotify_desktop::platform::AppPaths;
use agentnotify_desktop::production::agents::{
    COMMANDCODE_REPLY_INBOX_DIR, DEVIN_REPLY_INBOX_DIR, OPENCODE_REPLY_INBOX_DIR, agent_registry_settings,
    agent_seed_rows, agents_to_seed, merged_agent_config,
    antigravity_agent_settings, codex_agent_settings, commandcode_agent_settings, configured_path,
    configured_u64, devin_agent_settings, reply_inbox_root,
};
use agentnotify_desktop::production::settings::{SettingScalar, SettingValue};

fn record(fields: Vec<(&str, SettingScalar)>) -> SettingValue {
    SettingValue::Object(fields.into_iter().map(|(key, value)| (key.to_owned(), value)).collect())
}

fn text(value: &str) -> SettingScalar {
    SettingScalar::Text(value.to_owned())
}

fn number(value: u64) -> SettingScalar {
    SettingScalar::Number { as_u64: Some(value) }
}

fn inbox_root(paths: &AppPaths, dir_name: &str) -> String {
    reply_inbox_root(&paths.config_dir, dir_name)
}

#[test]
fn reply_inbox_roots_follow_the_configured_app_paths() {
    let isolated = r"D:\Temp\agentnotify-agent-registry-isolated";
    let paths = AppPaths::for_tests(isolated);
    let profile = r"C:\Users\someone";

    for inbox_dir_name in [OPENCODE_REPLY_INBOX_DIR, DEVIN_REPLY_INBOX_DIR, COMMANDCODE_REPLY_INBOX_DIR] {
        let root = reply_inbox_root(&paths.config_dir, inbox_dir_name);
        assert_eq!(root, format!(r"{}\{}", paths.config_dir, inbox_dir_name));
        assert!(root.starts_with(isolated), "{root}");
        assert!(!root.starts_with(profile), "{root}");
    }
}

#[test]
fn saved_agent_configs_override_default_locations() {
    let root = r"D:\Temp\agentnotify-agent-config-test-1";
    let paths = AppPaths::for_tests(root);

    let codex_home = format!(r"{root}\codex-home");
    let codex = codex_agent_settings(Some(&record(vec![("codexHome", text(&codex_home))])))
        .expect("Codex 配置必须可解析");
    assert_eq!(codex.codex_home.as_deref(), Some(codex_home.as_str()));

    let annotations_dir = format!(r"{root}\antigravity-annotations");
    let hooks_path = format!(r"{root}\hooks.json");
    let antigravity = antigravity_agent_settings(Some(&record(vec![
        ("annotationsDir", text(&annotations_dir)),
        ("hooksPath", text(&hooks_path)),
    ])))
    .expect("Antigravity 配置必须可解析");
    assert_eq!(antigravity.annotations_dir.as_deref(), Some(annotations_dir.as_str()));
    assert_eq!(antigravity.hooks_path.as_deref(), Some(hooks_path.as_str()));

    let reply_inbox = format!(r"{root}\devin-inbox");
    let devin = devin_agent_settings(
        &paths.config_dir,
        Some(&record(vec![
            ("sessionsDatabase", text(&format!(r"{root}\sessions.db"))),
            ("desktopStateDatabase", text(&format!(r"{root}\state.vscdb"))),
            ("replyInbox", text(&reply_inbox)),
        ])),
    )
    .expect("Devin 配置必须可解析");
    assert_eq!(devin.reply_inbox, reply_inbox);
    assert_eq!(devin.sessions_database.as_deref(), Some(format!(r"{root}\sessions.db").as_str()));
    assert_eq!(devin.desktop_state_database.as_deref(), Some(format!(r"{root}\state.vscdb").as_str()));

    let commandcode = commandcode_agent_settings(
        &paths.config_dir,
        Some(&record(vec![("commandCodeReplyWindowSec", number(120))])),
    )
    .expect("CommandCode 配置必须可解析");
    assert_eq!(commandcode.reply_window_sec, Some(120));
    let default_commandcode_inbox = inbox_root(&paths, COMMANDCODE_REPLY_INBOX_DIR);
    assert_eq!(commandcode.reply_inbox, default_commandcode_inbox);
}

#[test]
fn missing_or_cleared_config_keeps_adapter_defaults() {
    let root = r"D:\Temp\agentnotify-agent-config-default-test-1";
    let paths = AppPaths::for_tests(root);

    let codex = codex_agent_settings(None).expect("缺省配置必须可构造");
    assert_eq!(codex.codex_home, None);
    let cleared_codex = codex_agent_settings(Some(&record(vec![("codexHome", text("  "))])))
        .expect("清空的配置必须按缺省处理");
    assert_eq!(cleared_codex.codex_home, None);
    let null_codex = codex_agent_settings(Some(&record(vec![("codexHome", SettingScalar::Null)])))
        .expect("null 必须按缺省处理");
    assert_eq!(null_codex.codex_home, None);

    let antigravity = antigravity_agent_settings(None).expect("缺省配置必须可构造");
    assert_eq!(antigravity.annotations_dir, None);
    assert_eq!(antigravity.hooks_path, None);

    let devin = devin_agent_settings(&paths.config_dir, None).expect("缺省配置必须可构造");
    let devin_inbox = inbox_root(&paths, DEVIN_REPLY_INBOX_DIR);
    assert_eq!(devin.reply_inbox, devin_inbox);

    let commandcode = commandcode_agent_settings(&paths.config_dir, None).expect("缺省配置必须可构造");
    assert_eq!(commandcode.reply_window_sec, None);
    let commandcode_inbox = inbox_root(&paths, COMMANDCODE_REPLY_INBOX_DIR);
    assert_eq!(commandcode.reply_inbox, commandcode_inbox);
}

#[test]
fn invalid_agent_config_is_rejected_with_a_clear_error() {
    for config in [record(vec![("codexHome", number(42))]), record(vec![("codexHome", text("relative\\codex"))])] {
        let error = match codex_agent_settings(Some(&config)) {
            Ok(_) => panic!("无效配置必须报错"),
            Err(error) => error,
        };
        assert_eq!(error.code(), "agent_config_invalid");
        assert!(error.message().contains("codexHome"), "{}", error.message());
    }

    let invalid_paths = AppPaths::for_tests(r"D:\Temp\agentnotify-agent-config-invalid");
    let error = match commandcode_agent_settings(
        &invalid_paths.config_dir,
        Some(&record(vec![("commandCodeReplyWindowSec", SettingScalar::Number { as_u64: None })])),
    ) {
        Ok(_) => panic!("负数窗口必须报错"),
        Err(error) => error,
    };
    assert_eq!(error.code(), "agent_config_invalid");
    assert!(error.message().contains("commandCodeReplyWindowSec"), "{}", error.message());
}

#[test]
fn configuration_field_errors_name_the_key_and_reason() {
    let config = record(vec![("hooksPath", SettingScalar::Bool(true)), ("window", text("5"))]);
    let error = configured_path(&config, "hooksPath").unwrap_err();
    assert_eq!(error.message(), "Agent 配置项 hooksPath 无效：必须是字符串路径");
    let error = configured_path(&record(vec![("p", text(" rel\\x "))]), "p").unwrap_err();
    assert_eq!(error.message(), "Agent 配置项 p 无效：必须是绝对路径");
    assert_eq!(configured_path(&record(vec![("p", text(r"  C:\x  "))]), "p").unwrap().as_deref(), Some(r"C:\x"));
    assert_eq!(configured_path(&SettingValue::Array, "p").unwrap(), None);
    let error = configured_u64(&config, "window").unwrap_err();
    assert_eq!(error.message(), "Agent 配置项 window 无效：必须是非负整数");
    assert_eq!(configured_u64(&config, "missing").unwrap(), None);
    assert_eq!(configured_u64(&record(vec![("n", number(0))]), "n").unwrap(), Some(0));
}

#[test]
fn the_first_invalid_field_is_reported() {
    let config = record(vec![("annotationsDir", number(1)), ("hooksPath", text("relative"))]);
    let error = antigravity_agent_settings(Some(&config)).unwrap_err();
    assert!(error.message().contains("annotationsDir"), "{}", error.message());
    let config = record(vec![("desktopStateDatabase", text("x")), ("replyInbox", number(3))]);
    let error = devin_agent_settings(r"C:\cfg", Some(&config)).unwrap_err();
    assert!(error.message().contains("desktopStateDatabase"), "{}", error.message());
}

#[test]
fn seeding_keeps_existing_rows_and_the_default_enabled_agent() {
    let registered: Vec<String> =
        ["opencode", "codex", "antigravity", "devin", "commandcode"].iter().map(|s| s.to_string()).collect();
    let existing: Vec<String> = vec!["devin".to_owned()];
    assert_eq!(agents_to_seed(&registered, &existing), vec!["codex", "antigravity", "commandcode"]);
    assert!(agents_to_seed(&registered, &registered).is_empty());
    assert_eq!(agents_to_seed(&registered, &Vec::new()).len(), 4);
}

#[test]
fn registry_settings_read_each_agent_and_report_the_first_invalid_one() {
    let paths = AppPaths::for_tests(r"D:\Temp\agentnotify-registry");
    let configs: Vec<(String, SettingValue)> = vec![
        ("devin".to_owned(), record(vec![("replyInbox", text(r"E:\inbox"))])),
        ("codex".to_owned(), record(vec![("codexHome", SettingScalar::Null)])),
    ];
    let settings = agent_registry_settings(&paths.config_dir, &configs).unwrap();
    assert_eq!(settings.opencode_reply_inbox, inbox_root(&paths, OPENCODE_REPLY_INBOX_DIR));
    assert_eq!(settings.codex.codex_home, None);
    assert_eq!(settings.devin.reply_inbox, r"E:\inbox");
    assert_eq!(settings.commandcode.reply_inbox, inbox_root(&paths, COMMANDCODE_REPLY_INBOX_DIR));

    let broken: Vec<(String, SettingValue)> = vec![
        ("commandcode".to_owned(), record(vec![("commandCodeReplyWindowSec", text("x"))])),
        ("antigravity".to_owned(), record(vec![("hooksPath", text("relative"))])),
    ];
    let error = agent_registry_settings(&paths.config_dir, &broken).unwrap_err();
    assert_eq!(error.message(), "Agent 配置项 hooksPath 无效：必须是绝对路径");
}

#[test]
fn agent_updates_keep_what_they_leave_out() {
    let saved = (false, record(vec![("codexHome", text(r"C:\codex"))]));
    let (enabled, config) = merged_agent_config(Some(saved.clone()), None, None);
    assert!(!enabled);
    assert!(matches!(config, SettingValue::Object(ref fields) if fields.len() == 1));
    let (enabled, _) = merged_agent_config(Some(saved), Some(true), None);
    assert!(enabled);
    let (enabled, config) = merged_agent_config(None, None, None);
    assert!(enabled, "没有配置行的 Agent 视为启用");
    assert!(matches!(config, SettingValue::Object(ref fields) if fields.is_empty()));
}

#[test]
fn seeded_rows_are_disabled_with_an_empty_configuration() {
    let registered: Vec<String> = ["opencode", "codex", "devin"].iter().map(|s| s.to_string()).collect();
    let rows = agent_seed_rows(&registered, &vec!["devin".to_owned()]);
    assert_eq!(rows.len(), 1);
    assert_eq!(rows[0].agent_id, "codex");
    assert!(!rows[0].enabled);
    assert!(matches!(&rows[0].config, JsonValue::Object(members) if members.is_empty()));
}
