use agentnotify_desktop::bridge::dto::{QuietHoursDto, SettingsDto, UpdateChannelDto};
use agentnotify_desktop::production::settings::{
    SettingScalar, SettingValue, default_account_decision, dto_to_entries, entries_to_dto, legacy_pause_entry,
    parse_quiet_hours, validate_settings_dto,
};

fn settings() -> SettingsDto {
    SettingsDto {
        notifications_paused: true,
        quiet_hours: Some(QuietHoursDto { enabled: true, start: "22:30".to_owned(), end: "07:05".to_owned() }),
        cooldown_seconds: 90,
        default_channel_account_id: Some("acc-1".to_owned()),
        reply_enabled: true,
        delivery_receipt_enabled: false,
        route_ttl_seconds: 3600,
        auto_start: true,
        start_hidden: false,
        update_channel: UpdateChannelDto::Beta,
    }
}

fn text(s: &str) -> SettingValue {
    SettingValue::Text(s.to_owned())
}

#[test]
fn saved_settings_read_back_unchanged() {
    let dto = settings();
    let entries = dto_to_entries(&dto);
    assert_eq!(entries_to_dto(&entries), dto);
    let keys: Vec<&str> = entries.iter().map(|e| e.0.as_str()).collect();
    let mut sorted = keys.clone();
    sorted.sort();
    assert_eq!(keys, sorted);
}

#[test]
fn written_entries_hold_text_minutes_and_null() {
    let mut dto = settings();
    dto.default_channel_account_id = None;
    dto.quiet_hours = Some(QuietHoursDto { enabled: false, start: "22:00".to_owned(), end: "07:00".to_owned() });
    let entries = dto_to_entries(&dto);
    let get = |k: &str| entries.iter().find(|e| e.0 == k).map(|e| e.1.clone()).unwrap();
    assert!(matches!(get("notification.cooldownMin"), SettingValue::Number { as_u64: Some(2) }));
    assert!(matches!(get("notification.defaultChannelAccountId"), SettingValue::Null));
    assert!(matches!(get("notification.quietHours"), SettingValue::Text(t) if t.is_empty()));
    assert!(matches!(get("updateChannel"), SettingValue::Text(t) if t == "beta"));
    assert_eq!(entries_to_dto(&entries).quiet_hours, None);
}

#[test]
fn missing_entries_take_their_defaults() {
    let dto = entries_to_dto(&Vec::new());
    assert!(!dto.notifications_paused);
    assert_eq!(dto.quiet_hours, None);
    assert_eq!(dto.cooldown_seconds, 0);
    assert_eq!(dto.route_ttl_seconds, 86400);
    assert_eq!(dto.update_channel, UpdateChannelDto::Stable);
    let legacy = vec![
        ("notification.cooldownMin".to_owned(), SettingValue::Number { as_u64: Some(3) }),
        ("notification.defaultChannelAccountId".to_owned(), text("   ")),
        ("updateChannel".to_owned(), text("nightly")),
    ];
    let dto = entries_to_dto(&legacy);
    assert_eq!(dto.cooldown_seconds, 180);
    assert_eq!(dto.default_channel_account_id, None);
    assert_eq!(dto.update_channel, UpdateChannelDto::Stable);
}

#[test]
fn quiet_hours_text_is_normalized() {
    let q = parse_quiet_hours(Some(&text(" 22 - 7:5 "))).unwrap();
    assert!(q.enabled);
    assert_eq!((q.start.as_str(), q.end.as_str()), ("22:00", "07:05"));
    assert_eq!(parse_quiet_hours(Some(&text("24:00-07:00"))), None);
    assert_eq!(parse_quiet_hours(Some(&text("22:00"))), None);
    assert_eq!(parse_quiet_hours(Some(&text(""))), None);
    assert_eq!(parse_quiet_hours(Some(&SettingValue::Bool(true))), None);
    let object = SettingValue::Object(vec![
        ("enabled".to_owned(), SettingScalar::Bool(false)),
        ("end".to_owned(), SettingScalar::Text("06:00".to_owned())),
    ]);
    let q = parse_quiet_hours(Some(&object)).unwrap();
    assert!(!q.enabled);
    assert_eq!((q.start.as_str(), q.end.as_str()), ("22:00", "06:00"));
}

#[test]
fn settings_outside_their_ranges_are_not_saved() {
    assert!(validate_settings_dto(&settings()).is_ok());
    let mut dto = settings();
    dto.cooldown_seconds = 3601;
    assert_eq!(validate_settings_dto(&dto).unwrap_err().code, "cooldown_seconds_out_of_range");
    let mut dto = settings();
    dto.route_ttl_seconds = 59;
    assert_eq!(validate_settings_dto(&dto).unwrap_err().code, "route_ttl_out_of_range");
    dto.route_ttl_seconds = 604801;
    assert_eq!(validate_settings_dto(&dto).unwrap_err().code, "route_ttl_out_of_range");
    let mut dto = settings();
    dto.quiet_hours = Some(QuietHoursDto { enabled: true, start: " ".to_owned(), end: "07:00".to_owned() });
    assert_eq!(validate_settings_dto(&dto).unwrap_err().code, "quiet_hours_invalid");
    dto.quiet_hours = Some(QuietHoursDto { enabled: true, start: "07:00".to_owned(), end: "07:00".to_owned() });
    let error = validate_settings_dto(&dto).unwrap_err();
    assert_eq!(error.code, "quiet_hours_same");
    assert_eq!(error.message, "勿扰时段的开始和结束时间不能相同");
    dto.quiet_hours = Some(QuietHoursDto { enabled: false, start: "07:00".to_owned(), end: "07:00".to_owned() });
    assert!(validate_settings_dto(&dto).is_ok());
}

#[test]
fn first_bound_account_becomes_the_default_only_once() {
    assert_eq!(default_account_decision(&None, " acc-1 ").unwrap().as_deref(), Some("acc-1"));
    assert_eq!(default_account_decision(&Some("  ".to_owned()), "acc-2").unwrap().as_deref(), Some("acc-2"));
    assert_eq!(default_account_decision(&Some("acc-1".to_owned()), "acc-2").unwrap(), None);
    assert_eq!(default_account_decision(&None, "  ").unwrap_err().code, "default_channel_account_empty");
}

#[test]
fn the_older_settings_file_supplies_a_missing_pause_flag() {
    assert_eq!(legacy_pause_entry(false, Some(r#"{"notificationsPaused": true}"#)), Some(true));
    assert_eq!(legacy_pause_entry(false, Some(r#"{"paused": false, "x": 1}"#)), Some(false));
    assert_eq!(legacy_pause_entry(false, Some(r#"{"notificationsPaused": "yes", "paused": true}"#)), None);
    assert_eq!(legacy_pause_entry(false, Some(r#"{"notificationsPaused": false, "paused": true}"#)), Some(false));
    assert_eq!(legacy_pause_entry(true, Some(r#"{"notificationsPaused": true}"#)), None);
    assert_eq!(legacy_pause_entry(false, None), None);
    assert_eq!(legacy_pause_entry(false, Some("{")), None);
    assert_eq!(legacy_pause_entry(false, Some("true")), None);
    assert_eq!(legacy_pause_entry(false, Some("{}")), None);
}
