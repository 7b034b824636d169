use agentnotify_desktop::bridge::dto::{DeliveryStateDto, LoginSessionStateDto, MigrationStateDto};
use agentnotify_desktop::production::events::{DeliveryState, LoginSessionState};
use agentnotify_desktop::production::records::{
    DeliveryViewRecord, LoginSession, MigrationIssue, MigrationReport, MigrationSnapshot, MigrationState,
    MigrationWarning, NotificationRecord, RecordedError, map_delivery_view_record, map_login_session_dto,
    map_migration_snapshot, map_notification_record, notification_preview,
};

#[test]
fn previews_keep_the_first_hundred_characters() {
    assert_eq!(notification_preview("短消息"), "短消息");
    let long: String = "提醒".repeat(80);
    let preview = notification_preview(&long);
    assert_eq!(preview.chars().count(), 100);
    assert!(long.starts_with(&preview));
    assert_eq!(notification_preview(&"a".repeat(100)), "a".repeat(100));
    assert_eq!(notification_preview(""), "");
}

#[test]
fn notification_records_show_a_preview_and_delivery_states() {
    let record = NotificationRecord {
        id: "n-1".to_owned(),
        agent_id: "codex".to_owned(),
        session_id: Some("s-1".to_owned()),
        session_title: None,
        title: "完成".to_owned(),
        body: "x".repeat(120),
        occurred_at: "2025-01-01T00:00:00Z".to_owned(),
        delivery_states: vec![DeliveryState::Sent, DeliveryState::Unknown],
    };
    let dto = map_notification_record(record);
    assert_eq!(dto.id, "n-1");
    assert_eq!(dto.agent_id, "codex");
    assert_eq!(dto.session_id.as_deref(), Some("s-1"));
    assert_eq!(dto.preview, "x".repeat(100));
    assert_eq!(dto.occurred_at, "2025-01-01T00:00:00Z");
    assert_eq!(dto.delivery_states, vec![DeliveryStateDto::Sent, DeliveryStateDto::Unknown]);
}

#[test]
fn deliveries_and_login_sessions_expose_only_safe_errors() {
    let delivery = map_delivery_view_record(DeliveryViewRecord {
        id: "d-1".to_owned(),
        notification_id: "n-1".to_owned(),
        channel_id: "clawbot".to_owned(),
        account_id: "acc".to_owned(),
        state: DeliveryState::Failed,
        external_message_id: None,
        error: Some(RecordedError { code: "send_failed".to_owned(), message: "发送失败".to_owned() }),
        can_retry: true,
        updated_at: "2025-01-01T00:00:01Z".to_owned(),
    });
    assert_eq!(delivery.state, DeliveryStateDto::Failed);
    assert!(delivery.retryable);
    assert_eq!(delivery.error.as_ref().map(|e| e.code.as_str()), Some("send_failed"));

    let session = map_login_session_dto(LoginSession {
        id: "login-1".to_owned(),
        account_id: None,
        account_key: "key".to_owned(),
        state: LoginSessionState::Expired,
        qr_payload: Some("qr".to_owned()),
        created_at: "2025-01-01T00:00:02Z".to_owned(),
        error: Some(RecordedError { code: "expired".to_owned(), message: "二维码已过期".to_owned() }),
    });
    assert_eq!(session.state, LoginSessionStateDto::Expired);
    assert_eq!(session.message.as_deref(), Some("二维码已过期"));
    assert_eq!(session.error.map(|e| e.code), Some("expired".to_owned()));
    assert_eq!(session.qr_payload.as_deref(), Some("qr"));
}

#[test]
fn migration_snapshots_keep_counts_and_warnings() {
    let dto = map_migration_snapshot(MigrationSnapshot {
        state: MigrationState::Partial,
        source_detected: true,
        report_file: Some(r"C:\cfg\migration.json".to_owned()),
        report: Some(MigrationReport {
            imported_at: Some("2025-01-01T00:00:00Z".to_owned()),
            source_file_count: 3,
            settings_imported: 1,
            agent_configs_imported: 2,
            accounts_imported: 1,
            notifications_imported: (1u64 << 32) + 7,
            deliveries_imported: 9,
            routes_imported: 4,
            claims_imported: 0,
            skipped_records: 1,
            warnings: vec![MigrationWarning { code: "w".to_owned(), file: "a.json".to_owned(), record: Some(2) }],
        }),
        error: Some(MigrationIssue {
            code: "legacy_app_running".to_owned(),
            message: "旧版仍在运行".to_owned(),
            file: None,
            field: None,
        }),
    });
    assert_eq!(dto.state, MigrationStateDto::Partial);
    assert!(dto.source_detected);
    let report = dto.report.expect("报告必须保留");
    assert_eq!(report.source_file_count, 3);
    assert_eq!(report.notifications_imported, 7, "计数按 u32 截断");
    assert_eq!(report.warnings.len(), 1);
    assert_eq!(report.warnings[0].record, Some(2));
    assert_eq!(dto.error.map(|e| e.code), Some("legacy_app_running".to_owned()));
}
