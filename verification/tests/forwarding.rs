use agentnotify_desktop::json::JsonValue;
use agentnotify_desktop::production::commands::{
    DeliveryPoll, TEST_DELIVERY_POLL_MILLIS, TEST_DELIVERY_WAIT_MILLIS, keep_waiting_for_delivery,
    new_test_notification_event, test_delivery_poll, test_notification_event, test_notification_result,
};
use agentnotify_desktop::production::events::{
    ACCOUNT_ADDED_REASON, DeliveryState, LoginSessionState, RuntimeEventKind, delivery_changed_event,
    login_restart_key, login_restarted, runtime_event_reason,
};

#[test]
fn a_login_waiting_for_the_first_message_restarts_the_runtime_once() {
    let mut restarted: Vec<String> = Vec::new();
    assert_eq!(login_restart_key("s1", Some("acc"), LoginSessionState::QrReady, &restarted), None);
    assert_eq!(login_restart_key("s1", None, LoginSessionState::WaitingFirstInbound, &restarted), None);
    let key = login_restart_key("s1", Some("acc"), LoginSessionState::WaitingFirstInbound, &restarted).unwrap();
    assert_eq!(key, "s1:acc");
    let event = login_restarted(&mut restarted, key);
    assert_eq!(event.reason, ACCOUNT_ADDED_REASON);
    assert_eq!(event.reason, "channel_account_added");
    assert_eq!(restarted, vec!["s1:acc".to_owned()]);
    assert_eq!(login_restart_key("s1", Some("acc"), LoginSessionState::WaitingFirstInbound, &restarted), None);
    assert_eq!(
        login_restart_key("s2", Some("acc"), LoginSessionState::WaitingFirstInbound, &restarted).as_deref(),
        Some("s2:acc")
    );
    assert_eq!(login_restart_key("s1", Some("acc"), LoginSessionState::Paired, &restarted), None);
}

#[test]
fn runtime_events_are_forwarded_with_their_reasons() {
    assert_eq!(runtime_event_reason(RuntimeEventKind::NotificationChanged), Some("notification_changed"));
    assert_eq!(runtime_event_reason(RuntimeEventKind::ReplyChanged), Some("reply_changed"));
    assert_eq!(runtime_event_reason(RuntimeEventKind::RuntimeStopped), Some("runtime_stopped"));
    assert_eq!(runtime_event_reason(RuntimeEventKind::DeliveryChanged), None);
    let event = delivery_changed_event("d-7");
    assert_eq!(event.delivery_id, "d-7");
    assert!(event.notification_id.is_none());
    assert!(event.state.is_none());
}

#[test]
fn the_test_delivery_is_polled_until_it_settles_or_time_runs_out() {
    assert_eq!(TEST_DELIVERY_WAIT_MILLIS, 5000);
    assert_eq!(TEST_DELIVERY_POLL_MILLIS, 150);
    assert!(keep_waiting_for_delivery(0));
    assert!(keep_waiting_for_delivery(4999));
    assert!(!keep_waiting_for_delivery(5000));
    assert_eq!(test_delivery_poll(None), DeliveryPoll::LookAgain);
    assert_eq!(test_delivery_poll(Some(DeliveryState::Pending)), DeliveryPoll::LookAgain);
    assert_eq!(test_delivery_poll(Some(DeliveryState::Sent)), DeliveryPoll::Settled);
    assert_eq!(test_delivery_poll(Some(DeliveryState::Failed)), DeliveryPoll::Settled);
    let result = test_notification_result(None);
    assert!(result.accepted);
    assert!(result.delivery.is_none());
}

fn text_of<'a>(members: &'a [(String, JsonValue)], key: &str) -> &'a str {
    match members.iter().find(|(k, _)| k == key) {
        Some((_, JsonValue::Text(t))) => t,
        other => panic!("no text under {key}: {other:?}"),
    }
}

#[test]
fn the_test_notification_is_a_completed_session_for_the_target_account() {
    let event = test_notification_event("标题", "内容", "acc-1", "s-1", "r-1");
    assert_eq!(event.request_id, "req-test-r-1");
    assert_eq!(event.agent_id, "opencode");
    let JsonValue::Object(members) = &event.payload else { panic!("payload is not an object") };
    assert_eq!(members.len(), 5);
    assert_eq!(text_of(members, "eventType"), "session.completed");
    assert_eq!(text_of(members, "sessionId"), "test-session-s-1");
    assert_eq!(text_of(members, "title"), "标题");
    assert_eq!(text_of(members, "body"), "内容");
    match members.iter().find(|(k, _)| k == "metadata") {
        Some((_, JsonValue::Object(meta))) => assert_eq!(text_of(meta, "targetAccountId"), "acc-1"),
        other => panic!("no metadata: {other:?}"),
    }
    let fresh = new_test_notification_event("t", "b", "acc");
    assert!(fresh.request_id.starts_with("req-test-"));
    assert_eq!(fresh.request_id.len(), "req-test-".len() + 36);
}
