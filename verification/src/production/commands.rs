//! Checks and answers of the host commands that do not depend on the runtime's internals.
use vstd::prelude::*;

use crate::bridge::dto::{DeliveryDto, RuntimeLifecycleStateDto, RuntimeSummaryDto, TestNotificationResultDto};
use crate::production::events::DeliveryState;
use crate::bridge::error::CommandError;
use crate::json::JsonValue;
use crate::production::runtime::{hyphenated_uuid, random_uuid_text};
use crate::text::{concat, trim, trim_str};

verus! {

/// The trimmed title and body of a test notification, or the first missing piece.
pub open spec fn test_notification_spec(title: Seq<char>, body: Seq<char>, account_id: Seq<char>) -> Result<
    (Seq<char>, Seq<char>),
    (Seq<char>, Seq<char>),
> {
    if trim(title).len() == 0 {
        Err(("title_empty"@, "测试通知标题不能为空"@))
    } else if trim(body).len() == 0 {
        Err(("body_empty"@, "测试通知内容不能为空"@))
    } else if trim(account_id).len() == 0 {
        Err(("account_empty"@, "请指定发送测试的目标账号"@))
    } else {
        Ok((trim(title), trim(body)))
    }
}

/// A test notification needs a title, a body and a target account; title and body are
/// sent trimmed.
pub fn validate_test_notification(title: &str, body: &str, account_id: &str) -> (r: Result<
    (String, String),
    CommandError,
>)
    ensures
        match test_notification_spec(title@, body@, account_id@) {
            Ok(p) => r matches Ok(x) && x.0@ == p.0 && x.1@ == p.1,
            Err(e) => r matches Err(x) && x.code@ == e.0 && x.message@ == e.1,
        },
{
    let t = trim_str(title);
    let b = trim_str(body);
    if t.as_str().is_empty() {
        return Err(CommandError::new("title_empty", "测试通知标题不能为空"));
    }
    if b.as_str().is_empty() {
        return Err(CommandError::new("body_empty", "测试通知内容不能为空"));
    }
    if trim_str(account_id).as_str().is_empty() {
        return Err(CommandError::new("account_empty", "请指定发送测试的目标账号"));
    }
    Ok((t, b))
}

/// A test notification that the policy skipped: the reason is the code.
pub fn skipped_notification_error(reason: &str) -> (r: CommandError)
    ensures
        r.code@ == reason@,
        r.message@ == "测试通知被策略跳过："@ + reason@,
{
    CommandError::new(reason, concat("测试通知被策略跳过：", reason).as_str())
}

/// The runtime summary after pausing or resuming.
pub fn paused_summary(app_version: String, platform: String, paused: bool) -> (r: RuntimeSummaryDto)
    ensures
        r.app_version == app_version,
        r.platform == platform,
        r.paused == paused,
        r.state == (if paused {
            RuntimeLifecycleStateDto::Paused
        } else {
            RuntimeLifecycleStateDto::Running
        }),
{
    RuntimeSummaryDto {
        app_version,
        platform,
        state: if paused {
            RuntimeLifecycleStateDto::Paused
        } else {
            RuntimeLifecycleStateDto::Running
        },
        paused,
    }
}

// ---------------------------------------------------------------- waiting for the test delivery
/// How long sending a test notification waits for its delivery to settle.
pub const TEST_DELIVERY_WAIT_MILLIS: u64 = 5000;

/// The pause between two looks at the test notification's delivery.
pub const TEST_DELIVERY_POLL_MILLIS: u64 = 150;

/// What follows a look at the test notification's first delivery.
#[derive(Clone, Copy, Debug, PartialEq, Eq, Structural)]
pub enum DeliveryPoll {
    /// The delivery left `Pending`: report it.
    Settled,
    /// Wait `TEST_DELIVERY_POLL_MILLIS` and look again.
    LookAgain,
}

/// Whether to look at the delivery (again): only while less than the waiting time has
/// passed since sending; after it, the delivery is read once more and reported as it is.
pub fn keep_waiting_for_delivery(elapsed_millis: u64) -> (b: bool)
    ensures
        b == (elapsed_millis < TEST_DELIVERY_WAIT_MILLIS),
{
    elapsed_millis < TEST_DELIVERY_WAIT_MILLIS
}

/// After a look at the first delivery (none while it does not exist yet): it is settled
/// once it is no longer `Pending`.
pub fn test_delivery_poll(first_state: Option<DeliveryState>) -> (r: DeliveryPoll)
    ensures
        r == (if first_state matches Some(s) && s != DeliveryState::Pending {
            DeliveryPoll::Settled
        } else {
            DeliveryPoll::LookAgain
        }),
{
    match first_state {
        Some(s) => if s != DeliveryState::Pending {
            DeliveryPoll::Settled
        } else {
            DeliveryPoll::LookAgain
        },
        None => DeliveryPoll::LookAgain,
    }
}

/// The answer to sending a test notification: accepted, with its delivery when one exists.
pub fn test_notification_result(delivery: Option<DeliveryDto>) -> (r: TestNotificationResultDto)
    ensures
        r.accepted,
        r.delivery == delivery,
{
    TestNotificationResultDto { accepted: true, delivery }
}

// ---------------------------------------------------------------- the test event
/// The agent a test notification is sent as.
pub const TEST_AGENT_ID: &'static str = "opencode";

/// The event type of a test notification.
pub const TEST_EVENT_TYPE: &'static str = "session.completed";

/// An event handed to the runtime: its request id, the sending agent and the payload.
#[derive(Debug)]
pub struct TestEvent {
    pub request_id: String,
    pub agent_id: String,
    pub payload: JsonValue,
}

/// A member holding a text.
pub open spec fn text_member(m: (String, JsonValue), key: Seq<char>, text: Seq<char>) -> bool {
    &&& m.0@ == key
    &&& m.1 matches JsonValue::Text(t) && t@ == text
}

/// The test event for a title, body and target account, with the session and request ids
/// made of the given UUID texts: `session.completed` of a test session, with the target
/// account in the metadata.
pub open spec fn test_event_shape(
    e: TestEvent,
    title: Seq<char>,
    body: Seq<char>,
    account_id: Seq<char>,
    session_uuid: Seq<char>,
    request_uuid: Seq<char>,
) -> bool {
    &&& e.request_id@ == "req-test-"@ + request_uuid
    &&& e.agent_id@ == TEST_AGENT_ID@
    &&& e.payload matches JsonValue::Object(m) && {
        &&& m@.len() == 5
        &&& text_member(m@[0], "body"@, body)
        &&& text_member(m@[1], "eventType"@, TEST_EVENT_TYPE@)
        &&& m@[2].0@ == "metadata"@
        &&& m@[2].1 matches JsonValue::Object(meta) && meta@.len() == 1 && text_member(
            meta@[0],
            "targetAccountId"@,
            account_id,
        )
        &&& text_member(m@[3], "sessionId"@, "test-session-"@ + session_uuid)
        &&& text_member(m@[4], "title"@, title)
    }
}

/// Builds the test event; `title` and `body` are the checked (trimmed) ones.
pub fn test_notification_event(
    title: &str,
    body: &str,
    account_id: &str,
    session_uuid: &str,
    request_uuid: &str,
) -> (r: TestEvent)
    ensures
        test_event_shape(r, title@, body@, account_id@, session_uuid@, request_uuid@),
{
    let mut meta: Vec<(String, JsonValue)> = Vec::new();
    meta.push((String::from_str("targetAccountId"), JsonValue::Text(String::from_str(account_id))));
    let mut members: Vec<(String, JsonValue)> = Vec::new();
    members.push((String::from_str("body"), JsonValue::Text(String::from_str(body))));
    members.push((String::from_str("eventType"), JsonValue::Text(String::from_str(TEST_EVENT_TYPE))));
    members.push((String::from_str("metadata"), JsonValue::Object(meta)));
    members.push((String::from_str("sessionId"), JsonValue::Text(concat("test-session-", session_uuid))));
    members.push((String::from_str("title"), JsonValue::Text(String::from_str(title))));
    TestEvent {
        request_id: concat("req-test-", request_uuid),
        agent_id: String::from_str(TEST_AGENT_ID),
        payload: JsonValue::Object(members),
    }
}

/// The test event with fresh random session and request ids.
pub fn new_test_notification_event(title: &str, body: &str, account_id: &str) -> (r: TestEvent)
    ensures
        exists|s: Seq<char>, q: Seq<char>|
            hyphenated_uuid(s) && hyphenated_uuid(q) && #[trigger] test_event_shape(r, title@, body@, account_id@, s, q),
{
    let session = random_uuid_text();
    let request = random_uuid_text();
    let r = test_notification_event(title, body, account_id, session.as_str(), request.as_str());
    assert(test_event_shape(r, title@, body@, account_id@, session@, request@));
    r
}

} // verus!
