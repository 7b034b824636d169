//! States of channel logins and deliveries as the interface shows them.
use vstd::prelude::*;

use crate::bridge::dto::{DeliveryStateDto, LoginSessionStateDto};
use crate::bridge::events::{ChannelLoginChangedEvent, DeliveryChangedEvent, SnapshotChangedEvent};
use crate::production::agents::{contains_text, string_views};
use crate::text::concat3;

verus! {

/// State of a channel login session in the channel layer.
#[derive(Clone, Copy, Debug, PartialEq, Eq, Structural)]
pub enum LoginSessionState {
    Preparing,
    QrReady,
    WaitingScan,
    NeedVerifyCode,
    WaitingFirstInbound,
    Paired,
    Expired,
    Blocked,
    Failed,
}

/// State of a delivery in the domain.
#[derive(Clone, Copy, Debug, PartialEq, Eq, Structural)]
pub enum DeliveryState {
    Pending,
    Sent,
    Failed,
    Unknown,
    Skipped,
}

pub open spec fn login_state_dto(state: LoginSessionState) -> LoginSessionStateDto {
    match state {
        LoginSessionState::Preparing => LoginSessionStateDto::Preparing,
        LoginSessionState::QrReady => LoginSessionStateDto::QrReady,
        LoginSessionState::WaitingScan => LoginSessionStateDto::WaitingScan,
        LoginSessionState::NeedVerifyCode => LoginSessionStateDto::NeedVerifyCode,
        LoginSessionState::WaitingFirstInbound => LoginSessionStateDto::WaitingFirstInbound,
        LoginSessionState::Paired => LoginSessionStateDto::Paired,
        LoginSessionState::Expired => LoginSessionStateDto::Expired,
        LoginSessionState::Blocked => LoginSessionStateDto::Blocked,
        LoginSessionState::Failed => LoginSessionStateDto::Failed,
    }
}

/// The shown state of a login session (one for one).
pub fn map_login_session_state(state: LoginSessionState) -> (r: LoginSessionStateDto)
    ensures
        r == login_state_dto(state),
{
    match state {
        LoginSessionState::Preparing => LoginSessionStateDto::Preparing,
        LoginSessionState::QrReady => LoginSessionStateDto::QrReady,
        LoginSessionState::WaitingScan => LoginSessionStateDto::WaitingScan,
        LoginSessionState::NeedVerifyCode => LoginSessionStateDto::NeedVerifyCode,
        LoginSessionState::WaitingFirstInbound => LoginSessionStateDto::WaitingFirstInbound,
        LoginSessionState::Paired => LoginSessionStateDto::Paired,
        LoginSessionState::Expired => LoginSessionStateDto::Expired,
        LoginSessionState::Blocked => LoginSessionStateDto::Blocked,
        LoginSessionState::Failed => LoginSessionStateDto::Failed,
    }
}

/// The shown state of a delivery (one for one).
pub fn map_delivery_state(state: DeliveryState) -> (r: DeliveryStateDto)
    ensures
        r == delivery_state_dto(state),
{
    match state {
        DeliveryState::Pending => DeliveryStateDto::Pending,
        DeliveryState::Sent => DeliveryStateDto::Sent,
        DeliveryState::Failed => DeliveryStateDto::Failed,
        DeliveryState::Unknown => DeliveryStateDto::Unknown,
        DeliveryState::Skipped => DeliveryStateDto::Skipped,
    }
}

/// The event for a changed login session: its account, id, state and error message.
pub fn map_login_session_event(
    account_id: Option<String>,
    session_id: String,
    state: LoginSessionState,
    error_message: Option<String>,
) -> (r: ChannelLoginChangedEvent)
    ensures
        r.account_id == account_id,
        r.session_id == Some(session_id),
        r.state == login_state_dto(state),
        r.message == error_message,
{
    ChannelLoginChangedEvent {
        account_id,
        session_id: Some(session_id),
        state: map_login_session_state(state),
        message: error_message,
    }
}

/// The domain state a delivery filter asks for (one for one).
pub fn delivery_state_filter(state: DeliveryStateDto) -> (r: DeliveryState)
    ensures
        r == delivery_state_of(state),
{
    match state {
        DeliveryStateDto::Pending => DeliveryState::Pending,
        DeliveryStateDto::Sent => DeliveryState::Sent,
        DeliveryStateDto::Failed => DeliveryState::Failed,
        DeliveryStateDto::Unknown => DeliveryState::Unknown,
        DeliveryStateDto::Skipped => DeliveryState::Skipped,
    }
}

pub open spec fn delivery_state_dto(state: DeliveryState) -> DeliveryStateDto {
    match state {
        DeliveryState::Pending => DeliveryStateDto::Pending,
        DeliveryState::Sent => DeliveryStateDto::Sent,
        DeliveryState::Failed => DeliveryStateDto::Failed,
        DeliveryState::Unknown => DeliveryStateDto::Unknown,
        DeliveryState::Skipped => DeliveryStateDto::Skipped,
    }
}

pub open spec fn delivery_state_of(state: DeliveryStateDto) -> DeliveryState {
    match state {
        DeliveryStateDto::Pending => DeliveryState::Pending,
        DeliveryStateDto::Sent => DeliveryState::Sent,
        DeliveryStateDto::Failed => DeliveryState::Failed,
        DeliveryStateDto::Unknown => DeliveryState::Unknown,
        DeliveryStateDto::Skipped => DeliveryState::Skipped,
    }
}

/// Filtering by a shown delivery state and showing it again gives the same state: the two
/// mappings are inverse to each other.
pub proof fn lemma_delivery_state_round_trip(shown: DeliveryStateDto, stored: DeliveryState)
    ensures
        delivery_state_dto(delivery_state_of(shown)) == shown,
        delivery_state_of(delivery_state_dto(stored)) == stored,
{
}

// ---------------------------------------------------------------- forwarding events
/// The snapshot reason sent after the runtime was restarted for a newly paired account.
pub const ACCOUNT_ADDED_REASON: &'static str = "channel_account_added";

/// The key that marks a login session's account as handled: `session:account`.
pub open spec fn login_key(session_id: Seq<char>, account_id: Seq<char>) -> Seq<char> {
    session_id + ":"@ + account_id
}

/// A login that reaches "waiting for the first inbound message" with an account restarts
/// the runtime (so that it starts polling the new account), once per session and account.
pub open spec fn login_restart_spec(
    session_id: Seq<char>,
    account_id: Option<Seq<char>>,
    state: LoginSessionState,
    restarted: Seq<Seq<char>>,
) -> Option<Seq<char>> {
    match account_id {
        Some(a) => if state == LoginSessionState::WaitingFirstInbound && !restarted.contains(
            login_key(session_id, a),
        ) {
            Some(login_key(session_id, a))
        } else {
            None
        },
        None => None,
    }
}

/// The key to restart the runtime for, when a login session's change asks for a restart.
pub fn login_restart_key(
    session_id: &str,
    account_id: Option<&str>,
    state: LoginSessionState,
    restarted: &Vec<String>,
) -> (r: Option<String>)
    ensures
        match login_restart_spec(
            session_id@,
            match account_id {
                Some(a) => Some(a@),
                None => None,
            },
            state,
            string_views(restarted@),
        ) {
            Some(k) => r matches Some(x) && x@ == k,
            None => r is None,
        },
{
    let a = match account_id {
        Some(a) => a,
        None => return None,
    };
    if state != LoginSessionState::WaitingFirstInbound {
        return None;
    }
    let key = concat3(session_id, ":", a);
    if contains_text(restarted, key.as_str()) {
        None
    } else {
        Some(key)
    }
}

/// After the restart for `key` succeeded: the key is remembered (so that the session's
/// later changes do not restart again) and the snapshot changed because an account was added.
pub fn login_restarted(restarted: &mut Vec<String>, key: String) -> (r: SnapshotChangedEvent)
    ensures
        string_views(final(restarted)@) == string_views(old(restarted)@).push(key@),
        r.reason@ == ACCOUNT_ADDED_REASON@,
{
    let ghost k = key@;
    restarted.push(key);
    proof {
        assert(string_views(restarted@) =~= string_views(old(restarted)@).push(k));
    }
    SnapshotChangedEvent { reason: String::from_str(ACCOUNT_ADDED_REASON) }
}

/// Once the restart for a session and account was remembered, no later change of that
/// session asks for another restart for that account.
pub proof fn lemma_restart_once(
    session_id: Seq<char>,
    account_id: Seq<char>,
    restarted: Seq<Seq<char>>,
    state: LoginSessionState,
)
    ensures
        login_restart_spec(session_id, Some(account_id), state, restarted.push(login_key(session_id, account_id)))
            is None,
{
    let remembered = restarted.push(login_key(session_id, account_id));
    assert(remembered[restarted.len() as int] == login_key(session_id, account_id));
}

/// The kinds of runtime events forwarded to the interface.
#[derive(Clone, Copy, Debug, PartialEq, Eq, Structural)]
pub enum RuntimeEventKind {
    NotificationChanged,
    ReplyChanged,
    DeliveryChanged,
    RuntimeStopped,
}

pub open spec fn runtime_event_reason_spec(kind: RuntimeEventKind) -> Option<Seq<char>> {
    match kind {
        RuntimeEventKind::NotificationChanged => Some("notification_changed"@),
        RuntimeEventKind::ReplyChanged => Some("reply_changed"@),
        RuntimeEventKind::DeliveryChanged => None,
        RuntimeEventKind::RuntimeStopped => Some("runtime_stopped"@),
    }
}

/// The snapshot reason a runtime event is forwarded with; a changed delivery is forwarded
/// as a delivery event instead.
pub fn runtime_event_reason(kind: RuntimeEventKind) -> (r: Option<&'static str>)
    ensures
        match runtime_event_reason_spec(kind) {
            Some(t) => r matches Some(x) && x@ == t,
            None => r is None,
        },
{
    match kind {
        RuntimeEventKind::NotificationChanged => Some("notification_changed"),
        RuntimeEventKind::ReplyChanged => Some("reply_changed"),
        RuntimeEventKind::DeliveryChanged => None,
        RuntimeEventKind::RuntimeStopped => Some("runtime_stopped"),
    }
}

/// The event for a changed delivery: only its id is known at that point.
pub fn delivery_changed_event(delivery_id: &str) -> (r: DeliveryChangedEvent)
    ensures
        r.delivery_id@ == delivery_id@,
        r.notification_id is None,
        r.state is None,
{
    DeliveryChangedEvent { delivery_id: String::from_str(delivery_id), notification_id: None, state: None }
}

} // verus!
