//! Stored records as the interface lists them: notifications with a short preview,
//! deliveries, login sessions and the state of the import from the earlier application.
//! Times arrive already written as RFC 3339 text.
use vstd::prelude::*;

use super::events::{
    DeliveryState, LoginSessionState, delivery_state_dto, login_state_dto, map_delivery_state,
    map_login_session_state,
};
use crate::bridge::dto::{
    DeliveryDto, DeliveryStateDto, LegacyMigrationDto, LoginSessionDto, MigrationIssueDto,
    MigrationReportDto, MigrationStateDto, MigrationWarningDto, NotificationSummaryDto, SafeErrorDto,
};
use crate::text::{chars_of, string_of};

verus! {

/// How many characters of a notification's body the list shows.
pub const NOTIFICATION_PREVIEW_CHARS: usize = 100;

/// A stable error code and message recorded with a delivery or a login session.
#[derive(Clone, Debug, PartialEq, Eq)]
pub struct RecordedError {
    pub code: String,
    pub message: String,
}

/// A stored notification with the states of its deliveries.
#[derive(Clone, Debug)]
pub struct NotificationRecord {
    pub id: String,
    pub agent_id: String,
    pub session_id: Option<String>,
    pub session_title: Option<String>,
    pub title: String,
    pub body: String,
    pub occurred_at: String,
    pub delivery_states: Vec<DeliveryState>,
}

/// The first characters of a body, at most `NOTIFICATION_PREVIEW_CHARS` of them.
pub open spec fn preview_spec(body: Seq<char>) -> Seq<char> {
    if body.len() <= NOTIFICATION_PREVIEW_CHARS {
        body
    } else {
        body.take(NOTIFICATION_PREVIEW_CHARS as int)
    }
}

/// The preview of a notification's body: its first hundred characters.
pub fn notification_preview(body: &str) -> (r: String)
    ensures
        r@ == preview_spec(body@),
{
    let v = chars_of(body);
    let n = if v.len() <= NOTIFICATION_PREVIEW_CHARS {
        v.len()
    } else {
        NOTIFICATION_PREVIEW_CHARS
    };
    let r = string_of(&v, 0, n);
    proof {
        if v@.len() <= NOTIFICATION_PREVIEW_CHARS {
            assert(v@.subrange(0, n as int) =~= v@);
        }
    }
    r
}

pub open spec fn delivery_state_dtos(states: Seq<DeliveryState>) -> Seq<DeliveryStateDto> {
    states.map_values(|s: DeliveryState| delivery_state_dto(s))
}

fn map_delivery_states(states: &Vec<DeliveryState>) -> (r: Vec<DeliveryStateDto>)
    ensures
        r@ == delivery_state_dtos(states@),
{
    let mut out: Vec<DeliveryStateDto> = Vec::new();
    let mut i: usize = 0;
    while i < states.len()
        invariant
            i <= states.len(),
            out@ == delivery_state_dtos(states@.subrange(0, i as int)),
        decreases states.len() - i,
    {
        out.push(map_delivery_state(states[i]));
        i = i + 1;
        proof {
            assert(out@ =~= delivery_state_dtos(states@.subrange(0, i as int)));
        }
    }
    proof {
        assert(states@.subrange(0, states@.len() as int) =~= states@);
    }
    out
}

/// A notification as the list shows it: the body shortened to its preview and each
/// delivery's state in its shown form.
pub fn map_notification_record(record: NotificationRecord) -> (r: NotificationSummaryDto)
    ensures
        r.id == record.id,
        r.agent_id == record.agent_id,
        r.session_id == record.session_id,
        r.session_title == record.session_title,
        r.title == record.title,
        r.preview@ == preview_spec(record.body@),
        r.occurred_at == record.occurred_at,
        r.delivery_states@ == delivery_state_dtos(record.delivery_states@),
{
    let preview = notification_preview(record.body.as_str());
    let delivery_states = map_delivery_states(&record.delivery_states);
    NotificationSummaryDto {
        id: record.id,
        agent_id: record.agent_id,
        session_id: record.session_id,
        session_title: record.session_title,
        title: record.title,
        preview,
        occurred_at: record.occurred_at,
        delivery_states,
    }
}

pub open spec fn safe_error_of(e: Option<RecordedError>) -> Option<SafeErrorDto> {
    match e {
        Some(x) => Some(SafeErrorDto { code: x.code, message: x.message }),
        None => None,
    }
}

fn to_safe_error(e: Option<RecordedError>) -> (r: Option<SafeErrorDto>)
    ensures
        r == safe_error_of(e),
{
    match e {
        Some(x) => Some(SafeErrorDto { code: x.code, message: x.message }),
        None => None,
    }
}

/// A delivery with the time it last changed; `can_retry` is the domain's verdict.
#[derive(Clone, Debug)]
pub struct DeliveryViewRecord {
    pub id: String,
    pub notification_id: String,
    pub channel_id: String,
    pub account_id: String,
    pub state: DeliveryState,
    pub external_message_id: Option<String>,
    pub error: Option<RecordedError>,
    pub can_retry: bool,
    pub updated_at: String,
}

/// A delivery as the interface shows it.
pub fn map_delivery_view_record(record: DeliveryViewRecord) -> (r: DeliveryDto)
    ensures
        r.id == record.id,
        r.notification_id == record.notification_id,
        r.channel_id == record.channel_id,
        r.account_id == record.account_id,
        r.state == delivery_state_dto(record.state),
        r.external_message_id == record.external_message_id,
        r.error == safe_error_of(record.error),
        r.retryable == record.can_retry,
        r.updated_at == record.updated_at,
{
    DeliveryDto {
        id: record.id,
        notification_id: record.notification_id,
        channel_id: record.channel_id,
        account_id: record.account_id,
        state: map_delivery_state(record.state),
        external_message_id: record.external_message_id,
        error: to_safe_error(record.error),
        retryable: record.can_retry,
        updated_at: record.updated_at,
    }
}

/// A channel login session.
#[derive(Clone, Debug)]
pub struct LoginSession {
    pub id: String,
    pub account_id: Option<String>,
    pub account_key: String,
    pub state: LoginSessionState,
    pub qr_payload: Option<String>,
    pub created_at: String,
    pub error: Option<RecordedError>,
}

pub open spec fn error_message_of(e: Option<RecordedError>) -> Option<String> {
    match e {
        Some(x) => Some(x.message),
        None => None,
    }
}

/// A login session as the interface shows it; the error's message is also its message.
pub fn map_login_session_dto(session: LoginSession) -> (r: LoginSessionDto)
    ensures
        r.id == session.id,
        r.account_id == session.account_id,
        r.account_key == session.account_key,
        r.state == login_state_dto(session.state),
        r.qr_payload == session.qr_payload,
        r.created_at == session.created_at,
        r.message == error_message_of(session.error),
        r.error == safe_error_of(session.error),
{
    let message = match &session.error {
        Some(e) => Some(e.message.clone()),
        None => None,
    };
    LoginSessionDto {
        id: session.id,
        account_id: session.account_id,
        account_key: session.account_key,
        state: map_login_session_state(session.state),
        qr_payload: session.qr_payload,
        created_at: session.created_at,
        message,
        error: to_safe_error(session.error),
    }
}

// ---------------------------------------------------------------- import from the earlier application
/// The state of the import in the runtime.
#[derive(Clone, Copy, Debug, PartialEq, Eq, Structural)]
pub enum MigrationState {
    NotConfigured,
    NotDetected,
    Completed,
    Partial,
    Required,
}

#[derive(Clone, Debug)]
pub struct MigrationWarning {
    pub code: String,
    pub file: String,
    pub record: Option<u64>,
}

/// What an import brought over, counted per kind of record.
#[derive(Clone, Debug)]
pub struct MigrationReport {
    pub imported_at: Option<String>,
    pub source_file_count: u64,
    pub settings_imported: u64,
    pub agent_configs_imported: u64,
    pub accounts_imported: u64,
    pub notifications_imported: u64,
    pub deliveries_imported: u64,
    pub routes_imported: u64,
    pub claims_imported: u64,
    pub skipped_records: u64,
    pub warnings: Vec<MigrationWarning>,
}

#[derive(Clone, Debug)]
pub struct MigrationIssue {
    pub code: String,
    pub message: String,
    pub file: Option<String>,
    pub field: Option<String>,
}

#[derive(Clone, Debug)]
pub struct MigrationSnapshot {
    pub state: MigrationState,
    pub source_detected: bool,
    pub report_file: Option<String>,
    pub report: Option<MigrationReport>,
    pub error: Option<MigrationIssue>,
}

pub open spec fn migration_state_dto(state: MigrationState) -> MigrationStateDto {
    match state {
        MigrationState::NotConfigured => MigrationStateDto::NotConfigured,
        MigrationState::NotDetected => MigrationStateDto::NotDetected,
        MigrationState::Completed => MigrationStateDto::Completed,
        MigrationState::Partial => MigrationStateDto::Partial,
        MigrationState::Required => MigrationStateDto::Required,
    }
}

pub open spec fn warning_dto(w: MigrationWarning) -> MigrationWarningDto {
    MigrationWarningDto { code: w.code, file: w.file, record: w.record }
}

/// How a report is shown: each count as `u32`, cut to its low 32 bits, and every warning.
pub open spec fn report_shown(d: MigrationReportDto, r: MigrationReport) -> bool {
    &&& d.imported_at == r.imported_at
    &&& d.source_file_count == r.source_file_count as u32
    &&& d.settings_imported == r.settings_imported as u32
    &&& d.agent_configs_imported == r.agent_configs_imported as u32
    &&& d.accounts_imported == r.accounts_imported as u32
    &&& d.notifications_imported == r.notifications_imported as u32
    &&& d.deliveries_imported == r.deliveries_imported as u32
    &&& d.routes_imported == r.routes_imported as u32
    &&& d.claims_imported == r.claims_imported as u32
    &&& d.skipped_records == r.skipped_records as u32
    &&& d.warnings@ == r.warnings@.map_values(|w: MigrationWarning| warning_dto(w))
}

fn map_warnings(warnings: Vec<MigrationWarning>) -> (r: Vec<MigrationWarningDto>)
    ensures
        r@ == warnings@.map_values(|w: MigrationWarning| warning_dto(w)),
{
    let mut out: Vec<MigrationWarningDto> = Vec::new();
    let mut i: usize = 0;
    while i < warnings.len()
        invariant
            i <= warnings.len(),
            out@ == warnings@.subrange(0, i as int).map_values(|w: MigrationWarning| warning_dto(w)),
        decreases warnings.len() - i,
    {
        let w = &warnings[i];
        out.push(MigrationWarningDto { code: w.code.clone(), file: w.file.clone(), record: w.record });
        i = i + 1;
        proof {
            assert(out@ =~= warnings@.subrange(0, i as int).map_values(|w: MigrationWarning| warning_dto(w)));
        }
    }
    proof {
        assert(warnings@.subrange(0, warnings@.len() as int) =~= warnings@);
    }
    out
}

fn map_report(r: MigrationReport) -> (d: MigrationReportDto)
    ensures
        report_shown(d, r),
{
    MigrationReportDto {
        imported_at: r.imported_at,
        source_file_count: r.source_file_count as u32,
        settings_imported: r.settings_imported as u32,
        agent_configs_imported: r.agent_configs_imported as u32,
        accounts_imported: r.accounts_imported as u32,
        notifications_imported: r.notifications_imported as u32,
        deliveries_imported: r.deliveries_imported as u32,
        routes_imported: r.routes_imported as u32,
        claims_imported: r.claims_imported as u32,
        skipped_records: r.skipped_records as u32,
        warnings: map_warnings(r.warnings),
    }
}

pub open spec fn issue_dto(e: MigrationIssue) -> MigrationIssueDto {
    MigrationIssueDto { code: e.code, message: e.message, file: e.file, field: e.field }
}

/// The import state as the interface shows it.
pub fn map_migration_snapshot(snapshot: MigrationSnapshot) -> (r: LegacyMigrationDto)
    ensures
        r.state == migration_state_dto(snapshot.state),
        r.source_detected == snapshot.source_detected,
        r.report_file == snapshot.report_file,
        match snapshot.report {
            None => r.report is None,
            Some(rep) => r.report matches Some(d) && report_shown(d, rep),
        },
        r.error == match snapshot.error {
            Some(e) => Some(issue_dto(e)),
            None => None,
        },
{
    let state = match snapshot.state {
        MigrationState::NotConfigured => MigrationStateDto::NotConfigured,
        MigrationState::NotDetected => MigrationStateDto::NotDetected,
        MigrationState::Completed => MigrationStateDto::Completed,
        MigrationState::Partial => MigrationStateDto::Partial,
        MigrationState::Required => MigrationStateDto::Required,
    };
    let report = match snapshot.report {
        Some(rep) => Some(map_report(rep)),
        None => None,
    };
    let error = match snapshot.error {
        Some(e) => Some(MigrationIssueDto { code: e.code, message: e.message, file: e.file, field: e.field }),
        None => None,
    };
    LegacyMigrationDto {
        state,
        source_detected: snapshot.source_detected,
        report_file: snapshot.report_file,
        report,
        error,
    }
}

} // verus!
