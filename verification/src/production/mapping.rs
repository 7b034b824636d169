//! Mappings from update results to what the interface shows.
use vstd::prelude::*;

use crate::bridge::dto::{
    ComponentStateDto, DiagnosticLevelDto, InstallUpdateResultDto, RuntimeLifecycleStateDto,
    SafeErrorDto, StorageStatusDto, UpdateStateDto,
};
use crate::production::runtime::CoreRuntimeState;
use crate::text::{chars_of, find_chars, find_from};
use crate::update::install::{to_lowercase, unicode_lower};
use crate::text::str_eq;
use crate::update::error::UpdateError;
use crate::update::service::InstallReport;

verus! {

pub open spec fn update_state_spec(code: Seq<char>) -> UpdateStateDto {
    if code == "update_version_unsupported"@ {
        UpdateStateDto::Unsupported
    } else if code == "update_up_to_date"@ {
        UpdateStateDto::UpToDate
    } else {
        UpdateStateDto::Failed
    }
}

/// The update state an error stands for: an unsupported version, nothing to install, or
/// a failure.
pub fn update_state_for_error(error: &UpdateError) -> (r: UpdateStateDto)
    ensures
        r == update_state_spec(error@.code),
{
    if str_eq(error.code(), "update_version_unsupported") {
        UpdateStateDto::Unsupported
    } else if str_eq(error.code(), "update_up_to_date") {
        UpdateStateDto::UpToDate
    } else {
        UpdateStateDto::Failed
    }
}

/// A successful installation is ready (the installer runs or the files were replaced);
/// the report's message, version, signature and preview flags are carried over.
pub fn install_result_from_report(report: InstallReport) -> (r: InstallUpdateResultDto)
    ensures
        r.state == UpdateStateDto::ReadyToInstall,
        r.message == report.message,
        r.installed_version == Some(report.version),
        r.signed == report.signed,
        r.preview == report.preview,
{
    InstallUpdateResultDto {
        state: UpdateStateDto::ReadyToInstall,
        message: report.message,
        installed_version: Some(report.version),
        signed: report.signed,
        preview: report.preview,
    }
}

// ---------------------------------------------------------------- snapshot values
/// State of the notification core in a runtime snapshot.
pub open spec fn lifecycle_state_spec(migration_required: bool, outbox_paused: bool, core: CoreRuntimeState) -> RuntimeLifecycleStateDto {
    if migration_required {
        RuntimeLifecycleStateDto::MigrationRequired
    } else if outbox_paused {
        RuntimeLifecycleStateDto::Paused
    } else {
        match core {
            CoreRuntimeState::Starting => RuntimeLifecycleStateDto::Starting,
            CoreRuntimeState::Running | CoreRuntimeState::Degraded => RuntimeLifecycleStateDto::Running,
            CoreRuntimeState::Stopping => RuntimeLifecycleStateDto::Stopping,
            CoreRuntimeState::Stopped => RuntimeLifecycleStateDto::Stopped,
            CoreRuntimeState::Failed => RuntimeLifecycleStateDto::Failed,
            CoreRuntimeState::MigrationRequired => RuntimeLifecycleStateDto::MigrationRequired,
        }
    }
}

/// The state shown for the runtime: a required import wins, then a paused outbox, then
/// the core's own state (a degraded core shows as running).
pub fn snapshot_lifecycle_state(migration_required: bool, outbox_paused: bool, core: CoreRuntimeState) -> (r:
    RuntimeLifecycleStateDto)
    ensures
        r == lifecycle_state_spec(migration_required, outbox_paused, core),
{
    if migration_required {
        RuntimeLifecycleStateDto::MigrationRequired
    } else if outbox_paused {
        RuntimeLifecycleStateDto::Paused
    } else {
        match core {
            CoreRuntimeState::Starting => RuntimeLifecycleStateDto::Starting,
            CoreRuntimeState::Running | CoreRuntimeState::Degraded => RuntimeLifecycleStateDto::Running,
            CoreRuntimeState::Stopping => RuntimeLifecycleStateDto::Stopping,
            CoreRuntimeState::Stopped => RuntimeLifecycleStateDto::Stopped,
            CoreRuntimeState::Failed => RuntimeLifecycleStateDto::Failed,
            CoreRuntimeState::MigrationRequired => RuntimeLifecycleStateDto::MigrationRequired,
        }
    }
}

/// State of one runtime component.
#[derive(Clone, Copy, Debug, PartialEq, Eq, Structural)]
pub enum ComponentState {
    Starting,
    Running,
    Stopping,
    Stopped,
    Failed,
    Unknown,
}

/// The shown component state: stopping counts as stopped, an unknown state as failed.
pub fn component_state_dto(state: ComponentState) -> (r: ComponentStateDto)
    ensures
        r == match state {
            ComponentState::Starting => ComponentStateDto::Starting,
            ComponentState::Running => ComponentStateDto::Running,
            ComponentState::Stopping | ComponentState::Stopped => ComponentStateDto::Stopped,
            ComponentState::Failed | ComponentState::Unknown => ComponentStateDto::Failed,
        },
{
    match state {
        ComponentState::Starting => ComponentStateDto::Starting,
        ComponentState::Running => ComponentStateDto::Running,
        ComponentState::Stopping | ComponentState::Stopped => ComponentStateDto::Stopped,
        ComponentState::Failed | ComponentState::Unknown => ComponentStateDto::Failed,
    }
}

/// Level of a runtime diagnostic.
#[derive(Clone, Copy, Debug, PartialEq, Eq, Structural)]
pub enum DiagnosticLevel {
    Normal,
    Warning,
    Error,
}

/// The shown level: a warning shows as waiting.
pub fn diagnostic_level_dto(level: DiagnosticLevel) -> (r: DiagnosticLevelDto)
    ensures
        r == match level {
            DiagnosticLevel::Normal => DiagnosticLevelDto::Normal,
            DiagnosticLevel::Warning => DiagnosticLevelDto::Waiting,
            DiagnosticLevel::Error => DiagnosticLevelDto::Error,
        },
{
    match level {
        DiagnosticLevel::Normal => DiagnosticLevelDto::Normal,
        DiagnosticLevel::Warning => DiagnosticLevelDto::Waiting,
        DiagnosticLevel::Error => DiagnosticLevelDto::Error,
    }
}

/// The storage counters as shown (cut to 32 bits) with the last safe error.
pub fn storage_status(
    notification_count: u64,
    delivery_count: u64,
    pending_outbox_count: u64,
    recent_error: Option<SafeErrorDto>,
) -> (r: StorageStatusDto)
    ensures
        r.notification_count == notification_count as u32,
        r.delivery_count == delivery_count as u32,
        r.pending_outbox_count == pending_outbox_count as u32,
        r.recent_error == recent_error,
{
    StorageStatusDto {
        notification_count: notification_count as u32,
        delivery_count: delivery_count as u32,
        pending_outbox_count: pending_outbox_count as u32,
        recent_error,
    }
}

/// How a channel receives messages.
#[derive(Clone, Copy, Debug, PartialEq, Eq, Structural)]
pub enum InboundMode {
    LongPolling,
    WebSocket,
    Webhook,
    LocalEvent,
}

/// The name of an inbound mode as shown.
pub fn inbound_mode_name(mode: InboundMode) -> (r: &'static str)
    ensures
        r@ == match mode {
            InboundMode::LongPolling => "long_polling"@,
            InboundMode::WebSocket => "websocket"@,
            InboundMode::Webhook => "webhook"@,
            InboundMode::LocalEvent => "local_event"@,
        },
{
    match mode {
        InboundMode::LongPolling => "long_polling",
        InboundMode::WebSocket => "websocket",
        InboundMode::Webhook => "webhook",
        InboundMode::LocalEvent => "local_event",
    }
}

// ---------------------------------------------------------------- account configuration
/// A configuration key whose value must not be shown: its Unicode lower case contains
/// `token`, `secret` or `password`.
pub open spec fn sensitive_key(key: Seq<char>) -> bool {
    find_from(unicode_lower(key), "token"@, 0) is Some || find_from(unicode_lower(key), "secret"@, 0)
        is Some || find_from(unicode_lower(key), "password"@, 0) is Some
}

/// Whether the value under `key` is hidden from the interface.
pub fn is_sensitive_config_key(key: &str) -> (b: bool)
    ensures
        b == sensitive_key(key@),
{
    let lowered = chars_of(to_lowercase(key).as_str());
    find_chars(&lowered, &chars_of("token")).is_some() || find_chars(&lowered, &chars_of("secret")).is_some()
        || find_chars(&lowered, &chars_of("password")).is_some()
}

/// The fields of an account configuration object that may be shown.
pub open spec fn shown_fields<T>(fields: Seq<(String, T)>) -> Seq<(String, T)>
    decreases fields.len(),
{
    if fields.len() == 0 {
        Seq::<(String, T)>::empty()
    } else if sensitive_key(fields.last().0@) {
        shown_fields(fields.drop_last())
    } else {
        shown_fields(fields.drop_last()).push(fields.last())
    }
}

/// An account configuration: an object's fields in their order, or any other value.
#[derive(Debug)]
pub enum AccountConfig<T> {
    Object(Vec<(String, T)>),
    Other(T),
}

/// An account configuration as it may be shown: an object without its tokens, secrets and
/// passwords (the other fields in their order); any other value unchanged.
pub fn sanitize_account_config<T>(config: AccountConfig<T>) -> (r: AccountConfig<T>)
    ensures
        match config {
            AccountConfig::Object(fields) => r matches AccountConfig::Object(shown) && shown@ == shown_fields(
                fields@,
            ),
            AccountConfig::Other(value) => r == AccountConfig::Other(value),
        },
{
    match config {
        AccountConfig::Object(fields) => AccountConfig::Object(sanitize_config_fields(fields)),
        AccountConfig::Other(value) => AccountConfig::Other(value),
    }
}

/// The fields of an account configuration object without its tokens, secrets and
/// passwords, the other fields in their order.
pub fn sanitize_config_fields<T>(fields: Vec<(String, T)>) -> (r: Vec<(String, T)>)
    ensures
        r@ == shown_fields(fields@),
{
    let mut out: Vec<(String, T)> = Vec::new();
    let mut rest = fields;
    let ghost all = rest@;
    let mut kept_rev: Vec<(String, T)> = Vec::new();
    proof {
        assert(all.subrange(0, all.len() as int) =~= all);
    }
    while rest.len() > 0
        invariant
            all.len() >= rest@.len(),
            rest@ == all.subrange(0, rest@.len() as int),
            shown_fields(all) == shown_fields(rest@) + kept_rev@.reverse(),
        decreases rest.len(),
    {
        let ghost before = rest@;
        let field = rest.pop().unwrap();
        proof {
            assert(before.drop_last() =~= rest@);
            assert(rest@ =~= all.subrange(0, rest@.len() as int));
        }
        if !is_sensitive_config_key(field.0.as_str()) {
            let ghost kb = kept_rev@;
            kept_rev.push(field);
            proof {
                assert(kept_rev@.reverse() =~= seq![field] + kb.reverse());
                assert(shown_fields(before) == shown_fields(rest@).push(field));
                assert(shown_fields(rest@).push(field) + kb.reverse() =~= shown_fields(rest@) + kept_rev@.reverse());
            }
        }
    }
    proof {
        assert(shown_fields(rest@) =~= Seq::<(String, T)>::empty());
    }
    while kept_rev.len() > 0
        invariant
            shown_fields(all) == out@ + kept_rev@.reverse(),
        decreases kept_rev.len(),
    {
        let ghost kb = kept_rev@;
        let ghost ob = out@;
        let field = kept_rev.pop().unwrap();
        out.push(field);
        proof {
            assert(kb.reverse() =~= seq![field] + kept_rev@.reverse());
            assert(out@ + kept_rev@.reverse() =~= ob + kb.reverse());
        }
    }
    proof {
        assert(out@ + kept_rev@.reverse() =~= out@);
    }
    out
}

/// No shown field of an account configuration carries a token, a secret or a password,
/// and every other field is shown.
pub proof fn lemma_shown_fields_hide_credentials<T>(fields: Seq<(String, T)>)
    ensures
        forall|i: int|
            0 <= i < shown_fields(fields).len() ==> !sensitive_key(#[trigger] shown_fields(fields)[i].0@),
        forall|i: int|
            0 <= i < fields.len() && !sensitive_key(fields[i].0@) ==> shown_fields(fields).contains(
                #[trigger] fields[i],
            ),
    decreases fields.len(),
{
    if fields.len() > 0 {
        lemma_shown_fields_hide_credentials(fields.drop_last());
        let rest = shown_fields(fields.drop_last());
        assert forall|i: int| 0 <= i < fields.len() && !sensitive_key(fields[i].0@) implies shown_fields(
            fields,
        ).contains(#[trigger] fields[i]) by {
            if i < fields.len() - 1 {
                assert(fields.drop_last()[i] == fields[i]);
                assert(rest.contains(fields[i]));
                let k = choose|k: int| 0 <= k < rest.len() && rest[k] == fields[i];
                if !sensitive_key(fields.last().0@) {
                    assert(shown_fields(fields)[k] == fields[i]);
                }
            } else {
                assert(shown_fields(fields) == rest.push(fields.last()));
                assert(shown_fields(fields)[rest.len() as int] == fields[i]);
            }
        }
    }
}

} // verus!
