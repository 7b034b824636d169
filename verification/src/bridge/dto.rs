//! The data shapes exchanged with the interface.
use std::collections::BTreeMap;
use vstd::prelude::*;

verus! {

/// The business commands of the interface.
#[derive(Clone, Copy, Debug, PartialEq, Eq, Structural)]
pub enum BusinessCommand {
    GetSnapshot,
    ListAgents,
    UpdateAgentConfig,
    ListChannelAccounts,
    BeginChannelLogin,
    SubmitChannelLoginCode,
    LogoutChannelAccount,
    EnableChannelAccount,
    DisableChannelAccount,
    SendTestNotification,
    ListNotifications,
    GetNotificationDetail,
    RetryDelivery,
    GetDiagnostics,
    RetryLegacyMigration,
    GetSettings,
    UpdateSettings,
    SetRuntimePaused,
    QuitApp,
    GetUpdateStatus,
}

/// The events the host sends to the interface.
#[derive(Clone, Copy, Debug, PartialEq, Eq, Structural)]
pub enum HostEvent {
    SnapshotChanged,
    DeliveryChanged,
    ChannelLoginChanged,
}

/// State of the notification runtime as shown.
#[derive(Clone, Copy, Debug, PartialEq, Eq, Structural)]
pub enum RuntimeLifecycleStateDto {
    Starting,
    Running,
    Paused,
    MigrationRequired,
    Stopping,
    Stopped,
    Failed,
}

/// State of the import from the earlier application.
#[derive(Clone, Copy, Debug, PartialEq, Eq, Structural)]
pub enum MigrationStateDto {
    NotConfigured,
    NotDetected,
    Completed,
    Partial,
    Required,
}

/// State of one delivery.
#[derive(Clone, Copy, Debug, PartialEq, Eq, Structural)]
pub enum DeliveryStateDto {
    Pending,
    Sent,
    Failed,
    Unknown,
    Skipped,
}

/// State of a channel login session.
#[derive(Clone, Copy, Debug, PartialEq, Eq, Structural)]
pub enum LoginSessionStateDto {
    Idle,
    Preparing,
    QrReady,
    WaitingScan,
    NeedVerifyCode,
    WaitingFirstInbound,
    Paired,
    Expired,
    Blocked,
    Failed,
}

/// Level of a diagnostic item.
#[derive(Clone, Copy, Debug, PartialEq, Eq, Structural)]
pub enum DiagnosticLevelDto {
    Normal,
    Waiting,
    Error,
    Paused,
}

/// State of a runtime component.
#[derive(Clone, Copy, Debug, PartialEq, Eq, Structural)]
pub enum ComponentStateDto {
    Starting,
    Running,
    Paused,
    Stopped,
    Failed,
}

/// The update channel as chosen in the settings.
#[derive(Clone, Copy, Debug, PartialEq, Eq, Structural)]
pub enum UpdateChannelDto {
    Stable,
    Beta,
}

/// State of the update check or installation.
#[derive(Clone, Copy, Debug, PartialEq, Eq, Structural)]
pub enum UpdateStateDto {
    UpToDate,
    Available,
    ReadyToInstall,
    Unsupported,
    Failed,
}

impl BusinessCommand {
    pub open spec fn spec_name(self) -> Seq<char> {
        match self {
            BusinessCommand::GetSnapshot => "get_snapshot"@,
            BusinessCommand::ListAgents => "list_agents"@,
            BusinessCommand::UpdateAgentConfig => "update_agent_config"@,
            BusinessCommand::ListChannelAccounts => "list_channel_accounts"@,
            BusinessCommand::BeginChannelLogin => "begin_channel_login"@,
            BusinessCommand::SubmitChannelLoginCode => "submit_channel_login_code"@,
            BusinessCommand::LogoutChannelAccount => "logout_channel_account"@,
            BusinessCommand::EnableChannelAccount => "enable_channel_account"@,
            BusinessCommand::DisableChannelAccount => "disable_channel_account"@,
            BusinessCommand::SendTestNotification => "send_test_notification"@,
            BusinessCommand::ListNotifications => "list_notifications"@,
            BusinessCommand::GetNotificationDetail => "get_notification_detail"@,
            BusinessCommand::RetryDelivery => "retry_delivery"@,
            BusinessCommand::GetDiagnostics => "get_diagnostics"@,
            BusinessCommand::RetryLegacyMigration => "retry_legacy_migration"@,
            BusinessCommand::GetSettings => "get_settings"@,
            BusinessCommand::UpdateSettings => "update_settings"@,
            BusinessCommand::SetRuntimePaused => "set_runtime_paused"@,
            BusinessCommand::QuitApp => "quit_app"@,
            BusinessCommand::GetUpdateStatus => "get_update_status"@,
        }
    }

    /// The command name the interface calls.
    pub fn name(self) -> (r: &'static str)
        ensures
            r@ == self.spec_name(),
    {
        match self {
            BusinessCommand::GetSnapshot => "get_snapshot",
            BusinessCommand::ListAgents => "list_agents",
            BusinessCommand::UpdateAgentConfig => "update_agent_config",
            BusinessCommand::ListChannelAccounts => "list_channel_accounts",
            BusinessCommand::BeginChannelLogin => "begin_channel_login",
            BusinessCommand::SubmitChannelLoginCode => "submit_channel_login_code",
            BusinessCommand::LogoutChannelAccount => "logout_channel_account",
            BusinessCommand::EnableChannelAccount => "enable_channel_account",
            BusinessCommand::DisableChannelAccount => "disable_channel_account",
            BusinessCommand::SendTestNotification => "send_test_notification",
            BusinessCommand::ListNotifications => "list_notifications",
            BusinessCommand::GetNotificationDetail => "get_notification_detail",
            BusinessCommand::RetryDelivery => "retry_delivery",
            BusinessCommand::GetDiagnostics => "get_diagnostics",
            BusinessCommand::RetryLegacyMigration => "retry_legacy_migration",
            BusinessCommand::GetSettings => "get_settings",
            BusinessCommand::UpdateSettings => "update_settings",
            BusinessCommand::SetRuntimePaused => "set_runtime_paused",
            BusinessCommand::QuitApp => "quit_app",
            BusinessCommand::GetUpdateStatus => "get_update_status",
        }
    }
}

impl HostEvent {
    pub open spec fn spec_name(self) -> Seq<char> {
        match self {
            HostEvent::SnapshotChanged => "snapshot.changed"@,
            HostEvent::DeliveryChanged => "delivery.changed"@,
            HostEvent::ChannelLoginChanged => "channel.login.changed"@,
        }
    }

    /// The event name on the wire.
    pub fn name(self) -> (r: &'static str)
        ensures
            r@ == self.spec_name(),
    {
        match self {
            HostEvent::SnapshotChanged => "snapshot.changed",
            HostEvent::DeliveryChanged => "delivery.changed",
            HostEvent::ChannelLoginChanged => "channel.login.changed",
        }
    }
}

/// An empty command payload.
#[derive(Clone, Debug, Default, Eq, PartialEq)]
pub struct EmptyPayload {}

/// An error that is safe to show: stable code and message only.
#[derive(Clone, Debug, Eq, PartialEq)]
pub struct SafeErrorDto {
    pub code: String,
    pub message: String,
}

#[derive(Clone, Debug, Eq, PartialEq)]
pub struct MigrationWarningDto {
    pub code: String,
    pub file: String,
    pub record: Option<u64>,
}

#[derive(Clone, Debug, Default, Eq, PartialEq)]
pub struct MigrationReportDto {
    pub imported_at: Option<String>,
    pub source_file_count: u32,
    pub settings_imported: u32,
    pub agent_configs_imported: u32,
    pub accounts_imported: u32,
    pub notifications_imported: u32,
    pub deliveries_imported: u32,
    pub routes_imported: u32,
    pub claims_imported: u32,
    pub skipped_records: u32,
    pub warnings: Vec<MigrationWarningDto>,
}

#[derive(Clone, Debug, Eq, PartialEq)]
pub struct MigrationIssueDto {
    pub code: String,
    pub message: String,
    pub file: Option<String>,
    pub field: Option<String>,
}

/// The state of the import from the earlier application.
#[derive(Clone, Debug, Eq, PartialEq)]
pub struct LegacyMigrationDto {
    pub state: MigrationStateDto,
    pub source_detected: bool,
    pub report_file: Option<String>,
    pub report: Option<MigrationReportDto>,
    pub error: Option<MigrationIssueDto>,
}

impl Default for LegacyMigrationDto {
    /// Nothing configured, nothing detected.
    fn default() -> (r: Self)
        ensures
            r.state == MigrationStateDto::NotConfigured,
            !r.source_detected,
            r.report_file is None,
            r.report is None,
            r.error is None,
    {
        LegacyMigrationDto {
            state: MigrationStateDto::NotConfigured,
            source_detected: false,
            report_file: None,
            report: None,
            error: None,
        }
    }
}

#[derive(Clone, Debug, Eq, PartialEq)]
pub struct RuntimeSummaryDto {
    pub app_version: String,
    pub platform: String,
    pub state: RuntimeLifecycleStateDto,
    pub paused: bool,
}

#[derive(Clone, Debug, Default, Eq, PartialEq)]
pub struct StorageStatusDto {
    pub notification_count: u32,
    pub delivery_count: u32,
    pub pending_outbox_count: u32,
    pub recent_error: Option<SafeErrorDto>,
}

#[derive(Clone, Debug, Default, Eq, PartialEq)]
pub struct AgentCapabilitiesDto {
    pub notify: bool,
    pub resume: bool,
    pub session_title: bool,
    pub hook_installer: bool,
    pub reply_window: bool,
}

#[derive(Clone, Debug, Eq, PartialEq)]
pub struct AgentHealthDto {
    pub available: bool,
    pub detail: Option<SafeErrorDto>,
}

#[derive(Clone, Debug, Default, Eq, PartialEq)]
pub struct ChannelCapabilitiesDto {
    pub send_text: bool,
    pub receive: bool,
    pub reply_routing: bool,
    pub edit_message: bool,
    pub attachments: bool,
    pub markdown: bool,
    pub max_text_bytes: Option<u32>,
    pub inbound_modes: Vec<String>,
}

#[derive(Clone, Debug, Eq, PartialEq)]
pub struct ChannelHealthDto {
    pub available: bool,
    pub stale: bool,
    pub detail: Option<SafeErrorDto>,
}

#[derive(Clone, Debug, PartialEq)]
pub struct DeliveryDto {
    pub id: String,
    pub notification_id: String,
    pub channel_id: String,
    pub account_id: String,
    pub state: DeliveryStateDto,
    pub external_message_id: Option<String>,
    pub error: Option<SafeErrorDto>,
    pub retryable: bool,
    pub updated_at: String,
}

#[derive(Clone, Debug, PartialEq)]
pub struct NotificationSummaryDto {
    pub id: String,
    pub agent_id: String,
    pub session_id: Option<String>,
    pub session_title: Option<String>,
    pub title: String,
    pub preview: String,
    pub occurred_at: String,
    pub delivery_states: Vec<DeliveryStateDto>,
}

#[derive(Clone, Debug, PartialEq)]
pub struct NotificationDetailDto {
    pub notification: NotificationSummaryDto,
    pub body: String,
    pub metadata: BTreeMap<String, String>,
    pub deliveries: Vec<DeliveryDto>,
    pub route_exists: bool,
}

#[derive(Clone, Debug, Default, PartialEq)]
pub struct NotificationListDto {
    pub items: Vec<NotificationSummaryDto>,
    pub total: u32,
    pub next_cursor: Option<String>,
}

#[derive(Clone, Debug, PartialEq)]
pub struct ComponentDto {
    pub name: String,
    pub state: ComponentStateDto,
    pub detail: Option<SafeErrorDto>,
}

/// Quiet hours as the settings page shows them (`HH:MM`).
#[derive(Clone, Debug, Eq, PartialEq)]
pub struct QuietHoursDto {
    pub enabled: bool,
    pub start: String,
    pub end: String,
}

/// The settings page.
#[derive(Clone, Debug, PartialEq)]
pub struct SettingsDto {
    pub notifications_paused: bool,
    pub quiet_hours: Option<QuietHoursDto>,
    pub cooldown_seconds: u32,
    pub default_channel_account_id: Option<String>,
    pub reply_enabled: bool,
    pub delivery_receipt_enabled: bool,
    pub route_ttl_seconds: u32,
    pub auto_start: bool,
    pub start_hidden: bool,
    pub update_channel: UpdateChannelDto,
}

/// What the update page shows.
#[derive(Clone, Debug, Eq, PartialEq)]
pub struct UpdateStatusDto {
    pub current_version: String,
    pub available_version: Option<String>,
    pub state: UpdateStateDto,
    pub signed: bool,
    pub preview: bool,
    pub message: String,
    pub checked_at: Option<String>,
}

/// The result of an installation request.
#[derive(Clone, Debug, Eq, PartialEq)]
pub struct InstallUpdateResultDto {
    pub state: UpdateStateDto,
    pub message: String,
    pub installed_version: Option<String>,
    pub signed: bool,
    pub preview: bool,
}

#[derive(Clone, Debug, Eq, PartialEq)]
pub struct ChannelAccountIdPayload {
    pub account_id: String,
}

#[derive(Clone, Debug, Eq, PartialEq)]
pub struct BeginChannelLoginPayload {
    pub channel_id: String,
    pub account_key: String,
}

#[derive(Clone, Debug, Eq, PartialEq)]
pub struct SubmitChannelLoginCodePayload {
    pub session_id: String,
    pub code: String,
}

#[derive(Clone, Debug, Eq, PartialEq)]
pub struct SendTestNotificationPayload {
    pub account_id: String,
    pub title: String,
    pub body: String,
}

#[derive(Clone, Debug, PartialEq)]
pub struct NotificationFilterPayload {
    pub agent_id: Option<String>,
    pub channel_id: Option<String>,
    pub account_id: Option<String>,
    pub delivery_state: Option<DeliveryStateDto>,
    pub from: Option<String>,
    pub to: Option<String>,
    pub query: Option<String>,
    pub cursor: Option<String>,
    pub limit: u32,
}

#[derive(Clone, Debug, Eq, PartialEq)]
pub struct NotificationIdPayload {
    pub notification_id: String,
}

#[derive(Clone, Debug, Eq, PartialEq)]
pub struct DeliveryIdPayload {
    pub delivery_id: String,
}

#[derive(Clone, Debug, Eq, PartialEq)]
pub struct SetRuntimePausedPayload {
    pub paused: bool,
}

#[derive(Clone, Debug, Eq, PartialEq)]
pub struct MutationAcceptedDto {
    pub accepted: bool,
    pub id: Option<String>,
}

#[derive(Clone, Debug, Eq, PartialEq)]
pub struct LoginSessionDto {
    pub id: String,
    pub account_id: Option<String>,
    pub account_key: String,
    pub state: LoginSessionStateDto,
    pub qr_payload: Option<String>,
    pub created_at: String,
    pub message: Option<String>,
    pub error: Option<SafeErrorDto>,
}

#[derive(Clone, Debug, PartialEq)]
pub struct BeginChannelLoginResultDto {
    pub channel_id: String,
    pub session: LoginSessionDto,
}

#[derive(Clone, Debug, PartialEq)]
pub struct TestNotificationResultDto {
    pub accepted: bool,
    pub delivery: Option<DeliveryDto>,
}

} // verus!
