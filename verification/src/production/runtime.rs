//! Runtime states as the host sees them, the self-healing retry of a blocked import, and
//! identifiers.
use vstd::prelude::*;

use crate::bridge::error::CommandError;
use crate::lifecycle::window::RuntimeState;
use crate::platform::AppPaths;
use crate::text::{concat, concat3, is_hex, is_upper, str_eq};
use crate::winpath::{join_path, joined};

verus! {

/// The import error that clears by itself: the earlier application is still running.
pub const LEGACY_APP_RUNNING_CODE: &'static str = "legacy_app_running";

/// State of the notification core.
#[derive(Clone, Copy, Debug, PartialEq, Eq, Structural)]
pub enum CoreRuntimeState {
    Starting,
    Running,
    Degraded,
    MigrationRequired,
    Stopping,
    Stopped,
    Failed,
}

pub open spec fn host_state_spec(core: Option<CoreRuntimeState>, outbox_paused: bool) -> RuntimeState {
    match core {
        None => RuntimeState::Starting,
        Some(CoreRuntimeState::Starting) => RuntimeState::Starting,
        Some(CoreRuntimeState::Running) | Some(CoreRuntimeState::Degraded) => if outbox_paused {
            RuntimeState::Paused
        } else {
            RuntimeState::Running
        },
        Some(CoreRuntimeState::MigrationRequired) => RuntimeState::Starting,
        Some(CoreRuntimeState::Stopping) => RuntimeState::Stopping,
        Some(CoreRuntimeState::Stopped) => RuntimeState::Stopped,
        Some(CoreRuntimeState::Failed) => RuntimeState::Failed,
    }
}

/// The host's view of the core (`None` while no core is running or it is busy): a running
/// or degraded core with a paused outbox counts as paused; a core that waits for the
/// import counts as starting.
pub fn host_runtime_state(core: Option<CoreRuntimeState>, outbox_paused: bool) -> (r: RuntimeState)
    ensures
        r == host_state_spec(core, outbox_paused),
{
    match core {
        None => RuntimeState::Starting,
        Some(CoreRuntimeState::Starting) => RuntimeState::Starting,
        Some(CoreRuntimeState::Running) | Some(CoreRuntimeState::Degraded) => {
            if outbox_paused {
                RuntimeState::Paused
            } else {
                RuntimeState::Running
            }
        },
        Some(CoreRuntimeState::MigrationRequired) => RuntimeState::Starting,
        Some(CoreRuntimeState::Stopping) => RuntimeState::Stopping,
        Some(CoreRuntimeState::Stopped) => RuntimeState::Stopped,
        Some(CoreRuntimeState::Failed) => RuntimeState::Failed,
    }
}

pub open spec fn opt_code(o: Option<&str>) -> Option<Seq<char>> {
    match o {
        Some(s) => Some(s@),
        None => None,
    }
}

/// After one retry: out of the diagnostic mode means recovered; still in it, only the
/// running earlier application is worth retrying; any other or no reason stops retrying.
pub fn migration_recovered(state: CoreRuntimeState, issue_code: Option<&str>) -> (r: Result<bool, CommandError>)
    ensures
        state != CoreRuntimeState::MigrationRequired ==> r == Ok::<bool, CommandError>(true),
        state == CoreRuntimeState::MigrationRequired ==> match issue_code {
            Some(code) => if code@ == LEGACY_APP_RUNNING_CODE@ {
                r == Ok::<bool, CommandError>(false)
            } else {
                r matches Err(e) && e.code@ == "migration_autoretry_unsupported"@ && e.message@
                    == "迁移诊断模式的原因不是旧版心跳占用（"@ + code@ + "），不再自动重试"@
            },
            None => r matches Err(e) && e.code@ == "migration_autoretry_unsupported"@ && e.message@
                == "迁移诊断模式未给出失败原因，不再自动重试"@,
        },
{
    if state != CoreRuntimeState::MigrationRequired {
        return Ok(true);
    }
    match issue_code {
        Some(code) => {
            if str_eq(code, LEGACY_APP_RUNNING_CODE) {
                Ok(false)
            } else {
                let message = concat3("迁移诊断模式的原因不是旧版心跳占用（", code, "），不再自动重试");
                Err(CommandError::new("migration_autoretry_unsupported", message.as_str()))
            }
        },
        None => Err(CommandError::new("migration_autoretry_unsupported", "迁移诊断模式未给出失败原因，不再自动重试")),
    }
}

/// Outcome of the self-healing retry.
#[derive(Clone, Debug, PartialEq, Eq)]
pub enum MigrationAutoretryOutcome {
    Recovered { attempts: u32 },
    Exhausted,
    Aborted { reason: String },
}

/// What the retry does after a probe.
#[derive(Clone, Debug, PartialEq, Eq)]
pub enum RetryDecision {
    /// Wait for the interval and probe again.
    ProbeAgain,
    /// Stop with this outcome.
    Stop(MigrationAutoretryOutcome),
}

/// After probe number `attempt` (from 1) out of `max_attempts`: recovered stops with the
/// number of attempts, an error stops with its code and message, a still blocked state
/// probes again until the attempts are used up.
pub fn retry_decision(attempt: u32, max_attempts: u32, probe: Result<bool, CommandError>) -> (r: RetryDecision)
    ensures
        match probe {
            Ok(true) => r == RetryDecision::Stop(MigrationAutoretryOutcome::Recovered { attempts: attempt }),
            Ok(false) => if attempt < max_attempts {
                r == RetryDecision::ProbeAgain
            } else {
                r == RetryDecision::Stop(MigrationAutoretryOutcome::Exhausted)
            },
            Err(e) => r matches RetryDecision::Stop(MigrationAutoretryOutcome::Aborted { reason })
                && reason@ == e.code@ + "："@ + e.message@,
        },
{
    match probe {
        Ok(true) => RetryDecision::Stop(MigrationAutoretryOutcome::Recovered { attempts: attempt }),
        Ok(false) => {
            if attempt < max_attempts {
                RetryDecision::ProbeAgain
            } else {
                RetryDecision::Stop(MigrationAutoretryOutcome::Exhausted)
            }
        },
        Err(e) => {
            let reason = concat3(e.code(), "：", e.message());
            RetryDecision::Stop(MigrationAutoretryOutcome::Aborted { reason })
        },
    }
}

/// The outcome when no probe is made at all (no attempts allowed).
pub fn retry_without_attempts() -> (r: MigrationAutoretryOutcome)
    ensures
        r == MigrationAutoretryOutcome::Exhausted,
{
    MigrationAutoretryOutcome::Exhausted
}

/// The wall clock of the production runtime.
#[derive(Clone, Copy, Debug, Default)]
pub struct SystemClock;

/// Identifiers of the production runtime: random UUIDs.
#[derive(Clone, Copy, Debug, Default)]
pub struct UuidGenerator;

/// The hyphenated lower-case form of a UUID: 8-4-4-4-12 hexadecimal digits.
pub open spec fn hyphenated_uuid(s: Seq<char>) -> bool {
    &&& s.len() == 36
    &&& forall|i: int|
        0 <= i < 36 ==> if i == 8 || i == 13 || i == 18 || i == 23 {
            #[trigger] s[i] == '-'
        } else {
            is_hex(s[i]) && !is_upper(s[i])
        }
}

/// Calls `uuid::Uuid::new_v4` and writes it with `to_string`: a random version-4 UUID in
/// the documented hyphenated lower-case form. Only that form is claimed, nothing of the
/// random digits.
#[verifier::external_body]
pub(crate) fn random_uuid_text() -> (r: String)
    ensures
        hyphenated_uuid(r@),
{
    uuid::Uuid::new_v4().to_string()
}

impl UuidGenerator {
    /// A fresh random identifier in the hyphenated lower-case UUID form.
    pub fn next_id(&self) -> (r: String)
        ensures
            hyphenated_uuid(r@),
    {
        random_uuid_text()
    }
}

// ---------------------------------------------------------------- runtime files
pub const DATABASE_FILE_NAME: &'static str = "state.db";

pub const RUNTIME_LOCK_FILE_NAME: &'static str = "AgentNotify.runtime.lock";

pub const RUNTIME_LOG_FILE_NAME: &'static str = "runtime.log";

/// The directory and file, below the system temp directory, through which the earlier
/// application shows that it is running.
pub const LEGACY_ACTIVITY_DIR_NAME: &'static str = "agent-notify";

pub const LEGACY_ACTIVITY_FILE_NAME: &'static str = "widget-alive.txt";

/// Where the runtime keeps its files.
#[derive(Clone, Debug, PartialEq, Eq)]
pub struct RuntimeFiles {
    pub database_path: String,
    pub lock_path: String,
    pub log_path: String,
    pub spool_dir: String,
    /// Watched while importing from the earlier application.
    pub legacy_activity_path: String,
}

/// The runtime's files: the database and the import lock in the data directory, the log in
/// the log directory, the spool directory as configured, and the earlier application's
/// activity marker below the system temp directory.
pub fn runtime_files(paths: &AppPaths, system_temp_dir: &str) -> (r: RuntimeFiles)
    ensures
        r.database_path@ == joined(paths.data_dir@, DATABASE_FILE_NAME@),
        r.lock_path@ == joined(paths.data_dir@, RUNTIME_LOCK_FILE_NAME@),
        r.log_path@ == joined(paths.log_dir@, RUNTIME_LOG_FILE_NAME@),
        r.spool_dir@ == paths.spool_dir@,
        r.legacy_activity_path@ == joined(
            joined(system_temp_dir@, LEGACY_ACTIVITY_DIR_NAME@),
            LEGACY_ACTIVITY_FILE_NAME@,
        ),
{
    proof {
        reveal_strlit("state.db");
        reveal_strlit("AgentNotify.runtime.lock");
        reveal_strlit("runtime.log");
        reveal_strlit("agent-notify");
        reveal_strlit("widget-alive.txt");
    }
    let activity_dir = join_path(system_temp_dir, LEGACY_ACTIVITY_DIR_NAME);
    RuntimeFiles {
        database_path: join_path(paths.data_dir.as_str(), DATABASE_FILE_NAME),
        lock_path: join_path(paths.data_dir.as_str(), RUNTIME_LOCK_FILE_NAME),
        log_path: join_path(paths.log_dir.as_str(), RUNTIME_LOG_FILE_NAME),
        spool_dir: paths.spool_dir.clone(),
        legacy_activity_path: join_path(activity_dir.as_str(), LEGACY_ACTIVITY_FILE_NAME),
    }
}

} // verus!
