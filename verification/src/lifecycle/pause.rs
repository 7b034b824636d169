//! Pausing notifications: the coordinator that keeps the saved setting and the outbox gate
//! in step, and the reading of the saved setting.
use vstd::prelude::*;

use super::LifecycleError;
use super::window::RuntimeState;
use crate::json::{JsonValue, json_value, member_entries, member_index, member_value, parse_json_value, pretty_json, pretty_object, set_member, with_member};
use crate::text::concat;
use crate::update::error::ErrorView;
use crate::winpath::{join_path, joined};

verus! {

/// The settings file below the configuration directory.
pub const SETTINGS_FILE_NAME: &'static str = "settings.json";

/// The key of the paused flag in the settings file.
pub const NOTIFICATIONS_PAUSED_KEY: &'static str = "notificationsPaused";

/// The next thing a pause change needs, or its outcome.
#[derive(Debug)]
pub enum PauseStep {
    /// The change is over with this outcome.
    Finished(Result<(), LifecycleError>),
    /// Save the paused setting with this value.
    SaveSetting(bool),
    /// Open or close the outbox gate of the runtime.
    SetOutboxPaused(bool),
    /// The runtime refused; put the saved setting back to `previous`, then report `error`.
    RestoreSetting { previous: bool, error: LifecycleError },
}

/// The runtime as pausing sees it: it can report its state, gate the outbox (and nothing
/// else: ingress and spooling go on while paused) and shut down.
pub trait RuntimeControl {
    fn state(&self) -> RuntimeState;

    fn set_outbox_paused(&self, paused: bool) -> Result<(), LifecycleError>;

    fn shutdown_runtime(&self) -> Result<(), LifecycleError>;
}

/// Where the paused setting is kept.
pub trait PauseSettingsStore {
    fn load_paused(&self) -> Result<bool, LifecycleError>;

    fn save_paused(&self, paused: bool) -> Result<(), LifecycleError>;
}

/// Keeps the paused setting and the outbox gate of the runtime in step.
#[derive(Debug)]
pub struct PauseCoordinator {
    paused: bool,
}

impl View for PauseCoordinator {
    type V = bool;

    closed spec fn view(&self) -> bool {
        self.paused
    }
}

pub open spec fn rollback_failed_view(error: ErrorView, rollback: ErrorView) -> ErrorView {
    ErrorView {
        code: "pause_state_rollback_failed"@,
        message: error.message + "；恢复原暂停设置也失败："@ + rollback.message,
    }
}

impl PauseCoordinator {
    /// The coordinator for the paused flag loaded from the settings; the boolean says
    /// whether the outbox must be paused before the runtime goes on.
    pub fn initialize(loaded_paused: bool) -> (r: (PauseCoordinator, bool))
        ensures
            r.0@ == loaded_paused,
            r.1 == loaded_paused,
    {
        (PauseCoordinator { paused: loaded_paused }, loaded_paused)
    }

    pub fn is_paused(&self) -> (b: bool)
        ensures
            b == self@,
    {
        self.paused
    }

    pub open spec fn first_step(current: bool, paused: bool) -> PauseStep {
        if current == paused {
            PauseStep::Finished(Ok(()))
        } else {
            PauseStep::SaveSetting(paused)
        }
    }

    /// First step of a change: nothing to do when the state is already the requested one,
    /// else the setting is saved first.
    pub fn begin_set_paused(&self, paused: bool) -> (r: PauseStep)
        ensures
            r == Self::first_step(self@, paused),
    {
        if self.paused == paused {
            PauseStep::Finished(Ok(()))
        } else {
            PauseStep::SaveSetting(paused)
        }
    }

    /// After the setting was saved: a failure ends the change, else the outbox is switched.
    pub fn setting_saved(paused: bool, result: Result<(), LifecycleError>) -> (r: PauseStep)
        ensures
            match result {
                Ok(()) => r == PauseStep::SetOutboxPaused(paused),
                Err(e) => r == PauseStep::Finished(Err(e)),
            },
    {
        match result {
            Ok(()) => PauseStep::SetOutboxPaused(paused),
            Err(e) => PauseStep::Finished(Err(e)),
        }
    }

    /// After the outbox was switched: on success the new state holds, else the saved
    /// setting is restored and the state stays as it was.
    pub fn outbox_updated(&mut self, paused: bool, result: Result<(), LifecycleError>) -> (r: PauseStep)
        ensures
            match result {
                Ok(()) => r == PauseStep::Finished(Ok(())) && final(self)@ == paused,
                Err(e) => r == PauseStep::RestoreSetting { previous: old(self)@, error: e }
                    && final(self)@ == old(self)@,
            },
    {
        match result {
            Ok(()) => {
                self.paused = paused;
                PauseStep::Finished(Ok(()))
            },
            Err(e) => PauseStep::RestoreSetting { previous: self.paused, error: e },
        }
    }

    /// After restoring the setting: the runtime's error is reported, joined by the restore
    /// failure when that failed too.
    pub fn setting_restored(error: LifecycleError, result: Result<(), LifecycleError>) -> (r: LifecycleError)
        ensures
            match result {
                Ok(()) => r == error,
                Err(rollback) => r@ == rollback_failed_view(error@, rollback@),
            },
    {
        match result {
            Ok(()) => error,
            Err(rollback) => {
                let mut message = String::from_str(error.message());
                message.append("；恢复原暂停设置也失败：");
                message.append(rollback.message());
                LifecycleError::new("pause_state_rollback_failed", message.as_str())
            },
        }
    }
}

/// The store gave `paused` as the saved setting, and, when that is paused, the runtime
/// accepted the gating of the outbox.
pub open spec fn restored_from<R: RuntimeControl, S: PauseSettingsStore>(
    runtime: &R,
    settings: &S,
    paused: bool,
) -> bool {
    &&& call_ensures(S::load_paused, (settings,), Ok::<bool, LifecycleError>(paused))
    &&& paused ==> call_ensures(R::set_outbox_paused, (runtime, true), Ok::<(), LifecycleError>(()))
}

/// Restoring failed with `e`: the store failed to load with `e`, or it gave paused and the
/// runtime refused the gating with `e`.
pub open spec fn restore_failed_with<R: RuntimeControl, S: PauseSettingsStore>(
    runtime: &R,
    settings: &S,
    e: LifecycleError,
) -> bool {
    ||| call_ensures(S::load_paused, (settings,), Err::<bool, LifecycleError>(e))
    ||| call_ensures(S::load_paused, (settings,), Ok::<bool, LifecycleError>(true)) && call_ensures(
        R::set_outbox_paused,
        (runtime, true),
        Err::<(), LifecycleError>(e),
    )
}

/// A change to `paused` went through: the setting was saved and the runtime switched the
/// outbox.
pub open spec fn change_applied<R: RuntimeControl, S: PauseSettingsStore>(
    runtime: &R,
    settings: &S,
    paused: bool,
) -> bool {
    &&& call_ensures(S::save_paused, (settings, paused), Ok::<(), LifecycleError>(()))
    &&& call_ensures(R::set_outbox_paused, (runtime, paused), Ok::<(), LifecycleError>(()))
}

/// A change from `previous` to `paused` failed with `e`: saving failed with `e`; or it was
/// saved, the runtime refused with `e0`, and saving `previous` back either worked (`e` is
/// `e0`) or failed with `e1` (`e` is the rollback failure of the two).
pub open spec fn change_failed_with<R: RuntimeControl, S: PauseSettingsStore>(
    runtime: &R,
    settings: &S,
    previous: bool,
    paused: bool,
    e: LifecycleError,
) -> bool {
    ||| call_ensures(S::save_paused, (settings, paused), Err::<(), LifecycleError>(e))
    ||| call_ensures(S::save_paused, (settings, paused), Ok::<(), LifecycleError>(())) && exists|
        e0: LifecycleError,
    |
        #![trigger call_ensures(R::set_outbox_paused, (runtime, paused), Err::<(), LifecycleError>(e0))]
        call_ensures(R::set_outbox_paused, (runtime, paused), Err::<(), LifecycleError>(e0)) && {
            ||| call_ensures(S::save_paused, (settings, previous), Ok::<(), LifecycleError>(())) && e == e0
            ||| exists|e1: LifecycleError|
                #![trigger call_ensures(S::save_paused, (settings, previous), Err::<(), LifecycleError>(e1))]
                call_ensures(S::save_paused, (settings, previous), Err::<(), LifecycleError>(e1)) && e@
                    == rollback_failed_view(e0@, e1@)
        }
}

impl PauseCoordinator {
    /// Restores the saved setting and, when it says paused, gates the outbox before the
    /// runtime goes on; an error of either ends the start.
    pub fn initialize_with<R: RuntimeControl, S: PauseSettingsStore>(runtime: &R, settings: &S) -> (r: Result<
        PauseCoordinator,
        LifecycleError,
    >)
        ensures
            match r {
                Ok(c) => restored_from(runtime, settings, c@),
                Err(e) => restore_failed_with(runtime, settings, e),
            },
    {
        let loaded = settings.load_paused()?;
        let (coordinator, pause_outbox) = PauseCoordinator::initialize(loaded);
        if pause_outbox {
            runtime.set_outbox_paused(true)?;
        }
        Ok(coordinator)
    }

    /// Pauses or resumes: nothing happens when the state is already the requested one;
    /// else the setting is saved, then the outbox is switched, and only when both succeed
    /// does the state change. When the runtime refuses, the saved setting is put back.
    pub fn set_paused<R: RuntimeControl, S: PauseSettingsStore>(
        &mut self,
        runtime: &R,
        settings: &S,
        paused: bool,
    ) -> (r: Result<(), LifecycleError>)
        ensures
            old(self)@ == paused ==> r is Ok,
            r is Ok ==> final(self)@ == paused,
            r is Err ==> final(self)@ == old(self)@,
            old(self)@ != paused ==> match r {
                Ok(()) => change_applied(runtime, settings, paused),
                Err(e) => change_failed_with(runtime, settings, old(self)@, paused, e),
            },
    {
        match self.begin_set_paused(paused) {
            PauseStep::SaveSetting(value) => {
                let saved = settings.save_paused(value);
                let ghost saved_g = saved;
                match Self::setting_saved(value, saved) {
                    PauseStep::SetOutboxPaused(value) => {
                        let switched = runtime.set_outbox_paused(value);
                        let ghost switched_g = switched;
                        proof {
                            // the unit inside `Ok` is the only one
                            assert(saved_g->Ok_0 == ());
                        }
                        match self.outbox_updated(value, switched) {
                            PauseStep::RestoreSetting { previous, error } => {
                                let restored = settings.save_paused(previous);
                                let ghost restored_g = restored;
                                let shown = Self::setting_restored(error, restored);
                                proof {
                                    assert(call_ensures(
                                        R::set_outbox_paused,
                                        (runtime, paused),
                                        Err::<(), LifecycleError>(error),
                                    ));
                                    match restored_g {
                                        Ok(u) => {
                                            assert(u == ());
                                        },
                                        Err(e1) => {
                                            assert(call_ensures(
                                                S::save_paused,
                                                (settings, previous),
                                                Err::<(), LifecycleError>(e1),
                                            ));
                                        },
                                    }
                                }
                                Err(shown)
                            },
                            PauseStep::Finished(result) => {
                                proof {
                                    if switched_g is Ok {
                                        assert(switched_g->Ok_0 == ());
                                    }
                                }
                                result
                            },
                            _ => {
                                proof {
                                    assert(false);
                                }
                                Ok(())
                            },
                        }
                    },
                    PauseStep::Finished(result) => result,
                    _ => {
                        proof {
                            assert(false);
                        }
                        Ok(())
                    },
                }
            },
            PauseStep::Finished(result) => result,
            _ => {
                proof {
                    assert(false);
                }
                Ok(())
            },
        }
    }
}

// ---------------------------------------------------------------- the saved setting
/// The settings file, as far as the paused flag is concerned.
#[derive(Clone, Debug, PartialEq, Eq, Structural)]
pub enum PausedField {
    Missing,
    Bool(bool),
    NotBool,
}

/// What a settings file holds for the paused flag.
#[derive(Clone, Debug, PartialEq, Eq, Structural)]
pub enum SettingsDocument {
    NotObject,
    Object(PausedField),
}

/// The paused field of an object's members.
pub open spec fn paused_field_spec(members: Seq<(Seq<char>, JsonValue)>) -> PausedField {
    match member_value(members, NOTIFICATIONS_PAUSED_KEY@) {
        None => PausedField::Missing,
        Some(JsonValue::Bool(b)) => PausedField::Bool(b),
        Some(_) => PausedField::NotBool,
    }
}

/// A parsed settings text read as a settings document.
pub open spec fn settings_document_spec(doc: Result<JsonValue, Seq<char>>) -> Result<SettingsDocument, Seq<char>> {
    match doc {
        Err(m) => Err(m),
        Ok(JsonValue::Object(members)) => Ok(SettingsDocument::Object(paused_field_spec(member_entries(members@)))),
        Ok(_) => Ok(SettingsDocument::NotObject),
    }
}

/// Reads a parsed JSON text as a settings document: what the object holds under the
/// paused key.
pub fn settings_document_of(doc: &JsonValue) -> (r: SettingsDocument)
    ensures
        match doc {
            JsonValue::Object(members) => r == SettingsDocument::Object(paused_field_spec(member_entries(members@))),
            _ => r == SettingsDocument::NotObject,
        },
{
    match doc {
        JsonValue::Object(members) => match member_index(members, NOTIFICATIONS_PAUSED_KEY) {
            None => SettingsDocument::Object(PausedField::Missing),
            Some(i) => SettingsDocument::Object(
                match &members[i].1 {
                    JsonValue::Bool(b) => PausedField::Bool(*b),
                    _ => PausedField::NotBool,
                },
            ),
        },
        _ => SettingsDocument::NotObject,
    }
}

pub open spec fn settings_invalid_view(message: Seq<char>) -> ErrorView {
    ErrorView { code: "pause_settings_invalid"@, message }
}

pub open spec fn loaded_paused_spec(doc: Result<SettingsDocument, Seq<char>>) -> Result<bool, ErrorView> {
    match doc {
        Err(m) => Err(settings_invalid_view("暂停设置文件损坏："@ + m)),
        Ok(SettingsDocument::NotObject) => Err(settings_invalid_view("暂停设置文件必须是 JSON 对象"@)),
        Ok(SettingsDocument::Object(PausedField::Missing)) => Ok(false),
        Ok(SettingsDocument::Object(PausedField::Bool(b))) => Ok(b),
        Ok(SettingsDocument::Object(PausedField::NotBool)) => Err(
            settings_invalid_view("暂停设置 notificationsPaused 必须是布尔值"@),
        ),
    }
}

pub open spec fn doc_view(doc: Result<SettingsDocument, String>) -> Result<SettingsDocument, Seq<char>> {
    match doc {
        Ok(d) => Ok(d),
        Err(m) => Err(m@),
    }
}

/// The paused flag of a parsed settings file: absent means not paused; anything but a
/// boolean, or a file that is not a JSON object, is refused.
pub fn paused_from_document(doc: Result<SettingsDocument, String>) -> (r: Result<bool, LifecycleError>)
    ensures
        match loaded_paused_spec(doc_view(doc)) {
            Ok(b) => r == Ok::<bool, LifecycleError>(b),
            Err(v) => r matches Err(e) && e@ == v,
        },
{
    match doc {
        Err(m) => Err(LifecycleError::new("pause_settings_invalid", concat("暂停设置文件损坏：", m.as_str()).as_str())),
        Ok(SettingsDocument::NotObject) => Err(LifecycleError::new("pause_settings_invalid", "暂停设置文件必须是 JSON 对象")),
        Ok(SettingsDocument::Object(PausedField::Missing)) => Ok(false),
        Ok(SettingsDocument::Object(PausedField::Bool(b))) => Ok(b),
        Ok(SettingsDocument::Object(PausedField::NotBool)) => Err(
            LifecycleError::new("pause_settings_invalid", "暂停设置 notificationsPaused 必须是布尔值"),
        ),
    }
}

/// The paused flag of the settings text (`None` when the file does not exist).
pub fn load_paused_from(source: Option<&str>) -> (r: Result<bool, LifecycleError>)
    ensures
        match source {
            None => r == Ok::<bool, LifecycleError>(false),
            Some(s) => match loaded_paused_spec(settings_document_spec(json_value(s@))) {
                Ok(b) => r == Ok::<bool, LifecycleError>(b),
                Err(v) => r matches Err(e) && e@ == v,
            },
        },
{
    match source {
        None => Ok(false),
        Some(s) => {
            let doc = match parse_json_value(s) {
                Ok(json) => Ok(settings_document_of(&json)),
                Err(message) => Err(message),
            };
            paused_from_document(doc)
        },
    }
}

pub open spec fn save_failed_view(message: Seq<char>) -> ErrorView {
    ErrorView { code: "pause_settings_save_failed"@, message: "序列化暂停设置失败："@ + message }
}

/// The text written for these members, or why it could not be written.
pub open spec fn written_settings(members: Seq<(Seq<char>, JsonValue)>) -> Result<Seq<char>, ErrorView> {
    match pretty_json(members) {
        Ok(t) => Ok(t),
        Err(m) => Err(save_failed_view(m)),
    }
}

/// The settings text after saving `paused` over `source` (`None` when there is no file
/// yet): the object with `notificationsPaused` set and every other member kept.
pub open spec fn settings_with_paused_spec(source: Option<Seq<char>>, paused: bool) -> Result<Seq<char>, ErrorView> {
    match source {
        None => written_settings(seq![(NOTIFICATIONS_PAUSED_KEY@, JsonValue::Bool(paused))]),
        Some(s) => match json_value(s) {
            Err(m) => Err(settings_invalid_view("暂停设置文件损坏："@ + m)),
            Ok(JsonValue::Object(members)) => written_settings(
                with_member(member_entries(members@), NOTIFICATIONS_PAUSED_KEY@, JsonValue::Bool(paused)),
            ),
            Ok(_) => Err(settings_invalid_view("暂停设置文件必须是 JSON 对象"@)),
        },
    }
}

/// The settings text to write when the paused flag is saved: a missing file becomes an
/// object with only the flag; an existing object keeps its other members; a damaged file
/// or one that is not an object is refused.
pub fn settings_with_paused(source: Option<&str>, paused: bool) -> (r: Result<String, LifecycleError>)
    ensures
        match settings_with_paused_spec(
            match source {
                Some(s) => Some(s@),
                None => None,
            },
            paused,
        ) {
            Ok(t) => r matches Ok(x) && x@ == t,
            Err(v) => r matches Err(e) && e@ == v,
        },
{
    let members = match source {
        None => {
            let mut members: Vec<(String, JsonValue)> = Vec::new();
            members.push((String::from_str(NOTIFICATIONS_PAUSED_KEY), JsonValue::Bool(paused)));
            proof {
                assert(member_entries(members@) =~= seq![(NOTIFICATIONS_PAUSED_KEY@, JsonValue::Bool(paused))]);
            }
            members
        },
        Some(s) => match parse_json_value(s) {
            Err(m) => {
                return Err(
                    LifecycleError::new("pause_settings_invalid", concat("暂停设置文件损坏：", m.as_str()).as_str()),
                );
            },
            Ok(JsonValue::Object(members)) => {
                let mut members = members;
                set_member(&mut members, NOTIFICATIONS_PAUSED_KEY, JsonValue::Bool(paused));
                members
            },
            Ok(_) => {
                return Err(LifecycleError::new("pause_settings_invalid", "暂停设置文件必须是 JSON 对象"));
            },
        },
    };
    match pretty_object(members) {
        Ok(text) => Ok(text),
        Err(m) => Err(LifecycleError::new("pause_settings_save_failed", concat("序列化暂停设置失败：", m.as_str()).as_str())),
    }
}

/// The settings file that holds the paused flag.
#[derive(Clone, Debug)]
pub struct JsonPauseSettingsStore {
    path: String,
}

impl JsonPauseSettingsStore {
    pub closed spec fn spec_path(&self) -> Seq<char> {
        self.path@
    }

    /// The store for the settings file in `config_dir`.
    pub fn new(config_dir: &str) -> (r: Self)
        ensures
            r.spec_path() == joined(config_dir@, SETTINGS_FILE_NAME@),
    {
        proof {
            reveal_strlit("settings.json");
        }
        JsonPauseSettingsStore { path: join_path(config_dir, SETTINGS_FILE_NAME) }
    }

    pub fn path(&self) -> (r: &str)
        ensures
            r@ == self.spec_path(),
    {
        self.path.as_str()
    }
}

} // verus!
