//! Agent configuration: reading the saved per-agent settings (paths and numbers that
//! override an adapter's default locations), the configuration errors, the application's
//! own reply inbox locations, and which agents get a disabled configuration row.
use vstd::prelude::*;

use super::settings::{SettingEntry, SettingScalar, SettingValue, field_from, find_entry, lookup, scalar_field};
use crate::bridge::error::CommandError;
use crate::text::{trim, trim_str, str_eq};
use crate::winpath::{is_absolute, is_absolute_path, is_sep, join_path, joined};

use crate::json::JsonValue;

verus! {

/// The application's own reply inbox directories, below the configuration directory.
pub const OPENCODE_REPLY_INBOX_DIR: &'static str = "opencode-reply-inbox";

pub const DEVIN_REPLY_INBOX_DIR: &'static str = "devin-reply-inbox";

pub const COMMANDCODE_REPLY_INBOX_DIR: &'static str = "commandcode-reply-inbox";

/// Configuration keys of the adapters' settings schemas.
pub const CODEX_HOME_KEY: &'static str = "codexHome";

pub const ANTIGRAVITY_ANNOTATIONS_DIR_KEY: &'static str = "annotationsDir";

pub const ANTIGRAVITY_HOOKS_PATH_KEY: &'static str = "hooksPath";

pub const DEVIN_SESSIONS_DATABASE_KEY: &'static str = "sessionsDatabase";

pub const DEVIN_DESKTOP_STATE_DATABASE_KEY: &'static str = "desktopStateDatabase";

pub const DEVIN_REPLY_INBOX_KEY: &'static str = "replyInbox";

pub const COMMANDCODE_REPLY_WINDOW_SEC_KEY: &'static str = "commandCodeReplyWindowSec";

/// The only agent that counts as enabled without a configuration row.
pub const AGENT_ID_ENABLED_WITHOUT_CONFIG: &'static str = "opencode";

pub open spec fn invalid_config_message(key: Seq<char>, reason: Seq<char>) -> Seq<char> {
    "Agent 配置项 "@ + key + " 无效："@ + reason
}

/// The error for an invalid agent configuration entry.
pub fn invalid_config(key: &str, reason: &str) -> (r: CommandError)
    ensures
        r.code@ == "agent_config_invalid"@,
        r.message@ == invalid_config_message(key@, reason@),
        !r.retryable,
        r.diagnostic_id is None,
{
    let mut message = String::from_str("Agent 配置项 ");
    message.append(key);
    message.append(" 无效：");
    message.append(reason);
    CommandError::new("agent_config_invalid", message.as_str())
}

/// The application's own reply inbox directory for an agent: directly below the
/// configuration directory.
pub fn reply_inbox_root(config_dir: &str, inbox_dir_name: &str) -> (r: String)
    requires
        !(inbox_dir_name@.len() > 0 && is_sep(inbox_dir_name@[0])),
    ensures
        r@ == joined(config_dir@, inbox_dir_name@),
{
    join_path(config_dir, inbox_dir_name)
}

// ---------------------------------------------------------------- configuration fields
/// The value under `key` of a saved configuration (`serde_json::Value::get`): nothing when
/// the configuration is not an object or has no such field.
pub open spec fn config_field(config: SettingValue, key: Seq<char>) -> Option<SettingScalar> {
    match config {
        SettingValue::Object(fields) => field_from(fields@, key, 0),
        _ => None,
    }
}

/// A configuration error: the key and the reason, as `invalid_config` words them.
pub open spec fn config_error(e: CommandError, key: Seq<char>, reason: Seq<char>) -> bool {
    &&& e.code@ == "agent_config_invalid"@
    &&& e.message@ == invalid_config_message(key, reason)
    &&& !e.retryable
    &&& e.diagnostic_id is None
}

/// A path field: absent, `null` or blank keeps the default; anything but text, or a
/// relative path, is refused; else the trimmed text.
pub open spec fn configured_path_spec(config: SettingValue, key: Seq<char>) -> Result<
    Option<Seq<char>>,
    Seq<char>,
> {
    match config_field(config, key) {
        None => Ok(None),
        Some(SettingScalar::Null) => Ok(None),
        Some(SettingScalar::Text(t)) => if trim(t@).len() == 0 {
            Ok(None)
        } else if !is_absolute_path(trim(t@)) {
            Err("必须是绝对路径"@)
        } else {
            Ok(Some(trim(t@)))
        },
        Some(_) => Err("必须是字符串路径"@),
    }
}

pub open spec fn opt_text(o: Option<String>) -> Option<Seq<char>> {
    match o {
        Some(s) => Some(s@),
        None => None,
    }
}

/// Whether `r` is what `configured_path_spec` gives for `key`.
pub open spec fn path_result(r: Result<Option<String>, CommandError>, config: SettingValue, key: Seq<char>) -> bool {
    match configured_path_spec(config, key) {
        Ok(p) => r matches Ok(x) && opt_text(x) == p,
        Err(reason) => r matches Err(e) && config_error(e, key, reason),
    }
}

/// Reads a path field of a saved agent configuration; the default location is kept when
/// the field is absent, `null` or blank, and a non-text value or a relative path is an
/// error rather than a guess.
pub fn configured_path(config: &SettingValue, key: &str) -> (r: Result<Option<String>, CommandError>)
    ensures
        path_result(r, *config, key@),
{
    let fields = match config {
        SettingValue::Object(fields) => fields,
        _ => return Ok(None),
    };
    let i = match scalar_field(fields, key) {
        Some(i) => i,
        None => return Ok(None),
    };
    match &fields[i].1 {
        SettingScalar::Null => Ok(None),
        SettingScalar::Text(t) => {
            let text = trim_str(t.as_str());
            if text.as_str().is_empty() {
                Ok(None)
            } else if !is_absolute(text.as_str()) {
                Err(invalid_config(key, "必须是绝对路径"))
            } else {
                Ok(Some(text))
            }
        },
        _ => Err(invalid_config(key, "必须是字符串路径")),
    }
}

/// A number field: absent or `null` keeps the default; anything but an unsigned integer is
/// refused.
pub open spec fn configured_u64_spec(config: SettingValue, key: Seq<char>) -> Result<Option<u64>, Seq<char>> {
    match config_field(config, key) {
        None => Ok(None),
        Some(SettingScalar::Null) => Ok(None),
        Some(SettingScalar::Number { as_u64: Some(n) }) => Ok(Some(n)),
        Some(_) => Err("必须是非负整数"@),
    }
}

/// Reads a non-negative integer field of a saved agent configuration.
pub fn configured_u64(config: &SettingValue, key: &str) -> (r: Result<Option<u64>, CommandError>)
    ensures
        match configured_u64_spec(*config, key@) {
            Ok(n) => r == Ok::<Option<u64>, CommandError>(n),
            Err(reason) => r matches Err(e) && config_error(e, key@, reason),
        },
{
    let fields = match config {
        SettingValue::Object(fields) => fields,
        _ => return Ok(None),
    };
    let i = match scalar_field(fields, key) {
        Some(i) => i,
        None => return Ok(None),
    };
    match &fields[i].1 {
        SettingScalar::Null => Ok(None),
        SettingScalar::Number { as_u64: Some(n) } => Ok(Some(*n)),
        _ => Err(invalid_config(key, "必须是非负整数")),
    }
}

// ---------------------------------------------------------------- per-agent settings
/// The agent ids the registry knows.
pub const OPENCODE_AGENT_ID: &'static str = "opencode";

pub const CODEX_AGENT_ID: &'static str = "codex";

pub const ANTIGRAVITY_AGENT_ID: &'static str = "antigravity";

pub const DEVIN_AGENT_ID: &'static str = "devin";

pub const COMMANDCODE_AGENT_ID: &'static str = "commandcode";

/// Where the Codex adapter reads from; `None` keeps its default location.
#[derive(Clone, Debug, PartialEq, Eq)]
pub struct CodexAgentSettings {
    pub codex_home: Option<String>,
}

/// Where the Antigravity adapter reads from; `None` keeps a default location.
#[derive(Clone, Debug, PartialEq, Eq)]
pub struct AntigravityAgentSettings {
    pub annotations_dir: Option<String>,
    pub hooks_path: Option<String>,
}

/// Where the Devin adapter reads from; its reply inbox defaults to the application's own.
#[derive(Clone, Debug, PartialEq, Eq)]
pub struct DevinAgentSettings {
    pub sessions_database: Option<String>,
    pub desktop_state_database: Option<String>,
    pub reply_inbox: String,
}

/// The Command Code adapter's reply window (`None` keeps its default) and reply inbox.
#[derive(Clone, Debug, PartialEq, Eq)]
pub struct CommandCodeAgentSettings {
    pub reply_window_sec: Option<u64>,
    pub reply_inbox: String,
}

/// A configuration error as a key and a reason.
pub type ConfigFault = (Seq<char>, Seq<char>);

pub open spec fn path_field(config: SettingValue, key: Seq<char>) -> Result<Option<Seq<char>>, ConfigFault> {
    match configured_path_spec(config, key) {
        Ok(p) => Ok(p),
        Err(reason) => Err((key, reason)),
    }
}

/// Whether `r` is the settings `outcome` gives, or its configuration error.
pub open spec fn agrees<T, S>(r: Result<S, CommandError>, outcome: Result<T, ConfigFault>, shown: spec_fn(S, T) -> bool) -> bool {
    match outcome {
        Ok(v) => r matches Ok(s) && shown(s, v),
        Err(fault) => r matches Err(e) && config_error(e, fault.0, fault.1),
    }
}

pub open spec fn codex_outcome(config: Option<SettingValue>) -> Result<Option<Seq<char>>, ConfigFault> {
    match config {
        None => Ok(None),
        Some(c) => path_field(c, CODEX_HOME_KEY@),
    }
}

pub open spec fn codex_shown(s: CodexAgentSettings, home: Option<Seq<char>>) -> bool {
    opt_text(s.codex_home) == home
}

/// The Codex settings of a saved configuration (`None`: no configuration row).
pub fn codex_agent_settings(config: Option<&SettingValue>) -> (r: Result<CodexAgentSettings, CommandError>)
    ensures
        agrees(r, codex_outcome(opt_value(config)), |s: CodexAgentSettings, v: Option<Seq<char>>| codex_shown(s, v)),
{
    match config {
        None => Ok(CodexAgentSettings { codex_home: None }),
        Some(c) => {
            let codex_home = configured_path(c, CODEX_HOME_KEY)?;
            Ok(CodexAgentSettings { codex_home })
        },
    }
}

pub open spec fn opt_value(config: Option<&SettingValue>) -> Option<SettingValue> {
    match config {
        Some(c) => Some(*c),
        None => None,
    }
}

/// The annotations directory is read first, so its error comes first.
pub open spec fn antigravity_outcome(config: Option<SettingValue>) -> Result<
    (Option<Seq<char>>, Option<Seq<char>>),
    ConfigFault,
> {
    match config {
        None => Ok((None, None)),
        Some(c) => match path_field(c, ANTIGRAVITY_ANNOTATIONS_DIR_KEY@) {
            Err(f) => Err(f),
            Ok(a) => match path_field(c, ANTIGRAVITY_HOOKS_PATH_KEY@) {
                Err(f) => Err(f),
                Ok(h) => Ok((a, h)),
            },
        },
    }
}

pub open spec fn antigravity_shown(s: AntigravityAgentSettings, v: (Option<Seq<char>>, Option<Seq<char>>)) -> bool {
    opt_text(s.annotations_dir) == v.0 && opt_text(s.hooks_path) == v.1
}

/// The Antigravity settings of a saved configuration.
pub fn antigravity_agent_settings(config: Option<&SettingValue>) -> (r: Result<
    AntigravityAgentSettings,
    CommandError,
>)
    ensures
        agrees(
            r,
            antigravity_outcome(opt_value(config)),
            |s: AntigravityAgentSettings, v: (Option<Seq<char>>, Option<Seq<char>>)| antigravity_shown(s, v),
        ),
{
    match config {
        None => Ok(AntigravityAgentSettings { annotations_dir: None, hooks_path: None }),
        Some(c) => {
            let annotations_dir = configured_path(c, ANTIGRAVITY_ANNOTATIONS_DIR_KEY)?;
            let hooks_path = configured_path(c, ANTIGRAVITY_HOOKS_PATH_KEY)?;
            Ok(AntigravityAgentSettings { annotations_dir, hooks_path })
        },
    }
}

pub open spec fn or_default(p: Option<Seq<char>>, default: Seq<char>) -> Seq<char> {
    match p {
        Some(x) => x,
        None => default,
    }
}

/// The sessions database, the desktop state database and the reply inbox, read in that
/// order; the inbox defaults to the application's own below `config_dir`.
pub open spec fn devin_outcome(config_dir: Seq<char>, config: Option<SettingValue>) -> Result<
    (Option<Seq<char>>, Option<Seq<char>>, Seq<char>),
    ConfigFault,
> {
    let inbox = joined(config_dir, DEVIN_REPLY_INBOX_DIR@);
    match config {
        None => Ok((None, None, inbox)),
        Some(c) => match path_field(c, DEVIN_SESSIONS_DATABASE_KEY@) {
            Err(f) => Err(f),
            Ok(a) => match path_field(c, DEVIN_DESKTOP_STATE_DATABASE_KEY@) {
                Err(f) => Err(f),
                Ok(b) => match path_field(c, DEVIN_REPLY_INBOX_KEY@) {
                    Err(f) => Err(f),
                    Ok(i) => Ok((a, b, or_default(i, inbox))),
                },
            },
        },
    }
}

pub open spec fn devin_shown(s: DevinAgentSettings, v: (Option<Seq<char>>, Option<Seq<char>>, Seq<char>)) -> bool {
    opt_text(s.sessions_database) == v.0 && opt_text(s.desktop_state_database) == v.1 && s.reply_inbox@
        == v.2
}

/// The Devin settings of a saved configuration.
pub fn devin_agent_settings(config_dir: &str, config: Option<&SettingValue>) -> (r: Result<
    DevinAgentSettings,
    CommandError,
>)
    ensures
        agrees(
            r,
            devin_outcome(config_dir@, opt_value(config)),
            |s: DevinAgentSettings, v: (Option<Seq<char>>, Option<Seq<char>>, Seq<char>)| devin_shown(s, v),
        ),
{
    proof {
        reveal_strlit("devin-reply-inbox");
    }
    let default_inbox = reply_inbox_root(config_dir, DEVIN_REPLY_INBOX_DIR);
    match config {
        None => Ok(DevinAgentSettings {
            sessions_database: None,
            desktop_state_database: None,
            reply_inbox: default_inbox,
        }),
        Some(c) => {
            let sessions_database = configured_path(c, DEVIN_SESSIONS_DATABASE_KEY)?;
            let desktop_state_database = configured_path(c, DEVIN_DESKTOP_STATE_DATABASE_KEY)?;
            let reply_inbox = match configured_path(c, DEVIN_REPLY_INBOX_KEY)? {
                Some(p) => p,
                None => default_inbox,
            };
            Ok(DevinAgentSettings { sessions_database, desktop_state_database, reply_inbox })
        },
    }
}

/// The reply window, and the reply inbox, which is always the application's own below
/// `config_dir`.
pub open spec fn commandcode_outcome(config_dir: Seq<char>, config: Option<SettingValue>) -> Result<
    (Option<u64>, Seq<char>),
    ConfigFault,
> {
    let inbox = joined(config_dir, COMMANDCODE_REPLY_INBOX_DIR@);
    match config {
        None => Ok((None, inbox)),
        Some(c) => match configured_u64_spec(c, COMMANDCODE_REPLY_WINDOW_SEC_KEY@) {
            Err(reason) => Err((COMMANDCODE_REPLY_WINDOW_SEC_KEY@, reason)),
            Ok(n) => Ok((n, inbox)),
        },
    }
}

pub open spec fn commandcode_shown(s: CommandCodeAgentSettings, v: (Option<u64>, Seq<char>)) -> bool {
    s.reply_window_sec == v.0 && s.reply_inbox@ == v.1
}

/// The Command Code settings of a saved configuration.
pub fn commandcode_agent_settings(config_dir: &str, config: Option<&SettingValue>) -> (r: Result<
    CommandCodeAgentSettings,
    CommandError,
>)
    ensures
        agrees(
            r,
            commandcode_outcome(config_dir@, opt_value(config)),
            |s: CommandCodeAgentSettings, v: (Option<u64>, Seq<char>)| commandcode_shown(s, v),
        ),
{
    proof {
        reveal_strlit("commandcode-reply-inbox");
    }
    let reply_inbox = reply_inbox_root(config_dir, COMMANDCODE_REPLY_INBOX_DIR);
    match config {
        None => Ok(CommandCodeAgentSettings { reply_window_sec: None, reply_inbox }),
        Some(c) => {
            let reply_window_sec = configured_u64(c, COMMANDCODE_REPLY_WINDOW_SEC_KEY)?;
            Ok(CommandCodeAgentSettings { reply_window_sec, reply_inbox })
        },
    }
}

/// The settings of every adapter the registry holds.
#[derive(Clone, Debug, PartialEq, Eq)]
pub struct AgentRegistrySettings {
    pub opencode_reply_inbox: String,
    pub codex: CodexAgentSettings,
    pub antigravity: AntigravityAgentSettings,
    pub devin: DevinAgentSettings,
    pub commandcode: CommandCodeAgentSettings,
}

/// The first configuration error of the saved configurations (by agent id), in
/// registration order: Codex, Antigravity, Devin, Command Code.
pub open spec fn registry_fault(config_dir: Seq<char>, configs: Seq<SettingEntry>) -> Option<ConfigFault> {
    if codex_outcome(lookup(configs, CODEX_AGENT_ID@)) is Err {
        Some(codex_outcome(lookup(configs, CODEX_AGENT_ID@))->Err_0)
    } else if antigravity_outcome(lookup(configs, ANTIGRAVITY_AGENT_ID@)) is Err {
        Some(antigravity_outcome(lookup(configs, ANTIGRAVITY_AGENT_ID@))->Err_0)
    } else if devin_outcome(config_dir, lookup(configs, DEVIN_AGENT_ID@)) is Err {
        Some(devin_outcome(config_dir, lookup(configs, DEVIN_AGENT_ID@))->Err_0)
    } else if commandcode_outcome(config_dir, lookup(configs, COMMANDCODE_AGENT_ID@)) is Err {
        Some(commandcode_outcome(config_dir, lookup(configs, COMMANDCODE_AGENT_ID@))->Err_0)
    } else {
        None
    }
}

fn config_of<'a>(configs: &'a Vec<SettingEntry>, agent_id: &str) -> (r: Option<&'a SettingValue>)
    ensures
        opt_value(r) == lookup(configs@, agent_id@),
{
    match find_entry(configs, agent_id) {
        Some(i) => Some(&configs[i].1),
        None => None,
    }
}

/// The settings of every adapter from the saved configurations (by agent id); an invalid
/// configuration fails here, before anything is saved or replaced.
pub fn agent_registry_settings(config_dir: &str, configs: &Vec<SettingEntry>) -> (r: Result<
    AgentRegistrySettings,
    CommandError,
>)
    ensures
        match registry_fault(config_dir@, configs@) {
            Some(fault) => r matches Err(e) && config_error(e, fault.0, fault.1),
            None => r matches Ok(s) && s.opencode_reply_inbox@ == joined(config_dir@, OPENCODE_REPLY_INBOX_DIR@)
                && agrees(
                Ok::<CodexAgentSettings, CommandError>(s.codex),
                codex_outcome(lookup(configs@, CODEX_AGENT_ID@)),
                |x: CodexAgentSettings, v: Option<Seq<char>>| codex_shown(x, v),
            ) && agrees(
                Ok::<AntigravityAgentSettings, CommandError>(s.antigravity),
                antigravity_outcome(lookup(configs@, ANTIGRAVITY_AGENT_ID@)),
                |x: AntigravityAgentSettings, v: (Option<Seq<char>>, Option<Seq<char>>)| antigravity_shown(x, v),
            ) && agrees(
                Ok::<DevinAgentSettings, CommandError>(s.devin),
                devin_outcome(config_dir@, lookup(configs@, DEVIN_AGENT_ID@)),
                |x: DevinAgentSettings, v: (Option<Seq<char>>, Option<Seq<char>>, Seq<char>)| devin_shown(x, v),
            ) && agrees(
                Ok::<CommandCodeAgentSettings, CommandError>(s.commandcode),
                commandcode_outcome(config_dir@, lookup(configs@, COMMANDCODE_AGENT_ID@)),
                |x: CommandCodeAgentSettings, v: (Option<u64>, Seq<char>)| commandcode_shown(x, v),
            ),
        },
{
    proof {
        reveal_strlit("opencode-reply-inbox");
    }
    let opencode_reply_inbox = reply_inbox_root(config_dir, OPENCODE_REPLY_INBOX_DIR);
    let codex = codex_agent_settings(config_of(configs, CODEX_AGENT_ID))?;
    let antigravity = antigravity_agent_settings(config_of(configs, ANTIGRAVITY_AGENT_ID))?;
    let devin = devin_agent_settings(config_dir, config_of(configs, DEVIN_AGENT_ID))?;
    let commandcode = commandcode_agent_settings(config_dir, config_of(configs, COMMANDCODE_AGENT_ID))?;
    Ok(AgentRegistrySettings { opencode_reply_inbox, codex, antigravity, devin, commandcode })
}

/// What an agent update stores: a part the update leaves out keeps its saved value, and an
/// agent without a saved row counts as enabled with an empty configuration.
pub open spec fn merged_config_spec(
    saved: Option<(bool, SettingValue)>,
    enabled: Option<bool>,
    config: Option<SettingValue>,
) -> (bool, Option<SettingValue>) {
    let saved_enabled = match saved {
        Some(x) => x.0,
        None => true,
    };
    (
        match enabled {
            Some(b) => b,
            None => saved_enabled,
        },
        match config {
            Some(c) => Some(c),
            None => match saved {
                Some(x) => Some(x.1),
                None => None,
            },
        },
    )
}

/// The enabled flag and configuration an agent update stores (an empty object when neither
/// the update nor a saved row gives one).
pub fn merged_agent_config(
    saved: Option<(bool, SettingValue)>,
    enabled: Option<bool>,
    config: Option<SettingValue>,
) -> (r: (bool, SettingValue))
    ensures
        r.0 == merged_config_spec(saved, enabled, config).0,
        match merged_config_spec(saved, enabled, config).1 {
            Some(c) => r.1 == c,
            None => r.1 matches SettingValue::Object(fields) && fields@.len() == 0,
        },
        config matches Some(c) ==> r.1 == c,
        enabled matches Some(b) ==> r.0 == b,
{
    let saved_enabled = match &saved {
        Some(x) => x.0,
        None => true,
    };
    let new_enabled = match enabled {
        Some(b) => b,
        None => saved_enabled,
    };
    let new_config = match config {
        Some(c) => c,
        None => match saved {
            Some(x) => x.1,
            None => SettingValue::Object(Vec::new()),
        },
    };
    (new_enabled, new_config)
}

/// An agent update stores what it carries: a configuration it carries replaces the saved
/// one whatever that was, and an enabled flag it carries replaces the saved flag; what it
/// leaves out keeps the saved value (enabled, for an agent without a saved row).
pub proof fn lemma_update_stores_what_it_carries(
    saved: Option<(bool, SettingValue)>,
    enabled: Option<bool>,
    config: Option<SettingValue>,
)
    ensures
        config matches Some(c) ==> merged_config_spec(saved, enabled, config).1 == Some(c),
        enabled matches Some(b) ==> merged_config_spec(saved, enabled, config).0 == b,
        saved matches Some(x) ==> (config is None ==> merged_config_spec(saved, enabled, config).1 == Some(x.1)),
        saved matches Some(x) ==> (enabled is None ==> merged_config_spec(saved, enabled, config).0 == x.0),
        enabled is None && saved is None ==> merged_config_spec(saved, enabled, config).0,
        config is None && saved is None ==> merged_config_spec(saved, enabled, config).1 is None,
{
}

// ---------------------------------------------------------------- default rows
pub open spec fn string_views(v: Seq<String>) -> Seq<Seq<char>> {
    v.map_values(|s: String| s@)
}

/// Whether an agent gets a disabled configuration row: it is not the agent that counts as
/// enabled without one, and it has no row yet.
pub open spec fn needs_seed(id: Seq<char>, existing: Seq<Seq<char>>) -> bool {
    id != AGENT_ID_ENABLED_WITHOUT_CONFIG@ && !existing.contains(id)
}

/// The agents, in registration order, that get a disabled configuration row.
pub open spec fn seed_ids(ids: Seq<Seq<char>>, existing: Seq<Seq<char>>) -> Seq<Seq<char>>
    decreases ids.len(),
{
    if ids.len() == 0 {
        Seq::<Seq<char>>::empty()
    } else {
        let rest = seed_ids(ids.drop_last(), existing);
        if needs_seed(ids.last(), existing) {
            rest.push(ids.last())
        } else {
            rest
        }
    }
}

pub(crate) fn contains_text(v: &Vec<String>, s: &str) -> (b: bool)
    ensures
        b == string_views(v@).contains(s@),
{
    let mut i: usize = 0;
    while i < v.len()
        invariant
            i <= v.len(),
            forall|k: int| 0 <= k < i ==> v@[k]@ != s@,
        decreases v.len() - i,
    {
        if str_eq(v[i].as_str(), s) {
            proof {
                assert(string_views(v@)[i as int] == s@);
            }
            return true;
        }
        i = i + 1;
    }
    proof {
        if string_views(v@).contains(s@) {
            let k = choose|k: int| 0 <= k < string_views(v@).len() && string_views(v@)[k] == s@;
            assert(v@[k]@ == s@);
        }
    }
    false
}

/// The registered agents that get a disabled configuration row before the runtime starts:
/// rows that exist are kept as they are, and the agent enabled without a row gets none.
pub fn agents_to_seed(registered: &Vec<String>, existing: &Vec<String>) -> (r: Vec<String>)
    ensures
        string_views(r@) == seed_ids(string_views(registered@), string_views(existing@)),
{
    let ghost ids = string_views(registered@);
    let ghost ex = string_views(existing@);
    let mut out: Vec<String> = Vec::new();
    let mut i: usize = 0;
    while i < registered.len()
        invariant
            i <= registered.len(),
            ids == string_views(registered@),
            ex == string_views(existing@),
            string_views(out@) == seed_ids(ids.subrange(0, i as int), ex),
        decreases registered.len() - i,
    {
        let ghost before = ids.subrange(0, i as int);
        let ghost after = ids.subrange(0, i + 1);
        proof {
            assert(after.drop_last() == before);
            assert(after.last() == registered@[i as int]@);
        }
        let id = registered[i].as_str();
        if !str_eq(id, AGENT_ID_ENABLED_WITHOUT_CONFIG) && !contains_text(existing, id) {
            out.push(registered[i].clone());
            proof {
                assert(string_views(out@) == string_views(out@.drop_last()).push(registered@[i as int]@));
            }
        }
        i = i + 1;
        proof {
            assert(ids.subrange(0, i as int) == after);
        }
    }
    proof {
        assert(ids.subrange(0, ids.len() as int) == ids);
    }
    out
}

/// A configuration row written for an agent before the runtime starts.
#[derive(Debug)]
pub struct AgentSeedRow {
    pub agent_id: String,
    pub enabled: bool,
    pub config: JsonValue,
}

/// The rows to write before the runtime starts: each agent `agents_to_seed` names gets a
/// disabled row with an empty configuration object, so that the user enables it.
pub fn agent_seed_rows(registered: &Vec<String>, existing: &Vec<String>) -> (r: Vec<AgentSeedRow>)
    ensures
        r@.len() == seed_ids(string_views(registered@), string_views(existing@)).len(),
        forall|k: int|
            0 <= k < r@.len() ==> {
                &&& (#[trigger] r@[k]).agent_id@ == seed_ids(string_views(registered@), string_views(existing@))[k]
                &&& !r@[k].enabled
                &&& r@[k].config matches JsonValue::Object(members) && members@.len() == 0
            },
{
    let ids = agents_to_seed(registered, existing);
    let mut rows: Vec<AgentSeedRow> = Vec::new();
    let mut i: usize = 0;
    while i < ids.len()
        invariant
            i <= ids.len(),
            rows@.len() == i,
            string_views(ids@) == seed_ids(string_views(registered@), string_views(existing@)),
            forall|k: int|
                0 <= k < i ==> {
                    &&& (#[trigger] rows@[k]).agent_id@ == ids@[k]@
                    &&& !rows@[k].enabled
                    &&& rows@[k].config matches JsonValue::Object(members) && members@.len() == 0
                },
        decreases ids.len() - i,
    {
        rows.push(AgentSeedRow { agent_id: ids[i].clone(), enabled: false, config: JsonValue::Object(Vec::new()) });
        i = i + 1;
    }
    proof {
        assert forall|k: int| 0 <= k < rows@.len() implies (#[trigger] rows@[k]).agent_id@ == seed_ids(
            string_views(registered@),
            string_views(existing@),
        )[k] by {
            assert(string_views(ids@)[k] == ids@[k]@);
        }
    }
    rows
}

/// Seeding covers exactly the registered agents without a row, other than the one enabled
/// without configuration: it never touches an existing row.
pub proof fn lemma_seeding_keeps_existing_rows(ids: Seq<Seq<char>>, existing: Seq<Seq<char>>)
    ensures
        forall|k: int|
            0 <= k < seed_ids(ids, existing).len() ==> needs_seed(
                #[trigger] seed_ids(ids, existing)[k],
                existing,
            ) && ids.contains(seed_ids(ids, existing)[k]),
        forall|k: int|
            0 <= k < ids.len() && needs_seed(#[trigger] ids[k], existing) ==> seed_ids(
                ids,
                existing,
            ).contains(ids[k]),
    decreases ids.len(),
{
    if ids.len() > 0 {
        let d = ids.drop_last();
        lemma_seeding_keeps_existing_rows(d, existing);
        let rest = seed_ids(d, existing);
        let all = seed_ids(ids, existing);
        assert forall|k: int| 0 <= k < all.len() implies needs_seed(#[trigger] all[k], existing)
            && ids.contains(all[k]) by {
            if k < rest.len() {
                assert(all[k] == rest[k]);
                let j = choose|j: int| 0 <= j < d.len() && d[j] == rest[k];
                assert(ids[j] == d[j]);
            } else {
                assert(all[k] == ids[ids.len() - 1]);
            }
        }
        assert forall|k: int| 0 <= k < ids.len() && needs_seed(#[trigger] ids[k], existing) implies all.contains(
            ids[k],
        ) by {
            if k < d.len() {
                assert(d[k] == ids[k]);
                assert(rest.contains(d[k]));
                let j = choose|j: int| 0 <= j < rest.len() && rest[j] == d[k];
                assert(all[j] == rest[j]);
            } else {
                assert(all[all.len() - 1] == ids[k]);
            }
        }
    }
}

} // verus!
