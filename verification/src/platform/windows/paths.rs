//! The application directories from the environment: each may be overridden by an
//! absolute path, else it lies below the user profile or the local application data.
use vstd::prelude::*;

use crate::platform::AppPaths;
use crate::text::concat3;
use crate::update::error::ErrorView;
use crate::winpath::{is_absolute, is_absolute_path, join_path, joined};

verus! {

pub const CONFIG_DIR_ENV: &'static str = "AGENT_NOTIFY_CONFIG_DIR";

pub const DATA_DIR_ENV: &'static str = "AGENT_NOTIFY_DATA_DIR";

pub const LOG_DIR_ENV: &'static str = "AGENT_NOTIFY_LOG_DIR";

pub const SPOOL_DIR_ENV: &'static str = "AGENT_NOTIFY_SPOOL_DIR";

pub const TEMP_DIR_ENV: &'static str = "AGENT_NOTIFY_TEMP_DIR";

pub const USER_PROFILE_ENV: &'static str = "USERPROFILE";

pub const LOCAL_APP_DATA_ENV: &'static str = "LOCALAPPDATA";

/// Why the directories could not be settled.
#[derive(Clone, Debug, Eq, PartialEq)]
pub struct AppPathsError {
    code: &'static str,
    message: String,
}

impl View for AppPathsError {
    type V = ErrorView;

    closed spec fn view(&self) -> ErrorView {
        ErrorView { code: self.code@, message: self.message@ }
    }
}

impl AppPathsError {
    pub fn new(code: &'static str, message: String) -> (r: Self)
        ensures
            r@ == (ErrorView { code: code@, message: message@ }),
    {
        AppPathsError { code, message }
    }

    pub fn code(&self) -> (r: &'static str)
        ensures
            r@ == self@.code,
    {
        self.code
    }

    pub fn message(&self) -> (r: &str)
        ensures
            r@ == self@.message,
    {
        self.message.as_str()
    }
}

/// The values of the environment variables that decide the directories.
#[derive(Clone, Debug, Default)]
pub struct PathEnvironment {
    pub config_dir: Option<String>,
    pub data_dir: Option<String>,
    pub log_dir: Option<String>,
    pub spool_dir: Option<String>,
    pub temp_dir: Option<String>,
    pub user_profile: Option<String>,
    pub local_app_data: Option<String>,
}

pub open spec fn relative_view(name: Seq<char>) -> ErrorView {
    ErrorView {
        code: "app_paths_relative"@,
        message: "环境变量 "@ + name + " 必须配置绝对路径，不能使用当前工作目录兜底"@,
    }
}

pub open spec fn missing_view(name: Seq<char>) -> ErrorView {
    ErrorView { code: "app_paths_environment_missing"@, message: "缺少必要的 Windows 环境变量 "@ + name }
}

/// An absolute path from a variable, else the error naming it.
pub open spec fn absolute_spec(name: Seq<char>, value: Seq<char>) -> Result<Seq<char>, ErrorView> {
    if is_absolute_path(value) {
        Ok(value)
    } else {
        Err(relative_view(name))
    }
}

/// A variable that must be set to an absolute path.
pub open spec fn required_spec(name: Seq<char>, value: Option<Seq<char>>) -> Result<Seq<char>, ErrorView> {
    match value {
        None => Err(missing_view(name)),
        Some(v) => absolute_spec(name, v),
    }
}

/// A directory: the override when set, else `base` (when it could be settled) joined with
/// the two names.
pub open spec fn dir_spec(
    name: Seq<char>,
    override_value: Option<Seq<char>>,
    base: Result<Seq<char>, ErrorView>,
    first: Seq<char>,
    second: Seq<char>,
) -> Result<Seq<char>, ErrorView> {
    match override_value {
        Some(v) => absolute_spec(name, v),
        None => match base {
            Err(e) => Err(e),
            Ok(b) => Ok(joined(joined(b, first), second)),
        },
    }
}

pub open spec fn opt_view(o: Option<String>) -> Option<Seq<char>> {
    match o {
        Some(s) => Some(s@),
        None => None,
    }
}

/// The directories, settled in order; the first failure is reported.
pub open spec fn app_paths_spec(env: PathEnvironment) -> Result<
    (Seq<char>, Seq<char>, Seq<char>, Seq<char>, Seq<char>),
    ErrorView,
> {
    let profile = required_spec(USER_PROFILE_ENV@, opt_view(env.user_profile));
    let local = required_spec(LOCAL_APP_DATA_ENV@, opt_view(env.local_app_data));
    let config = dir_spec(CONFIG_DIR_ENV@, opt_view(env.config_dir), profile, ".config"@, "agent-notify"@);
    let data = dir_spec(DATA_DIR_ENV@, opt_view(env.data_dir), local, "AgentNotify"@, "data"@);
    let log = dir_spec(LOG_DIR_ENV@, opt_view(env.log_dir), local, "AgentNotify"@, "logs"@);
    let spool = dir_spec(SPOOL_DIR_ENV@, opt_view(env.spool_dir), local, "AgentNotify"@, "spool"@);
    let temp = dir_spec(TEMP_DIR_ENV@, opt_view(env.temp_dir), local, "AgentNotify"@, "temp"@);
    match (config, data, log, spool, temp) {
        (Err(e), _, _, _, _) => Err(e),
        (Ok(_), Err(e), _, _, _) => Err(e),
        (Ok(_), Ok(_), Err(e), _, _) => Err(e),
        (Ok(_), Ok(_), Ok(_), Err(e), _) => Err(e),
        (Ok(_), Ok(_), Ok(_), Ok(_), Err(e)) => Err(e),
        (Ok(c), Ok(d), Ok(l), Ok(s), Ok(t)) => Ok((c, d, l, s, t)),
    }
}

fn absolute_or_error(name: &str, value: &str) -> (r: Result<String, AppPathsError>)
    ensures
        match absolute_spec(name@, value@) {
            Ok(v) => r matches Ok(x) && x@ == v,
            Err(v) => r matches Err(e) && e@ == v,
        },
{
    if is_absolute(value) {
        Ok(String::from_str(value))
    } else {
        Err(
            AppPathsError::new(
                "app_paths_relative",
                concat3("环境变量 ", name, " 必须配置绝对路径，不能使用当前工作目录兜底"),
            ),
        )
    }
}

fn required_path(name: &str, value: &Option<String>) -> (r: Result<String, AppPathsError>)
    ensures
        match required_spec(name@, opt_view(*value)) {
            Ok(v) => r matches Ok(x) && x@ == v,
            Err(v) => r matches Err(e) && e@ == v,
        },
{
    match value {
        None => Err(AppPathsError::new("app_paths_environment_missing", crate::text::concat("缺少必要的 Windows 环境变量 ", name))),
        Some(v) => absolute_or_error(name, v.as_str()),
    }
}

fn directory(
    name: &str,
    override_value: &Option<String>,
    base_name: &str,
    base_value: &Option<String>,
    first: &str,
    second: &str,
) -> (r: Result<String, AppPathsError>)
    requires
        !(first@.len() > 0 && crate::winpath::is_sep(first@[0])),
        !(second@.len() > 0 && crate::winpath::is_sep(second@[0])),
    ensures
        match dir_spec(name@, opt_view(*override_value), required_spec(base_name@, opt_view(*base_value)), first@, second@) {
            Ok(v) => r matches Ok(x) && x@ == v,
            Err(v) => r matches Err(e) && e@ == v,
        },
{
    match override_value {
        Some(v) => absolute_or_error(name, v.as_str()),
        None => {
            let base = required_path(base_name, base_value)?;
            let one = join_path(base.as_str(), first);
            Ok(join_path(one.as_str(), second))
        },
    }
}

impl AppPaths {
    /// The directories from the environment values (read by the caller).
    pub fn from_environment(env: &PathEnvironment) -> (r: Result<AppPaths, AppPathsError>)
        ensures
            match app_paths_spec(*env) {
                Ok(d) => r matches Ok(p) && p.config_dir@ == d.0 && p.data_dir@ == d.1 && p.log_dir@
                    == d.2 && p.spool_dir@ == d.3 && p.temp_dir@ == d.4,
                Err(v) => r matches Err(e) && e@ == v,
            },
    {
        proof {
            reveal_strlit(".config");
            reveal_strlit("agent-notify");
            reveal_strlit("AgentNotify");
            reveal_strlit("data");
            reveal_strlit("logs");
            reveal_strlit("spool");
            reveal_strlit("temp");
        }
        let config_dir = directory(
            CONFIG_DIR_ENV,
            &env.config_dir,
            USER_PROFILE_ENV,
            &env.user_profile,
            ".config",
            "agent-notify",
        )?;
        let data_dir = directory(DATA_DIR_ENV, &env.data_dir, LOCAL_APP_DATA_ENV, &env.local_app_data, "AgentNotify", "data")?;
        let log_dir = directory(LOG_DIR_ENV, &env.log_dir, LOCAL_APP_DATA_ENV, &env.local_app_data, "AgentNotify", "logs")?;
        let spool_dir = directory(SPOOL_DIR_ENV, &env.spool_dir, LOCAL_APP_DATA_ENV, &env.local_app_data, "AgentNotify", "spool")?;
        let temp_dir = directory(TEMP_DIR_ENV, &env.temp_dir, LOCAL_APP_DATA_ENV, &env.local_app_data, "AgentNotify", "temp")?;
        Ok(AppPaths { config_dir, data_dir, log_dir, spool_dir, temp_dir })
    }
}

} // verus!
