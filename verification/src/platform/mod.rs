//! Platform records of the host: application directories, process results, background
//! tasks, local IPC and system interface values, and their errors.
use vstd::prelude::*;

use std::sync::Arc;
use std::sync::atomic::AtomicBool;

use crate::update::error::ErrorView;
use crate::winpath::{join_path, joined};

pub mod windows;

verus! {

/// The application directories. Each must be created before use; a missing one never
/// falls back to the working directory.
#[derive(Clone, Debug, Eq, PartialEq)]
pub struct AppPaths {
    pub config_dir: String,
    pub data_dir: String,
    pub log_dir: String,
    pub spool_dir: String,
    /// The application's own temp directory: update downloads, unpacking and the installer log.
    pub temp_dir: String,
}

impl AppPaths {
    /// All directories below one root, for tests.
    pub fn for_tests(root: &str) -> (r: Self)
        ensures
            r.config_dir@ == joined(root@, "config"@),
            r.data_dir@ == joined(root@, "data"@),
            r.log_dir@ == joined(root@, "logs"@),
            r.spool_dir@ == joined(root@, "spool"@),
            r.temp_dir@ == joined(root@, "temp"@),
    {
        proof {
            reveal_strlit("config");
            reveal_strlit("data");
            reveal_strlit("logs");
            reveal_strlit("spool");
            reveal_strlit("temp");
        }
        AppPaths {
            config_dir: join_path(root, "config"),
            data_dir: join_path(root, "data"),
            log_dir: join_path(root, "logs"),
            spool_dir: join_path(root, "spool"),
            temp_dir: join_path(root, "temp"),
        }
    }
}

// ---------------------------------------------------------------- processes
/// Why a process result is unknown.
#[derive(Clone, Copy, Debug, PartialEq, Eq, Structural)]
pub enum ProcessUnknownReason {
    Timeout,
    Cancelled,
}

/// Output captured from a process stream, cut at a limit.
#[derive(Clone, Debug, Eq, PartialEq)]
pub struct CapturedOutput {
    bytes: Vec<u8>,
    truncated: bool,
}

impl CapturedOutput {
    pub closed spec fn spec_bytes(&self) -> Seq<u8> {
        self.bytes@
    }

    pub closed spec fn spec_truncated(&self) -> bool {
        self.truncated
    }

    pub fn new(bytes: Vec<u8>, truncated: bool) -> (r: Self)
        ensures
            r.spec_bytes() == bytes@,
            r.spec_truncated() == truncated,
    {
        CapturedOutput { bytes, truncated }
    }

    pub fn bytes(&self) -> (r: &[u8])
        ensures
            r@ == self.spec_bytes(),
    {
        self.bytes.as_slice()
    }

    pub fn truncated(&self) -> (b: bool)
        ensures
            b == self.spec_truncated(),
    {
        self.truncated
    }

    /// Takes in one chunk read from the stream: keeps what still fits under `limit` and
    /// marks the output truncated when something was dropped.
    pub fn append_capped(&mut self, chunk: &[u8], limit: usize)
        requires
            old(self).spec_bytes().len() <= limit,
        ensures
            final(self).spec_bytes() == old(self).spec_bytes() + chunk@.take(
                min_int(chunk@.len() as int, limit - old(self).spec_bytes().len()),
            ),
            final(self).spec_truncated() == (old(self).spec_truncated() || old(self).spec_bytes().len()
                + chunk@.len() > limit),
            final(self).spec_bytes().len() <= limit,
    {
        let remaining = limit - self.bytes.len();
        let retained = if chunk.len() < remaining {
            chunk.len()
        } else {
            remaining
        };
        let mut i: usize = 0;
        let ghost start = self.bytes@;
        while i < retained
            invariant
                i <= retained <= chunk.len(),
                retained <= remaining,
                remaining == limit - start.len(),
                retained == (if chunk.len() < remaining {
                    chunk.len()
                } else {
                    remaining
                }),
                start == old(self).spec_bytes(),
                self.truncated == old(self).spec_truncated(),
                self.bytes@ == start + chunk@.take(i as int),
            decreases retained - i,
        {
            self.bytes.push(chunk[i]);
            i = i + 1;
            assert(chunk@.take(i as int) == chunk@.take(i as int - 1).push(chunk@[i as int - 1]));
        }
        if retained < chunk.len() {
            self.truncated = true;
        }
    }
}

pub open spec fn min_int(a: int, b: int) -> int {
    if a < b {
        a
    } else {
        b
    }
}

/// The bytes of all chunks one after another.
pub open spec fn flatten(chunks: Seq<Seq<u8>>) -> Seq<u8>
    decreases chunks.len(),
{
    if chunks.len() == 0 {
        Seq::<u8>::empty()
    } else {
        flatten(chunks.drop_last()) + chunks.last()
    }
}

pub open spec fn chunk_views(chunks: Seq<Vec<u8>>) -> Seq<Seq<u8>> {
    chunks.map_values(|c: Vec<u8>| c@)
}

/// Captures a whole stream read in chunks: the first `limit` bytes are kept, and the
/// output is truncated exactly when the stream was longer.
pub fn read_capped(chunks: &Vec<Vec<u8>>, limit: usize) -> (r: CapturedOutput)
    ensures
        r.spec_bytes() == flatten(chunk_views(chunks@)).take(
            min_int(flatten(chunk_views(chunks@)).len() as int, limit as int),
        ),
        r.spec_truncated() == (flatten(chunk_views(chunks@)).len() > limit),
{
    let mut out = CapturedOutput::new(Vec::new(), false);
    let mut k: usize = 0;
    while k < chunks.len()
        invariant
            k <= chunks.len(),
            out.spec_bytes().len() <= limit,
            out.spec_bytes() == flatten(chunk_views(chunks@.subrange(0, k as int))).take(
                min_int(flatten(chunk_views(chunks@.subrange(0, k as int))).len() as int, limit as int),
            ),
            out.spec_truncated() == (flatten(chunk_views(chunks@.subrange(0, k as int))).len() > limit),
        decreases chunks.len() - k,
    {
        let ghost before = flatten(chunk_views(chunks@.subrange(0, k as int)));
        proof {
            assert(chunk_views(chunks@.subrange(0, k as int + 1)).drop_last() == chunk_views(
                chunks@.subrange(0, k as int),
            ));
            assert(chunk_views(chunks@.subrange(0, k as int + 1)).last() == chunks@[k as int]@);
        }
        out.append_capped(chunks[k].as_slice(), limit);
        proof {
            let after = flatten(chunk_views(chunks@.subrange(0, k as int + 1)));
            let c = chunks@[k as int]@;
            assert(after == before + c);
            if before.len() <= limit {
                assert(out.spec_bytes() =~= after.take(min_int(after.len() as int, limit as int)));
            } else {
                assert(out.spec_bytes() =~= after.take(min_int(after.len() as int, limit as int)));
            }
        }
        k = k + 1;
    }
    proof {
        assert(chunks@.subrange(0, chunks@.len() as int) == chunks@);
    }
    out
}

/// The result of a finished process.
#[derive(Clone, Debug, Eq, PartialEq)]
pub struct ProcessOutput {
    exit_code: Option<i32>,
    success: bool,
    stdout: CapturedOutput,
    stderr: CapturedOutput,
}

impl ProcessOutput {
    pub closed spec fn spec_exit_code(&self) -> Option<i32> {
        self.exit_code
    }

    pub closed spec fn spec_success(&self) -> bool {
        self.success
    }

    pub closed spec fn spec_stdout(&self) -> CapturedOutput {
        self.stdout
    }

    pub closed spec fn spec_stderr(&self) -> CapturedOutput {
        self.stderr
    }

    pub fn new(exit_code: Option<i32>, success: bool, stdout: CapturedOutput, stderr: CapturedOutput) -> (r:
        Self)
        ensures
            r.spec_exit_code() == exit_code,
            r.spec_success() == success,
            r.spec_stdout() == stdout,
            r.spec_stderr() == stderr,
    {
        ProcessOutput { exit_code, success, stdout, stderr }
    }

    pub fn exit_code(&self) -> (r: Option<i32>)
        ensures
            r == self.spec_exit_code(),
    {
        self.exit_code
    }

    pub fn success(&self) -> (b: bool)
        ensures
            b == self.spec_success(),
    {
        self.success
    }

    pub fn stdout(&self) -> (r: &CapturedOutput)
        ensures
            *r == self.spec_stdout(),
    {
        &self.stdout
    }

    pub fn stderr(&self) -> (r: &CapturedOutput)
        ensures
            *r == self.spec_stderr(),
    {
        &self.stderr
    }
}

/// A process either finished, or its result is unknown (timed out or cancelled).
#[derive(Clone, Debug, Eq, PartialEq)]
pub enum ProcessOutcome {
    Completed(ProcessOutput),
    UnknownResult { reason: ProcessUnknownReason },
}

impl ProcessOutcome {
    pub fn is_unknown(&self) -> (b: bool)
        ensures
            b == (*self is UnknownResult),
    {
        match self {
            ProcessOutcome::UnknownResult { .. } => true,
            ProcessOutcome::Completed(_) => false,
        }
    }
}

/// The outcome of a process that timed out or was cancelled.
pub fn unknown_result(reason: ProcessUnknownReason) -> (r: ProcessOutcome)
    ensures
        r == (ProcessOutcome::UnknownResult { reason }),
{
    ProcessOutcome::UnknownResult { reason }
}

/// The default upper bound of a child process's run time, in seconds.
pub const DEFAULT_PROCESS_TIMEOUT_SECS: u64 = 30;

/// A child process to run. The child starts with an empty environment: only the
/// allowlisted variables of the host (those that are set) and the explicit ones reach it.
#[derive(Clone, Debug)]
pub struct ProcessRequest {
    program: String,
    args: Vec<String>,
    cwd: Option<String>,
    env: Vec<(String, String)>,
    env_allowlist: Vec<String>,
    timeout_millis: u64,
    /// Raised by the caller to stop waiting for the process.
    cancel: Option<Arc<AtomicBool>>,
}

pub open spec fn pair_views(v: Seq<(String, String)>) -> Seq<(Seq<char>, Seq<char>)> {
    v.map_values(|p: (String, String)| (p.0@, p.1@))
}

pub open spec fn texts_view(v: Seq<String>) -> Seq<Seq<char>> {
    v.map_values(|s: String| s@)
}

impl ProcessRequest {
    pub closed spec fn spec_program(&self) -> Seq<char> {
        self.program@
    }

    pub closed spec fn spec_args(&self) -> Seq<Seq<char>> {
        texts_view(self.args@)
    }

    pub closed spec fn spec_cwd(&self) -> Option<Seq<char>> {
        match self.cwd {
            Some(d) => Some(d@),
            None => None,
        }
    }

    /// The explicit variables in the order they were set; a later one for the same name
    /// wins when the child is started.
    pub closed spec fn spec_env(&self) -> Seq<(Seq<char>, Seq<char>)> {
        pair_views(self.env@)
    }

    pub closed spec fn spec_env_allowlist(&self) -> Seq<Seq<char>> {
        texts_view(self.env_allowlist@)
    }

    pub closed spec fn spec_timeout_millis(&self) -> u64 {
        self.timeout_millis
    }

    /// Whether the request carries a cancel flag.
    pub closed spec fn spec_cancellable(&self) -> bool {
        self.cancel is Some
    }

    /// A request for `program` with no arguments, no working directory, an empty
    /// environment and the default time limit.
    pub fn new(program: &str) -> (r: Self)
        ensures
            r.spec_program() == program@,
            r.spec_args().len() == 0,
            r.spec_cwd() is None,
            r.spec_env().len() == 0,
            r.spec_env_allowlist().len() == 0,
            r.spec_timeout_millis() == DEFAULT_PROCESS_TIMEOUT_SECS * 1000,
            !r.spec_cancellable(),
    {
        ProcessRequest {
            program: String::from_str(program),
            args: Vec::new(),
            cwd: None,
            env: Vec::new(),
            env_allowlist: Vec::new(),
            timeout_millis: DEFAULT_PROCESS_TIMEOUT_SECS * 1000,
            cancel: None,
        }
    }

    pub fn program(&self) -> (r: &str)
        ensures
            r@ == self.spec_program(),
    {
        self.program.as_str()
    }

    /// Replaces the arguments.
    pub fn args(self, args: Vec<String>) -> (r: Self)
        ensures
            r.spec_args() == texts_view(args@),
            r.spec_program() == self.spec_program(),
            r.spec_cwd() == self.spec_cwd(),
            r.spec_env() == self.spec_env(),
            r.spec_env_allowlist() == self.spec_env_allowlist(),
            r.spec_timeout_millis() == self.spec_timeout_millis(),
    {
        ProcessRequest { args, ..self }
    }

    pub fn current_dir(self, directory: &str) -> (r: Self)
        ensures
            r.spec_cwd() == Some(directory@),
            r.spec_program() == self.spec_program(),
            r.spec_args() == self.spec_args(),
            r.spec_env() == self.spec_env(),
            r.spec_env_allowlist() == self.spec_env_allowlist(),
            r.spec_timeout_millis() == self.spec_timeout_millis(),
    {
        ProcessRequest { cwd: Some(String::from_str(directory)), ..self }
    }

    /// Sets one explicit variable.
    pub fn env(self, key: &str, value: &str) -> (r: Self)
        ensures
            r.spec_env() == self.spec_env().push((key@, value@)),
            r.spec_program() == self.spec_program(),
            r.spec_args() == self.spec_args(),
            r.spec_cwd() == self.spec_cwd(),
            r.spec_env_allowlist() == self.spec_env_allowlist(),
            r.spec_timeout_millis() == self.spec_timeout_millis(),
    {
        let mut env = self.env;
        env.push((String::from_str(key), String::from_str(value)));
        proof {
            assert(pair_views(env@) =~= pair_views(self.env@).push((key@, value@)));
        }
        ProcessRequest { env, ..self }
    }

    /// Replaces the names of the host variables the child may see.
    pub fn env_allowlist(self, names: Vec<String>) -> (r: Self)
        ensures
            r.spec_env_allowlist() == texts_view(names@),
            r.spec_program() == self.spec_program(),
            r.spec_args() == self.spec_args(),
            r.spec_cwd() == self.spec_cwd(),
            r.spec_env() == self.spec_env(),
            r.spec_timeout_millis() == self.spec_timeout_millis(),
    {
        ProcessRequest { env_allowlist: names, ..self }
    }

    pub fn timeout_millis(self, millis: u64) -> (r: Self)
        ensures
            r.spec_timeout_millis() == millis,
            r.spec_program() == self.spec_program(),
            r.spec_args() == self.spec_args(),
            r.spec_cwd() == self.spec_cwd(),
            r.spec_env() == self.spec_env(),
            r.spec_env_allowlist() == self.spec_env_allowlist(),
    {
        ProcessRequest { timeout_millis: millis, ..self }
    }

    pub fn time_limit_millis(&self) -> (r: u64)
        ensures
            r == self.spec_timeout_millis(),
    {
        self.timeout_millis
    }

    /// Gives the request a cancel flag; raising it stops the wait for the process.
    pub fn cancel_flag(self, flag: Arc<AtomicBool>) -> (r: Self)
        ensures
            r.spec_cancellable(),
            r.spec_program() == self.spec_program(),
            r.spec_args() == self.spec_args(),
            r.spec_cwd() == self.spec_cwd(),
            r.spec_env() == self.spec_env(),
            r.spec_env_allowlist() == self.spec_env_allowlist(),
            r.spec_timeout_millis() == self.spec_timeout_millis(),
    {
        ProcessRequest { cancel: Some(flag), ..self }
    }

    /// Whether the cancel flag is raised now (`None` without a flag). The flag is raised
    /// by another party at any time, so two reads may differ.
    pub fn cancel_requested(&self) -> (r: Option<bool>)
        ensures
            r is Some == self.spec_cancellable(),
    {
        match &self.cancel {
            Some(flag) => Some(flag.load(std::sync::atomic::Ordering::SeqCst)),
            None => None,
        }
    }

    pub fn arguments(&self) -> (r: &Vec<String>)
        ensures
            texts_view(r@) == self.spec_args(),
    {
        &self.args
    }

    pub fn working_dir(&self) -> (r: Option<&str>)
        ensures
            match r {
                Some(d) => self.spec_cwd() == Some(d@),
                None => self.spec_cwd() is None,
            },
    {
        match &self.cwd {
            Some(d) => Some(d.as_str()),
            None => None,
        }
    }

    pub fn allowlisted_names(&self) -> (r: &Vec<String>)
        ensures
            texts_view(r@) == self.spec_env_allowlist(),
    {
        &self.env_allowlist
    }
}

/// The allowlisted host variables that are set, in allowlist order.
pub open spec fn present_host_vars(names: Seq<Seq<char>>, host: Seq<Option<Seq<char>>>) -> Seq<
    (Seq<char>, Seq<char>),
>
    decreases names.len(),
{
    if names.len() == 0 || host.len() < names.len() {
        Seq::empty()
    } else {
        let rest = present_host_vars(names.drop_last(), host.subrange(0, names.len() - 1));
        match host[names.len() - 1] {
            Some(v) => rest.push((names.last(), v)),
            None => rest,
        }
    }
}

pub open spec fn opt_texts(v: Seq<Option<String>>) -> Seq<Option<Seq<char>>> {
    v.map_values(|o: Option<String>| match o {
        Some(s) => Some(s@),
        None => None,
    })
}

/// The variables to set in the child's empty environment, in order: the allowlisted host
/// variables that are set (`host_values[i]` is the host's value of the `i`-th allowlisted
/// name), then the explicit ones, so that an explicit value wins.
pub fn child_environment(request: &ProcessRequest, host_values: &Vec<Option<String>>) -> (r: Vec<
    (String, String),
>)
    requires
        host_values.len() == request.spec_env_allowlist().len(),
    ensures
        pair_views(r@) == present_host_vars(request.spec_env_allowlist(), opt_texts(host_values@))
            + request.spec_env(),
{
    let names = &request.env_allowlist;
    let mut out: Vec<(String, String)> = Vec::new();
    let mut i: usize = 0;
    while i < names.len()
        invariant
            i <= names.len() == host_values.len(),
            names@ == request.env_allowlist@,
            pair_views(out@) == present_host_vars(
                texts_view(names@).subrange(0, i as int),
                opt_texts(host_values@).subrange(0, i as int),
            ),
        decreases names.len() - i,
    {
        let ghost ns = texts_view(names@).subrange(0, i + 1);
        let ghost hs = opt_texts(host_values@).subrange(0, i + 1);
        proof {
            assert(ns.drop_last() == texts_view(names@).subrange(0, i as int));
            assert(hs.subrange(0, i as int) == opt_texts(host_values@).subrange(0, i as int));
        }
        match &host_values[i] {
            Some(v) => {
                out.push((names[i].clone(), v.clone()));
                proof {
                    assert(pair_views(out@) =~= pair_views(out@.drop_last()).push((names@[i as int]@, v@)));
                }
            },
            None => {},
        }
        i = i + 1;
    }
    proof {
        assert(texts_view(names@).subrange(0, names@.len() as int) == texts_view(names@));
        assert(opt_texts(host_values@).subrange(0, names@.len() as int) == opt_texts(host_values@));
    }
    let mut k: usize = 0;
    let ghost base = pair_views(out@);
    while k < request.env.len()
        invariant
            k <= request.env.len(),
            pair_views(out@) == base + pair_views(request.env@).subrange(0, k as int),
        decreases request.env.len() - k,
    {
        let key = request.env[k].0.clone();
        let value = request.env[k].1.clone();
        let ghost before = out@;
        out.push((key, value));
        proof {
            assert(pair_views(out@) =~= pair_views(before).push(pair_views(request.env@)[k as int]));
            assert(pair_views(request.env@).subrange(0, k + 1) =~= pair_views(request.env@).subrange(
                0,
                k as int,
            ).push(pair_views(request.env@)[k as int]));
        }
        k = k + 1;
    }
    proof {
        assert(pair_views(request.env@).subrange(0, request.env@.len() as int) == pair_views(request.env@));
    }
    out
}

// ---------------------------------------------------------------- errors
/// Failure to run a process.
#[derive(Clone, Debug, Eq, PartialEq)]
pub struct ProcessError {
    code: String,
    message: String,
}

impl View for ProcessError {
    type V = ErrorView;

    closed spec fn view(&self) -> ErrorView {
        ErrorView { code: self.code@, message: self.message@ }
    }
}

impl ProcessError {
    pub fn new(code: &str, message: &str) -> (r: Self)
        ensures
            r@ == (ErrorView { code: code@, message: message@ }),
    {
        ProcessError { code: String::from_str(code), message: String::from_str(message) }
    }

    pub fn code(&self) -> (r: &str)
        ensures
            r@ == self@.code,
    {
        self.code.as_str()
    }

    pub fn message(&self) -> (r: &str)
        ensures
            r@ == self@.message,
    {
        self.message.as_str()
    }
}

/// Failure of the background task registry.
#[derive(Clone, Debug, Eq, PartialEq)]
pub struct BackgroundTaskError {
    code: String,
    message: String,
}

impl View for BackgroundTaskError {
    type V = ErrorView;

    closed spec fn view(&self) -> ErrorView {
        ErrorView { code: self.code@, message: self.message@ }
    }
}

impl BackgroundTaskError {
    pub fn new(code: &str, message: &str) -> (r: Self)
        ensures
            r@ == (ErrorView { code: code@, message: message@ }),
    {
        BackgroundTaskError { code: String::from_str(code), message: String::from_str(message) }
    }

    pub fn code(&self) -> (r: &str)
        ensures
            r@ == self@.code,
    {
        self.code.as_str()
    }

    pub fn message(&self) -> (r: &str)
        ensures
            r@ == self@.message,
    {
        self.message.as_str()
    }
}

/// Failure of the local pipe.
#[derive(Clone, Debug, Eq, PartialEq)]
pub struct LocalIpcError {
    code: String,
    message: String,
}

impl View for LocalIpcError {
    type V = ErrorView;

    closed spec fn view(&self) -> ErrorView {
        ErrorView { code: self.code@, message: self.message@ }
    }
}

impl LocalIpcError {
    pub fn new(code: &str, message: &str) -> (r: Self)
        ensures
            r@ == (ErrorView { code: code@, message: message@ }),
    {
        LocalIpcError { code: String::from_str(code), message: String::from_str(message) }
    }

    pub fn code(&self) -> (r: &str)
        ensures
            r@ == self@.code,
    {
        self.code.as_str()
    }

    pub fn message(&self) -> (r: &str)
        ensures
            r@ == self@.message,
    {
        self.message.as_str()
    }
}

/// Failure of the system interface (window, tray, notification, folder).
#[derive(Clone, Debug, Eq, PartialEq)]
pub struct SystemUiError {
    code: String,
    message: String,
}

impl View for SystemUiError {
    type V = ErrorView;

    closed spec fn view(&self) -> ErrorView {
        ErrorView { code: self.code@, message: self.message@ }
    }
}

impl SystemUiError {
    pub fn new(code: &str, message: &str) -> (r: Self)
        ensures
            r@ == (ErrorView { code: code@, message: message@ }),
    {
        SystemUiError { code: String::from_str(code), message: String::from_str(message) }
    }

    pub fn code(&self) -> (r: &str)
        ensures
            r@ == self@.code,
    {
        self.code.as_str()
    }

    pub fn message(&self) -> (r: &str)
        ensures
            r@ == self@.message,
    {
        self.message.as_str()
    }
}

// ---------------------------------------------------------------- tasks, pipe, tray
/// State of a background task.
#[derive(Clone, Copy, Debug, PartialEq, Eq, Structural)]
pub enum TaskState {
    Running,
    Completed,
    Cancelled,
    Failed,
    Unknown,
}

impl TaskState {
    pub open spec fn spec_name(self) -> Seq<char> {
        match self {
            TaskState::Running => "running"@,
            TaskState::Completed => "completed"@,
            TaskState::Cancelled => "cancelled"@,
            TaskState::Failed => "failed"@,
            TaskState::Unknown => "unknown"@,
        }
    }

    pub fn as_str(self) -> (r: &'static str)
        ensures
            r@ == self.spec_name(),
    {
        match self {
            TaskState::Running => "running",
            TaskState::Completed => "completed",
            TaskState::Cancelled => "cancelled",
            TaskState::Failed => "failed",
            TaskState::Unknown => "unknown",
        }
    }
}

/// A background task as the registry reports it.
#[derive(Clone, Debug, Eq, PartialEq)]
pub struct BackgroundTaskSnapshot {
    pub name: String,
    pub state: TaskState,
}

/// How an event reached the running host: directly, or through the spool directory.
#[derive(Clone, Copy, Debug, PartialEq, Eq, Structural)]
pub enum IpcSubmitResult {
    Submitted,
    Spooled,
}

/// The system interface of the host (window, tray, notifications, the log directory),
/// implemented by the host's shell; every call can fail with a `SystemUiError`.
pub trait SystemUi {
    fn show_main_window(&self) -> Result<(), SystemUiError>;

    fn hide_main_window(&self) -> Result<(), SystemUiError>;

    fn set_tray_state(&self, state: TrayState) -> Result<(), SystemUiError>;

    fn show_system_notification(&self, title: &str, body: &str) -> Result<(), SystemUiError>;

    fn open_log_dir(&self) -> Result<(), SystemUiError>;
}

/// The state shown by the tray icon.
#[derive(Clone, Copy, Debug, PartialEq, Eq, Structural)]
pub enum TrayState {
    Running,
    Paused,
    Stopped,
}

impl TrayState {
    pub open spec fn spec_name(self) -> Seq<char> {
        match self {
            TrayState::Running => "running"@,
            TrayState::Paused => "paused"@,
            TrayState::Stopped => "stopped"@,
        }
    }

    /// The name used when the state is sent to the interface.
    pub fn as_str(self) -> (r: &'static str)
        ensures
            r@ == self.spec_name(),
    {
        match self {
            TrayState::Running => "running",
            TrayState::Paused => "paused",
            TrayState::Stopped => "stopped",
        }
    }
}

} // verus!
