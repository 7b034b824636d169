//! The error a command shows to the interface: a stable code, a message for the user,
//! whether retrying may help, and an optional diagnostic reference. Nothing else.
use vstd::prelude::*;

verus! {

/// An error visible to the interface.
#[derive(Clone, Debug, Eq, PartialEq)]
pub struct CommandError {
    pub code: String,
    pub message: String,
    pub retryable: bool,
    pub diagnostic_id: Option<String>,
}

pub open spec fn opt_str(o: Option<String>) -> Option<Seq<char>> {
    match o {
        Some(s) => Some(s@),
        None => None,
    }
}

impl CommandError {
    /// A non-retryable error without diagnostic reference.
    pub fn new(code: &str, message: &str) -> (r: Self)
        ensures
            r.code@ == code@,
            r.message@ == message@,
            !r.retryable,
            r.diagnostic_id is None,
    {
        CommandError {
            code: String::from_str(code),
            message: String::from_str(message),
            retryable: false,
            diagnostic_id: None,
        }
    }

    pub fn with_retryable(self, retryable: bool) -> (r: Self)
        ensures
            r.code == self.code,
            r.message == self.message,
            r.retryable == retryable,
            r.diagnostic_id == self.diagnostic_id,
    {
        CommandError { retryable, ..self }
    }

    pub fn with_diagnostic_id(self, diagnostic_id: &str) -> (r: Self)
        ensures
            r.code == self.code,
            r.message == self.message,
            r.retryable == self.retryable,
            opt_str(r.diagnostic_id) == Some(diagnostic_id@),
    {
        CommandError { diagnostic_id: Some(String::from_str(diagnostic_id)), ..self }
    }

    pub fn code(&self) -> (r: &str)
        ensures
            r@ == self.code@,
    {
        self.code.as_str()
    }

    pub fn message(&self) -> (r: &str)
        ensures
            r@ == self.message@,
    {
        self.message.as_str()
    }

    /// The message, as the error is displayed.
    pub fn to_display_string(&self) -> (r: String)
        ensures
            r@ == self.message@,
    {
        String::from_str(self.message.as_str())
    }

    /// The host has not finished starting: retryable.
    pub fn unavailable() -> (r: Self)
        ensures
            r.code@ == "host_command_unavailable"@,
            r.message@ == "桌面宿主尚未完成初始化，请稍后重试"@,
            r.retryable,
            r.diagnostic_id is None,
    {
        CommandError::new("host_command_unavailable", "桌面宿主尚未完成初始化，请稍后重试").with_retryable(true)
    }

    /// The host is unavailable for the given reason (still starting, or failed to start): retryable.
    pub fn unavailable_message(message: &str) -> (r: Self)
        ensures
            r.code@ == "host_command_unavailable"@,
            r.message@ == message@,
            r.retryable,
            r.diagnostic_id is None,
    {
        CommandError::new("host_command_unavailable", message).with_retryable(true)
    }
}

} // verus!
