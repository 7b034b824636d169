//! The command service that stands in while the host is not ready, and the slot that
//! holds the current service.
use vstd::prelude::*;

use super::error::CommandError;
use crate::text::concat;

verus! {

/// Answers every command with the reason the host is unavailable.
#[derive(Clone, Debug)]
pub struct UnavailableHostCommandService {
    message: String,
}

impl UnavailableHostCommandService {
    pub closed spec fn spec_message(&self) -> Seq<char> {
        self.message@
    }

    /// While the host is starting.
    pub fn not_ready() -> (r: Self)
        ensures
            r.spec_message() == "桌面宿主尚未完成初始化，请稍后重试"@,
    {
        UnavailableHostCommandService { message: String::from_str("桌面宿主尚未完成初始化，请稍后重试") }
    }

    /// After starting failed, with the real reason.
    pub fn failed(reason: &str) -> (r: Self)
        ensures
            r.spec_message() == "桌面宿主初始化失败："@ + reason@,
    {
        UnavailableHostCommandService { message: concat("桌面宿主初始化失败：", reason) }
    }

    /// The error every command gets.
    pub fn error(&self) -> (r: CommandError)
        ensures
            r.code@ == "host_command_unavailable"@,
            r.message@ == self.spec_message(),
            r.retryable,
            r.diagnostic_id is None,
    {
        CommandError::unavailable_message(self.message.as_str())
    }
}

/// How long a command waits for the host to finish starting before it answers with the
/// stand-in's error.
pub const HOST_READY_WAIT_SECONDS: u64 = 20;

/// The command service behind the bridge: a stand-in at first, replaced once the host has
/// started or has failed to start. Commands wait while it is not initialized.
#[derive(Debug)]
pub struct HostCommandServiceSlot<S> {
    service: S,
    initialized: bool,
}

impl<S> HostCommandServiceSlot<S> {
    pub closed spec fn spec_service(&self) -> S {
        self.service
    }

    pub closed spec fn spec_initialized(&self) -> bool {
        self.initialized
    }

    /// A slot with the stand-in service; not initialized yet.
    pub fn new(service: S) -> (r: Self)
        ensures
            r.spec_service() == service,
            !r.spec_initialized(),
    {
        HostCommandServiceSlot { service, initialized: false }
    }

    /// The host started: its service answers from now on, and waiting ends.
    pub fn replace(&mut self, service: S)
        ensures
            final(self).spec_service() == service,
            final(self).spec_initialized(),
    {
        self.service = service;
        self.mark_ready();
    }

    /// Starting failed: the failure's stand-in answers from now on, and waiting ends too,
    /// so that commands report the reason at once.
    pub fn fail(&mut self, service: S)
        ensures
            final(self).spec_service() == service,
            final(self).spec_initialized(),
    {
        self.service = service;
        self.mark_ready();
    }

    fn mark_ready(&mut self)
        ensures
            final(self).spec_service() == old(self).spec_service(),
            final(self).spec_initialized(),
    {
        self.initialized = true;
    }

    /// Whether a command must wait (at most `HOST_READY_WAIT_SECONDS`) before it is answered.
    pub fn must_wait(&self) -> (b: bool)
        ensures
            b == !self.spec_initialized(),
    {
        !self.initialized
    }

    /// The service that answers commands now.
    pub fn current(&self) -> (r: &S)
        ensures
            *r == self.spec_service(),
    {
        &self.service
    }
}

} // verus!
