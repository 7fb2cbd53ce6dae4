//! The lifecycle of a published hidden service.
//!
//! A service controller owns an optional handle to the running service and
//! the cancellation token it shares with its rendezvous pipeline. Closing
//! is irreversible: it raises the token and releases the handle, and from
//! then on the reported state is `Shutdown` whatever the handle would have
//! reported. Waiting for the service to come up is a polling loop whose
//! decision rule lives here; the host only sleeps and queries.

use vstd::prelude::*;
use tokio_util::sync::CancellationToken;
use crate::CoreError;
use crate::cancel;

verus! {

/// The operational states of a published hidden service, as reported by
/// the running-service handle, plus `Shutdown` for a released handle and
/// `Unknown` for states this library does not know.
#[derive(Debug, Clone, Copy, PartialEq, Eq, Structural)]
pub enum StateOnionService {
    /// The handle is gone or the service has shut down. Terminal.
    Shutdown,
    /// The service is starting up and not reachable yet.
    Bootstrapping,
    /// The service runs degraded but is still reachable.
    DegradedReachable,
    /// The service runs degraded and is not reachable.
    DegradedUnreachable,
    /// The service is up and reachable.
    Running,
    /// The service lost its descriptors or circuits and is rebuilding.
    Recovering,
    /// The service failed and will not recover on its own. Terminal, but
    /// resources are only released by closing the controller.
    Broken,
    /// A state this library does not know.
    Unknown,
}

/// What one turn of the wait-for-running loop decides.
#[derive(Debug, Clone, Copy, PartialEq, Eq, Structural)]
pub enum WaitAction {
    /// The service is running; the wait succeeds.
    Done,
    /// The service is broken; the wait fails with `ServiceBroken`.
    FailBroken,
    /// The deadline elapsed; the wait fails with `ServiceStartTimeout`.
    FailTimeout,
    /// Neither: sleep one interval and query the state again.
    Sleep,
}

/// How long the wait-for-running loop sleeps between state queries, in
/// milliseconds.
pub const RUNNING_POLL_INTERVAL_MILLIS: u64 = 500;

/// A controller for one published hidden service: the handle (released on
/// close) and the cancellation token shared with the rendezvous pipeline.
pub struct NativeOnionService<H> {
    /// The running-service handle; `None` once closed.
    pub service: Option<H>,
    /// Raised by `close`; polls race against it.
    pub cancel: CancellationToken,
}

/// The state of a controller after `close`: handle released.
pub open spec fn service_close_spec<H>(s: NativeOnionService<H>) -> NativeOnionService<H> {
    NativeOnionService { service: None, ..s }
}

/// The state the controller reports, given what the handle — if it is
/// still held — reports: a released handle always reads `Shutdown`.
pub open spec fn reported_state_spec<H>(s: NativeOnionService<H>, observed: StateOnionService) -> StateOnionService {
    if s.service is Some {
        observed
    } else {
        StateOnionService::Shutdown
    }
}

impl<H> NativeOnionService<H> {
    /// Wraps a freshly launched service handle in a controller.
    pub fn from_service(service: H) -> (r: Self)
        ensures
            r.service == Some(service),
    {
        NativeOnionService { service: Some(service), cancel: cancel::new_token() }
    }

    /// A handle on the controller's cancellation token, for the host to
    /// race pipeline polls against.
    pub fn cancellation_handle(&self) -> CancellationToken {
        cancel::clone_token(&self.cancel)
    }

    /// The service handle, for the host to query; absent once closed.
    pub fn handle(&self) -> (r: Option<&H>)
        ensures
            match r {
                Some(h) => self.service == Some(*h),
                None => self.service is None,
            },
    {
        self.service.as_ref()
    }

    /// The state this controller reports, given the state the host just
    /// observed on the handle (ignored once the handle is released).
    pub fn state(&self, observed: StateOnionService) -> (r: StateOnionService)
        ensures
            r == reported_state_spec(*self, observed),
    {
        if self.service.is_some() {
            observed
        } else {
            StateOnionService::Shutdown
        }
    }

    /// Closes the controller: raises the shared cancellation token — so
    /// in-flight and future pipeline polls fail with `ServiceClosed` —
    /// and releases the service handle. Idempotent and safe to call from
    /// a finalizer.
    pub fn close(&mut self)
        ensures
            *final(self) == service_close_spec(*old(self)),
    {
        cancel::cancel_token(&self.cancel);
        self.service = None;
    }
}

/// Decides one turn of the wait-for-running loop from the observed state,
/// the milliseconds elapsed since the wait began, and the optional
/// timeout: running wins, a broken service fails at once, the timeout
/// fails only once at least the given milliseconds have elapsed, and
/// otherwise the loop sleeps one interval and polls again. Fast transient
/// states between two polls are tolerated by construction: only the
/// states actually observed are acted on.
pub fn wait_running_step(
    state: StateOnionService,
    elapsed_millis: u64,
    timeout_millis: Option<u64>,
) -> (r: WaitAction)
    ensures
        state is Running ==> r == WaitAction::Done,
        state is Broken ==> r == WaitAction::FailBroken,
        !(state is Running) && !(state is Broken) ==> match timeout_millis {
            Some(t) => if elapsed_millis >= t {
                r == WaitAction::FailTimeout
            } else {
                r == WaitAction::Sleep
            },
            None => r == WaitAction::Sleep,
        },
{
    match state {
        StateOnionService::Running => WaitAction::Done,
        StateOnionService::Broken => WaitAction::FailBroken,
        _ => {
            match timeout_millis {
                Some(t) => {
                    if elapsed_millis >= t {
                        WaitAction::FailTimeout
                    } else {
                        WaitAction::Sleep
                    }
                },
                None => WaitAction::Sleep,
            }
        },
    }
}

/// The error a failed wait reports.
pub fn wait_failure_error(action: WaitAction) -> (r: Option<CoreError>)
    ensures
        action is FailBroken ==> r == Some(CoreError::ServiceBroken),
        action is FailTimeout ==> r == Some(CoreError::ServiceStartTimeout),
        action is Done || action is Sleep ==> r is None,
{
    match action {
        WaitAction::FailBroken => Some(CoreError::ServiceBroken),
        WaitAction::FailTimeout => Some(CoreError::ServiceStartTimeout),
        _ => None,
    }
}

/// Once closed, the controller reports `Shutdown` whatever the underlying
/// handle would report, and closing again changes nothing.
pub proof fn lemma_closed_reports_shutdown<H>(s: NativeOnionService<H>, observed: StateOnionService)
    ensures
        reported_state_spec(service_close_spec(s), observed) == StateOnionService::Shutdown,
        service_close_spec(service_close_spec(s)) == service_close_spec(s),
{
}

} // verus!
