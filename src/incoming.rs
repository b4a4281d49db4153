//! The accept loop's policy: which accept errors are retried at once, which
//! wait for a backoff delay, and which end the stream of connections.

use vstd::prelude::*;

use crate::poll::kind_of;
use std::time::Duration;

verus! {

/// The duration of exactly `ms` milliseconds, as `Duration::from_millis`
/// builds it.
pub uninterp spec fn duration_from_millis(ms: u64) -> Duration;

/// Relies on `Duration::from_millis`: the duration of exactly `ms`
/// milliseconds, a function of `ms` alone.
pub assume_specification[ Duration::from_millis ](ms: u64) -> (r: Duration)
    ensures
        r == duration_from_millis(ms),
;

/// Backoff applied after a systemic accept error unless configured otherwise.
pub const DEFAULT_BACKOFF_MILLIS: u64 = 250;

/// Errors that concern a single attempted connection, not the listener:
/// refused, aborted or reset by the peer.
pub open spec fn connection_scoped(kind: std::io::ErrorKind) -> bool {
    ||| kind == std::io::ErrorKind::ConnectionRefused
    ||| kind == std::io::ErrorKind::ConnectionAborted
    ||| kind == std::io::ErrorKind::ConnectionReset
}

/// What the accept loop does next after one poll of the inner listener.
#[derive(Clone, Copy, Debug)]
pub enum AcceptStep {
    /// Hand the accepted connection to the caller.
    Yield,
    /// Poll the listener again at once.
    RetryNow,
    /// Poll the listener again once the given delay has elapsed.
    RetryAfter(Duration),
    /// End the stream of connections with the error.
    Fail,
}

/// The step taken after an accept error of kind `kind`, given the configured
/// backoff.
pub open spec fn step_after_error(kind: std::io::ErrorKind, backoff: Option<Duration>) -> AcceptStep {
    if connection_scoped(kind) {
        AcceptStep::RetryNow
    } else {
        match backoff {
            Some(d) => AcceptStep::RetryAfter(d),
            None => AcceptStep::Fail,
        }
    }
}

/// A connection-scoped accept error never delays the next accept: whatever
/// the configured backoff, the loop retries at once.
pub proof fn connection_errors_retry_at_once(kind: std::io::ErrorKind, backoff: Option<Duration>)
    requires
        connection_scoped(kind),
    ensures
        step_after_error(kind, backoff) == AcceptStep::RetryNow,
{
}

/// Any other accept error waits the configured backoff before the next
/// accept, or, with no backoff configured, ends the stream so that no
/// further accept happens.
pub proof fn other_errors_back_off_or_fail(kind: std::io::ErrorKind, backoff: Option<Duration>)
    requires
        !connection_scoped(kind),
    ensures
        backoff matches Some(d) ==> step_after_error(kind, backoff) == AcceptStep::RetryAfter(d),
        backoff is None ==> step_after_error(kind, backoff) == AcceptStep::Fail,
{
}

/// Whether an accept error concerns only the one connection being accepted,
/// so that another accept can be tried at once.
pub fn is_connection_error(e: &std::io::Error) -> (r: bool)
    ensures
        r == connection_scoped(kind_of(*e)),
{
    matches!(
        e.kind(),
        std::io::ErrorKind::ConnectionRefused | std::io::ErrorKind::ConnectionAborted
            | std::io::ErrorKind::ConnectionReset
    )
}

/// A listener together with the policy that turns its single-shot accepts
/// into a resilient stream of connections: connection-scoped errors are
/// retried at once, other errors after a backoff delay, or end the stream
/// when no delay is configured.
#[derive(Debug)]
pub struct Incoming<L> {
    sleep_on_errors: Option<Duration>,
    nodelay: bool,
    pending_error_delay: Option<Duration>,
    listener: L,
}

impl<L> Incoming<L> {
    /// The delay applied after a systemic accept error, if any.
    pub closed spec fn backoff(&self) -> Option<Duration> {
        self.sleep_on_errors
    }

    /// Whether no-delay mode is requested on each accepted connection.
    pub closed spec fn requests_nodelay(&self) -> bool {
        self.nodelay
    }

    /// The delay armed by the last error, still to elapse before the next
    /// accept.
    pub closed spec fn armed_delay(&self) -> Option<Duration> {
        self.pending_error_delay
    }

    /// The wrapped listener.
    pub closed spec fn inner(&self) -> L {
        self.listener
    }

    /// Wraps `listener` with the default policy: a backoff of 250 ms, no
    /// no-delay requests, nothing armed.
    pub fn new(listener: L) -> (r: Self)
        ensures
            r.backoff() == Some(duration_from_millis(DEFAULT_BACKOFF_MILLIS)),
            !r.requests_nodelay(),
            r.armed_delay() is None,
            r.inner() == listener,
    {
        Self {
            listener,
            sleep_on_errors: Some(Duration::from_millis(DEFAULT_BACKOFF_MILLIS)),
            pending_error_delay: None,
            nodelay: false,
        }
    }

    /// Sets whether and how long to wait before accepting again after a
    /// systemic error (such as running out of file descriptors). With `None`
    /// such an error ends the stream of connections.
    pub fn sleep_on_errors(self, val: Option<Duration>) -> (r: Self)
        ensures
            r.backoff() == val,
            r.requests_nodelay() == self.requests_nodelay(),
            r.armed_delay() == self.armed_delay(),
            r.inner() == self.inner(),
    {
        let mut this = self;
        this.sleep_on_errors = val;
        this
    }

    /// Sets whether to request no-delay mode on every accepted connection.
    pub fn nodelay(self, nodelay: bool) -> (r: Self)
        ensures
            r.requests_nodelay() == nodelay,
            r.backoff() == self.backoff(),
            r.armed_delay() == self.armed_delay(),
            r.inner() == self.inner(),
    {
        let mut this = self;
        this.nodelay = nodelay;
        this
    }

    /// Whether no-delay mode is to be requested on each accepted connection.
    pub fn wants_nodelay(&self) -> (r: bool)
        ensures
            r == self.requests_nodelay(),
    {
        self.nodelay
    }

    /// The wrapped listener, to be polled for the next connection.
    pub fn listener_mut(&mut self) -> (r: &mut L)
        ensures
            *r == old(self).inner(),
            final(self).inner() == *final(r),
            final(self).backoff() == old(self).backoff(),
            final(self).requests_nodelay() == old(self).requests_nodelay(),
            final(self).armed_delay() == old(self).armed_delay(),
    {
        &mut self.listener
    }

    /// Takes the delay that must elapse before the next accept, leaving none
    /// armed. Called before each accept attempt.
    pub fn take_pending_delay(&mut self) -> (r: Option<Duration>)
        ensures
            r == old(self).armed_delay(),
            final(self).armed_delay() is None,
            final(self).backoff() == old(self).backoff(),
            final(self).requests_nodelay() == old(self).requests_nodelay(),
            final(self).inner() == old(self).inner(),
    {
        self.pending_error_delay.take()
    }

    /// Decides what follows a failed accept. A connection-scoped error is
    /// retried at once with nothing armed; any other error arms the configured
    /// backoff and is retried once it has elapsed, or ends the stream when no
    /// backoff is configured.
    pub fn on_accept_error(&mut self, e: &std::io::Error) -> (r: AcceptStep)
        ensures
            r == step_after_error(kind_of(*e), old(self).backoff()),
            final(self).armed_delay() == (match r {
                AcceptStep::RetryAfter(d) => Some(d),
                _ => old(self).armed_delay(),
            }),
            connection_scoped(kind_of(*e)) ==> r is RetryNow,
            !connection_scoped(kind_of(*e)) ==> (r is RetryAfter <==> old(self).backoff() is Some),
            final(self).backoff() == old(self).backoff(),
            final(self).requests_nodelay() == old(self).requests_nodelay(),
            final(self).inner() == old(self).inner(),
    {
        if is_connection_error(e) {
            AcceptStep::RetryNow
        } else {
            match self.sleep_on_errors {
                Some(duration) => {
                    self.pending_error_delay = Some(duration);
                    AcceptStep::RetryAfter(duration)
                },
                None => AcceptStep::Fail,
            }
        }
    }

    /// Decides what follows a successful accept, given the outcome of the
    /// no-delay request if one was made: the connection is handed out
    /// whatever that outcome was.
    pub fn on_accepted(&self, _nodelay_result: Option<&std::io::Result<()>>) -> (r: AcceptStep)
        ensures
            r is Yield,
    {
        AcceptStep::Yield
    }
}

} // verus!
