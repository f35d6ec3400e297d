use crate::backoff::{backoff_delay, backoff_spec, doubling_steps, pow2};
use crate::config::ConnectionConfig;
use crate::connector::{next_count, ConnectStep};
use vstd::prelude::*;

verus! {

/// Where one endpoint session stands.
#[derive(Clone, Copy, Debug, PartialEq, Eq, Structural)]
pub enum SessionState {
    Connecting,
    Streaming,
    /// Waiting `delay` seconds after the `attempt`-th lost connection.
    BackingOff { attempt: u64, delay: u64 },
    /// Terminal: the server refused the secret.
    AuthFailed,
    /// Terminal: the connector spent its retry budget.
    RetriesExhausted,
}

/// What the session loop observed.
#[derive(Clone, Copy, Debug, PartialEq, Eq, Structural)]
pub enum SessionEvent {
    /// The connector handed over a stream.
    Connected,
    /// The connector gave up on a 401.
    AuthRefused,
    /// The connector gave up with its retry budget spent.
    GaveUp,
    /// One of the writer, producer or dispatcher units ended.
    ConnectionLost,
    /// The backoff sleep is over.
    BackoffElapsed,
}

pub open spec fn is_terminal(s: SessionState) -> bool {
    s is AuthFailed || s is RetriesExhausted
}

/// One transition, with the session-level count of lost connections.
/// Events that do not apply to the current state change nothing.
pub open spec fn session_step_spec(
    policy: ConnectionConfig,
    state: SessionState,
    lost: u64,
    event: SessionEvent,
) -> (SessionState, u64) {
    match (state, event) {
        (SessionState::Connecting, SessionEvent::Connected) => (SessionState::Streaming, lost),
        (SessionState::Connecting, SessionEvent::AuthRefused) => (SessionState::AuthFailed, lost),
        (SessionState::Connecting, SessionEvent::GaveUp) => (SessionState::RetriesExhausted, lost),
        (SessionState::Streaming, SessionEvent::ConnectionLost) => {
            let n = next_count(lost);
            (
                SessionState::BackingOff {
                    attempt: n,
                    delay: backoff_spec(policy.base_delay, policy.max_delay, n as nat) as u64,
                },
                n,
            )
        },
        (SessionState::BackingOff { .. }, SessionEvent::BackoffElapsed) => (
            SessionState::Connecting,
            lost,
        ),
        _ => (state, lost),
    }
}

/// The event that a connector's final step means for the session; `None`
/// for a step that is not final.
pub fn event_of_connect_step(step: ConnectStep) -> (r: Option<SessionEvent>)
    ensures
        r == match step {
            ConnectStep::Established => Some(SessionEvent::Connected),
            ConnectStep::AuthFailed => Some(SessionEvent::AuthRefused),
            ConnectStep::RetriesExhausted => Some(SessionEvent::GaveUp),
            ConnectStep::RetryAfter(_) => None,
        },
{
    match step {
        ConnectStep::Established => Some(SessionEvent::Connected),
        ConnectStep::AuthFailed => Some(SessionEvent::AuthRefused),
        ConnectStep::RetriesExhausted => Some(SessionEvent::GaveUp),
        ConnectStep::RetryAfter(_) => None,
    }
}

/// The reconnect loop of one endpoint.
pub struct Session {
    policy: ConnectionConfig,
    state: SessionState,
    lost: u64,
}

impl Session {
    pub closed spec fn policy(&self) -> ConnectionConfig {
        self.policy
    }

    pub closed spec fn state_spec(&self) -> SessionState {
        self.state
    }

    pub closed spec fn lost(&self) -> u64 {
        self.lost
    }

    /// A session starts by connecting.
    pub fn new(policy: ConnectionConfig) -> (r: Session)
        ensures
            r.policy() == policy,
            r.state_spec() == SessionState::Connecting,
            r.lost() == 0,
    {
        Session { policy, state: SessionState::Connecting, lost: 0 }
    }

    pub fn state(&self) -> (r: SessionState)
        ensures
            r == self.state_spec(),
    {
        self.state
    }

    pub fn is_finished(&self) -> (r: bool)
        ensures
            r == is_terminal(self.state_spec()),
    {
        match self.state {
            SessionState::AuthFailed | SessionState::RetriesExhausted => true,
            _ => false,
        }
    }

    /// Applies `event` and returns the new state.
    pub fn on_event(&mut self, event: SessionEvent) -> (r: SessionState)
        ensures
            final(self).policy() == old(self).policy(),
            (final(self).state_spec(), final(self).lost()) == session_step_spec(
                old(self).policy(),
                old(self).state_spec(),
                old(self).lost(),
                event,
            ),
            r == final(self).state_spec(),
    {
        let next = match (self.state, event) {
            (SessionState::Connecting, SessionEvent::Connected) => SessionState::Streaming,
            (SessionState::Connecting, SessionEvent::AuthRefused) => SessionState::AuthFailed,
            (SessionState::Connecting, SessionEvent::GaveUp) => SessionState::RetriesExhausted,
            (SessionState::Streaming, SessionEvent::ConnectionLost) => {
                if self.lost < u64::MAX {
                    self.lost = self.lost + 1;
                }
                let delay = backoff_delay(self.policy.base_delay, self.policy.max_delay, self.lost);
                SessionState::BackingOff { attempt: self.lost, delay }
            },
            (SessionState::BackingOff { .. }, SessionEvent::BackoffElapsed) => {
                SessionState::Connecting
            },
            (s, _) => s,
        };
        self.state = next;
        next
    }
}

/// When a fresh session's first stream is lost, it waits `base_delay` seconds
/// (the cap permitting) and then connects again.
pub proof fn lemma_first_loss_waits_base_delay(policy: ConnectionConfig)
    requires
        policy.base_delay <= policy.max_delay,
    ensures
        ({
            let (streaming, lost) = session_step_spec(
                policy,
                SessionState::Connecting,
                0,
                SessionEvent::Connected,
            );
            let (backing_off, lost2) = session_step_spec(
                policy,
                streaming,
                lost,
                SessionEvent::ConnectionLost,
            );
            &&& backing_off == SessionState::BackingOff { attempt: 1, delay: policy.base_delay }
            &&& session_step_spec(policy, backing_off, lost2, SessionEvent::BackoffElapsed).0
                == SessionState::Connecting
        }),
{
    assert(next_count(0) == 1);
    assert(doubling_steps(1) == 0);
    assert(pow2(0) == 1);
    assert(backoff_spec(policy.base_delay, policy.max_delay, 1) == policy.base_delay);
}

/// A terminal state absorbs every event.
pub proof fn lemma_terminal_absorbs(
    policy: ConnectionConfig,
    state: SessionState,
    lost: u64,
    event: SessionEvent,
)
    requires
        is_terminal(state),
    ensures
        session_step_spec(policy, state, lost, event) == (state, lost),
{
}

} // verus!
