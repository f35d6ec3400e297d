use crate::backoff::{backoff_delay, backoff_spec};
use crate::config::{str_eq, ConnectionConfig};
use tokio_tungstenite::tungstenite::http::uri::PathAndQuery;
use tokio_tungstenite::tungstenite::http::Uri;
use vstd::prelude::*;

verus! {

/// How http splits a server URL: `None` when it is not a URI; else its path
/// alone and its path with the query, when it has them.
pub uninterp spec fn uri_parts_of(server: Seq<char>) -> Option<Option<(Seq<char>, Seq<char>)>>;

/// The URI `server` with its path and query replaced by `pq`, as text; `None`
/// when either is invalid.
pub uninterp spec fn with_pq_of(server: Seq<char>, pq: Seq<char>) -> Option<Seq<char>>;

/// Relies on `<http::Uri as FromStr>::from_str`, `Uri::path_and_query`,
/// `PathAndQuery::path` and `PathAndQuery::as_str`: the result depends on the
/// text alone.
#[verifier::external_body]
fn uri_path_and_query(server: &str) -> (r: Option<Option<(String, String)>>)
    ensures
        uri_parts_of(server@) == match r {
            None => None,
            Some(None) => Some(None),
            Some(Some((p, f))) => Some(Some((p@, f@))),
        },
{
    match server.parse::<Uri>() {
        Ok(u) => Some(match u.path_and_query() {
            Some(pq) => Some((pq.path().to_string(), pq.as_str().to_string())),
            None => None,
        }),
        Err(_) => None,
    }
}

/// Relies on `<http::Uri as FromStr>::from_str`, `Uri::into_parts`,
/// `<PathAndQuery as FromStr>::from_str`, `Uri::from_parts` and `Uri`'s
/// `Display`: the result depends on the two texts alone.
#[verifier::external_body]
fn uri_with_path_and_query(server: &str, pq: &str) -> (r: Option<String>)
    ensures
        with_pq_of(server@, pq@) == match r {
            Some(s) => Some(s@),
            None => None,
        },
{
    let mut parts = match server.parse::<Uri>() {
        Ok(u) => u.into_parts(),
        Err(_) => return None,
    };
    match pq.parse::<PathAndQuery>() {
        Ok(p) => parts.path_and_query = Some(p),
        Err(_) => return None,
    }
    match Uri::from_parts(parts) {
        Ok(u) => Some(u.to_string()),
        Err(_) => None,
    }
}

/// The path and query the agent connects to: the collector path when the
/// server URL has no path of its own (none, or just `/`), else the URL's own
/// path and query; then the secret as a query parameter.
pub open spec fn target_path_spec(existing: Option<(Seq<char>, Seq<char>)>, secret: Seq<char>) -> Seq<char> {
    let base = match existing {
        Some((path, full)) => if path == "/"@ {
            "/wss/probe"@
        } else {
            full
        },
        None => "/wss/probe"@,
    };
    base + "?secret="@ + secret
}

/// Computes the path and query from the server URL's own (as plain strings).
pub fn target_path(existing: Option<(String, String)>, secret: &str) -> (r: String)
    ensures
        r@ == target_path_spec(
            match existing {
                Some((p, f)) => Some((p@, f@)),
                None => None,
            },
            secret@,
        ),
{
    let mut base = match existing {
        Some((path, full)) => {
            if str_eq(path.as_str(), "/") {
                "/wss/probe".to_owned()
            } else {
                full
            }
        },
        None => "/wss/probe".to_owned(),
    };
    base.append("?secret=");
    base.append(secret);
    base
}

/// The URI to connect to for `server` and `secret`, as text: `server` with the
/// target path and query; `None` when `server` is not a URI or the result
/// would not be one.
pub fn build_uri(server: &str, secret: &str) -> (r: Option<String>)
    ensures
        match r {
            Some(s) => Some(s@),
            None => None,
        } == match uri_parts_of(server@) {
            None => None,
            Some(existing) => with_pq_of(server@, target_path_spec(existing, secret@)),
        },
{
    let existing = match uri_path_and_query(server) {
        Some(e) => e,
        None => return None,
    };
    let pq = target_path(existing, secret);
    uri_with_path_and_query(server, pq.as_str())
}

/// How one handshake attempt ended.
#[derive(Clone, Copy, Debug, PartialEq, Eq, Structural)]
pub enum HandshakeOutcome {
    Connected,
    /// The server answered HTTP 401.
    Unauthorized,
    /// Any other failure.
    Failed,
}

/// What the connector does after an attempt.
#[derive(Clone, Copy, Debug, PartialEq, Eq, Structural)]
pub enum ConnectStep {
    /// Hand the stream to the session.
    Established,
    /// Give up: authentication was refused (never retried).
    AuthFailed,
    /// Give up: the retry budget is spent.
    RetriesExhausted,
    /// Sleep this many seconds, then try again.
    RetryAfter(u64),
}

pub open spec fn budget_spent(policy: ConnectionConfig, retry_count: u64) -> bool {
    policy.max_retries >= 0 && retry_count >= policy.max_retries
}

pub open spec fn next_count(retry_count: u64) -> u64 {
    if retry_count < u64::MAX {
        (retry_count + 1) as u64
    } else {
        retry_count
    }
}

/// One decision of the connector: the step, and the retry count after it.
pub open spec fn connect_step_spec(
    policy: ConnectionConfig,
    retry_count: u64,
    outcome: HandshakeOutcome,
) -> (ConnectStep, u64) {
    match outcome {
        HandshakeOutcome::Connected => (ConnectStep::Established, retry_count),
        HandshakeOutcome::Unauthorized => (ConnectStep::AuthFailed, retry_count),
        HandshakeOutcome::Failed => if budget_spent(policy, retry_count) {
            (ConnectStep::RetriesExhausted, retry_count)
        } else {
            let n = next_count(retry_count);
            (
                ConnectStep::RetryAfter(
                    backoff_spec(policy.base_delay, policy.max_delay, n as nat) as u64,
                ),
                n,
            )
        },
    }
}

/// The steps taken for a run of attempt outcomes, from a given retry count;
/// the run stops at the first step that is not a retry.
pub open spec fn connect_run_spec(
    policy: ConnectionConfig,
    retry_count: u64,
    outcomes: Seq<HandshakeOutcome>,
) -> Seq<ConnectStep>
    decreases outcomes.len(),
{
    if outcomes.len() == 0 {
        seq![]
    } else {
        let (step, count) = connect_step_spec(policy, retry_count, outcomes[0]);
        if step is RetryAfter {
            seq![step] + connect_run_spec(policy, count, outcomes.drop_first())
        } else {
            seq![step]
        }
    }
}

/// The retry state of one `connect` call; each call starts afresh.
pub struct Connector {
    policy: ConnectionConfig,
    retry_count: u64,
}

impl Connector {
    pub closed spec fn policy(&self) -> ConnectionConfig {
        self.policy
    }

    pub closed spec fn retry_count(&self) -> u64 {
        self.retry_count
    }

    pub fn new(policy: ConnectionConfig) -> (r: Connector)
        ensures
            r.policy() == policy,
            r.retry_count() == 0,
    {
        Connector { policy, retry_count: 0 }
    }

    /// Decides what follows an attempt that ended with `outcome`.
    pub fn on_outcome(&mut self, outcome: HandshakeOutcome) -> (r: ConnectStep)
        ensures
            final(self).policy() == old(self).policy(),
            (r, final(self).retry_count()) == connect_step_spec(
                old(self).policy(),
                old(self).retry_count(),
                outcome,
            ),
    {
        match outcome {
            HandshakeOutcome::Connected => ConnectStep::Established,
            HandshakeOutcome::Unauthorized => ConnectStep::AuthFailed,
            HandshakeOutcome::Failed => {
                if self.policy.max_retries >= 0 && self.retry_count
                    >= self.policy.max_retries as u64 {
                    return ConnectStep::RetriesExhausted;
                }
                if self.retry_count < u64::MAX {
                    self.retry_count = self.retry_count + 1;
                }
                ConnectStep::RetryAfter(
                    backoff_delay(self.policy.base_delay, self.policy.max_delay, self.retry_count),
                )
            },
        }
    }
}

/// A 401 at any attempt ends the run there, with no further attempt,
/// whatever the retry budget.
pub proof fn lemma_unauthorized_is_final(
    policy: ConnectionConfig,
    retry_count: u64,
    rest: Seq<HandshakeOutcome>,
)
    ensures
        connect_run_spec(policy, retry_count, seq![HandshakeOutcome::Unauthorized] + rest)
            == seq![ConnectStep::AuthFailed],
{
    let outcomes = seq![HandshakeOutcome::Unauthorized] + rest;
    assert(outcomes[0] == HandshakeOutcome::Unauthorized);
}

pub open spec fn all_failed(outcomes: Seq<HandshakeOutcome>) -> bool {
    forall|i: int| 0 <= i < outcomes.len() ==> outcomes[i] == HandshakeOutcome::Failed
}

/// From retry count `c <= N`, a run of plain failures makes `N + 1 - c` attempts:
/// retries, then `RetriesExhausted`.
pub proof fn lemma_failures_from(policy: ConnectionConfig, c: u64, outcomes: Seq<HandshakeOutcome>)
    requires
        policy.max_retries >= 0,
        c <= policy.max_retries,
        all_failed(outcomes),
        outcomes.len() >= policy.max_retries + 1 - c,
    ensures
        connect_run_spec(policy, c, outcomes).len() == policy.max_retries + 1 - c,
        connect_run_spec(policy, c, outcomes).last() == ConnectStep::RetriesExhausted,
        forall|i: int|
            0 <= i < connect_run_spec(policy, c, outcomes).len() - 1 ==> (#[trigger] connect_run_spec(
                policy,
                c,
                outcomes,
            )[i]) is RetryAfter,
    decreases policy.max_retries - c,
{
    assert(outcomes[0] == HandshakeOutcome::Failed);
    if c < policy.max_retries {
        let rest = outcomes.drop_first();
        assert(all_failed(rest)) by {
            assert forall|i: int| 0 <= i < rest.len() implies rest[i] == HandshakeOutcome::Failed by {
                assert(rest[i] == outcomes[i + 1]);
            }
        }
        lemma_failures_from(policy, (c + 1) as u64, rest);
        let tail = connect_run_spec(policy, (c + 1) as u64, rest);
        let run = connect_run_spec(policy, c, outcomes);
        assert(run == seq![run[0]] + tail);
        assert forall|i: int| 0 <= i < run.len() - 1 implies (#[trigger] run[i]) is RetryAfter by {
            if i > 0 {
                assert(run[i] == tail[i - 1]);
            }
        }
    }
}

/// With `max_retries = N >= 0` and every attempt failing (not by a 401),
/// exactly `N + 1` attempts are made before `RetriesExhausted`.
pub proof fn lemma_retry_budget(policy: ConnectionConfig, outcomes: Seq<HandshakeOutcome>)
    requires
        policy.max_retries >= 0,
        all_failed(outcomes),
        outcomes.len() >= policy.max_retries + 1,
    ensures
        connect_run_spec(policy, 0, outcomes).len() == policy.max_retries + 1,
        connect_run_spec(policy, 0, outcomes).last() == ConnectStep::RetriesExhausted,
        forall|i: int|
            0 <= i < policy.max_retries ==> (#[trigger] connect_run_spec(policy, 0, outcomes)[i]) is RetryAfter,
{
    lemma_failures_from(policy, 0, outcomes);
}

} // verus!
