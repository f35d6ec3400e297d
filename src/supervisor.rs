use crate::config::{effective_connection_spec, AppConfig, AppConfigView, ConnectionConfig, Endpoint, EndpointView};
use vstd::prelude::*;

verus! {

/// What one endpoint session is started with: its snapshot and effective policy.
#[derive(Clone, Debug)]
pub struct SessionPlan {
    pub endpoint: Endpoint,
    pub policy: ConnectionConfig,
}

pub struct SessionPlanView {
    pub endpoint: EndpointView,
    pub policy: ConnectionConfig,
}

impl View for SessionPlan {
    type V = SessionPlanView;

    open spec fn view(&self) -> SessionPlanView {
        SessionPlanView { endpoint: self.endpoint@, policy: self.policy }
    }
}

/// One plan per enabled endpoint, in configuration order.
pub open spec fn plans_spec(es: Seq<EndpointView>, global: ConnectionConfig) -> Seq<SessionPlanView>
    decreases es.len(),
{
    if es.len() == 0 {
        seq![]
    } else {
        let rest = plans_spec(es.drop_last(), global);
        let e = es.last();
        if e.enabled {
            rest.push(SessionPlanView { endpoint: e, policy: effective_connection_spec(e, global) })
        } else {
            rest
        }
    }
}

pub open spec fn count_enabled(es: Seq<EndpointView>) -> nat
    decreases es.len(),
{
    if es.len() == 0 {
        0
    } else {
        count_enabled(es.drop_last()) + if es.last().enabled {
            1nat
        } else {
            0nat
        }
    }
}

pub open spec fn views_of(plans: Seq<SessionPlan>) -> Seq<SessionPlanView> {
    plans.map_values(|p: SessionPlan| p@)
}

/// The sessions to run for `config`: one per enabled endpoint, each with the
/// endpoint's own policy or else the global one.
pub fn plan_sessions(config: &AppConfig) -> (r: Vec<SessionPlan>)
    ensures
        views_of(r@) == plans_spec(config@.endpoints, config@.connection),
{
    let n = config.endpoints.len();
    let mut plans: Vec<SessionPlan> = Vec::new();
    let mut i: usize = 0;
    while i < n
        invariant
            n == config.endpoints.len(),
            i <= n,
            views_of(plans@) == plans_spec(config@.endpoints.subrange(0, i as int), config@.connection),
        decreases n - i,
    {
        let e = &config.endpoints[i];
        proof {
            let sub = config@.endpoints.subrange(0, i as int + 1);
            assert(sub.drop_last() =~= config@.endpoints.subrange(0, i as int));
            assert(sub.last() == e@);
        }
        if e.enabled {
            let policy = e.effective_connection(config.connection);
            let ghost before = plans@;
            plans.push(SessionPlan { endpoint: e.snapshot(), policy });
            proof {
                assert(views_of(plans@) =~= views_of(before).push(plans@.last()@));
            }
        }
        i = i + 1;
    }
    proof {
        assert(config@.endpoints.subrange(0, n as int) =~= config@.endpoints);
    }
    plans
}

/// Exactly one session per enabled entry is planned, and none for a disabled one.
pub proof fn lemma_plans_cover_enabled(es: Seq<EndpointView>, global: ConnectionConfig)
    ensures
        plans_spec(es, global).len() == count_enabled(es),
        forall|i: int|
            0 <= i < plans_spec(es, global).len() ==> (#[trigger] plans_spec(es, global)[i]).endpoint.enabled,
    decreases es.len(),
{
    if es.len() > 0 {
        lemma_plans_cover_enabled(es.drop_last(), global);
    }
}

/// The top-level supervisor: holds the configuration the running sessions were
/// started from.
pub struct Supervisor {
    config: AppConfig,
}

/// The reconciliation rule: a configuration equal to the held one changes
/// nothing; any other replaces it and restarts every session.
pub open spec fn reconcile_spec(held: AppConfigView, loaded: AppConfigView) -> (AppConfigView, Option<Seq<SessionPlanView>>) {
    if loaded == held {
        (held, None)
    } else {
        (loaded, Some(plans_spec(loaded.endpoints, loaded.connection)))
    }
}

impl Supervisor {
    pub closed spec fn held(&self) -> AppConfigView {
        self.config@
    }

    pub fn new(config: AppConfig) -> (r: Supervisor)
        ensures
            r.held() == config@,
    {
        Supervisor { config }
    }

    /// The sessions to start from the held configuration.
    pub fn initial_plans(&self) -> (r: Vec<SessionPlan>)
        ensures
            views_of(r@) == plans_spec(self.held().endpoints, self.held().connection),
    {
        plan_sessions(&self.config)
    }

    /// A configuration was read: `None` when it equals the held one (nothing
    /// restarts); otherwise it is held from now on and every session is to be
    /// cancelled and replaced by the returned ones.
    pub fn reconcile(&mut self, loaded: AppConfig) -> (r: Option<Vec<SessionPlan>>)
        ensures
            final(self).held() == reconcile_spec(old(self).held(), loaded@).0,
            r is None <==> reconcile_spec(old(self).held(), loaded@).1 is None,
            r matches Some(plans) ==> Some(views_of(plans@)) == reconcile_spec(
                old(self).held(),
                loaded@,
            ).1,
    {
        if loaded == self.config {
            return None;
        }
        let plans = plan_sessions(&loaded);
        self.config = loaded;
        Some(plans)
    }
}

/// Reconciling twice with structurally equal configurations restarts nothing
/// the second time.
pub proof fn lemma_reconcile_idempotent(held: AppConfigView, first: AppConfigView, second: AppConfigView)
    requires
        first == second,
    ensures
        reconcile_spec(reconcile_spec(held, first).0, second).1 is None,
        reconcile_spec(reconcile_spec(held, first).0, second).0 == reconcile_spec(held, first).0,
{
}

} // verus!
