//! A cooperative scheduler: loop engines take turns in a fair queue, each
//! cycle starts a new tick for every tenant, and a step that overruns the
//! tick budget is reported.

use vstd::prelude::*;
use crate::clock::{Span, now_utc};
use crate::gateway::ActionGateway;
use crate::ids::{AgentId, TenantId};
use crate::loop_engine::{LoopEngine, LoopError, TickOutcome, instant_now, elapsed_nanos};
use crate::quota::QuotaUsage;
use crate::state::StateStore;
use crate::tenancy::{TenantContext, TenantRegistry};
use crate::trace::{TraceEvent, TraceEventKind, TraceSink};

verus! {

/// Scheduler options.
#[derive(Clone, Copy, Debug, PartialEq, Eq, Structural)]
pub struct SchedulerConfig {
    pub tick_budget: Option<Span>,
    pub tick_interval: Option<Span>,
}

/// One executed agent tick.
#[derive(Debug)]
pub struct SchedulerStep {
    pub tick_id: u64,
    pub agent_id: AgentId,
    pub outcome: TickOutcome,
    pub elapsed: Span,
}

/// Why a scheduler step failed.
#[derive(Debug)]
pub enum SchedulerError {
    NoAgents,
    MissingTenant(TenantId),
    Loop(LoopError),
    TickBudgetExceeded { step: Box<SchedulerStep>, budget: Span, elapsed: Span },
}

/// The text `{:?}` gives for a `std::time::Duration` of `nanos` nanoseconds.
pub uninterp spec fn std_duration_debug(nanos: u64) -> Seq<char>;

/// Formats `std::time::Duration::from_nanos(nanos)` with `{:?}` (std): a
/// function of `nanos` alone.
#[verifier::external_body]
fn std_duration_text(nanos: u64) -> (r: String)
    ensures
        r@ == std_duration_debug(nanos),
{
    format!("{:?}", std::time::Duration::from_nanos(nanos))
}

/// A span's nanoseconds as an unsigned duration, clamped to `[0, u64::MAX]`.
pub open spec fn span_as_duration(s: Span) -> u64 {
    if s.nanos < 0 { 0 } else if s.nanos > u64::MAX { u64::MAX } else { s.nanos as u64 }
}

fn duration_nanos(s: Span) -> (r: u64)
    ensures
        r == span_as_duration(s),
{
    if s.nanos < 0 {
        0
    } else if s.nanos > u64::MAX as i128 {
        u64::MAX
    } else {
        s.nanos as u64
    }
}

/// The description of a scheduler error.
pub open spec fn scheduler_error_text(e: SchedulerError) -> Seq<char> {
    match e {
        SchedulerError::NoAgents => "no agents registered"@,
        SchedulerError::MissingTenant(t) => "tenant context was not found for tenant "@ + crate::textual::uuid_text(t.value),
        SchedulerError::Loop(l) => "loop engine failed: "@ + crate::loop_engine::loop_error_text(l),
        SchedulerError::TickBudgetExceeded { budget, elapsed, .. } =>
            "tick budget exceeded ("@ + std_duration_debug(span_as_duration(elapsed)) + " > "@ + std_duration_debug(span_as_duration(budget)) + ")"@,
    }
}

impl SchedulerError {
    /// Human-readable description.
    pub fn message(&self) -> (r: String)
        ensures
            r@ == scheduler_error_text(*self),
    {
        match self {
            SchedulerError::NoAgents => String::from_str("no agents registered"),
            SchedulerError::MissingTenant(t) => {
                let id = crate::textual::uuid_string(t.value);
                String::from_str("tenant context was not found for tenant ").concat(id.as_str())
            },
            SchedulerError::Loop(e) => {
                let d = e.message();
                String::from_str("loop engine failed: ").concat(d.as_str())
            },
            SchedulerError::TickBudgetExceeded { budget, elapsed, .. } => {
                let e = std_duration_text(duration_nanos(*elapsed));
                let b = std_duration_text(duration_nanos(*budget));
                String::from_str("tick budget exceeded (").concat(e.as_str()).concat(" > ").concat(b.as_str()).concat(")")
            },
        }
    }
}

/// How long to wait after a cycle that took `elapsed` so that cycles start
/// at least `tick_interval` apart.
pub open spec fn interval_wait(config: SchedulerConfig, elapsed: Span) -> Option<Span> {
    match config.tick_interval {
        Some(interval) => if elapsed.nanos < interval.nanos { Some(Span { nanos: (interval.nanos - elapsed.nanos) as i128 }) } else { None },
        None => None,
    }
}

/// The pause owed after a cycle that took `elapsed`, if any.
pub fn remaining_interval(config: &SchedulerConfig, elapsed: Span) -> (r: Option<Span>)
    requires
        elapsed.nanos >= 0,
    ensures
        r == interval_wait(*config, elapsed),
{
    match config.tick_interval {
        Some(interval) => if elapsed.nanos < interval.nanos { Some(Span { nanos: interval.nanos - elapsed.nanos }) } else { None },
        None => None,
    }
}

/// Loop engines taking turns, with the tenants whose quotas each cycle resets.
pub struct Scheduler<S: TraceSink, G: ActionGateway, St: StateStore> {
    config: SchedulerConfig,
    tenants: TenantRegistry,
    queue: Vec<LoopEngine<S, G, St>>,
    tick_id: u64,
    cycle_remaining: usize,
}

/// How a step ends once its engine's tick returned `res`: the tick's error,
/// or its outcome in a step, reported as over budget exactly when a budget
/// is set and the step took longer.
pub open spec fn step_result(res: Result<TickOutcome, LoopError>, budget: Option<Span>, r: Result<SchedulerStep, SchedulerError>) -> bool {
    match res {
        Err(e) => r matches Err(SchedulerError::Loop(x)) && x == e,
        Ok(o) => match budget {
            None => r matches Ok(step) && step.outcome == o,
            Some(b) => (r matches Ok(step) && step.outcome == o && step.elapsed.nanos <= b.nanos)
                || (r matches Err(SchedulerError::TickBudgetExceeded { step, budget, elapsed })
                    && step.outcome == o && budget == b && elapsed == step.elapsed && elapsed.nanos > b.nanos),
        },
    }
}

impl<S: TraceSink, G: ActionGateway, St: StateStore> Scheduler<S, G, St> {
    pub closed spec fn engines(&self) -> Seq<LoopEngine<S, G, St>> {
        self.queue@
    }

    pub closed spec fn current_tick(&self) -> u64 {
        self.tick_id
    }

    pub closed spec fn remaining_in_cycle(&self) -> usize {
        self.cycle_remaining
    }

    pub closed spec fn registry(&self) -> TenantRegistry {
        self.tenants
    }

    pub closed spec fn settings(&self) -> SchedulerConfig {
        self.config
    }

    /// The agents in queue order.
    pub open spec fn queue_agents(&self) -> Seq<AgentId> {
        self.engines().map_values(|e: LoopEngine<S, G, St>| e.agent_spec().agent_id)
    }

    /// Every queued engine can take `n` more ticks.
    pub open spec fn tick_room(&self, n: u64) -> bool {
        forall|i: int| 0 <= i < self.engines().len() ==> #[trigger] self.engines()[i].graph_tick() + n < u64::MAX
    }

    /// An empty scheduler over a tenant registry.
    pub fn with_registry(config: SchedulerConfig, registry: TenantRegistry) -> (r: Self)
        ensures
            r.engines().len() == 0,
            r.current_tick() == 0,
            r.remaining_in_cycle() == 0,
            r.registry() == registry,
            r.settings() == config,
    {
        Scheduler { config, tenants: registry, queue: Vec::new(), tick_id: 0, cycle_remaining: 0 }
    }

    /// An empty scheduler with no tenants.
    pub fn new(config: SchedulerConfig) -> (r: Self)
        ensures
            r.engines().len() == 0,
            r.current_tick() == 0,
            r.remaining_in_cycle() == 0,
            r.settings() == config,
            forall|id: TenantId| #[trigger] r.registry().tenant_of(id) is None,
    {
        Self::with_registry(config, TenantRegistry::new())
    }

    pub fn tenant_registry(&self) -> (r: &TenantRegistry)
        ensures
            *r == self.registry(),
    {
        &self.tenants
    }

    /// The graph tick of the engine that runs next, if any engine is queued.
    pub fn next_graph_tick(&self) -> (r: Option<u64>)
        ensures
            self.engines().len() == 0 ==> r is None,
            self.engines().len() > 0 ==> r == Some(self.engines()[0].graph_tick()),
    {
        if self.queue.len() == 0 {
            None
        } else {
            Some(self.queue[0].state_graph().tick())
        }
    }

    pub fn config(&self) -> (r: &SchedulerConfig)
        ensures
            *r == self.settings(),
    {
        &self.config
    }

    /// Whether every queued engine can take one more tick.
    pub fn has_cycle_room(&self) -> (r: bool)
        ensures
            r == self.tick_room(1),
    {
        let mut i: usize = 0;
        while i < self.queue.len()
            invariant
                i <= self.queue@.len(),
                forall|j: int| 0 <= j < i ==> #[trigger] self.engines()[j].graph_tick() + 1 < u64::MAX,
            decreases self.queue@.len() - i,
        {
            if self.queue[i].state_graph().tick() >= u64::MAX - 1 {
                proof { assert(!(self.engines()[i as int].graph_tick() + 1 < u64::MAX)); }
                return false;
            }
            i = i + 1;
        }
        true
    }

    /// Registers or replaces a tenant.
    pub fn register_tenant(&mut self, tenant: TenantContext)
        ensures
            final(self).registry().tenant_of(tenant.tenant_id) == Some(tenant),
            forall|id: TenantId| id != tenant.tenant_id ==> #[trigger] final(self).registry().tenant_of(id) == old(self).registry().tenant_of(id),
            final(self).engines() == old(self).engines(),
    {
        self.tenants.insert(tenant);
    }

    /// The current tick usage of a tenant, if registered.
    pub fn tenant_usage(&self, tenant_id: &TenantId) -> (r: Option<QuotaUsage>)
        ensures
            self.registry().tenant_of(*tenant_id) is None ==> r is None,
            self.registry().tenant_of(*tenant_id) matches Some(t) ==> r == Some(t.ledger.tick_usage),
    {
        match self.tenants.tenant(tenant_id) {
            Some(t) => Some(t.tick_usage()),
            None => None,
        }
    }

    /// Appends an engine to the queue.
    pub fn add_agent(&mut self, engine: LoopEngine<S, G, St>)
        ensures
            final(self).engines() == old(self).engines().push(engine),
            final(self).current_tick() == old(self).current_tick(),
            final(self).registry() == old(self).registry(),
            final(self).settings() == old(self).settings(),
    {
        self.queue.push(engine);
    }

    fn ensure_cycle(&mut self)
        ensures
            final(self).engines() == old(self).engines(),
            final(self).settings() == old(self).settings(),
            old(self).remaining_in_cycle() > 0 ==> final(self).current_tick() == old(self).current_tick()
                && final(self).remaining_in_cycle() == old(self).remaining_in_cycle(),
            old(self).remaining_in_cycle() == 0 ==> final(self).current_tick() == (if old(self).current_tick() == u64::MAX { u64::MAX } else { (old(self).current_tick() + 1) as u64 })
                && final(self).remaining_in_cycle() == old(self).engines().len(),
            forall|id: TenantId| (#[trigger] final(self).registry().tenant_of(id) is Some) == (old(self).registry().tenant_of(id) is Some),
    {
        if self.cycle_remaining > 0 {
            return;
        }
        self.tick_id = self.tick_id.saturating_add(1);
        let now = now_utc();
        self.tenants.begin_tick(self.tick_id, now);
        self.cycle_remaining = self.queue.len();
    }

    /// Records an event in the run of the queued engine for `agent_id`; with
    /// no such engine nothing is recorded and `NoAgents` is returned.
    pub fn record_event_for_agent(&mut self, agent_id: &AgentId, kind: TraceEventKind) -> (r: Result<TraceEvent, SchedulerError>)
        ensures
            final(self).engines().len() == old(self).engines().len(),
            final(self).queue_agents() == old(self).queue_agents(),
            final(self).current_tick() == old(self).current_tick(),
            final(self).remaining_in_cycle() == old(self).remaining_in_cycle(),
            final(self).registry() == old(self).registry(),
            final(self).settings() == old(self).settings(),
            !old(self).queue_agents().contains(*agent_id) ==> (r matches Err(SchedulerError::NoAgents)),
            r is Ok ==> exists|i: int| 0 <= i < old(self).engines().len()
                && old(self).engines()[i].agent_spec().agent_id == *agent_id
                && #[trigger] final(self).engines()[i].trace() == old(self).engines()[i].trace().push(kind),
    {
        let mut i: usize = 0;
        while i < self.queue.len()
            invariant
                i <= self.queue@.len(),
                self.engines() == old(self).engines(),
                self.current_tick() == old(self).current_tick(),
                self.remaining_in_cycle() == old(self).remaining_in_cycle(),
                self.registry() == old(self).registry(),
                self.settings() == old(self).settings(),
                forall|k: int| 0 <= k < i ==> (#[trigger] self.queue@[k]).agent_spec().agent_id != *agent_id,
            decreases self.queue@.len() - i,
        {
            if self.queue[i].agent().agent_id == *agent_id {
                let ghost before = self.queue@;
                let r = self.queue[i].record_runtime_event(kind);
                proof {
                    assert forall|k: int| 0 <= k < self.queue@.len() implies
                        #[trigger] self.queue@[k].agent_spec().agent_id == before[k].agent_spec().agent_id by {
                        if k != i as int {
                            assert(self.queue@[k] == before[k]);
                        }
                    }
                    assert(self.queue_agents() =~= old(self).queue_agents());
                    assert(old(self).queue_agents()[i as int] == *agent_id);
                    if r is Ok {
                        assert(old(self).engines()[i as int].agent_spec().agent_id == *agent_id);
                        assert(self.engines()[i as int].trace() == old(self).engines()[i as int].trace().push(kind));
                    }
                }
                return match r {
                    Ok(e) => Ok(e),
                    Err(e) => Err(SchedulerError::Loop(e)),
                };
            }
            i = i + 1;
        }
        proof {
            assert forall|k: int| 0 <= k < self.queue_agents().len() implies self.queue_agents()[k] != *agent_id by {
                assert(self.queue@[k].agent_spec().agent_id != *agent_id);
            }
        }
        Err(SchedulerError::NoAgents)
    }

    /// Runs the engine at the front of the queue for the current tick and
    /// moves it to the back. A new cycle (when the previous one is used up)
    /// first advances the tick and resets every tenant's tick quota. An
    /// engine whose tenant is unknown is moved to the back without running;
    /// a step longer than the tick budget is reported as an error.
    pub fn run_once(&mut self) -> (r: Result<SchedulerStep, SchedulerError>)
        requires
            old(self).engines().len() > 0 ==> old(self).engines()[0].graph_tick() < u64::MAX,
        ensures
            final(self).settings() == old(self).settings(),
            old(self).engines().len() == 0 ==> (r matches Err(SchedulerError::NoAgents)) && final(self).engines() == old(self).engines(),
            old(self).engines().len() > 0 ==> {
                let n = old(self).engines().len();
                &&& final(self).engines().len() == n
                &&& final(self).engines().take(n - 1) == old(self).engines().drop_first()
                &&& final(self).engines().last().agent_spec().agent_id == old(self).engines()[0].agent_spec().agent_id
                &&& final(self).engines().last().graph_tick() <= old(self).engines()[0].graph_tick() + 1
                &&& final(self).queue_agents() == old(self).queue_agents().drop_first().push(old(self).queue_agents()[0])
            },
            r matches Ok(step) ==> step.agent_id == old(self).engines()[0].agent_spec().agent_id
                && step.tick_id == final(self).current_tick()
                && step.outcome.tick_id == step.tick_id,
            // An engine whose tenant is unknown moves to the back untouched;
            // otherwise it takes one tick, whose outcome or error is the
            // step's, and a step over a set budget is reported as such.
            old(self).engines().len() > 0 ==> {
                let e0 = old(self).engines()[0];
                let t = e0.agent_spec().tenant_id;
                if old(self).registry().tenant_of(t) is None {
                    (r matches Err(SchedulerError::MissingTenant(x)) && x == t) && final(self).engines().last() == e0
                } else {
                    exists|res: Result<TickOutcome, LoopError>|
                        #[trigger] LoopEngine::tick_effect(e0, final(self).engines().last(), final(self).current_tick(), res)
                        && step_result(res, old(self).settings().tick_budget, r)
                }
            },
    {
        if self.queue.len() == 0 {
            return Err(SchedulerError::NoAgents);
        }
        self.ensure_cycle();
        let ghost q0 = self.queue@;
        let mut engine = self.queue.remove(0);
        let tenant_id = engine.tenant_id();
        let ghost n = q0.len();
        if self.tenants.tenant(&tenant_id).is_none() {
            self.queue.push(engine);
            self.cycle_remaining = if self.cycle_remaining > 0 { self.cycle_remaining - 1 } else { 0 };
            proof {
                assert(self.queue@.take(q0.len() - 1) =~= q0.drop_first());
                self.lemma_rotation_agents(q0);
            }
            return Err(SchedulerError::MissingTenant(tenant_id));
        }
        let start = instant_now();
        let tick_id = self.tick_id;
        let ghost e_before = engine;
        let result = engine.tick(tick_id);
        let ghost e_after = engine;
        let ghost res = result;
        let elapsed = Span { nanos: elapsed_nanos(&start) };
        let agent_id = engine.agent_id();
        self.queue.push(engine);
        proof {
            assert(e_before == old(self).engines()[0]);
            assert(self.engines().last() == e_after);
            assert(LoopEngine::tick_effect(e_before, e_after, tick_id, res));
        }
        proof {
            assert(self.current_tick() == tick_id);
            assert(LoopEngine::tick_effect(old(self).engines()[0], self.engines().last(), self.current_tick(), res));
        }
        self.cycle_remaining = if self.cycle_remaining > 0 { self.cycle_remaining - 1 } else { 0 };
        proof {
            assert(self.queue@.take(q0.len() - 1) =~= q0.drop_first());
            self.lemma_rotation_agents(q0);
        }
        let outcome = match result {
            Ok(o) => o,
            Err(e) => {
                let out: Result<SchedulerStep, SchedulerError> = Err(SchedulerError::Loop(e));
                proof {
                    assert(step_result(res, self.config.tick_budget, out));
                    assert(LoopEngine::tick_effect(old(self).engines()[0], self.engines().last(), self.current_tick(), res));
                }
                return out;
            },
        };
        let step = SchedulerStep { tick_id, agent_id, outcome, elapsed };
        if let Some(budget) = self.config.tick_budget {
            if elapsed.nanos > budget.nanos {
                let out: Result<SchedulerStep, SchedulerError> = Err(SchedulerError::TickBudgetExceeded { step: Box::new(step), budget, elapsed });
                proof {
                    assert(step_result(res, self.config.tick_budget, out));
                    assert(LoopEngine::tick_effect(old(self).engines()[0], self.engines().last(), self.current_tick(), res));
                }
                return out;
            }
        }
        let out: Result<SchedulerStep, SchedulerError> = Ok(step);
        proof {
            assert(step_result(res, self.config.tick_budget, out));
            assert(LoopEngine::tick_effect(old(self).engines()[0], self.engines().last(), self.current_tick(), res));
        }
        out
    }

    proof fn lemma_rotation_agents(&self, q0: Seq<LoopEngine<S, G, St>>)
        requires
            q0.len() > 0,
            self.engines().len() == q0.len(),
            self.engines().take(q0.len() - 1) == q0.drop_first(),
            self.engines().last().agent_spec().agent_id == q0[0].agent_spec().agent_id,
        ensures
            self.queue_agents() == q0.map_values(|e: LoopEngine<S, G, St>| e.agent_spec().agent_id).drop_first()
                .push(q0.map_values(|e: LoopEngine<S, G, St>| e.agent_spec().agent_id)[0]),
    {
        let a = self.queue_agents();
        let b = q0.map_values(|e: LoopEngine<S, G, St>| e.agent_spec().agent_id).drop_first()
            .push(q0.map_values(|e: LoopEngine<S, G, St>| e.agent_spec().agent_id)[0]);
        assert forall|i: int| 0 <= i < a.len() implies a[i] == b[i] by {
            if i < q0.len() - 1 {
                assert(self.engines().take(q0.len() - 1)[i] == self.engines()[i]);
            }
        }
        assert(a =~= b);
    }
}

impl<S: TraceSink, G: ActionGateway, St: StateStore> Scheduler<S, G, St> {
    /// Runs every queued engine once, in queue order; the queue ends in its
    /// original order. The first failing step ends the cycle with its error.
    pub fn run_cycle(&mut self) -> (r: Result<Vec<SchedulerStep>, SchedulerError>)
        requires
            old(self).tick_room(1),
        ensures
            final(self).settings() == old(self).settings(),
            old(self).engines().len() == 0 ==> (r matches Err(SchedulerError::NoAgents)),
            r matches Ok(steps) ==> {
                &&& steps@.map_values(|s: SchedulerStep| s.agent_id) == old(self).queue_agents()
                &&& final(self).engines().len() == old(self).engines().len()
                &&& forall|j: int| 0 <= j < old(self).engines().len() ==>
                        (#[trigger] final(self).engines()[j]).agent_spec().agent_id == old(self).engines()[j].agent_spec().agent_id
                        && final(self).engines()[j].graph_tick() <= old(self).engines()[j].graph_tick() + 1
            },
    {
        if self.queue.len() == 0 {
            return Err(SchedulerError::NoAgents);
        }
        let n = self.queue.len();
        let ghost q0 = self.queue@;
        let mut steps: Vec<SchedulerStep> = Vec::new();
        let mut k: usize = 0;
        while k < n
            invariant
                n == q0.len(),
                q0 == old(self).engines(),
                k <= n,
                self.queue@.len() == n,
                self.config == old(self).config,
                forall|j: int| 0 <= j < n - k ==> #[trigger] self.queue@[j] == q0[k + j],
                forall|j: int| 0 <= j < k ==> (#[trigger] self.queue@[n - k + j]).agent_spec().agent_id == q0[j].agent_spec().agent_id
                    && self.queue@[n - k + j].graph_tick() <= q0[j].graph_tick() + 1,
                steps@.len() == k,
                forall|j: int| 0 <= j < k ==> (#[trigger] steps@[j]).agent_id == q0[j].agent_spec().agent_id,
                forall|i: int| 0 <= i < q0.len() ==> #[trigger] q0[i].graph_tick() + 1 < u64::MAX,
            decreases n - k,
        {
            let ghost cur = self.queue@;
            assert(cur[0] == q0[k as int]);
            let step = self.run_once()?;
            proof {
                assert forall|j: int| 0 <= j < n - (k + 1) implies #[trigger] self.queue@[j] == q0[k + 1 + j] by {
                    assert(self.queue@.take(n - 1)[j] == self.queue@[j]);
                    assert(cur.drop_first()[j] == cur[j + 1]);
                }
                assert forall|j: int| 0 <= j < k + 1 implies (#[trigger] self.queue@[n - (k + 1) + j]).agent_spec().agent_id == q0[j].agent_spec().agent_id
                    && self.queue@[n - (k + 1) + j].graph_tick() <= q0[j].graph_tick() + 1 by {
                    if j < k {
                        assert(self.queue@.take(n - 1)[n - (k + 1) + j] == self.queue@[n - (k + 1) + j]);
                        assert(cur.drop_first()[n - (k + 1) + j] == cur[n - k + j]);
                    }
                }
            }
            steps.push(step);
            k = k + 1;
        }
        proof {
            assert(steps@.map_values(|s: SchedulerStep| s.agent_id) =~= old(self).queue_agents());
            assert forall|j: int| 0 <= j < n implies (#[trigger] self.queue@[j]).agent_spec().agent_id == q0[j].agent_spec().agent_id
                && self.queue@[j].graph_tick() <= q0[j].graph_tick() + 1 by {
                assert(self.queue@[n - n + j] == self.queue@[j]);
            }
        }
        Ok(steps)
    }

    /// Runs `cycles` full cycles and returns all their steps in order.
    pub fn run_cycles(&mut self, cycles: u64) -> (r: Result<Vec<SchedulerStep>, SchedulerError>)
        requires
            old(self).tick_room(cycles),
        ensures
            final(self).settings() == old(self).settings(),
            cycles > 0 && old(self).engines().len() == 0 ==> (r matches Err(SchedulerError::NoAgents)),
            r matches Ok(steps) ==> steps@.len() == cycles * old(self).engines().len(),
    {
        let mut steps: Vec<SchedulerStep> = Vec::new();
        let mut c: u64 = 0;
        let ghost n = self.queue@.len();
        while c < cycles
            invariant
                c <= cycles,
                self.queue@.len() == n,
                n == old(self).engines().len(),
                self.config == old(self).config,
                self.tick_room((cycles - c) as u64),
                steps@.len() == c * n,
                cycles > 0 && n == 0 ==> c == 0,
            decreases cycles - c,
        {
            proof {
                assert forall|i: int| 0 <= i < self.engines().len() implies #[trigger] self.engines()[i].graph_tick() + 1 < u64::MAX by {
                    assert(self.engines()[i].graph_tick() + (cycles - c) < u64::MAX);
                }
            }
            let ghost before = self.queue@;
            let mut cycle_steps = self.run_cycle()?;
            proof {
                assert(cycle_steps@.map_values(|s: SchedulerStep| s.agent_id).len() == cycle_steps@.len());
                assert forall|i: int| 0 <= i < self.engines().len() implies #[trigger] self.engines()[i].graph_tick() + ((cycles - (c + 1)) as u64) < u64::MAX by {
                    assert(before[i].graph_tick() + (cycles - c) < u64::MAX);
                }
                assert((c + 1) * n == c * n + n) by (nonlinear_arith);
            }
            steps.append(&mut cycle_steps);
            c = c + 1;
        }
        Ok(steps)
    }
}

} // verus!
