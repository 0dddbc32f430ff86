//! Deterministic escalation: explicit verifier and runtime facts about an
//! action outcome become observations, observations are matched against an
//! escalation policy, and a matching rule's decision is applied to the
//! outcome without executing anything.

use vstd::prelude::*;
use crate::action::{Action, SideEffectClass};
use crate::gateway::{ActionOutcome, ActionStatus};
use crate::ids::{ActionId, AgentId, RunId, TenantId};
use crate::json::{Json, json_mentions, json_get, json_str, entries_get};
use crate::delegation::contains_str;
use crate::verification::{VerificationResult, strs};

verus! {

/// Source label attached to escalation artifacts.
pub const ESCALATION_ENGINE_SOURCE: &'static str = "escalation_engine";

/// The first `Some` of `s`.
pub open spec fn first_some(s: Seq<Option<u64>>) -> Option<u64>
    decreases s.len(),
{
    if s.len() == 0 {
        None
    } else if s[0] is Some {
        s[0]
    } else {
        first_some(s.drop_first())
    }
}

proof fn lemma_first_some_skip(s: Seq<Option<u64>>, i: int)
    requires
        0 <= i <= s.len(),
        forall|j: int| 0 <= j < i ==> #[trigger] s[j] is None,
    ensures
        first_some(s) == first_some(s.subrange(i, s.len() as int)),
    decreases i,
{
    if i > 0 {
        assert(s.drop_first().subrange(i - 1, s.drop_first().len() as int) =~= s.subrange(i, s.len() as int));
        lemma_first_some_skip(s.drop_first(), i - 1);
    } else {
        assert(s.subrange(0, s.len() as int) =~= s);
    }
}

proof fn lemma_first_some_at(s: Seq<Option<u64>>, i: int)
    requires
        0 <= i < s.len(),
        s[i] is Some,
        forall|j: int| 0 <= j < i ==> #[trigger] s[j] is None,
    ensures
        first_some(s) == s[i],
{
    lemma_first_some_skip(s, i);
    let t = s.subrange(i, s.len() as int);
    assert(t[0] == s[i]);
}

/// The non-negative integer value of `j`, if it is one.
pub open spec fn json_u64(j: Json) -> Option<u64> {
    match j {
        Json::UInt(n) => Some(n),
        Json::Int(n) => if n >= 0 { Some(n as u64) } else { None },
        _ => None,
    }
}

/// The integer stored directly under key `k` of object entries `m`.
pub open spec fn direct_u64(m: Seq<(String, Json)>, k: Seq<char>) -> Option<u64> {
    match entries_get(m, k) {
        Some(v) => json_u64(v),
        None => None,
    }
}

/// The integers stored directly under each of `ks`, in order.
pub open spec fn direct_seq(m: Seq<(String, Json)>, ks: Seq<Seq<char>>) -> Seq<Option<u64>> {
    ks.map_values(|k: Seq<char>| direct_u64(m, k))
}

/// The first integer found under one of `keys`: in an object, the keys are
/// tried in order first, then the values are searched in order; in an array,
/// the items are searched in order.
pub open spec fn find_u64(j: Json, keys: Seq<Seq<char>>) -> Option<u64>
    decreases j,
{
    match j {
        Json::Object(m) => {
            if first_some(direct_seq(m@, keys)) is Some {
                first_some(direct_seq(m@, keys))
            } else {
                first_some(find_in_entries(m, keys))
            }
        },
        Json::Array(items) => first_some(find_in_items(items, keys)),
        _ => None,
    }
}

/// `find_u64` applied to each entry value.
pub open spec fn find_in_entries(m: Vec<(String, Json)>, keys: Seq<Seq<char>>) -> Seq<Option<u64>>
    decreases m,
    via find_in_entries_decreases
{
    Seq::new(m@.len(), |i: int| if 0 <= i < m@.len() { find_u64(m@[i].1, keys) } else { None })
}

/// `find_u64` applied to each item.
pub open spec fn find_in_items(items: Vec<Json>, keys: Seq<Seq<char>>) -> Seq<Option<u64>>
    decreases items,
    via find_in_items_decreases
{
    Seq::new(items@.len(), |i: int| if 0 <= i < items@.len() { find_u64(items@[i], keys) } else { None })
}

#[via_fn]
proof fn find_in_entries_decreases(m: Vec<(String, Json)>, keys: Seq<Seq<char>>) {
    assert forall|i: int| 0 <= i < m@.len() implies decreases_to!(m => m@[i].1) by {
        vstd::std_specs::vec::axiom_vec_index_decreases(m, i);
        assert(decreases_to!(m@[i] => m@[i].1));
    }
}

#[via_fn]
proof fn find_in_items_decreases(items: Vec<Json>, keys: Seq<Seq<char>>) {
    assert forall|i: int| 0 <= i < items@.len() implies decreases_to!(items => items@[i]) by {
        vstd::std_specs::vec::axiom_vec_index_decreases(items, i);
    }
}

/// Whether `j` mentions one of `needles` as a string value or an object key.
pub fn json_mentions_any(j: &Json, needles: &Vec<String>) -> (r: bool)
    ensures
        r == json_mentions(*j, strs(needles@)),
    decreases j,
{
    match j {
        Json::Str(t) => contains_str(needles, t),
        Json::Array(items) => {
            let mut i: usize = 0;
            while i < items.len()
                invariant
                    i <= items@.len(),
                    *j == Json::Array(*items),
                    forall|k: int| 0 <= k < i ==> !json_mentions(#[trigger] items@[k], strs(needles@)),
                decreases items@.len() - i,
            {
                proof {
                    vstd::std_specs::vec::axiom_vec_index_decreases(*items, i as int);
                    assert(decreases_to!(*j => (*j)->Array_0));
                }
                if json_mentions_any(&items[i], needles) {
                    return true;
                }
                i = i + 1;
            }
            false
        },
        Json::Object(m) => {
            let mut i: usize = 0;
            while i < m.len()
                invariant
                    i <= m@.len(),
                    *j == Json::Object(*m),
                    forall|k: int| 0 <= k < i ==> !(strs(needles@).contains((#[trigger] m@[k]).0@) || json_mentions(m@[k].1, strs(needles@))),
                decreases m@.len() - i,
            {
                proof {
                    vstd::std_specs::vec::axiom_vec_index_decreases(*m, i as int);
                    assert(decreases_to!(*j => (*j)->Object_0));
                    assert(decreases_to!(m[i as int] => m[i as int].1));
                }
                if contains_str(needles, &m[i].0) || json_mentions_any(&m[i].1, needles) {
                    return true;
                }
                i = i + 1;
            }
            false
        },
        _ => false,
    }
}

fn direct_u64_exec(m: &Vec<(String, Json)>, key: &String) -> (r: Option<u64>)
    ensures
        r == direct_u64(m@, key@),
{
    let mut i: usize = 0;
    assert(m@.subrange(0, m@.len() as int) =~= m@);
    while i < m.len()
        invariant
            i <= m@.len(),
            entries_get(m@, key@) == entries_get(m@.subrange(i as int, m@.len() as int), key@),
        decreases m@.len() - i,
    {
        let ghost rest = m@.subrange(i as int, m@.len() as int);
        assert(rest.subrange(1, rest.len() as int) =~= m@.subrange(i + 1, m@.len() as int));
        assert(rest[0] == m@[i as int]);
        if m[i].0 == *key {
            return m[i].1.as_u64();
        }
        i = i + 1;
    }
    None
}

/// The first integer under one of `keys`, searching as `find_u64` does.
pub fn find_u64_key(j: &Json, keys: &Vec<String>) -> (r: Option<u64>)
    ensures
        r == find_u64(*j, strs(keys@)),
    decreases j,
{
    match j {
        Json::Object(m) => {
            let ghost ks = strs(keys@);
            let ghost direct = direct_seq(m@, ks);
            let mut i: usize = 0;
            while i < keys.len()
                invariant
                    i <= keys@.len(),
                    direct.len() == keys@.len(),
                    direct == direct_seq(m@, strs(keys@)),
                    *j == Json::Object(*m),
                    ks == strs(keys@),
                    forall|q: int| 0 <= q < i ==> #[trigger] direct[q] is None,
                decreases keys@.len() - i,
            {
                let d = direct_u64_exec(m, &keys[i]);
                assert(direct[i as int] == d);
                if d.is_some() {
                    proof { lemma_first_some_at(direct, i as int); }
                    return d;
                }
                i = i + 1;
            }
            proof {
                lemma_first_some_skip(direct, direct.len() as int);
                assert(direct.subrange(direct.len() as int, direct.len() as int) =~= Seq::<Option<u64>>::empty());
            }
            let ghost nested = find_in_entries(*m, ks);
            let mut k: usize = 0;
            while k < m.len()
                invariant
                    k <= m@.len(),
                    *j == Json::Object(*m),
                    ks == strs(keys@),
                    nested == find_in_entries(*m, ks),
                    first_some(direct_seq(m@, ks)) is None,
                    forall|q: int| 0 <= q < k ==> #[trigger] nested[q] is None,
                decreases m@.len() - k,
            {
                proof {
                    vstd::std_specs::vec::axiom_vec_index_decreases(*m, k as int);
                    assert(decreases_to!(*j => (*j)->Object_0));
                    assert(decreases_to!(m[k as int] => m[k as int].1));
                }
                let f = find_u64_key(&m[k].1, keys);
                assert(nested[k as int] == f);
                if f.is_some() {
                    proof { lemma_first_some_at(nested, k as int); }
                    return f;
                }
                k = k + 1;
            }
            proof { lemma_first_some_skip(nested, nested.len() as int); }
            None
        },
        Json::Array(items) => {
            let ghost ks = strs(keys@);
            let ghost nested = find_in_items(*items, ks);
            let mut k: usize = 0;
            while k < items.len()
                invariant
                    k <= items@.len(),
                    *j == Json::Array(*items),
                    ks == strs(keys@),
                    nested == find_in_items(*items, ks),
                    forall|q: int| 0 <= q < k ==> #[trigger] nested[q] is None,
                decreases items@.len() - k,
            {
                proof {
                    vstd::std_specs::vec::axiom_vec_index_decreases(*items, k as int);
                    assert(decreases_to!(*j => (*j)->Array_0));
                }
                let f = find_u64_key(&items[k], keys);
                assert(nested[k as int] == f);
                if f.is_some() {
                    proof { lemma_first_some_at(nested, k as int); }
                    return f;
                }
                k = k + 1;
            }
            proof { lemma_first_some_skip(nested, nested.len() as int); }
            None
        },
        _ => None,
    }
}

/// What an escalation observation is about.
#[derive(Clone, Copy, Debug, PartialEq, Eq, Structural)]
pub enum EscalationTrigger {
    VerifierUncertainty,
    RepeatedAdapterFailure,
    QuotaPressure,
    ApprovalTimeout,
    PolicyExpired,
    SafetyRisk,
}

/// The reason code of a trigger.
pub open spec fn trigger_code(t: EscalationTrigger) -> Seq<char> {
    match t {
        EscalationTrigger::VerifierUncertainty => "verifier_uncertainty"@,
        EscalationTrigger::RepeatedAdapterFailure => "repeated_adapter_failure"@,
        EscalationTrigger::QuotaPressure => "quota_pressure"@,
        EscalationTrigger::ApprovalTimeout => "approval_timeout"@,
        EscalationTrigger::PolicyExpired => "policy_expired"@,
        EscalationTrigger::SafetyRisk => "safety_risk"@,
    }
}

impl EscalationTrigger {
    pub fn reason_code(&self) -> (r: &'static str)
        ensures
            r@ == trigger_code(*self),
    {
        match self {
            EscalationTrigger::VerifierUncertainty => "verifier_uncertainty",
            EscalationTrigger::RepeatedAdapterFailure => "repeated_adapter_failure",
            EscalationTrigger::QuotaPressure => "quota_pressure",
            EscalationTrigger::ApprovalTimeout => "approval_timeout",
            EscalationTrigger::PolicyExpired => "policy_expired",
            EscalationTrigger::SafetyRisk => "safety_risk",
        }
    }
}

/// What an escalation applies to.
#[derive(Clone, Copy, Debug, PartialEq, Eq, Structural)]
pub enum EscalationScope {
    Action,
    Adapter,
    Agent,
    Run,
    Tenant,
}

/// What an escalation decides.
#[derive(Clone, Copy, Debug, PartialEq, Eq, Structural)]
pub enum EscalationDecision {
    NoAction,
    Deny,
    Pause,
    NeedsIntervention,
}

impl EscalationDecision {
    pub open spec fn intervention(self) -> bool {
        self is Pause || self is NeedsIntervention
    }

    /// Pausing and asking for intervention both need a human.
    pub fn requires_intervention(&self) -> (r: bool)
        ensures
            r == self.intervention(),
    {
        match self {
            EscalationDecision::Pause | EscalationDecision::NeedsIntervention => true,
            _ => false,
        }
    }
}

/// A policy rule: from `threshold` observations of `trigger` on, decide.
#[derive(Clone, Debug)]
pub struct EscalationRule {
    pub trigger: EscalationTrigger,
    pub threshold: u32,
    pub decision: EscalationDecision,
    pub reason: String,
}

/// An ordered list of escalation rules; the first matching rule applies.
#[derive(Clone, Debug)]
pub struct EscalationPolicy {
    pub rules: Vec<EscalationRule>,
}

/// An explicit fact about one action outcome.
#[derive(Debug)]
pub struct EscalationObservation {
    pub trigger: EscalationTrigger,
    pub scope: EscalationScope,
    pub tenant_id: TenantId,
    pub agent_id: AgentId,
    pub run_id: RunId,
    pub action_id: Option<ActionId>,
    pub action_name: Option<String>,
    pub adapter: Option<String>,
    pub observed_count: u32,
    pub evidence: Json,
}

/// A decision reached for an observation.
#[derive(Debug)]
pub struct EscalationContext {
    pub trigger: EscalationTrigger,
    pub scope: EscalationScope,
    pub tenant_id: TenantId,
    pub agent_id: AgentId,
    pub run_id: RunId,
    pub action_id: Option<ActionId>,
    pub threshold: u32,
    pub observed_count: u32,
    pub decision: EscalationDecision,
    pub reason: String,
}

/// `r` applies to observation `o`.
pub open spec fn rule_matches(r: EscalationRule, o: EscalationObservation) -> bool {
    r.trigger == o.trigger && o.observed_count >= r.threshold
}

/// Index of the first rule of `rules` that applies to `o`, if any.
pub open spec fn first_matching(rules: Seq<EscalationRule>, o: EscalationObservation, i: int) -> bool {
    &&& 0 <= i < rules.len()
    &&& rule_matches(rules[i], o)
    &&& forall|j: int| 0 <= j < i ==> !rule_matches(#[trigger] rules[j], o)
}

/// The decision record for rule `r` on observation `o`.
pub open spec fn context_from(c: EscalationContext, r: EscalationRule, o: EscalationObservation) -> bool {
    &&& c.trigger == o.trigger
    &&& c.scope == o.scope
    &&& c.tenant_id == o.tenant_id
    &&& c.agent_id == o.agent_id
    &&& c.run_id == o.run_id
    &&& c.action_id == o.action_id
    &&& c.threshold == r.threshold
    &&& c.observed_count == o.observed_count
    &&& c.decision == r.decision
    &&& c.reason@ == r.reason@
}

/// Evaluates observations against a policy.
pub struct EscalationEvaluator {
    policy: EscalationPolicy,
}

/// The facts of one action outcome that the evaluator reads.
pub struct EscalationOutcomeInput<'a> {
    pub tenant_id: &'a TenantId,
    pub agent_id: &'a AgentId,
    pub run_id: &'a RunId,
    pub action_id: &'a ActionId,
    pub action: &'a Action,
    pub adapter: Option<&'a String>,
    pub outcome: &'a ActionOutcome,
}

pub open spec fn uncertainty_needles() -> Seq<Seq<char>> {
    seq!["verifier_uncertainty"@, "verifier_uncertain"@, "verifier_unavailable"@]
}

pub open spec fn quota_needles() -> Seq<Seq<char>> {
    seq![
        "max_actions_per_tick"@, "max_action_duration_ms"@, "filesystem_read_bytes"@, "filesystem_write_bytes"@,
        "network_read_bytes"@, "network_write_bytes"@, "max_http_requests_per_minute"@, "quota_pressure"@, "quota_ledger"@,
    ]
}

pub open spec fn timeout_needles() -> Seq<Seq<char>> {
    seq!["approval_timeout"@]
}

pub open spec fn expiry_needles() -> Seq<Seq<char>> {
    seq!["policy_expired"@, "policy_ttl_expired"@]
}

pub open spec fn safety_needles() -> Seq<Seq<char>> {
    seq!["safety_risk"@, "safety_verifier_denied"@]
}

pub open spec fn count_keys() -> Seq<Seq<char>> {
    seq!["observed_count"@, "failure_count"@, "denial_count"@]
}

fn strings(items: &[&str]) -> (r: Vec<String>)
    ensures
        strs(r@) == items@.map_values(|s: &str| s@),
{
    let mut out: Vec<String> = Vec::new();
    let mut i: usize = 0;
    while i < items.len()
        invariant
            i <= items@.len(),
            out@.len() == i,
            forall|k: int| 0 <= k < i ==> #[trigger] out@[k]@ == items@[k]@,
        decreases items@.len() - i,
    {
        out.push(String::from_str(items[i]));
        i = i + 1;
    }
    assert(strs(out@) =~= items@.map_values(|s: &str| s@));
    out
}

/// A verification result mentions a needle in its reasons or its evidence.
pub open spec fn mentions(v: VerificationResult, needles: Seq<Seq<char>>) -> bool {
    ||| exists|i: int| 0 <= i < v.reasons@.len() && needles.contains(#[trigger] strs(v.reasons@)[i])
    ||| json_mentions(v.artifacts, needles)
}

/// Whether a result mentions one of `needles`.
pub fn verification_mentions(v: &VerificationResult, needles: &Vec<String>) -> (r: bool)
    ensures
        r == mentions(*v, strs(needles@)),
{
    let mut i: usize = 0;
    while i < v.reasons.len()
        invariant
            i <= v.reasons@.len(),
            forall|k: int| 0 <= k < i ==> !strs(needles@).contains(#[trigger] strs(v.reasons@)[k]),
        decreases v.reasons@.len() - i,
    {
        if contains_str(needles, &v.reasons[i]) {
            assert(strs(needles@).contains(strs(v.reasons@)[i as int]));
            return true;
        }
        i = i + 1;
    }
    json_mentions_any(&v.artifacts, needles)
}

/// An action with external effects, or marked high or critical risk.
pub open spec fn high_risk(a: Action) -> bool {
    ||| a.side_effect_class != SideEffectClass::ReadOnly
    ||| (json_get(a.params, "risk"@) matches Some(Json::Str(s)) && (s@ == "high"@ || s@ == "critical"@))
}

pub fn high_risk_action(action: &Action) -> (r: bool)
    ensures
        r == high_risk(*action),
{
    if action.side_effect_class != SideEffectClass::ReadOnly {
        return true;
    }
    let key = String::from_str("risk");
    match action.params.get(&key) {
        Some(Json::Str(s)) => {
            let high = String::from_str("high");
            let critical = String::from_str("critical");
            *s == high || *s == critical
        },
        _ => false,
    }
}

/// The observation count recorded in a result's evidence (at least 1,
/// at most `u32::MAX`), or 1.
pub open spec fn observed_count(v: VerificationResult) -> u32 {
    match find_u64(v.artifacts, count_keys()) {
        Some(n) => if n > u32::MAX { u32::MAX } else if n == 0 { 1 } else { n as u32 },
        None => 1,
    }
}

pub fn observed_count_from_result(v: &VerificationResult) -> (r: u32)
    ensures
        r == observed_count(*v),
{
    let keys = strings(&["observed_count", "failure_count", "denial_count"]);
    proof {
        reveal_strlit("observed_count");
        reveal_strlit("failure_count");
        reveal_strlit("denial_count");
        assert(strs(keys@) =~= count_keys());
    }
    match find_u64_key(&v.artifacts, &keys) {
        Some(n) => if n > 4294967295u64 { 4294967295u32 } else if n == 0 { 1 } else { n as u32 },
        None => 1,
    }
}

/// The triggers and scopes observed for an outcome of `a`, in order:
/// verifier uncertainty (in the verification or the post-verification), an
/// adapter failure, quota pressure, an approval timeout, an expired policy
/// on a high-risk action, a safety risk.
pub open spec fn observation_plan(o: ActionOutcome, a: Action) -> Seq<(EscalationTrigger, EscalationScope)> {
    let v = o.verification;
    let p1: Seq<(EscalationTrigger, EscalationScope)> =
        if mentions(v, uncertainty_needles()) || (o.post_verification matches Some(p) && mentions(p, uncertainty_needles())) {
            seq![(EscalationTrigger::VerifierUncertainty, EscalationScope::Action)]
        } else { seq![] };
    let p2: Seq<(EscalationTrigger, EscalationScope)> =
        if o.status == ActionStatus::Failed { seq![(EscalationTrigger::RepeatedAdapterFailure, EscalationScope::Adapter)] } else { seq![] };
    let p3: Seq<(EscalationTrigger, EscalationScope)> =
        if mentions(v, quota_needles()) { seq![(EscalationTrigger::QuotaPressure, EscalationScope::Action)] } else { seq![] };
    let p4: Seq<(EscalationTrigger, EscalationScope)> =
        if mentions(v, timeout_needles()) { seq![(EscalationTrigger::ApprovalTimeout, EscalationScope::Run)] } else { seq![] };
    let p5: Seq<(EscalationTrigger, EscalationScope)> =
        if mentions(v, expiry_needles()) && high_risk(a) { seq![(EscalationTrigger::PolicyExpired, EscalationScope::Action)] } else { seq![] };
    let p6: Seq<(EscalationTrigger, EscalationScope)> =
        if mentions(v, safety_needles()) { seq![(EscalationTrigger::SafetyRisk, EscalationScope::Action)] } else { seq![] };
    p1 + p2 + p3 + p4 + p5 + p6
}

/// A failed action is observed as an adapter failure at adapter scope,
/// whether or not its verification allowed it: an adapter that ran and then
/// failed counts as much as one that never got going.
pub proof fn law_failed_outcome_observes_adapter_failure(o: ActionOutcome, a: Action)
    requires
        o.status == ActionStatus::Failed,
    ensures
        exists|k: int| 0 <= k < observation_plan(o, a).len()
            && #[trigger] observation_plan(o, a)[k] == (EscalationTrigger::RepeatedAdapterFailure, EscalationScope::Adapter),
{
    let v = o.verification;
    let p1: Seq<(EscalationTrigger, EscalationScope)> =
        if mentions(v, uncertainty_needles()) || (o.post_verification matches Some(p) && mentions(p, uncertainty_needles())) {
            seq![(EscalationTrigger::VerifierUncertainty, EscalationScope::Action)]
        } else { seq![] };
    let k = p1.len() as int;
    assert(observation_plan(o, a)[k] == (EscalationTrigger::RepeatedAdapterFailure, EscalationScope::Adapter));
}

pub open spec fn obs_kind(o: EscalationObservation) -> (EscalationTrigger, EscalationScope) {
    (o.trigger, o.scope)
}

pub open spec fn opt_ref_view(o: Option<&String>) -> Option<Seq<char>> {
    match o {
        Some(s) => Some(s@),
        None => None,
    }
}

pub open spec fn opt_string_view(o: Option<String>) -> Option<Seq<char>> {
    match o {
        Some(s) => Some(s@),
        None => None,
    }
}

/// An observation carries the identities of the input it was made from.
pub open spec fn observation_of(o: EscalationObservation, input: EscalationOutcomeInput) -> bool {
    &&& o.tenant_id == *input.tenant_id
    &&& o.agent_id == *input.agent_id
    &&& o.run_id == *input.run_id
    &&& o.action_id == Some(*input.action_id)
    &&& opt_string_view(o.action_name) == Some(input.action.name@)
    &&& opt_string_view(o.adapter) == opt_ref_view(input.adapter)
    &&& o.observed_count == observed_count(input.outcome.verification)
}

/// The name an action status is written with in evidence.
pub open spec fn status_text_of(s: ActionStatus) -> Seq<char> {
    match s {
        ActionStatus::Executed => "Executed"@,
        ActionStatus::Denied => "Denied"@,
        ActionStatus::NeedsApproval => "NeedsApproval"@,
        ActionStatus::NeedsIntervention => "NeedsIntervention"@,
        ActionStatus::Failed => "Failed"@,
    }
}

fn status_name(s: ActionStatus) -> (r: &'static str)
    ensures
        r@ == status_text_of(s),
{
    match s {
        ActionStatus::Executed => "Executed",
        ActionStatus::Denied => "Denied",
        ActionStatus::NeedsApproval => "NeedsApproval",
        ActionStatus::NeedsIntervention => "NeedsIntervention",
        ActionStatus::Failed => "Failed",
    }
}

/// `j` renders `v`: an object with `allowed`, the `reasons` as texts and a
/// copy of the `artifacts`.
pub open spec fn verification_json_of(j: Json, v: VerificationResult) -> bool {
    &&& j is Object
    &&& json_get(j, "allowed"@) == Some(Json::Bool(v.allowed))
    &&& json_get(j, "reasons"@) matches Some(a) && crate::json::text_array(a, v.reasons@)
    &&& json_get(j, "artifacts"@) matches Some(x) && crate::json::json_same(x, v.artifacts)
}

/// A JSON rendering of a verification result.
pub fn verification_json(v: &VerificationResult) -> (r: Json)
    ensures
        verification_json_of(r, *v),
{
    proof {
        reveal_strlit("allowed");
        reveal_strlit("reasons");
        reveal_strlit("artifacts");
        assert("allowed"@[0] != "reasons"@[0]);
        assert("allowed"@.len() != "artifacts"@.len());
        assert("reasons"@.len() != "artifacts"@.len());
    }
    let mut o = Json::object();
    o.insert(String::from_str("allowed"), Json::Bool(v.allowed));
    let ghost o1 = o;
    o.insert(String::from_str("reasons"), Json::string_array(v.reasons.as_slice()));
    let ghost o2 = o;
    assert(json_get(o2, "allowed"@) == json_get(o1, "allowed"@));
    o.insert(String::from_str("artifacts"), crate::json::copy_json(&v.artifacts));
    assert(json_get(o, "allowed"@) == json_get(o2, "allowed"@));
    assert(json_get(o, "reasons"@) == json_get(o2, "reasons"@));
    o
}

/// The evidence an action outcome leaves: its status, its verification, its
/// post-execution verification (or null) and its error text (or null).
#[verifier::opaque]
pub open spec fn outcome_evidence_of(r: Json, outcome: ActionOutcome) -> bool {
    &&& r is Object
    &&& json_get(r, "action_status"@) matches Some(Json::Str(t)) && t@ == status_text_of(outcome.status)
    &&& json_get(r, "verification"@) matches Some(v) && verification_json_of(v, outcome.verification)
    &&& json_get(r, "post_verification"@) matches Some(p) && (match outcome.post_verification {
        Some(pv) => verification_json_of(p, pv),
        None => p is Null,
    })
    &&& json_get(r, "error"@) matches Some(e) && json_str(e) == opt_string_view(outcome.error)
    &&& outcome.error is None ==> json_get(r, "error"@) == Some(Json::Null)
}

fn outcome_evidence(outcome: &ActionOutcome) -> (r: Json)
    ensures
        outcome_evidence_of(r, *outcome),
{
    proof {
        reveal_strlit("action_status");
        reveal_strlit("verification");
        reveal_strlit("post_verification");
        reveal_strlit("error");
        assert("action_status"@.len() != "verification"@.len());
        assert("action_status"@.len() != "post_verification"@.len());
        assert("action_status"@.len() != "error"@.len());
        assert("verification"@.len() != "post_verification"@.len());
        assert("verification"@.len() != "error"@.len());
        assert("post_verification"@.len() != "error"@.len());
    }
    let mut o = Json::object();
    o.insert(String::from_str("action_status"), Json::Str(String::from_str(status_name(outcome.status))));
    let ghost o1 = o;
    o.insert(String::from_str("verification"), verification_json(&outcome.verification));
    let ghost o2 = o;
    assert(json_get(o2, "action_status"@) == json_get(o1, "action_status"@));
    match &outcome.post_verification {
        Some(p) => o.insert(String::from_str("post_verification"), verification_json(p)),
        None => o.insert(String::from_str("post_verification"), Json::Null),
    }
    let ghost o3 = o;
    assert(json_get(o3, "action_status"@) == json_get(o2, "action_status"@));
    assert(json_get(o3, "verification"@) == json_get(o2, "verification"@));
    match &outcome.error {
        Some(e) => o.insert(String::from_str("error"), Json::string(e)),
        None => o.insert(String::from_str("error"), Json::Null),
    }
    assert(json_get(o, "action_status"@) == json_get(o3, "action_status"@));
    assert(json_get(o, "verification"@) == json_get(o3, "verification"@));
    assert(json_get(o, "post_verification"@) == json_get(o3, "post_verification"@));
    proof { reveal(outcome_evidence_of); }
    o
}

fn action_observation(trigger: EscalationTrigger, scope: EscalationScope, input: &EscalationOutcomeInput, observed_count: u32, evidence: Json)
    -> (r: EscalationObservation)
    ensures
        r.trigger == trigger,
        r.scope == scope,
        r.tenant_id == *input.tenant_id,
        r.agent_id == *input.agent_id,
        r.run_id == *input.run_id,
        r.action_id == Some(*input.action_id),
        opt_string_view(r.action_name) == Some(input.action.name@),
        opt_string_view(r.adapter) == opt_ref_view(input.adapter),
        r.observed_count == observed_count,
{
    let adapter = match input.adapter {
        Some(a) => Some(a.clone()),
        None => None,
    };
    EscalationObservation {
        trigger,
        scope,
        tenant_id: *input.tenant_id,
        agent_id: *input.agent_id,
        run_id: *input.run_id,
        action_id: Some(*input.action_id),
        action_name: Some(input.action.name.clone()),
        adapter,
        observed_count,
        evidence,
    }
}

/// The observations an action outcome gives, in the order of
/// `observation_plan`, each carrying the input's identities and the
/// observation count recorded in its verification evidence.
#[verifier::rlimit(40)]
pub fn observations_for_outcome(input: &EscalationOutcomeInput) -> (r: Vec<EscalationObservation>)
    ensures
        r@.map_values(|o: EscalationObservation| obs_kind(o)) == observation_plan(*input.outcome, *input.action),
        forall|i: int| 0 <= i < r@.len() ==> observation_of(#[trigger] r@[i], *input),
        // A failed action is an adapter failure, whatever its verification said.
        input.outcome.status == ActionStatus::Failed ==> exists|i: int| 0 <= i < r@.len()
            && (#[trigger] r@[i]).trigger == EscalationTrigger::RepeatedAdapterFailure && r@[i].scope == EscalationScope::Adapter,
{
    let uncertainty = strings(&["verifier_uncertainty", "verifier_uncertain", "verifier_unavailable"]);
    let quota = strings(&[
        "max_actions_per_tick", "max_action_duration_ms", "filesystem_read_bytes", "filesystem_write_bytes",
        "network_read_bytes", "network_write_bytes", "max_http_requests_per_minute", "quota_pressure", "quota_ledger",
    ]);
    let timeout = strings(&["approval_timeout"]);
    let expiry = strings(&["policy_expired", "policy_ttl_expired"]);
    let safety = strings(&["safety_risk", "safety_verifier_denied"]);
    proof {
        reveal_strlit("verifier_uncertainty");
        reveal_strlit("verifier_uncertain");
        reveal_strlit("verifier_unavailable");
        reveal_strlit("max_actions_per_tick");
        reveal_strlit("max_action_duration_ms");
        reveal_strlit("filesystem_read_bytes");
        reveal_strlit("filesystem_write_bytes");
        reveal_strlit("network_read_bytes");
        reveal_strlit("network_write_bytes");
        reveal_strlit("max_http_requests_per_minute");
        reveal_strlit("quota_pressure");
        reveal_strlit("quota_ledger");
        reveal_strlit("approval_timeout");
        reveal_strlit("policy_expired");
        reveal_strlit("policy_ttl_expired");
        reveal_strlit("safety_risk");
        reveal_strlit("safety_verifier_denied");
        assert(strs(uncertainty@) =~= uncertainty_needles());
        assert(strs(quota@) =~= quota_needles());
        assert(strs(timeout@) =~= timeout_needles());
        assert(strs(expiry@) =~= expiry_needles());
        assert(strs(safety@) =~= safety_needles());
    }
    let outcome = input.outcome;
    let count = observed_count_from_result(&outcome.verification);
    let mut out: Vec<EscalationObservation> = Vec::new();
    let ghost o = *outcome;
    let ghost a = *input.action;

    let post_uncertain = match &outcome.post_verification {
        Some(p) => verification_mentions(p, &uncertainty),
        None => false,
    };
    if verification_mentions(&outcome.verification, &uncertainty) || post_uncertain {
        out.push(action_observation(EscalationTrigger::VerifierUncertainty, EscalationScope::Action, input, count, outcome_evidence(outcome)));
    }
    let ghost s1 = out@;
    if outcome.status == ActionStatus::Failed {
        out.push(action_observation(EscalationTrigger::RepeatedAdapterFailure, EscalationScope::Adapter, input, count, outcome_evidence(outcome)));
    }
    let ghost s2 = out@;
    if verification_mentions(&outcome.verification, &quota) {
        out.push(action_observation(EscalationTrigger::QuotaPressure, EscalationScope::Action, input, count, outcome_evidence(outcome)));
    }
    let ghost s3 = out@;
    if verification_mentions(&outcome.verification, &timeout) {
        out.push(action_observation(EscalationTrigger::ApprovalTimeout, EscalationScope::Run, input, count, outcome_evidence(outcome)));
    }
    let ghost s4 = out@;
    if verification_mentions(&outcome.verification, &expiry) && high_risk_action(input.action) {
        out.push(action_observation(EscalationTrigger::PolicyExpired, EscalationScope::Action, input, count, outcome_evidence(outcome)));
    }
    let ghost s5 = out@;
    if verification_mentions(&outcome.verification, &safety) {
        out.push(action_observation(EscalationTrigger::SafetyRisk, EscalationScope::Action, input, count, outcome_evidence(outcome)));
    }
    proof {
        assert(out@.map_values(|x: EscalationObservation| obs_kind(x)) =~= observation_plan(o, a));
        if input.outcome.status == ActionStatus::Failed {
            law_failed_outcome_observes_adapter_failure(o, a);
            let k = choose|k: int| 0 <= k < observation_plan(o, a).len()
                && #[trigger] observation_plan(o, a)[k] == (EscalationTrigger::RepeatedAdapterFailure, EscalationScope::Adapter);
            assert(obs_kind(out@[k]) == out@.map_values(|x: EscalationObservation| obs_kind(x))[k]);
        }
    }
    out
}

impl EscalationEvaluator {
    pub closed spec fn rules(&self) -> Seq<EscalationRule> {
        self.policy.rules@
    }

    /// An evaluator for `policy`; an empty policy never escalates.
    pub fn new(policy: EscalationPolicy) -> (r: EscalationEvaluator)
        ensures
            r.rules() == policy.rules@,
    {
        EscalationEvaluator { policy }
    }

    pub fn policy(&self) -> (r: &EscalationPolicy)
        ensures
            r.rules@ == self.rules(),
    {
        &self.policy
    }

    /// The decision of the first rule that applies to `observation`.
    pub fn evaluate(&self, observation: &EscalationObservation) -> (r: Option<EscalationContext>)
        ensures
            r is None <==> forall|j: int| 0 <= j < self.rules().len() ==> !rule_matches(#[trigger] self.rules()[j], *observation),
            r matches Some(c) ==> exists|i: int| first_matching(self.rules(), *observation, i)
                && context_from(c, #[trigger] self.rules()[i], *observation),
    {
        let mut i: usize = 0;
        while i < self.policy.rules.len()
            invariant
                i <= self.rules().len(),
                self.rules() == self.policy.rules@,
                forall|j: int| 0 <= j < i ==> !rule_matches(#[trigger] self.rules()[j], *observation),
            decreases self.rules().len() - i,
        {
            let rule = &self.policy.rules[i];
            if rule.trigger == observation.trigger && observation.observed_count >= rule.threshold {
                let c = EscalationContext {
                    trigger: observation.trigger,
                    scope: observation.scope,
                    tenant_id: observation.tenant_id,
                    agent_id: observation.agent_id,
                    run_id: observation.run_id,
                    action_id: observation.action_id,
                    threshold: rule.threshold,
                    observed_count: observation.observed_count,
                    decision: rule.decision,
                    reason: rule.reason.clone(),
                };
                assert(first_matching(self.rules(), *observation, i as int));
                return Some(c);
            }
            i = i + 1;
        }
        None
    }

    /// The decisions for every observation of an outcome that some rule
    /// matches, in observation order: each comes from the first matching
    /// rule and carries the input's identities and the observation count.
    pub fn evaluate_outcome(&self, input: &EscalationOutcomeInput) -> (r: Vec<EscalationContext>)
        ensures
            r@.map_values(|c: EscalationContext| (c.trigger, c.scope))
                == matched_kinds(self.rules(), observation_plan(*input.outcome, *input.action), observed_count(input.outcome.verification)),
            forall|i: int| 0 <= i < r@.len() ==> (#[trigger] r@[i]).tenant_id == *input.tenant_id
                && r@[i].agent_id == *input.agent_id && r@[i].run_id == *input.run_id
                && r@[i].action_id == Some(*input.action_id)
                && r@[i].observed_count == observed_count(input.outcome.verification)
                && decided_by_first_rule(self.rules(), r@[i]),            // A failed action escalates under any adapter-failure rule its
            // observed count reaches.
            input.outcome.status == ActionStatus::Failed
                && (exists|j: int| 0 <= j < self.rules().len()
                    && (#[trigger] self.rules()[j]).trigger == EscalationTrigger::RepeatedAdapterFailure
                    && self.rules()[j].threshold <= observed_count(input.outcome.verification))
                ==> exists|i: int| 0 <= i < r@.len()
                    && (#[trigger] r@[i]).trigger == EscalationTrigger::RepeatedAdapterFailure && r@[i].scope == EscalationScope::Adapter,
    {
        let observations = observations_for_outcome(input);
        let ghost plan = observation_plan(*input.outcome, *input.action);
        let ghost count = observed_count(input.outcome.verification);
        proof {
            assert(observations@.map_values(|o: EscalationObservation| obs_kind(o)).len() == observations@.len());
        }
        let mut out: Vec<EscalationContext> = Vec::new();
        let mut i: usize = 0;
        while i < observations.len()
            invariant
                i <= observations@.len(),
                observations@.map_values(|o: EscalationObservation| obs_kind(o)) == plan,
                plan.len() == observations@.len(),
                plan == observation_plan(*input.outcome, *input.action),
                count == observed_count(input.outcome.verification),
                forall|k: int| 0 <= k < observations@.len() ==> observation_of(#[trigger] observations@[k], *input),
                out@.map_values(|c: EscalationContext| (c.trigger, c.scope)) == matched_kinds(self.rules(), plan.take(i as int), count),
                forall|k: int| 0 <= k < out@.len() ==> (#[trigger] out@[k]).tenant_id == *input.tenant_id
                    && out@[k].agent_id == *input.agent_id && out@[k].run_id == *input.run_id
                    && out@[k].action_id == Some(*input.action_id)
                    && out@[k].observed_count == count
                    && decided_by_first_rule(self.rules(), out@[k]),
            decreases observations@.len() - i,
        {
            let ghost o = observations@[i as int];
            proof {
                assert(observation_of(o, *input));
                assert(plan[i as int] == obs_kind(o));
                assert(plan.take(i as int + 1).drop_last() =~= plan.take(i as int));
                assert(plan.take(i as int + 1).last() == plan[i as int]);
            }
            let ghost before = out@;
            match self.evaluate(&observations[i]) {
                Some(c) => {
                    proof {
                        let j = choose|j: int| first_matching(self.rules(), o, j) && context_from(c, #[trigger] self.rules()[j], o);
                        assert(kind_matches(self.rules(), o.trigger, count)) by {
                            assert(rule_matches(self.rules()[j], o));
                        }
                        assert forall|q: int| 0 <= q < j implies !(#[trigger] self.rules()[q].trigger == c.trigger && c.observed_count >= self.rules()[q].threshold) by {
                            assert(!rule_matches(self.rules()[q], o));
                        }
                        assert(decided_by_first_rule(self.rules(), c));
                    }
                    out.push(c);
                    proof {
                        assert(out@.map_values(|c: EscalationContext| (c.trigger, c.scope))
                            =~= before.map_values(|c: EscalationContext| (c.trigger, c.scope)).push((c.trigger, c.scope)));
                    }
                },
                None => {
                    proof {
                        assert(!kind_matches(self.rules(), o.trigger, count)) by {
                            if kind_matches(self.rules(), o.trigger, count) {
                                let j = choose|j: int| 0 <= j < self.rules().len() && (#[trigger] self.rules()[j]).trigger == o.trigger && count >= self.rules()[j].threshold;
                                assert(rule_matches(self.rules()[j], o));
                            }
                        }
                    }
                },
            }
            i = i + 1;
        }
        proof {
            assert(plan.take(plan.len() as int) =~= plan);
            if input.outcome.status == ActionStatus::Failed
                && (exists|j: int| 0 <= j < self.rules().len()
                    && (#[trigger] self.rules()[j]).trigger == EscalationTrigger::RepeatedAdapterFailure
                    && self.rules()[j].threshold <= observed_count(input.outcome.verification)) {
                let j = choose|j: int| 0 <= j < self.rules().len()
                    && (#[trigger] self.rules()[j]).trigger == EscalationTrigger::RepeatedAdapterFailure
                    && self.rules()[j].threshold <= observed_count(input.outcome.verification);
                law_failed_outcome_meets_adapter_failure_rules(self.rules(), *input.outcome, *input.action, j);
                let m = matched_kinds(self.rules(), plan, count);
                let i = choose|i: int| 0 <= i < m.len() && #[trigger] m[i] == (EscalationTrigger::RepeatedAdapterFailure, EscalationScope::Adapter);
                assert(out@.map_values(|c: EscalationContext| (c.trigger, c.scope))[i] == (out@[i].trigger, out@[i].scope));
            }
        }
        out
    }
}

/// Some rule escalates trigger `t` at observation count `count`.
pub open spec fn kind_matches(rules: Seq<EscalationRule>, t: EscalationTrigger, count: u32) -> bool {
    exists|j: int| 0 <= j < rules.len() && (#[trigger] rules[j]).trigger == t && count >= rules[j].threshold
}

/// The observations of `plan` that some rule escalates at `count`, in order.
pub open spec fn matched_kinds(rules: Seq<EscalationRule>, plan: Seq<(EscalationTrigger, EscalationScope)>, count: u32)
    -> Seq<(EscalationTrigger, EscalationScope)>
    decreases plan.len(),
{
    if plan.len() == 0 {
        seq![]
    } else {
        let rest = matched_kinds(rules, plan.drop_last(), count);
        if kind_matches(rules, plan.last().0, count) { rest.push(plan.last()) } else { rest }
    }
}

/// An observation of the plan that some rule escalates at the count is among
/// the matched ones.
pub proof fn lemma_matched_kinds_keep(rules: Seq<EscalationRule>, plan: Seq<(EscalationTrigger, EscalationScope)>, count: u32, k: int)
    requires
        0 <= k < plan.len(),
        kind_matches(rules, plan[k].0, count),
    ensures
        exists|i: int| 0 <= i < matched_kinds(rules, plan, count).len() && #[trigger] matched_kinds(rules, plan, count)[i] == plan[k],
    decreases plan.len(),
{
    let rest = matched_kinds(rules, plan.drop_last(), count);
    if k == plan.len() - 1 {
        assert(matched_kinds(rules, plan, count) == rest.push(plan.last()));
        assert(matched_kinds(rules, plan, count)[rest.len() as int] == plan[k]);
    } else {
        assert(plan.drop_last()[k] == plan[k]);
        lemma_matched_kinds_keep(rules, plan.drop_last(), count, k);
        let i = choose|i: int| 0 <= i < rest.len() && #[trigger] rest[i] == plan[k];
        if kind_matches(rules, plan.last().0, count) {
            assert(matched_kinds(rules, plan, count)[i] == rest[i]);
        } else {
            assert(matched_kinds(rules, plan, count) == rest);
        }
    }
}

/// A failed action meets every rule for repeated adapter failures whose
/// threshold its observed count reaches: the escalations include one for an
/// adapter failure at adapter scope.
pub proof fn law_failed_outcome_meets_adapter_failure_rules(
    rules: Seq<EscalationRule>,
    o: ActionOutcome,
    a: Action,
    j: int,
)
    requires
        o.status == ActionStatus::Failed,
        0 <= j < rules.len(),
        rules[j].trigger == EscalationTrigger::RepeatedAdapterFailure,
        rules[j].threshold <= observed_count(o.verification),
    ensures
        exists|i: int| 0 <= i < matched_kinds(rules, observation_plan(o, a), observed_count(o.verification)).len()
            && #[trigger] matched_kinds(rules, observation_plan(o, a), observed_count(o.verification))[i]
                == (EscalationTrigger::RepeatedAdapterFailure, EscalationScope::Adapter),
{
    law_failed_outcome_observes_adapter_failure(o, a);
    let plan = observation_plan(o, a);
    let k = choose|k: int| 0 <= k < plan.len()
        && #[trigger] plan[k] == (EscalationTrigger::RepeatedAdapterFailure, EscalationScope::Adapter);
    assert(kind_matches(rules, plan[k].0, observed_count(o.verification)));
    lemma_matched_kinds_keep(rules, plan, observed_count(o.verification), k);
}

/// `c` takes its threshold, decision and reason from the first rule that
/// escalates its trigger at its count.
pub open spec fn decided_by_first_rule(rules: Seq<EscalationRule>, c: EscalationContext) -> bool {
    exists|j: int| 0 <= j < rules.len()
        && (#[trigger] rules[j]).trigger == c.trigger && c.observed_count >= rules[j].threshold
        && (forall|q: int| 0 <= q < j ==> !(#[trigger] rules[q].trigger == c.trigger && c.observed_count >= rules[q].threshold))
        && c.threshold == rules[j].threshold && c.decision == rules[j].decision && c.reason@ == rules[j].reason@
}

/// Whether any escalation asks for intervention.
pub fn escalations_require_intervention(escalations: &[EscalationContext]) -> (r: bool)
    ensures
        r == exists|i: int| 0 <= i < escalations@.len() && (#[trigger] escalations@[i]).decision.intervention(),
{
    let mut i: usize = 0;
    while i < escalations.len()
        invariant
            i <= escalations@.len(),
            forall|k: int| 0 <= k < i ==> !(#[trigger] escalations@[k]).decision.intervention(),
        decreases escalations@.len() - i,
    {
        if escalations[i].decision.requires_intervention() {
            return true;
        }
        i = i + 1;
    }
    false
}

/// `s` with `x` appended unless it already holds it.
pub open spec fn push_absent(s: Seq<Seq<char>>, x: Seq<char>) -> Seq<Seq<char>> {
    if s.contains(x) { s } else { s.push(x) }
}

/// The reason code an escalation adds to a result.
pub open spec fn escalation_reason(t: EscalationTrigger) -> Seq<char> {
    "escalation:"@ + trigger_code(t)
}

/// The reasons of a result after an escalation was attached to it.
pub open spec fn escalated_reasons(reasons: Seq<Seq<char>>, e: EscalationContext) -> Seq<Seq<char>> {
    let r1 = push_absent(reasons, escalation_reason(e.trigger));
    if e.decision.intervention() { push_absent(r1, "needs_intervention"@) } else { r1 }
}

/// The status an escalation decision leaves: a failed outcome stays failed.
pub open spec fn escalated_status(s: ActionStatus, d: EscalationDecision) -> ActionStatus {
    match d {
        EscalationDecision::NoAction => s,
        EscalationDecision::Deny => if s == ActionStatus::Failed { s } else { ActionStatus::Denied },
        _ => if s == ActionStatus::Failed { s } else { ActionStatus::NeedsIntervention },
    }
}

fn push_if_absent(reasons: &mut Vec<String>, x: String)
    ensures
        strs(final(reasons)@) == push_absent(strs(old(reasons)@), x@),
{
    if !contains_str(reasons, &x) {
        let ghost xv = x@;
        reasons.push(x);
        assert(strs(reasons@) =~= strs(old(reasons)@).push(xv));
    }
}

/// The name an escalation scope is written with in evidence.
pub open spec fn scope_text(s: EscalationScope) -> Seq<char> {
    match s {
        EscalationScope::Action => "Action"@,
        EscalationScope::Adapter => "Adapter"@,
        EscalationScope::Agent => "Agent"@,
        EscalationScope::Run => "Run"@,
        EscalationScope::Tenant => "Tenant"@,
    }
}

fn scope_name(s: EscalationScope) -> (r: &'static str)
    ensures
        r@ == scope_text(s),
{
    match s {
        EscalationScope::Action => "Action",
        EscalationScope::Adapter => "Adapter",
        EscalationScope::Agent => "Agent",
        EscalationScope::Run => "Run",
        EscalationScope::Tenant => "Tenant",
    }
}

/// The name an escalation decision is written with in evidence.
pub open spec fn decision_text(d: EscalationDecision) -> Seq<char> {
    match d {
        EscalationDecision::NoAction => "NoAction"@,
        EscalationDecision::Deny => "Deny"@,
        EscalationDecision::Pause => "Pause"@,
        EscalationDecision::NeedsIntervention => "NeedsIntervention"@,
    }
}

fn decision_name(d: EscalationDecision) -> (r: &'static str)
    ensures
        r@ == decision_text(d),
{
    match d {
        EscalationDecision::NoAction => "NoAction",
        EscalationDecision::Deny => "Deny",
        EscalationDecision::Pause => "Pause",
        EscalationDecision::NeedsIntervention => "NeedsIntervention",
    }
}

/// The evidence an escalation leaves: its source, trigger code, threshold,
/// observed count, scope, decision and reason.
pub open spec fn escalation_artifact_of(j: Json, e: EscalationContext) -> bool {
    &&& j is Object
    &&& json_get(j, "source"@) matches Some(Json::Str(t)) && t@ == ESCALATION_ENGINE_SOURCE@
    &&& json_get(j, "trigger"@) matches Some(Json::Str(t)) && t@ == trigger_code(e.trigger)
    &&& json_get(j, "threshold"@) == Some(Json::UInt(e.threshold as u64))
    &&& json_get(j, "observed_count"@) == Some(Json::UInt(e.observed_count as u64))
    &&& json_get(j, "scope"@) matches Some(Json::Str(t)) && t@ == scope_text(e.scope)
    &&& json_get(j, "decision"@) matches Some(Json::Str(t)) && t@ == decision_text(e.decision)
    &&& json_get(j, "reason"@) matches Some(Json::Str(t)) && t@ == e.reason@
}

fn escalation_artifact(e: &EscalationContext) -> (r: Json)
    ensures
        escalation_artifact_of(r, *e),
{
    proof {
        reveal_strlit("source");
        reveal_strlit("trigger");
        reveal_strlit("threshold");
        reveal_strlit("observed_count");
        reveal_strlit("scope");
        reveal_strlit("decision");
        reveal_strlit("reason");
        assert("source"@.len() != "trigger"@.len());
        assert("source"@.len() != "threshold"@.len());
        assert("source"@.len() != "observed_count"@.len());
        assert("source"@.len() != "scope"@.len());
        assert("source"@.len() != "decision"@.len());
        assert("source"@[0] != "reason"@[0]);
        assert("trigger"@.len() != "threshold"@.len());
        assert("trigger"@.len() != "observed_count"@.len());
        assert("trigger"@.len() != "scope"@.len());
        assert("trigger"@.len() != "decision"@.len());
        assert("trigger"@.len() != "reason"@.len());
        assert("threshold"@.len() != "observed_count"@.len());
        assert("threshold"@.len() != "scope"@.len());
        assert("threshold"@.len() != "decision"@.len());
        assert("threshold"@.len() != "reason"@.len());
        assert("observed_count"@.len() != "scope"@.len());
        assert("observed_count"@.len() != "decision"@.len());
        assert("observed_count"@.len() != "reason"@.len());
        assert("scope"@.len() != "decision"@.len());
        assert("scope"@.len() != "reason"@.len());
        assert("decision"@.len() != "reason"@.len());
    }
    let mut o = Json::object();
    o.insert(String::from_str("source"), Json::Str(String::from_str(ESCALATION_ENGINE_SOURCE)));
    let ghost o1 = o;
    o.insert(String::from_str("trigger"), Json::Str(String::from_str(e.trigger.reason_code())));
    let ghost o2 = o;
    assert(json_get(o2, "source"@) == json_get(o1, "source"@));
    o.insert(String::from_str("threshold"), Json::UInt(e.threshold as u64));
    let ghost o3 = o;
    assert(json_get(o3, "source"@) == json_get(o2, "source"@));
    assert(json_get(o3, "trigger"@) == json_get(o2, "trigger"@));
    o.insert(String::from_str("observed_count"), Json::UInt(e.observed_count as u64));
    let ghost o4 = o;
    assert(json_get(o4, "source"@) == json_get(o3, "source"@));
    assert(json_get(o4, "trigger"@) == json_get(o3, "trigger"@));
    assert(json_get(o4, "threshold"@) == json_get(o3, "threshold"@));
    o.insert(String::from_str("scope"), Json::Str(String::from_str(scope_name(e.scope))));
    let ghost o5 = o;
    assert(json_get(o5, "source"@) == json_get(o4, "source"@));
    assert(json_get(o5, "trigger"@) == json_get(o4, "trigger"@));
    assert(json_get(o5, "threshold"@) == json_get(o4, "threshold"@));
    assert(json_get(o5, "observed_count"@) == json_get(o4, "observed_count"@));
    o.insert(String::from_str("decision"), Json::Str(String::from_str(decision_name(e.decision))));
    let ghost o6 = o;
    assert(json_get(o6, "source"@) == json_get(o5, "source"@));
    assert(json_get(o6, "trigger"@) == json_get(o5, "trigger"@));
    assert(json_get(o6, "threshold"@) == json_get(o5, "threshold"@));
    assert(json_get(o6, "observed_count"@) == json_get(o5, "observed_count"@));
    assert(json_get(o6, "scope"@) == json_get(o5, "scope"@));
    o.insert(String::from_str("reason"), Json::string(&e.reason));
    assert(json_get(o, "source"@) == json_get(o6, "source"@));
    assert(json_get(o, "trigger"@) == json_get(o6, "trigger"@));
    assert(json_get(o, "threshold"@) == json_get(o6, "threshold"@));
    assert(json_get(o, "observed_count"@) == json_get(o6, "observed_count"@));
    assert(json_get(o, "scope"@) == json_get(o6, "scope"@));
    assert(json_get(o, "decision"@) == json_get(o6, "decision"@));
    o
}

/// Marks a result denied by an escalation: adds the escalation reason code
/// (and `needs_intervention` for decisions that need a human) once, and
/// records the escalation under `escalation` in the evidence, keeping
/// earlier non-object evidence under `previous`.
pub fn attach_escalation_artifact(result: &mut VerificationResult, escalation: &EscalationContext)
    ensures
        !final(result).allowed,
        strs(final(result).reasons@) == escalated_reasons(strs(old(result).reasons@), *escalation),
        crate::json::json_has_key(final(result).artifacts, "escalation"@),
{
    result.allowed = false;
    let reason = String::from_str("escalation:").concat(escalation.trigger.reason_code());
    push_if_absent(&mut result.reasons, reason);
    if escalation.decision.requires_intervention() {
        push_if_absent(&mut result.reasons, String::from_str("needs_intervention"));
    }
    let artifact = escalation_artifact(escalation);
    let mut artifacts = Json::Null;
    std::mem::swap(&mut artifacts, &mut result.artifacts);
    if !artifacts.is_object() {
        let previous = artifacts;
        artifacts = Json::object();
        if !previous.is_null() {
            artifacts.insert(String::from_str("previous"), previous);
        }
    }
    artifacts.insert(String::from_str("escalation"), artifact);
    result.artifacts = artifacts;
}

/// Applies an escalation to an outcome without executing anything. A
/// failed outcome stays failed, since an adapter already ran; otherwise a
/// denial denies and a pause or intervention decision asks for intervention,
/// with the escalation's reason as the error.
pub fn apply_escalation_to_outcome(outcome: &mut ActionOutcome, escalation: &EscalationContext)
    ensures
        !final(outcome).verification.allowed,
        strs(final(outcome).verification.reasons@) == escalated_reasons(strs(old(outcome).verification.reasons@), *escalation),
        crate::json::json_has_key(final(outcome).verification.artifacts, "escalation"@),
        final(outcome).status == escalated_status(old(outcome).status, escalation.decision),
        final(outcome).status != old(outcome).status ==> (final(outcome).error matches Some(e) && e@ == escalation.reason@),
        !(escalation.decision is NoAction) && old(outcome).status != ActionStatus::Failed
            ==> (final(outcome).error matches Some(e) && e@ == escalation.reason@),
        (escalation.decision is NoAction || old(outcome).status == ActionStatus::Failed) ==> final(outcome).error == old(outcome).error,
        final(outcome).action_id == old(outcome).action_id,
        final(outcome).post_verification == old(outcome).post_verification,
        final(outcome).output == old(outcome).output,
        final(outcome).completed_at == old(outcome).completed_at,
{
    attach_escalation_artifact(&mut outcome.verification, escalation);
    match escalation.decision {
        EscalationDecision::NoAction => {},
        EscalationDecision::Deny => {
            if outcome.status != ActionStatus::Failed {
                outcome.status = ActionStatus::Denied;
                outcome.error = Some(escalation.reason.clone());
            }
        },
        _ => {
            if outcome.status != ActionStatus::Failed {
                outcome.status = ActionStatus::NeedsIntervention;
                outcome.error = Some(escalation.reason.clone());
            }
        },
    }
}

} // verus!
