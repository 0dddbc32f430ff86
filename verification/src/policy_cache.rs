//! The local policy bundle cache: validated bundles replace cached
//! authority, expiry and revocation fail closed, and a gateway wrapper denies
//! actions that the cache does not cover before the wrapped gateway can reach
//! an adapter.

use vstd::prelude::*;
use crate::action::SideEffectClass;
use crate::clock::{Timestamp, now_utc};
use crate::gateway::{ActionGateway, ActionOutcome, ActionRequest, ActionStatus, GatewayError, joined, join_strings};
use crate::json::Json;
use crate::state::white_space;
use crate::textual::uuid_string;
use crate::trace::TraceEventKind;
use crate::verification::{VerificationResult, strs};

verus! {

/// Source label of policy cache evidence.
pub const POLICY_CACHE_SOURCE: &'static str = "policy_distribution_cache";

/// A character allowed in a policy reason code.
pub open spec fn code_char(c: char) -> bool {
    ||| ('a' <= c && c <= 'z')
    ||| ('A' <= c && c <= 'Z')
    ||| ('0' <= c && c <= '9')
    ||| c == '_' || c == '-' || c == '.'
}

/// The code point of the ASCII lowercase form of `c`.
pub open spec fn lower_code(c: char) -> u32 {
    if 65 <= (c as u32) && (c as u32) <= 90 { ((c as u32) + 32) as u32 } else { c as u32 }
}

/// Code points of the ASCII lowercase form of `s`.
pub open spec fn lower(s: Seq<char>) -> Seq<u32> {
    s.map_values(|c: char| lower_code(c))
}

/// Code points of `s`.
pub open spec fn codes(s: Seq<char>) -> Seq<u32> {
    s.map_values(|c: char| c as u32)
}

/// `s` with leading white space removed.
pub open spec fn trim_start(s: Seq<char>) -> Seq<char>
    decreases s.len(),
{
    if s.len() == 0 || !white_space(s[0]) { s } else { trim_start(s.drop_first()) }
}

/// `s` with trailing white space removed.
pub open spec fn trim_end(s: Seq<char>) -> Seq<char>
    decreases s.len(),
{
    if s.len() == 0 || !white_space(s.last()) { s } else { trim_end(s.drop_last()) }
}

pub open spec fn trimmed(s: Seq<char>) -> Seq<char> {
    trim_end(trim_start(s))
}

/// Markers of secret-looking material in a reason.
pub open spec fn sensitive_markers() -> Seq<Seq<char>> {
    seq!["secret"@, "signature"@, "token"@, "credential"@, "password"@, "bearer"@, "apikey"@, "api_key"@, "key="@]
}

/// `s` contains `m` as a contiguous part.
pub open spec fn contains_part(s: Seq<u32>, m: Seq<u32>) -> bool {
    exists|i: int| 0 <= i && i + m.len() <= s.len() && #[trigger] s.subrange(i, i + m.len()) == m
}

/// A reason that is safe to record: a short code of letters, digits, `_`,
/// `-` and `.` naming no secret material.
pub open spec fn safe_reason(t: Seq<char>) -> bool {
    &&& t.len() <= 80
    &&& forall|i: int| 0 <= i < t.len() ==> code_char(#[trigger] t[i])
    &&& forall|k: int| 0 <= k < sensitive_markers().len() ==> !contains_part(lower(t), codes(#[trigger] sensitive_markers()[k]))
}

/// The recorded form of a policy reason: trimmed; `policy_reason_unspecified`
/// when empty, `policy_reason_redacted` when not a safe code.
pub open spec fn sanitized(s: Seq<char>) -> Seq<char> {
    let t = trimmed(s);
    if t.len() == 0 {
        "policy_reason_unspecified"@
    } else if !safe_reason(t) {
        "policy_reason_redacted"@
    } else {
        t
    }
}

proof fn lemma_trim_start(s: Seq<char>, lo: int)
    requires
        0 <= lo <= s.len(),
        forall|i: int| 0 <= i < lo ==> white_space(#[trigger] s[i]),
        lo < s.len() ==> !white_space(s[lo]),
    ensures
        trim_start(s) == s.subrange(lo, s.len() as int),
    decreases lo,
{
    if lo == 0 {
        assert(s.subrange(0, s.len() as int) =~= s);
    } else {
        assert(s.drop_first().subrange(lo - 1, s.drop_first().len() as int) =~= s.subrange(lo, s.len() as int));
        lemma_trim_start(s.drop_first(), lo - 1);
    }
}

proof fn lemma_trim_end(u: Seq<char>, hi: int)
    requires
        0 <= hi <= u.len(),
        forall|i: int| hi <= i < u.len() ==> white_space(#[trigger] u[i]),
        hi > 0 ==> !white_space(u[hi - 1]),
    ensures
        trim_end(u) == u.subrange(0, hi),
    decreases u.len() - hi,
{
    if hi == u.len() {
        assert(u.subrange(0, u.len() as int) =~= u);
    } else {
        assert(u.drop_last().subrange(0, hi) =~= u.subrange(0, hi));
        lemma_trim_end(u.drop_last(), hi);
    }
}

fn is_code_char(c: char) -> (r: bool)
    ensures
        r == code_char(c),
{
    ('a' <= c && c <= 'z') || ('A' <= c && c <= 'Z') || ('0' <= c && c <= '9') || c == '_' || c == '-' || c == '.'
}

/// Whether the lowercase form of `t` contains `m` (`m` itself lowercase).
fn lower_contains(t: &str, m: &str) -> (r: bool)
    ensures
        r == contains_part(lower(t@), codes(m@)),
{
    let n = t.unicode_len();
    let k = m.unicode_len();
    if k > n {
        return false;
    }
    let mut i: usize = 0;
    while i <= n - k
        invariant
            n == t@.len(),
            k == m@.len(),
            k <= n,
            i <= n - k + 1,
            forall|q: int| 0 <= q < i ==> #[trigger] lower(t@).subrange(q, q + k) != codes(m@),
        decreases n - i,
    {
        let mut j: usize = 0;
        let mut same = true;
        while j < k
            invariant
                n == t@.len(),
                k == m@.len(),
                i + k <= n,
                j <= k,
                same == (forall|p: int| 0 <= p < j ==> lower_code(#[trigger] t@[i + p]) == (m@[p] as u32)),
            decreases k - j,
        {
            let c = t.get_char(i + j) as u32;
            let lc: u32 = if 65 <= c && c <= 90 { c + 32 } else { c };
            if lc != m.get_char(j) as u32 {
                same = false;
            }
            j = j + 1;
        }
        proof {
            let w = lower(t@).subrange(i as int, i + k);
            if same {
                assert forall|p: int| 0 <= p < k implies w[p] == codes(m@)[p] by {
                    assert(lower_code(t@[i + p]) == (m@[p] as u32));
                }
                assert(w =~= codes(m@));
            } else {
                let p = choose|p: int| 0 <= p < k && lower_code(#[trigger] t@[i + p]) != (m@[p] as u32);
                assert(w[p] != codes(m@)[p]);
            }
        }
        if same {
            return true;
        }
        i = i + 1;
    }
    proof {
        assert forall|q: int| 0 <= q && q + codes(m@).len() <= lower(t@).len() implies #[trigger] lower(t@).subrange(q, q + codes(m@).len()) != codes(m@) by {
            assert(q < i);
        }
    }
    false
}

/// Trims a reason and replaces it by a fixed code when it is empty or not a
/// safe code.
pub fn sanitize_policy_reason(reason: String) -> (r: String)
    ensures
        r@ == sanitized(reason@),
{
    let s = reason.as_str();
    let n = s.unicode_len();
    let mut lo: usize = 0;
    while lo < n && crate::state::char_is_whitespace(s.get_char(lo))
        invariant
            n == s@.len(),
            lo <= n,
            forall|i: int| 0 <= i < lo ==> white_space(#[trigger] s@[i]),
        decreases n - lo,
    {
        lo = lo + 1;
    }
    let mut hi: usize = n;
    while hi > lo && crate::state::char_is_whitespace(s.get_char(hi - 1))
        invariant
            n == s@.len(),
            lo <= hi <= n,
            forall|i: int| hi <= i < n ==> white_space(#[trigger] s@[i]),
        decreases hi,
    {
        hi = hi - 1;
    }
    proof {
        lemma_trim_start(s@, lo as int);
        let u = s@.subrange(lo as int, n as int);
        assert forall|i: int| hi - lo <= i < u.len() implies white_space(#[trigger] u[i]) by {
            assert(u[i] == s@[lo + i]);
        }
        if hi > lo {
            assert(u[hi - lo - 1] == s@[hi - 1]);
        }
        lemma_trim_end(u, hi - lo);
        assert(u.subrange(0, hi - lo) =~= s@.subrange(lo as int, hi as int));
    }
    let t = s.substring_char(lo, hi);
    assert(trimmed(reason@) == t@);
    if hi == lo {
        return String::from_str("policy_reason_unspecified");
    }
    let len = hi - lo;
    let mut safe = len <= 80;
    let mut i: usize = 0;
    while i < len
        invariant
            len == t@.len(),
            i <= len,
            safe == (len <= 80 && forall|q: int| 0 <= q < i ==> code_char(#[trigger] t@[q])),
        decreases len - i,
    {
        if !is_code_char(t.get_char(i)) {
            safe = false;
        }
        i = i + 1;
    }
    let markers: [&str; 9] = ["secret", "signature", "token", "credential", "password", "bearer", "apikey", "api_key", "key="];
    proof {
        reveal_strlit("secret");
        reveal_strlit("signature");
        reveal_strlit("token");
        reveal_strlit("credential");
        reveal_strlit("password");
        reveal_strlit("bearer");
        reveal_strlit("apikey");
        reveal_strlit("api_key");
        reveal_strlit("key=");
        assert(markers@.map_values(|m: &str| m@) =~= sensitive_markers());
    }
    let mut k: usize = 0;
    let mut found = false;
    while k < 9
        invariant_except_break
            !found,
        invariant
            k <= 9,
            markers@.len() == 9,
            markers@.map_values(|m: &str| m@) == sensitive_markers(),
            forall|q: int| 0 <= q < k ==> !contains_part(lower(t@), codes(#[trigger] sensitive_markers()[q])),
        ensures
            found ==> k < 9 && contains_part(lower(t@), codes(sensitive_markers()[k as int])),
            !found ==> k == 9,
        decreases 9 - k,
    {
        assert(sensitive_markers()[k as int] == markers@[k as int]@);
        if lower_contains(t, markers[k]) {
            found = true;
            break;
        }
        k = k + 1;
    }
    if !safe || found {
        proof {
            if found {
                assert(!safe_reason(t@));
            }
        }
        return String::from_str("policy_reason_redacted");
    }
    assert(safe_reason(t@));
    String::from_str(t)
}

/// Degraded-mode options of a bundle.
#[derive(Clone, Copy, Debug, PartialEq, Eq, Structural)]
pub struct DegradedMode {
    pub allow_low_risk_cached: bool,
}

/// A validated policy bundle.
#[derive(Clone, Debug)]
pub struct PolicyBundle {
    pub policy_bundle_id: u128,
    pub version: String,
    pub expires_at: Timestamp,
    pub degraded_mode: DegradedMode,
}

/// Bundle identity recorded in traces and snapshots.
#[derive(Clone, Debug, PartialEq, Eq)]
pub struct PolicyBundleTraceContext {
    pub policy_bundle_id: u128,
    pub version: String,
    pub expires_at: Timestamp,
}

impl PolicyBundleTraceContext {
    pub fn from_bundle(b: &PolicyBundle) -> (r: PolicyBundleTraceContext)
        ensures
            r.policy_bundle_id == b.policy_bundle_id,
            r.version@ == b.version@,
            r.expires_at == b.expires_at,
    {
        PolicyBundleTraceContext { policy_bundle_id: b.policy_bundle_id, version: b.version.clone(), expires_at: b.expires_at }
    }
}

/// Cache configuration.
#[derive(Clone, Copy, Debug, PartialEq, Eq, Structural)]
pub struct PolicyCacheConfig {
    pub enforcement_required: bool,
}

/// The last observed sync failure; it never changes cached authority.
#[derive(Clone, Debug, PartialEq, Eq)]
pub struct PolicySyncFailure {
    pub reason: String,
    pub observed_at: Timestamp,
}

/// Cache status for APIs and telemetry.
#[derive(Clone, Debug, PartialEq, Eq)]
pub struct PolicyCacheSnapshot {
    pub enforcement_required: bool,
    pub disconnected: bool,
    pub bundle: Option<PolicyBundleTraceContext>,
    pub revoked_reason: Option<String>,
    pub last_sync_failure: Option<PolicySyncFailure>,
}

/// What a policy check concludes.
#[derive(Clone, Copy, Debug, PartialEq, Eq, Structural)]
pub enum PolicyVerdict {
    Allow,
    Unavailable,
    Revoked,
    Expired,
}

/// The local policy cache.
pub struct PolicyCache {
    enforcement_required: bool,
    disconnected: bool,
    bundle: Option<PolicyBundle>,
    revoked_reason: Option<String>,
    last_sync_failure: Option<PolicySyncFailure>,
}

/// The decision before a policy callback runs.
#[derive(Debug)]
pub struct PolicyRuntimeDecision {
    pub verification: VerificationResult,
    pub trace_event: Option<TraceEventKind>,
}

impl PolicyRuntimeDecision {
    /// Lets the policy run, with nothing to trace.
    pub fn allow() -> (r: PolicyRuntimeDecision)
        ensures
            r.verification.allowed,
            r.verification.reasons@.len() == 0,
            r.verification.artifacts is Null,
            r.trace_event is None,
    {
        PolicyRuntimeDecision { verification: VerificationResult::allow(), trace_event: None }
    }
}

pub open spec fn verdict_reason(v: PolicyVerdict) -> Seq<char> {
    match v {
        PolicyVerdict::Allow => seq![],
        PolicyVerdict::Unavailable => "policy_unavailable"@,
        PolicyVerdict::Revoked => "policy_revoked"@,
        PolicyVerdict::Expired => "policy_expired"@,
    }
}

/// Whether `r` says what `v` says: an allowance carries no reasons; a
/// refusal carries exactly the refusal's reason.
pub open spec fn result_for(r: VerificationResult, v: PolicyVerdict) -> bool {
    if v is Allow {
        r.allowed && r.reasons@.len() == 0
    } else {
        !r.allowed && strs(r.reasons@) == seq![verdict_reason(v)]
    }
}

fn policy_result(reason: &str, artifacts: Json) -> (r: VerificationResult)
    ensures
        !r.allowed,
        strs(r.reasons@) == seq![reason@],
{
    let mut reasons: Vec<String> = Vec::new();
    reasons.push(String::from_str(reason));
    assert(strs(reasons@) =~= seq![reason@]);
    VerificationResult { allowed: false, reasons, artifacts }
}

fn unavailable_result(policy_name: &str) -> (r: VerificationResult)
    ensures
        result_for(r, PolicyVerdict::Unavailable),
{
    let mut a = Json::object();
    a.insert(String::from_str("source"), Json::Str(String::from_str(POLICY_CACHE_SOURCE)));
    a.insert(String::from_str("policy"), Json::Str(String::from_str(policy_name)));
    let r = policy_result("policy_unavailable", a);
    proof { reveal_strlit("policy_unavailable"); }
    r
}

fn expired_result(bundle: &PolicyBundle, action: Option<&String>, disconnected: bool) -> (r: VerificationResult)
    ensures
        result_for(r, PolicyVerdict::Expired),
{
    let mut a = Json::object();
    a.insert(String::from_str("source"), Json::Str(String::from_str(POLICY_CACHE_SOURCE)));
    a.insert(String::from_str("policy_bundle_id"), Json::Str(uuid_string(bundle.policy_bundle_id)));
    a.insert(String::from_str("version"), Json::string(&bundle.version));
    match action {
        Some(n) => a.insert(String::from_str("action"), Json::string(n)),
        None => a.insert(String::from_str("action"), Json::Null),
    }
    a.insert(String::from_str("expires_at_nanos"), Json::Str(crate::textual::uuid_string(bundle.expires_at.unix_nanos as u128)));
    a.insert(String::from_str("disconnected"), Json::Bool(disconnected));
    a.insert(String::from_str("allow_low_risk_cached"), Json::Bool(bundle.degraded_mode.allow_low_risk_cached));
    let r = policy_result("policy_expired", a);
    proof { reveal_strlit("policy_expired"); }
    r
}

fn revoked_result(bundle: &PolicyBundle, reason: &String) -> (r: VerificationResult)
    ensures
        result_for(r, PolicyVerdict::Revoked),
{
    let mut a = Json::object();
    a.insert(String::from_str("source"), Json::Str(String::from_str(POLICY_CACHE_SOURCE)));
    a.insert(String::from_str("policy_bundle_id"), Json::Str(uuid_string(bundle.policy_bundle_id)));
    a.insert(String::from_str("version"), Json::string(&bundle.version));
    a.insert(String::from_str("reason"), Json::string(reason));
    let r = policy_result("policy_revoked", a);
    proof { reveal_strlit("policy_revoked"); }
    r
}

impl PolicyCache {
    pub closed spec fn enforced(&self) -> bool {
        self.enforcement_required
    }

    pub closed spec fn is_disconnected(&self) -> bool {
        self.disconnected
    }

    pub closed spec fn cached(&self) -> Option<PolicyBundle> {
        self.bundle
    }

    pub closed spec fn revocation(&self) -> Option<Seq<char>> {
        match self.revoked_reason {
            Some(r) => Some(r@),
            None => None,
        }
    }

    pub closed spec fn sync_failure(&self) -> Option<PolicySyncFailure> {
        self.last_sync_failure
    }

    /// Whether a policy callback may run at `now`: with no enforcement and no
    /// bundle, yes; with enforcement but no bundle, the policy is unavailable;
    /// a revoked bundle, and an expired one (unless disconnected with cached
    /// low-risk use allowed), deny.
    pub open spec fn invocation_verdict(&self, now: Timestamp) -> PolicyVerdict {
        if !self.enforced() && self.cached() is None {
            PolicyVerdict::Allow
        } else if self.cached() is None {
            PolicyVerdict::Unavailable
        } else if self.revocation() is Some {
            PolicyVerdict::Revoked
        } else if self.cached().unwrap().expires_at.unix_nanos <= now.unix_nanos
            && !(self.is_disconnected() && self.cached().unwrap().degraded_mode.allow_low_risk_cached) {
            PolicyVerdict::Expired
        } else {
            PolicyVerdict::Allow
        }
    }

    /// Whether an action of side-effect class `class` may proceed at `now`:
    /// as for policy invocation, except that an expired bundle still allows
    /// read-only actions while disconnected when cached low-risk use is
    /// allowed.
    pub open spec fn action_verdict(&self, class: SideEffectClass, now: Timestamp) -> PolicyVerdict {
        if !self.enforced() && self.cached() is None {
            PolicyVerdict::Allow
        } else if self.cached() is None {
            PolicyVerdict::Unavailable
        } else if self.revocation() is Some {
            PolicyVerdict::Revoked
        } else if self.cached().unwrap().expires_at.unix_nanos <= now.unix_nanos
            && !(class == SideEffectClass::ReadOnly && self.is_disconnected() && self.cached().unwrap().degraded_mode.allow_low_risk_cached) {
            PolicyVerdict::Expired
        } else {
            PolicyVerdict::Allow
        }
    }

    /// An empty cache.
    pub fn new(config: PolicyCacheConfig) -> (r: PolicyCache)
        ensures
            r.enforced() == config.enforcement_required,
            !r.is_disconnected(),
            r.cached() is None,
            r.revocation() is None,
            r.sync_failure() is None,
    {
        PolicyCache {
            enforcement_required: config.enforcement_required,
            disconnected: false,
            bundle: None,
            revoked_reason: None,
            last_sync_failure: None,
        }
    }

    /// A cache enforcing an installed bundle.
    pub fn with_bundle(bundle: PolicyBundle, cached_at: Timestamp) -> (r: PolicyCache)
        ensures
            r.enforced(),
            !r.is_disconnected(),
            r.cached() == Some(bundle),
            r.revocation() is None,
            r.sync_failure() is None,
    {
        let mut cache = PolicyCache::new(PolicyCacheConfig { enforcement_required: true });
        let _ = cache.install_validated(bundle, cached_at);
        cache
    }

    /// Installs a validated bundle: enforcement turns on, and earlier
    /// revocation and sync failure are cleared.
    pub fn install_validated(&mut self, bundle: PolicyBundle, cached_at: Timestamp) -> (r: PolicyBundleTraceContext)
        ensures
            final(self).enforced(),
            final(self).is_disconnected() == old(self).is_disconnected(),
            final(self).cached() == Some(bundle),
            final(self).revocation() is None,
            final(self).sync_failure() is None,
            r.policy_bundle_id == bundle.policy_bundle_id,
            r.version@ == bundle.version@,
    {
        let trace = PolicyBundleTraceContext::from_bundle(&bundle);
        self.enforcement_required = true;
        self.bundle = Some(bundle);
        self.revoked_reason = None;
        self.last_sync_failure = None;
        trace
    }

    /// Sets whether the runtime is cut off from policy distribution.
    pub fn set_disconnected(&mut self, disconnected: bool)
        ensures
            final(self).is_disconnected() == disconnected,
            final(self).enforced() == old(self).enforced(),
            final(self).cached() == old(self).cached(),
            final(self).revocation() == old(self).revocation(),
            final(self).sync_failure() == old(self).sync_failure(),
    {
        self.disconnected = disconnected;
    }

    /// Records a sync failure (with a sanitized reason) without touching the
    /// cached authority.
    pub fn record_sync_failure(&mut self, reason: String, observed_at: Timestamp) -> (r: PolicySyncFailure)
        ensures
            r.reason@ == sanitized(reason@),
            r.observed_at == observed_at,
            final(self).sync_failure() == Some(r),
            final(self).enforced() == old(self).enforced(),
            final(self).is_disconnected() == old(self).is_disconnected(),
            final(self).cached() == old(self).cached(),
            final(self).revocation() == old(self).revocation(),
    {
        let failure = PolicySyncFailure { reason: sanitize_policy_reason(reason), observed_at };
        self.last_sync_failure = Some(PolicySyncFailure { reason: failure.reason.clone(), observed_at });
        failure
    }

    /// Revokes the current bundle with a sanitized reason until a new bundle
    /// is installed; returns the revoked bundle's identity, if any.
    pub fn revoke_current(&mut self, reason: String) -> (r: Option<PolicyBundleTraceContext>)
        ensures
            final(self).revocation() == Some(sanitized(reason@)),
            final(self).enforced() == old(self).enforced(),
            final(self).is_disconnected() == old(self).is_disconnected(),
            final(self).cached() == old(self).cached(),
            final(self).sync_failure() == old(self).sync_failure(),
            r is Some == old(self).cached() is Some,
            r matches Some(c) ==> c.policy_bundle_id == old(self).cached().unwrap().policy_bundle_id,
    {
        self.revoked_reason = Some(sanitize_policy_reason(reason));
        match &self.bundle {
            Some(b) => Some(PolicyBundleTraceContext::from_bundle(b)),
            None => None,
        }
    }

    /// The cache's status.
    pub fn snapshot(&self) -> (r: PolicyCacheSnapshot)
        ensures
            r.enforcement_required == self.enforced(),
            r.disconnected == self.is_disconnected(),
            r.bundle is Some == self.cached() is Some,
            r.revoked_reason is Some == self.revocation() is Some,
            r.revoked_reason matches Some(t) ==> Some(t@) == self.revocation(),
    {
        PolicyCacheSnapshot {
            enforcement_required: self.enforcement_required,
            disconnected: self.disconnected,
            bundle: match &self.bundle {
                Some(b) => Some(PolicyBundleTraceContext::from_bundle(b)),
                None => None,
            },
            revoked_reason: match &self.revoked_reason {
                Some(t) => Some(t.clone()),
                None => None,
            },
            last_sync_failure: self.last_sync_failure.clone(),
        }
    }
}

/// Decides, before a policy callback runs, whether it may run; the policy
/// cache is one such authority.
pub trait PolicyRuntimeAuthority {
    /// `d` is this authority's decision on invoking `policy_name` at `now`.
    spec fn invocation_decided(&self, policy_name: Seq<char>, now: Timestamp, d: PolicyRuntimeDecision) -> bool;

    /// Whether policy `policy_name` may be invoked at `now`.
    fn verify_policy_invocation(&self, policy_name: &str, now: Timestamp) -> (r: PolicyRuntimeDecision)
        ensures
            self.invocation_decided(policy_name@, now, r);
}

/// Decides, per action, whether a request may continue to the wrapped
/// gateway; the policy cache is one such status.
pub trait PolicyDistributionStatus {
    /// Whether `request` may continue at `now`.
    spec fn action_allowed(&self, request: ActionRequest, now: Timestamp) -> bool;

    /// `r` is this status's verification of `request` at `now`.
    spec fn action_decided(&self, request: ActionRequest, now: Timestamp, r: VerificationResult) -> bool;

    /// Whether `request` may continue to the gateway at `now`.
    fn verify_policy_action(&self, request: &ActionRequest, now: Timestamp) -> (r: VerificationResult)
        ensures
            r.allowed == self.action_allowed(*request, now),
            self.action_decided(*request, now, r);
}

impl PolicyRuntimeAuthority for PolicyCache {
    /// The verdict's result; a revocation or an expiry comes with the trace
    /// event that records it.
    open spec fn invocation_decided(&self, policy_name: Seq<char>, now: Timestamp, r: PolicyRuntimeDecision) -> bool {
        &&& result_for(r.verification, self.invocation_verdict(now))
        &&& self.invocation_verdict(now) is Revoked ==> (r.trace_event matches Some(TraceEventKind::PolicyRevoked { policy_bundle_id, reason, .. })
            && policy_bundle_id == self.cached().unwrap().policy_bundle_id
            && reason@ == sanitized(self.revocation().unwrap()))
        &&& self.invocation_verdict(now) is Expired ==> (r.trace_event matches Some(TraceEventKind::PolicyExpired { policy_bundle_id, action, .. })
            && policy_bundle_id == self.cached().unwrap().policy_bundle_id && action is None)
        &&& (self.invocation_verdict(now) is Allow || self.invocation_verdict(now) is Unavailable) ==> r.trace_event is None
    }

    fn verify_policy_invocation(&self, policy_name: &str, now: Timestamp) -> (r: PolicyRuntimeDecision)
    {
        if !self.enforcement_required && self.bundle.is_none() {
            return PolicyRuntimeDecision { verification: VerificationResult::allow(), trace_event: None };
        }
        let bundle = match &self.bundle {
            None => return PolicyRuntimeDecision { verification: unavailable_result(policy_name), trace_event: None },
            Some(b) => b,
        };
        if let Some(reason) = &self.revoked_reason {
            let event = TraceEventKind::PolicyRevoked {
                policy_bundle_id: bundle.policy_bundle_id,
                version: bundle.version.clone(),
                reason: sanitize_policy_reason(reason.clone()),
            };
            return PolicyRuntimeDecision { verification: revoked_result(bundle, reason), trace_event: Some(event) };
        }
        if bundle.expires_at.unix_nanos <= now.unix_nanos && !(self.disconnected && bundle.degraded_mode.allow_low_risk_cached) {
            let event = TraceEventKind::PolicyExpired { policy_bundle_id: bundle.policy_bundle_id, version: bundle.version.clone(), action: None };
            return PolicyRuntimeDecision { verification: expired_result(bundle, None, self.disconnected), trace_event: Some(event) };
        }
        PolicyRuntimeDecision { verification: VerificationResult::allow(), trace_event: None }
    }
}

impl PolicyDistributionStatus for PolicyCache {
    open spec fn action_allowed(&self, request: ActionRequest, now: Timestamp) -> bool {
        self.action_verdict(request.action.side_effect_class, now) is Allow
    }

    open spec fn action_decided(&self, request: ActionRequest, now: Timestamp, r: VerificationResult) -> bool {
        result_for(r, self.action_verdict(request.action.side_effect_class, now))
    }

    fn verify_policy_action(&self, request: &ActionRequest, now: Timestamp) -> (r: VerificationResult)
    {
        if !self.enforcement_required && self.bundle.is_none() {
            return VerificationResult::allow();
        }
        let bundle = match &self.bundle {
            None => return unavailable_result(request.action.name.as_str()),
            Some(b) => b,
        };
        if let Some(reason) = &self.revoked_reason {
            return revoked_result(bundle, reason);
        }
        if bundle.expires_at.unix_nanos <= now.unix_nanos {
            let low_risk_cached = request.action.side_effect_class == SideEffectClass::ReadOnly
                && self.disconnected && bundle.degraded_mode.allow_low_risk_cached;
            if !low_risk_cached {
                return expired_result(bundle, Some(&request.action.name), self.disconnected);
            }
        }
        VerificationResult::allow()
    }
}

/// The error text of a policy denial: the reasons joined by ", ", or
/// `policy_distribution_denied` when there are none.
pub open spec fn policy_denial_text(reasons: Seq<Seq<char>>) -> Seq<char> {
    if reasons.len() == 0 { "policy_distribution_denied"@ } else { joined(reasons, ", "@) }
}

/// A gateway that consults a policy distribution status (such as the policy
/// cache) before the wrapped gateway.
pub struct PolicyDistributionGateway<G: ActionGateway, P: PolicyDistributionStatus> {
    pub inner: G,
    pub status: P,
}

impl<G: ActionGateway, P: PolicyDistributionStatus> PolicyDistributionGateway<G, P> {
    pub fn new(inner: G, status: P) -> (r: Self)
        ensures
            r.inner == inner,
            r.status == status,
    {
        PolicyDistributionGateway { inner, status }
    }

    /// A submission of `request` at `now`: the status never changes, and an
    /// action the status does not allow is denied with the status's
    /// verification and never reaches the wrapped gateway.
    pub open spec fn submitted_at(self, after: Self, request: ActionRequest, now: Timestamp, r: Result<ActionOutcome, GatewayError>) -> bool {
        &&& after.status == self.status
        &&& !self.status.action_allowed(request, now) ==> {
            &&& after.inner == self.inner
            &&& r matches Ok(o)
            &&& o.action_id == request.action_id
            &&& o.status == ActionStatus::Denied
            &&& !o.verification.allowed
            &&& self.status.action_decided(request, now, o.verification)
            &&& o.error matches Some(e) && e@ == policy_denial_text(strs(o.verification.reasons@))
        }
    }

    /// Submits at `now`: an action the status does not allow is denied with
    /// the status's verification and never reaches the wrapped gateway.
    pub fn submit_at(&mut self, request: ActionRequest, now: Timestamp) -> (r: Result<ActionOutcome, GatewayError>)
        ensures
            old(self).submitted_at(*final(self), request, now, r),
    {
        let verification = self.status.verify_policy_action(&request, now);
        if !verification.allowed {
            let error = if verification.reasons.len() == 0 {
                String::from_str("policy_distribution_denied")
            } else {
                join_strings(&verification.reasons, ", ")
            };
            return Ok(ActionOutcome {
                action_id: request.action_id,
                status: ActionStatus::Denied,
                verification,
                post_verification: None,
                output: None,
                error: Some(error),
                completed_at: now_utc(),
            });
        }
        self.inner.submit(request)
    }
}

impl<G: ActionGateway, P: PolicyDistributionStatus> ActionGateway for PolicyDistributionGateway<G, P> {
    /// Submits at the current time, which the clock supplies.
    fn submit(&mut self, request: ActionRequest) -> (r: Result<ActionOutcome, GatewayError>)
        ensures
            exists|now: Timestamp| #[trigger] old(self).submitted_at(*final(self), request, now, r),
    {
        self.submit_at(request, now_utc())
    }
}

/// Sync failures are only bookkeeping: two caches that agree on everything
/// but their last sync failure give equal answers to every policy invocation
/// and every action.
pub proof fn lemma_sync_failure_keeps_authority(before: PolicyCache, after: PolicyCache, class: SideEffectClass, now: Timestamp)
    requires
        after.enforced() == before.enforced(),
        after.is_disconnected() == before.is_disconnected(),
        after.cached() == before.cached(),
        after.revocation() == before.revocation(),
    ensures
        after.action_verdict(class, now) == before.action_verdict(class, now),
        after.invocation_verdict(now) == before.invocation_verdict(now),
{
}

/// Revocation fails closed: a revoked bundle allows neither policy
/// invocation nor any action, connected or not.
pub proof fn lemma_revocation_fails_closed(c: PolicyCache, class: SideEffectClass, now: Timestamp)
    requires
        c.cached() is Some,
        c.revocation() is Some,
    ensures
        c.action_verdict(class, now) == PolicyVerdict::Revoked,
        c.invocation_verdict(now) == PolicyVerdict::Revoked,
{
}

/// Expiry fails closed for side effects: an expired, unrevoked bundle never
/// lets an action with external effects through, even while disconnected.
pub proof fn lemma_expired_denies_external(c: PolicyCache, now: Timestamp)
    requires
        c.cached() is Some,
        c.revocation() is None,
        c.cached().unwrap().expires_at.unix_nanos <= now.unix_nanos,
    ensures
        c.action_verdict(SideEffectClass::External, now) == PolicyVerdict::Expired,
{
}

/// Enforcement without a bundle fails closed.
pub proof fn lemma_missing_bundle_denies(c: PolicyCache, class: SideEffectClass, now: Timestamp)
    requires
        c.enforced(),
        c.cached() is None,
    ensures
        c.action_verdict(class, now) == PolicyVerdict::Unavailable,
        c.invocation_verdict(now) == PolicyVerdict::Unavailable,
{
}

} // verus!
