//! Decisions of the local run-control daemon: which callers and requests are
//! admitted, how a run's status moves through its lifecycle, which actions a
//! run registers, what each endpoint records, replay summaries and the
//! structured errors callers receive. Transport, locking and the schedulers
//! that run ticks belong to the host process.

use vstd::prelude::*;
use crate::action::Action;
use crate::clock::{Timestamp, now_utc};
use crate::gateway::{ActionOutcome, ActionRequest, ActionStatus};
use crate::ids::{ActionId, AgentId, RunId, StateNodeId, TenantId, TraceEventId};
use crate::json::Json;
use crate::loop_engine::{ActionCandidate, LoopError, Percept, PerceptProvenance, outcome_json};
use crate::quota::QuotaUsage;
use crate::scheduler::{Scheduler, SchedulerError, scheduler_error_text};
use crate::json::{json_get, json_str};
use crate::state::{EndpointScope, RevocationStatus, WorkOrderAuthorization, blank, is_blank, has_scope};
use crate::textual::{uuid_text, uuid_string};
use crate::trace::{TraceEvent, TraceEventKind, TraceStoreError, trace_store_message};
use crate::verification::{strs, copy_strings};

verus! {

pub const STATUS_BAD_REQUEST: u16 = 400;
pub const STATUS_UNAUTHORIZED: u16 = 401;
pub const STATUS_FORBIDDEN: u16 = 403;
pub const STATUS_NOT_FOUND: u16 = 404;
pub const STATUS_CONFLICT: u16 = 409;
pub const STATUS_INTERNAL_ERROR: u16 = 500;
pub const STATUS_UNAVAILABLE: u16 = 503;

/// Where a run stands in its lifecycle.
#[derive(Clone, Copy, Debug, PartialEq, Eq, Structural)]
pub enum RunStatus {
    Created,
    Running,
    Paused,
    Stopped,
    Failed,
}

pub open spec fn run_status_name(s: RunStatus) -> Seq<char> {
    match s {
        RunStatus::Created => "created"@,
        RunStatus::Running => "running"@,
        RunStatus::Paused => "paused"@,
        RunStatus::Stopped => "stopped"@,
        RunStatus::Failed => "failed"@,
    }
}

impl RunStatus {
    /// The status's wire name.
    pub fn as_str(&self) -> (r: &'static str)
        ensures
            r@ == run_status_name(*self),
    {
        match self {
            RunStatus::Created => "created",
            RunStatus::Running => "running",
            RunStatus::Paused => "paused",
            RunStatus::Stopped => "stopped",
            RunStatus::Failed => "failed",
        }
    }
}

/// A structured error answer: an HTTP status, a stable code, a message and
/// details.
#[derive(Debug)]
pub struct ApiError {
    pub status: u16,
    pub code: String,
    pub message: String,
    pub details: Json,
}

/// `e` carries exactly this status, code and message.
pub open spec fn api_error_is(e: ApiError, status: u16, code: Seq<char>, message: Seq<char>) -> bool {
    &&& e.status == status
    &&& e.code@ == code
    &&& e.message@ == message
}

impl ApiError {
    pub fn new(status: u16, code: &str, message: &str) -> (r: ApiError)
        ensures
            r.status == status,
            r.code@ == code@,
            r.message@ == message@,
            r.details is Null,
    {
        ApiError { status, code: String::from_str(code), message: String::from_str(message), details: Json::Null }
    }

    /// The same error with `details` attached.
    pub fn details(self, details: Json) -> (r: ApiError)
        ensures
            r.status == self.status,
            r.code == self.code,
            r.message == self.message,
            r.details == details,
    {
        ApiError { details, ..self }
    }
}

/// The body of a structured error answer: code, message and details.
#[derive(Debug)]
pub struct ApiErrorBody {
    pub code: String,
    pub message: String,
    pub details: Json,
}

impl ApiError {
    /// The body sent with this error's status.
    pub fn into_body(self) -> (r: ApiErrorBody)
        ensures
            r.code == self.code,
            r.message == self.message,
            r.details == self.details,
    {
        ApiErrorBody { code: self.code, message: self.message, details: self.details }
    }
}

/// Why a caller was refused by the daemon's security rules.
#[derive(Clone, Debug)]
pub enum DaemonSecurityError {
    AnonymousNonDevCall,
    MissingScope { scope: EndpointScope },
    WrongCredentialBinding,
    WrongAudience,
    CredentialExpired,
    CredentialRevoked { reason: String },
    MissingWorkOrder,
    UnsignedWorkOrder,
    ExpiredWorkOrder,
    RevokedWorkOrder { reason: String },
    IncompatibleWorkOrder,
    MissingAuditAttribution,
    AttributionMismatch,
    InvalidDevModeBinding,
    DisallowedPercept,
    MissingTraceRedactionPolicy,
    ActionMissingTraceLink,
    ActionGatewayBypassed,
    ClientInsecureFallback,
}

/// The stable code of a security refusal.
pub open spec fn security_code(e: DaemonSecurityError) -> Seq<char> {
    match e {
        DaemonSecurityError::AnonymousNonDevCall => "anonymous_non_dev_call"@,
        DaemonSecurityError::MissingScope { .. } => "missing_scope"@,
        DaemonSecurityError::WrongCredentialBinding => "wrong_credential_binding"@,
        DaemonSecurityError::WrongAudience => "wrong_audience"@,
        DaemonSecurityError::CredentialExpired => "credential_expired"@,
        DaemonSecurityError::CredentialRevoked { .. } => "credential_revoked"@,
        DaemonSecurityError::MissingWorkOrder => "missing_work_order"@,
        DaemonSecurityError::UnsignedWorkOrder => "unsigned_work_order"@,
        DaemonSecurityError::ExpiredWorkOrder => "expired_work_order"@,
        DaemonSecurityError::RevokedWorkOrder { .. } => "revoked_work_order"@,
        DaemonSecurityError::IncompatibleWorkOrder => "incompatible_work_order"@,
        DaemonSecurityError::MissingAuditAttribution => "missing_audit_attribution"@,
        DaemonSecurityError::AttributionMismatch => "attribution_mismatch"@,
        DaemonSecurityError::InvalidDevModeBinding => "invalid_dev_mode_binding"@,
        DaemonSecurityError::DisallowedPercept => "disallowed_percept"@,
        DaemonSecurityError::MissingTraceRedactionPolicy => "missing_trace_redaction_policy"@,
        DaemonSecurityError::ActionMissingTraceLink => "action_missing_trace_link"@,
        DaemonSecurityError::ActionGatewayBypassed => "action_gateway_bypassed"@,
        DaemonSecurityError::ClientInsecureFallback => "client_insecure_fallback"@,
    }
}

/// Maps a security refusal to its stable code.
pub fn daemon_security_code(error: &DaemonSecurityError) -> (r: &'static str)
    ensures
        r@ == security_code(*error),
{
    match error {
        DaemonSecurityError::AnonymousNonDevCall => "anonymous_non_dev_call",
        DaemonSecurityError::MissingScope { .. } => "missing_scope",
        DaemonSecurityError::WrongCredentialBinding => "wrong_credential_binding",
        DaemonSecurityError::WrongAudience => "wrong_audience",
        DaemonSecurityError::CredentialExpired => "credential_expired",
        DaemonSecurityError::CredentialRevoked { .. } => "credential_revoked",
        DaemonSecurityError::MissingWorkOrder => "missing_work_order",
        DaemonSecurityError::UnsignedWorkOrder => "unsigned_work_order",
        DaemonSecurityError::ExpiredWorkOrder => "expired_work_order",
        DaemonSecurityError::RevokedWorkOrder { .. } => "revoked_work_order",
        DaemonSecurityError::IncompatibleWorkOrder => "incompatible_work_order",
        DaemonSecurityError::MissingAuditAttribution => "missing_audit_attribution",
        DaemonSecurityError::AttributionMismatch => "attribution_mismatch",
        DaemonSecurityError::InvalidDevModeBinding => "invalid_dev_mode_binding",
        DaemonSecurityError::DisallowedPercept => "disallowed_percept",
        DaemonSecurityError::MissingTraceRedactionPolicy => "missing_trace_redaction_policy",
        DaemonSecurityError::ActionMissingTraceLink => "action_missing_trace_link",
        DaemonSecurityError::ActionGatewayBypassed => "action_gateway_bypassed",
        DaemonSecurityError::ClientInsecureFallback => "client_insecure_fallback",
    }
}

/// Anonymous callers are unauthenticated; every other refusal is forbidden.
pub open spec fn security_status(e: DaemonSecurityError) -> u16 {
    if e is AnonymousNonDevCall {
        STATUS_UNAUTHORIZED
    } else {
        STATUS_FORBIDDEN
    }
}

pub open spec fn security_message(e: DaemonSecurityError) -> Seq<char> {
    match e {
        DaemonSecurityError::MissingScope { scope } => "caller is missing scope "@ + scope_name(scope),
        DaemonSecurityError::CredentialRevoked { reason } => "credential revoked: "@ + reason@,
        DaemonSecurityError::RevokedWorkOrder { reason } => "work order revoked: "@ + reason@,
        _ => "daemon security check failed: "@ + security_code(e),
    }
}

impl DaemonSecurityError {
    /// Human-readable description.
    pub fn message(&self) -> (r: String)
        ensures
            r@ == security_message(*self),
    {
        match self {
            DaemonSecurityError::MissingScope { scope } => {
                let name = scope_text(*scope);
                String::from_str("caller is missing scope ").concat(name.as_str())
            },
            DaemonSecurityError::CredentialRevoked { reason } =>
                String::from_str("credential revoked: ").concat(reason.as_str()),
            DaemonSecurityError::RevokedWorkOrder { reason } =>
                String::from_str("work order revoked: ").concat(reason.as_str()),
            _ => String::from_str("daemon security check failed: ").concat(daemon_security_code(self)),
        }
    }
}

impl ApiError {
    /// The answer to a security refusal.
    pub fn from_security(error: &DaemonSecurityError) -> (r: ApiError)
        ensures
            api_error_is(r, security_status(*error), security_code(*error), security_message(*error)),
            r.details is Null,
    {
        let status = match error {
            DaemonSecurityError::AnonymousNonDevCall => STATUS_UNAUTHORIZED,
            _ => STATUS_FORBIDDEN,
        };
        ApiError { status, code: String::from_str(daemon_security_code(error)), message: error.message(), details: Json::Null }
    }
}

/// Who a credential is bound to.
#[derive(Clone, Debug)]
pub enum CredentialAudience {
    Daemon { daemon_id: String },
}

/// A caller's credential.
#[derive(Clone, Debug)]
pub struct CallerCredential {
    pub credential_id: String,
    pub audience: CredentialAudience,
    pub expires_at: Timestamp,
    pub revocation: RevocationStatus,
}

/// The application and client a request is attributed to.
#[derive(Clone, Debug)]
pub struct ClientPrincipal {
    pub app_id: String,
    pub client_id: String,
}

/// Audit attribution carried by a request.
#[derive(Clone, Debug)]
pub struct AuditAttribution {
    pub principal: ClientPrincipal,
    pub credential_id: Option<String>,
    pub requested_at: Timestamp,
}

/// Where a development daemon listens.
#[derive(Clone, Debug)]
pub enum LocalTransportBinding {
    Tcp { host: String, port: u16 },
}

/// Explicit insecure local development mode.
#[derive(Clone, Debug)]
pub struct InsecureDevMode {
    pub enabled: bool,
    pub transport: LocalTransportBinding,
    pub warning_issued: bool,
}

/// Whether an action submission is routed through gateway verification.
#[derive(Clone, Copy, Debug, PartialEq, Eq, Structural)]
pub enum GatewayVerificationState {
    Required,
    Bypassed,
}

/// The endpoint a request addresses, with what its rules look at.
#[derive(Debug)]
pub enum DaemonEndpoint {
    RunCreate { tenant_id: TenantId },
    RunInspect { tenant_id: TenantId, run_id: RunId },
    RunStart { tenant_id: TenantId, run_id: RunId },
    RunPause { tenant_id: TenantId, run_id: RunId },
    RunResume { tenant_id: TenantId, run_id: RunId },
    RunStop { tenant_id: TenantId, run_id: RunId },
    PerceptAppend {
        tenant_id: TenantId,
        run_id: RunId,
        schema: String,
        provenance_source: String,
        allowed_schemas: Vec<String>,
        allowed_provenance_sources: Vec<String>,
    },
    StateHeadRead { tenant_id: TenantId, run_id: RunId },
    TraceRead { tenant_id: TenantId, run_id: RunId, redaction_policy: Option<String> },
    ReplayCreate { tenant_id: TenantId, run_id: RunId },
    ActionSubmit { tenant_id: TenantId, run_id: RunId, trace_linked: bool, gateway_verification: GatewayVerificationState },
    Health,
    Capabilities,
}

/// The tenant an endpoint is scoped to.
pub open spec fn endpoint_tenant(e: DaemonEndpoint) -> Option<TenantId> {
    match e {
        DaemonEndpoint::RunCreate { tenant_id } => Some(tenant_id),
        DaemonEndpoint::RunInspect { tenant_id, .. } => Some(tenant_id),
        DaemonEndpoint::RunStart { tenant_id, .. } => Some(tenant_id),
        DaemonEndpoint::RunPause { tenant_id, .. } => Some(tenant_id),
        DaemonEndpoint::RunResume { tenant_id, .. } => Some(tenant_id),
        DaemonEndpoint::RunStop { tenant_id, .. } => Some(tenant_id),
        DaemonEndpoint::PerceptAppend { tenant_id, .. } => Some(tenant_id),
        DaemonEndpoint::StateHeadRead { tenant_id, .. } => Some(tenant_id),
        DaemonEndpoint::TraceRead { tenant_id, .. } => Some(tenant_id),
        DaemonEndpoint::ReplayCreate { tenant_id, .. } => Some(tenant_id),
        DaemonEndpoint::ActionSubmit { tenant_id, .. } => Some(tenant_id),
        DaemonEndpoint::Health => None,
        DaemonEndpoint::Capabilities => None,
    }
}

/// The run an endpoint addresses.
pub open spec fn endpoint_run(e: DaemonEndpoint) -> Option<RunId> {
    match e {
        DaemonEndpoint::RunInspect { run_id, .. } => Some(run_id),
        DaemonEndpoint::RunStart { run_id, .. } => Some(run_id),
        DaemonEndpoint::RunPause { run_id, .. } => Some(run_id),
        DaemonEndpoint::RunResume { run_id, .. } => Some(run_id),
        DaemonEndpoint::RunStop { run_id, .. } => Some(run_id),
        DaemonEndpoint::PerceptAppend { run_id, .. } => Some(run_id),
        DaemonEndpoint::StateHeadRead { run_id, .. } => Some(run_id),
        DaemonEndpoint::TraceRead { run_id, .. } => Some(run_id),
        DaemonEndpoint::ReplayCreate { run_id, .. } => Some(run_id),
        DaemonEndpoint::ActionSubmit { run_id, .. } => Some(run_id),
        _ => None,
    }
}

/// The scope a presented work order must grant for an endpoint.
pub open spec fn endpoint_scope(e: DaemonEndpoint) -> Option<EndpointScope> {
    match e {
        DaemonEndpoint::RunCreate { .. } => Some(EndpointScope::RunsCreate),
        DaemonEndpoint::RunStart { .. } => Some(EndpointScope::RunsTick),
        DaemonEndpoint::RunResume { .. } => Some(EndpointScope::RunsResume),
        DaemonEndpoint::StateHeadRead { .. } => Some(EndpointScope::StateRead),
        DaemonEndpoint::TraceRead { .. } => Some(EndpointScope::TraceRead),
        DaemonEndpoint::ActionSubmit { .. } => Some(EndpointScope::ActionsSubmit),
        _ => None,
    }
}

pub open spec fn scope_name(s: EndpointScope) -> Seq<char> {
    match s {
        EndpointScope::RunsCreate => "runs:create"@,
        EndpointScope::RunsResume => "runs:resume"@,
        EndpointScope::RunsTick => "runs:tick"@,
        EndpointScope::StateRead => "state:read"@,
        EndpointScope::TraceRead => "traces:read"@,
        EndpointScope::ActionsSubmit => "actions:submit"@,
    }
}

fn scope_text(s: EndpointScope) -> (r: String)
    ensures
        r@ == scope_name(s),
{
    match s {
        EndpointScope::RunsCreate => String::from_str("runs:create"),
        EndpointScope::RunsResume => String::from_str("runs:resume"),
        EndpointScope::RunsTick => String::from_str("runs:tick"),
        EndpointScope::StateRead => String::from_str("state:read"),
        EndpointScope::TraceRead => String::from_str("traces:read"),
        EndpointScope::ActionsSubmit => String::from_str("actions:submit"),
    }
}

/// Endpoints that change a run and so must be attributed.
pub open spec fn endpoint_mutates(e: DaemonEndpoint) -> bool {
    ||| e is RunCreate
    ||| e is RunStart
    ||| e is RunPause
    ||| e is RunResume
    ||| e is RunStop
    ||| e is PerceptAppend
    ||| e is ActionSubmit
}

/// A development binding is accepted only on a loopback host once its
/// warning was issued.
pub open spec fn dev_binding_ok(m: InsecureDevMode) -> bool {
    match m.transport {
        LocalTransportBinding::Tcp { host, .. } =>
            m.warning_issued && (host@ == "127.0.0.1"@ || host@ == "localhost"@ || host@ == "::1"@),
    }
}

pub open spec fn audience_id(a: CredentialAudience) -> Seq<char> {
    match a {
        CredentialAudience::Daemon { daemon_id } => daemon_id@,
    }
}

/// The refusal owed to the caller's identity, if any: anonymous callers are
/// admitted only in enabled development mode on a valid binding; a
/// credential must be for this daemon, unrevoked and unexpired.
pub open spec fn caller_error(
    credential: Option<CallerCredential>,
    expected: CredentialAudience,
    dev: Option<InsecureDevMode>,
    now: Timestamp,
) -> Option<DaemonSecurityError> {
    match credential {
        None => match dev {
            Some(m) => if !m.enabled {
                Some(DaemonSecurityError::AnonymousNonDevCall)
            } else if dev_binding_ok(m) {
                None
            } else {
                Some(DaemonSecurityError::InvalidDevModeBinding)
            },
            None => Some(DaemonSecurityError::AnonymousNonDevCall),
        },
        Some(c) => if audience_id(c.audience) != audience_id(expected) {
            Some(DaemonSecurityError::WrongAudience)
        } else {
            match c.revocation {
                RevocationStatus::Revoked { reason } => Some(DaemonSecurityError::CredentialRevoked { reason }),
                RevocationStatus::Active => if c.expires_at.unix_nanos <= now.unix_nanos {
                    Some(DaemonSecurityError::CredentialExpired)
                } else {
                    None
                },
            }
        },
    }
}

/// A work order is signed when it carries a non-blank key and signature.
pub open spec fn work_order_signed(w: WorkOrderAuthorization) -> bool {
    match w.signature {
        Some(sig) => !blank(sig.key_id@) && !blank(sig.signature@),
        None => false,
    }
}

/// A work order that names a run must name the addressed one.
pub open spec fn work_order_run_conflicts(w: WorkOrderAuthorization, e: DaemonEndpoint) -> bool {
    match endpoint_run(e) {
        Some(run) => match w.run_id {
            Some(wr) => wr != run,
            None => false,
        },
        None => false,
    }
}

pub open spec fn work_order_tenant_conflicts(w: WorkOrderAuthorization, e: DaemonEndpoint) -> bool {
    match endpoint_tenant(e) {
        Some(t) => w.tenant_id != t,
        None => false,
    }
}

/// The refusal owed to the presented work order, if any. Creating a run
/// needs one; a presented one must be signed, unexpired, unrevoked, for the
/// addressed tenant and run, and grant the endpoint's scope.
pub open spec fn work_order_error(e: DaemonEndpoint, work_order: Option<WorkOrderAuthorization>, now: Timestamp) -> Option<DaemonSecurityError> {
    match work_order {
        None => if e is RunCreate {
            Some(DaemonSecurityError::MissingWorkOrder)
        } else {
            None
        },
        Some(w) => if !work_order_signed(w) {
            Some(DaemonSecurityError::UnsignedWorkOrder)
        } else if w.expires_at.unix_nanos <= now.unix_nanos {
            Some(DaemonSecurityError::ExpiredWorkOrder)
        } else if w.revocation is Revoked {
            Some(DaemonSecurityError::RevokedWorkOrder { reason: w.revocation->reason })
        } else if work_order_tenant_conflicts(w, e) || work_order_run_conflicts(w, e) {
            Some(DaemonSecurityError::IncompatibleWorkOrder)
        } else {
            match endpoint_scope(e) {
                Some(s) => if w.allowed_scopes@.contains(s) {
                    None
                } else {
                    Some(DaemonSecurityError::MissingScope { scope: s })
                },
                None => None,
            }
        },
    }
}

/// Attribution that names a credential must name the presented one.
pub open spec fn attribution_conflicts(credential: Option<CallerCredential>, attribution: Option<AuditAttribution>) -> bool {
    match credential {
        Some(c) => match attribution {
            Some(a) => match a.credential_id {
                Some(id) => id@ != c.credential_id@,
                None => false,
            },
            None => false,
        },
        None => false,
    }
}

/// The refusal owed to the attribution, if any.
pub open spec fn attribution_error(
    e: DaemonEndpoint,
    credential: Option<CallerCredential>,
    attribution: Option<AuditAttribution>,
) -> Option<DaemonSecurityError> {
    if endpoint_mutates(e) && attribution is None {
        Some(DaemonSecurityError::MissingAuditAttribution)
    } else if attribution_conflicts(credential, attribution) {
        Some(DaemonSecurityError::AttributionMismatch)
    } else {
        None
    }
}

/// The refusal owed to the endpoint's own rules, if any: percepts must come
/// with an allowed schema from an allowed source, trace reads must name a
/// redaction policy, and actions must be trace-linked and gateway-verified.
pub open spec fn endpoint_error(e: DaemonEndpoint) -> Option<DaemonSecurityError> {
    match e {
        DaemonEndpoint::PerceptAppend { schema, provenance_source, allowed_schemas, allowed_provenance_sources, .. } =>
            if strs(allowed_schemas@).contains(schema@) && strs(allowed_provenance_sources@).contains(provenance_source@) {
                None
            } else {
                Some(DaemonSecurityError::DisallowedPercept)
            },
        DaemonEndpoint::TraceRead { redaction_policy, .. } => if redaction_policy is None {
            Some(DaemonSecurityError::MissingTraceRedactionPolicy)
        } else {
            None
        },
        DaemonEndpoint::ActionSubmit { trace_linked, gateway_verification, .. } => if !trace_linked {
            Some(DaemonSecurityError::ActionMissingTraceLink)
        } else if gateway_verification is Bypassed {
            Some(DaemonSecurityError::ActionGatewayBypassed)
        } else {
            None
        },
        _ => None,
    }
}

/// The first refusal a request earns, checking the caller, then the work
/// order, then the attribution, then the endpoint's own rules.
pub open spec fn security_error(
    e: DaemonEndpoint,
    credential: Option<CallerCredential>,
    expected: CredentialAudience,
    work_order: Option<WorkOrderAuthorization>,
    attribution: Option<AuditAttribution>,
    dev: Option<InsecureDevMode>,
    now: Timestamp,
) -> Option<DaemonSecurityError> {
    if caller_error(credential, expected, dev, now) is Some {
        caller_error(credential, expected, dev, now)
    } else if work_order_error(e, work_order, now) is Some {
        work_order_error(e, work_order, now)
    } else if attribution_error(e, credential, attribution) is Some {
        attribution_error(e, credential, attribution)
    } else {
        endpoint_error(e)
    }
}

fn audience_matches(a: &CredentialAudience, b: &CredentialAudience) -> (r: bool)
    ensures
        r == (audience_id(*a) == audience_id(*b)),
{
    match (a, b) {
        (CredentialAudience::Daemon { daemon_id: x }, CredentialAudience::Daemon { daemon_id: y }) => *x == *y,
    }
}

fn is_loopback(host: &String) -> (r: bool)
    ensures
        r == (host@ == "127.0.0.1"@ || host@ == "localhost"@ || host@ == "::1"@),
{
    let a = String::from_str("127.0.0.1");
    let b = String::from_str("localhost");
    let c = String::from_str("::1");
    *host == a || *host == b || *host == c
}

fn check_caller(
    credential: Option<&CallerCredential>,
    expected: &CredentialAudience,
    dev: Option<&InsecureDevMode>,
    now: Timestamp,
) -> (r: Result<(), DaemonSecurityError>)
    ensures
        match r {
            Ok(()) => caller_error(opt_ref(credential), *expected, opt_ref(dev), now) is None,
            Err(e) => caller_error(opt_ref(credential), *expected, opt_ref(dev), now) == Some(e),
        },
{
    match credential {
        None => match dev {
            Some(m) => {
                if !m.enabled {
                    return Err(DaemonSecurityError::AnonymousNonDevCall);
                }
                let ok = match &m.transport {
                    LocalTransportBinding::Tcp { host, .. } => m.warning_issued && is_loopback(host),
                };
                if ok {
                    Ok(())
                } else {
                    Err(DaemonSecurityError::InvalidDevModeBinding)
                }
            },
            None => Err(DaemonSecurityError::AnonymousNonDevCall),
        },
        Some(c) => {
            if !audience_matches(&c.audience, expected) {
                return Err(DaemonSecurityError::WrongAudience);
            }
            match &c.revocation {
                RevocationStatus::Revoked { reason } => Err(DaemonSecurityError::CredentialRevoked { reason: reason.clone() }),
                RevocationStatus::Active => if c.expires_at.unix_nanos <= now.unix_nanos {
                    Err(DaemonSecurityError::CredentialExpired)
                } else {
                    Ok(())
                },
            }
        },
    }
}

/// The value behind an optional reference.
pub open spec fn opt_ref<T>(o: Option<&T>) -> Option<T> {
    match o {
        Some(x) => Some(*x),
        None => None,
    }
}

fn endpoint_tenant_of(e: &DaemonEndpoint) -> (r: Option<TenantId>)
    ensures
        r == endpoint_tenant(*e),
{
    match e {
        DaemonEndpoint::RunCreate { tenant_id } => Some(*tenant_id),
        DaemonEndpoint::RunInspect { tenant_id, .. } => Some(*tenant_id),
        DaemonEndpoint::RunStart { tenant_id, .. } => Some(*tenant_id),
        DaemonEndpoint::RunPause { tenant_id, .. } => Some(*tenant_id),
        DaemonEndpoint::RunResume { tenant_id, .. } => Some(*tenant_id),
        DaemonEndpoint::RunStop { tenant_id, .. } => Some(*tenant_id),
        DaemonEndpoint::PerceptAppend { tenant_id, .. } => Some(*tenant_id),
        DaemonEndpoint::StateHeadRead { tenant_id, .. } => Some(*tenant_id),
        DaemonEndpoint::TraceRead { tenant_id, .. } => Some(*tenant_id),
        DaemonEndpoint::ReplayCreate { tenant_id, .. } => Some(*tenant_id),
        DaemonEndpoint::ActionSubmit { tenant_id, .. } => Some(*tenant_id),
        DaemonEndpoint::Health => None,
        DaemonEndpoint::Capabilities => None,
    }
}

fn endpoint_run_of(e: &DaemonEndpoint) -> (r: Option<RunId>)
    ensures
        r == endpoint_run(*e),
{
    match e {
        DaemonEndpoint::RunInspect { run_id, .. } => Some(*run_id),
        DaemonEndpoint::RunStart { run_id, .. } => Some(*run_id),
        DaemonEndpoint::RunPause { run_id, .. } => Some(*run_id),
        DaemonEndpoint::RunResume { run_id, .. } => Some(*run_id),
        DaemonEndpoint::RunStop { run_id, .. } => Some(*run_id),
        DaemonEndpoint::PerceptAppend { run_id, .. } => Some(*run_id),
        DaemonEndpoint::StateHeadRead { run_id, .. } => Some(*run_id),
        DaemonEndpoint::TraceRead { run_id, .. } => Some(*run_id),
        DaemonEndpoint::ReplayCreate { run_id, .. } => Some(*run_id),
        DaemonEndpoint::ActionSubmit { run_id, .. } => Some(*run_id),
        _ => None,
    }
}

fn endpoint_scope_of(e: &DaemonEndpoint) -> (r: Option<EndpointScope>)
    ensures
        r == endpoint_scope(*e),
{
    match e {
        DaemonEndpoint::RunCreate { .. } => Some(EndpointScope::RunsCreate),
        DaemonEndpoint::RunStart { .. } => Some(EndpointScope::RunsTick),
        DaemonEndpoint::RunResume { .. } => Some(EndpointScope::RunsResume),
        DaemonEndpoint::StateHeadRead { .. } => Some(EndpointScope::StateRead),
        DaemonEndpoint::TraceRead { .. } => Some(EndpointScope::TraceRead),
        DaemonEndpoint::ActionSubmit { .. } => Some(EndpointScope::ActionsSubmit),
        _ => None,
    }
}

fn check_work_order(e: &DaemonEndpoint, work_order: Option<&WorkOrderAuthorization>, now: Timestamp) -> (r: Result<(), DaemonSecurityError>)
    ensures
        match r {
            Ok(()) => work_order_error(*e, opt_ref(work_order), now) is None,
            Err(err) => work_order_error(*e, opt_ref(work_order), now) == Some(err),
        },
{
    let w = match work_order {
        None => {
            return match e {
                DaemonEndpoint::RunCreate { .. } => Err(DaemonSecurityError::MissingWorkOrder),
                _ => Ok(()),
            };
        },
        Some(w) => w,
    };
    let signed = match &w.signature {
        Some(sig) => !is_blank(&sig.key_id) && !is_blank(&sig.signature),
        None => false,
    };
    if !signed {
        return Err(DaemonSecurityError::UnsignedWorkOrder);
    }
    if w.expires_at.unix_nanos <= now.unix_nanos {
        return Err(DaemonSecurityError::ExpiredWorkOrder);
    }
    if let RevocationStatus::Revoked { reason } = &w.revocation {
        return Err(DaemonSecurityError::RevokedWorkOrder { reason: reason.clone() });
    }
    let tenant_conflict = match endpoint_tenant_of(e) {
        Some(t) => w.tenant_id != t,
        None => false,
    };
    let run_conflict = match endpoint_run_of(e) {
        Some(run) => match w.run_id {
            Some(wr) => wr != run,
            None => false,
        },
        None => false,
    };
    if tenant_conflict || run_conflict {
        return Err(DaemonSecurityError::IncompatibleWorkOrder);
    }
    match endpoint_scope_of(e) {
        Some(s) => if has_scope(&w.allowed_scopes, s) {
            Ok(())
        } else {
            Err(DaemonSecurityError::MissingScope { scope: s })
        },
        None => Ok(()),
    }
}

fn check_attribution(
    e: &DaemonEndpoint,
    credential: Option<&CallerCredential>,
    attribution: Option<&AuditAttribution>,
) -> (r: Result<(), DaemonSecurityError>)
    ensures
        match r {
            Ok(()) => attribution_error(*e, opt_ref(credential), opt_ref(attribution)) is None,
            Err(err) => attribution_error(*e, opt_ref(credential), opt_ref(attribution)) == Some(err),
        },
{
    let mutates = match e {
        DaemonEndpoint::RunCreate { .. } | DaemonEndpoint::RunStart { .. } | DaemonEndpoint::RunPause { .. }
        | DaemonEndpoint::RunResume { .. } | DaemonEndpoint::RunStop { .. } | DaemonEndpoint::PerceptAppend { .. }
        | DaemonEndpoint::ActionSubmit { .. } => true,
        _ => false,
    };
    if mutates && attribution.is_none() {
        return Err(DaemonSecurityError::MissingAuditAttribution);
    }
    let conflict = match credential {
        Some(c) => match attribution {
            Some(a) => match &a.credential_id {
                Some(id) => *id != c.credential_id,
                None => false,
            },
            None => false,
        },
        None => false,
    };
    if conflict {
        Err(DaemonSecurityError::AttributionMismatch)
    } else {
        Ok(())
    }
}

fn check_endpoint(e: &DaemonEndpoint) -> (r: Result<(), DaemonSecurityError>)
    ensures
        match r {
            Ok(()) => endpoint_error(*e) is None,
            Err(err) => endpoint_error(*e) == Some(err),
        },
{
    match e {
        DaemonEndpoint::PerceptAppend { schema, provenance_source, allowed_schemas, allowed_provenance_sources, .. } => {
            if crate::delegation::contains_str(allowed_schemas, schema)
                && crate::delegation::contains_str(allowed_provenance_sources, provenance_source) {
                Ok(())
            } else {
                Err(DaemonSecurityError::DisallowedPercept)
            }
        },
        DaemonEndpoint::TraceRead { redaction_policy, .. } => if redaction_policy.is_none() {
            Err(DaemonSecurityError::MissingTraceRedactionPolicy)
        } else {
            Ok(())
        },
        DaemonEndpoint::ActionSubmit { trace_linked, gateway_verification, .. } => if !*trace_linked {
            Err(DaemonSecurityError::ActionMissingTraceLink)
        } else if *gateway_verification == GatewayVerificationState::Bypassed {
            Err(DaemonSecurityError::ActionGatewayBypassed)
        } else {
            Ok(())
        },
        _ => Ok(()),
    }
}

/// Applies the daemon's security rules to a request: the caller's identity,
/// then the work order, then the attribution, then the endpoint's own rules;
/// the first refusal is returned.
pub fn validate_daemon_request(
    endpoint: &DaemonEndpoint,
    credential: Option<&CallerCredential>,
    expected_audience: &CredentialAudience,
    work_order: Option<&WorkOrderAuthorization>,
    audit_attribution: Option<&AuditAttribution>,
    insecure_dev_mode: Option<&InsecureDevMode>,
    now: Timestamp,
) -> (r: Result<(), DaemonSecurityError>)
    ensures
        match r {
            Ok(()) => security_error(*endpoint, opt_ref(credential), *expected_audience, opt_ref(work_order),
                opt_ref(audit_attribution), opt_ref(insecure_dev_mode), now) is None,
            Err(e) => security_error(*endpoint, opt_ref(credential), *expected_audience, opt_ref(work_order),
                opt_ref(audit_attribution), opt_ref(insecure_dev_mode), now) == Some(e),
        },
{
    check_caller(credential, expected_audience, insecure_dev_mode, now)?;
    check_work_order(endpoint, work_order, now)?;
    check_attribution(endpoint, credential, audit_attribution)?;
    check_endpoint(endpoint)
}

/// A refusal as its status, code and message.
pub open spec fn refusal_of(e: ApiError) -> (u16, Seq<char>, Seq<char>) {
    (e.status, e.code@, e.message@)
}

/// The refusal a security error is answered with.
pub open spec fn security_refusal(e: DaemonSecurityError) -> (u16, Seq<char>, Seq<char>) {
    (security_status(e), security_code(e), security_message(e))
}

impl ApiError {
    /// The answer to a failed scheduler step.
    pub fn from_scheduler(error: &SchedulerError) -> (r: ApiError)
        ensures
            r.status == STATUS_INTERNAL_ERROR,
            r.code@ == "scheduler_error"@,
            r.message@ == crate::scheduler::scheduler_error_text(*error),
            r.details is Null,
    {
        let message = error.message();
        ApiError { status: STATUS_INTERNAL_ERROR, code: String::from_str("scheduler_error"), message, details: Json::Null }
    }
}

/// Records an event in the run of `agent_id`'s engine; any failure is
/// answered as a trace error carrying the scheduler's description.
pub fn record_run_event<S: crate::trace::TraceSink, G: crate::gateway::ActionGateway, St: crate::state::StateStore>(
    scheduler: &mut Scheduler<S, G, St>,
    agent_id: &AgentId,
    kind: TraceEventKind,
) -> (r: Result<(), ApiError>)
    ensures
        !old(scheduler).queue_agents().contains(*agent_id) ==> (r matches Err(e)
            && refusal_of(e) == (STATUS_INTERNAL_ERROR, "trace_error"@, "no agents registered"@)),
        r matches Err(e) ==> e.status == STATUS_INTERNAL_ERROR && e.code@ == "trace_error"@ && e.details is Null,
        r is Ok ==> exists|i: int| 0 <= i < old(scheduler).engines().len()
            && old(scheduler).engines()[i].agent_spec().agent_id == *agent_id
            && #[trigger] final(scheduler).engines()[i].trace() == old(scheduler).engines()[i].trace().push(kind),
        final(scheduler).queue_agents() == old(scheduler).queue_agents(),
{
    match scheduler.record_event_for_agent(agent_id, kind) {
        Ok(_) => Ok(()),
        Err(error) => {
            let message = error.message();
            proof {
                assert(error is NoAgents ==> message@ == scheduler_error_text(error));
            }
            Err(ApiError { status: STATUS_INTERNAL_ERROR, code: String::from_str("trace_error"), message, details: Json::Null })
        },
    }
}

/// The answer to a trace store failure: an unknown run is an invalid run,
/// anything else an internal error.
pub fn trace_error(error: &TraceStoreError) -> (r: ApiError)
    ensures
        *error is RunNotFound ==> refusal_of(r) == (STATUS_NOT_FOUND, "invalid_run"@, "run was not found in trace store"@),
        !(*error is RunNotFound) ==> refusal_of(r) == (STATUS_INTERNAL_ERROR, "trace_store_error"@, trace_store_message(*error)),
        r.details is Null,
{
    match error {
        TraceStoreError::RunNotFound => ApiError::new(STATUS_NOT_FOUND, "invalid_run", "run was not found in trace store"),
        _ => {
            let message = error.message();
            ApiError { status: STATUS_INTERNAL_ERROR, code: String::from_str("trace_store_error"), message, details: Json::Null }
        },
    }
}

/// The answer for a run the daemon does not hold; its details name the run.
pub fn invalid_run(run_id: &RunId) -> (r: ApiError)
    ensures
        refusal_of(r) == (STATUS_NOT_FOUND, "invalid_run"@, "run was not found"@),
        json_get(r.details, "run_id"@) matches Some(Json::Str(t)) && t@ == uuid_text(run_id.value),
{
    let mut entries: Vec<(String, Json)> = Vec::new();
    entries.push((String::from_str("run_id"), Json::Str(uuid_string(run_id.value))));
    proof {
        reveal_strlit("run_id");
        assert(entries@[0].0@ == "run_id"@);
    }
    ApiError::new(STATUS_NOT_FOUND, "invalid_run", "run was not found").details(Json::Object(entries))
}

/// The answer when the daemon's run table cannot be locked.
pub fn lock_error() -> (r: ApiError)
    ensures
        refusal_of(r) == (STATUS_INTERNAL_ERROR, "runtime_lock_error"@, "local runtime lock is unavailable"@),
        r.details is Null,
{
    ApiError::new(STATUS_INTERNAL_ERROR, "runtime_lock_error", "local runtime lock is unavailable")
}

pub open spec fn unavailable_refusal() -> (u16, Seq<char>, Seq<char>) {
    (STATUS_UNAVAILABLE, "runtime_unavailable"@, "local runtime is unavailable"@)
}

pub open spec fn invalid_run_refusal() -> (u16, Seq<char>, Seq<char>) {
    (STATUS_NOT_FOUND, "invalid_run"@, "run was not found"@)
}

/// One stored trace record of a run.
#[derive(Clone, Debug)]
pub struct TraceRecord {
    pub run_id: RunId,
    pub sequence: u64,
    pub event: TraceEvent,
}

/// Records belong to `run_id` and are numbered 0, 1, 2, ... in order.
pub open spec fn trace_contiguous(records: Seq<TraceRecord>, run_id: RunId) -> bool {
    forall|i: int| 0 <= i < records.len() ==> (#[trigger] records[i]).run_id == run_id && records[i].sequence == i
}

pub open spec fn trace_order_refusal() -> (u16, Seq<char>, Seq<char>) {
    (STATUS_CONFLICT, "trace_order_invalid"@, "trace records are not contiguous for replay"@)
}

/// Replay accepts only the contiguous records of the run itself.
pub fn validate_trace_order(records: &[TraceRecord], run_id: &RunId) -> (r: Result<(), ApiError>)
    ensures
        r is Ok <==> trace_contiguous(records@, *run_id),
        r matches Err(e) ==> refusal_of(e) == trace_order_refusal(),
{
    let mut i: usize = 0;
    while i < records.len()
        invariant
            i <= records@.len(),
            forall|k: int| 0 <= k < i ==> (#[trigger] records@[k]).run_id == *run_id && records@[k].sequence == k,
        decreases records@.len() - i,
    {
        if records[i].run_id != *run_id || records[i].sequence != i as u64 {
            return Err(ApiError::new(STATUS_CONFLICT, "trace_order_invalid", "trace records are not contiguous for replay"));
        }
        i = i + 1;
    }
    Ok(())
}

/// Events that record what became of an action.
pub open spec fn is_action_event(k: TraceEventKind) -> bool {
    ||| k is ActionExecuted
    ||| k is ActionDenied
    ||| k is ActionFailed
}

/// How many records hold an action event.
pub open spec fn action_event_count(records: Seq<TraceRecord>) -> nat
    decreases records.len(),
{
    if records.len() == 0 {
        0
    } else {
        action_event_count(records.drop_last()) + if is_action_event(records.last().event.kind) { 1nat } else { 0nat }
    }
}

/// The summary of an inspect-only replay.
#[derive(Debug)]
pub struct ReplayResponse {
    pub replay_id: String,
    pub run_id: RunId,
    pub mode: String,
    pub event_count: usize,
    pub action_event_count: usize,
}

/// Summarizes a run's records for an inspect-only replay, after checking
/// that they are contiguous.
pub fn replay_response(run_id: &RunId, records: &[TraceRecord]) -> (r: Result<ReplayResponse, ApiError>)
    ensures
        r is Ok <==> trace_contiguous(records@, *run_id),
        r matches Err(e) ==> refusal_of(e) == trace_order_refusal(),
        r matches Ok(resp) ==> {
            &&& resp.replay_id@ == "replay-"@ + uuid_text(run_id.value)
            &&& resp.run_id == *run_id
            &&& resp.mode@ == "inspect_only"@
            &&& resp.event_count == records@.len()
            &&& resp.action_event_count == action_event_count(records@)
        },
{
    validate_trace_order(records, run_id)?;
    let mut count: usize = 0;
    let mut i: usize = 0;
    while i < records.len()
        invariant
            i <= records@.len(),
            count == action_event_count(records@.subrange(0, i as int)),
            count <= i,
        decreases records@.len() - i,
    {
        proof {
            assert(records@.subrange(0, i as int + 1).drop_last() =~= records@.subrange(0, i as int));
        }
        let hit = match &records[i].event.kind {
            TraceEventKind::ActionExecuted { .. } | TraceEventKind::ActionDenied { .. } | TraceEventKind::ActionFailed { .. } => true,
            _ => false,
        };
        if hit {
            count = count + 1;
        }
        i = i + 1;
    }
    proof {
        assert(records@.subrange(0, records@.len() as int) =~= records@);
    }
    let id = uuid_string(run_id.value);
    Ok(ReplayResponse {
        replay_id: String::from_str("replay-").concat(id.as_str()),
        run_id: *run_id,
        mode: String::from_str("inspect_only"),
        event_count: records.len(),
        action_event_count: count,
    })
}

/// Percepts waiting for a run's next tick, in arrival order.
#[derive(Debug)]
pub struct PerceptQueue {
    items: Vec<Percept>,
}

impl PerceptQueue {
    pub closed spec fn queued(&self) -> Seq<Percept> {
        self.items@
    }

    pub fn new() -> (r: PerceptQueue)
        ensures
            r.queued() == Seq::<Percept>::empty(),
    {
        PerceptQueue { items: Vec::new() }
    }

    /// Appends a percept.
    pub fn push(&mut self, percept: Percept) -> (r: Result<(), LoopError>)
        ensures
            r is Ok,
            final(self).queued() == old(self).queued().push(percept),
    {
        self.items.push(percept);
        Ok(())
    }

    /// Hands out every queued percept in arrival order and empties the queue.
    pub fn drain(&mut self) -> (r: Result<Vec<Percept>, LoopError>)
        ensures
            r matches Ok(v) && v@ == old(self).queued(),
            final(self).queued() == Seq::<Percept>::empty(),
    {
        let mut out: Vec<Percept> = Vec::new();
        std::mem::swap(&mut out, &mut self.items);
        Ok(out)
    }
}

impl Default for PerceptQueue {
    fn default() -> (r: PerceptQueue)
        ensures
            r.queued() == Seq::<Percept>::empty(),
    {
        PerceptQueue::new()
    }
}

/// A percept from the local daemon client, stamped now.
pub fn local_percept(schema: &str, payload: Json) -> (r: Percept)
    ensures
        r.schema@ == schema@,
        r.payload == payload,
        r.provenance.source@ == "daemon-client-local"@,
        r.provenance.detail is None,
{
    Percept {
        schema: String::from_str(schema),
        payload,
        provenance: PerceptProvenance { source: String::from_str("daemon-client-local"), detail: None },
        timestamp: now_utc(),
    }
}

/// An action name and the adapter registered for it.
#[derive(Clone, Debug)]
pub struct RegisteredAction {
    pub name: String,
    pub adapter: String,
}

/// A policy proposal supplied when a run is created.
#[derive(Clone, Debug)]
pub struct DaemonActionCandidate {
    pub action: Action,
    pub adapter: Option<String>,
    pub quota_usage: Option<QuotaUsage>,
    pub satisfied_preconditions: Vec<String>,
}

impl DaemonActionCandidate {
    /// The candidate this proposal stands for: the adapter and usage when
    /// given, and the satisfied preconditions when any are listed.
    pub fn into_candidate(self) -> (r: ActionCandidate)
        ensures
            r.action == self.action,
            r.adapter == self.adapter,
            self.quota_usage matches Some(u) ==> r.usage == u,
            self.quota_usage is None ==> r.usage == (QuotaUsage { actions: 1, ..crate::quota::zero_usage() }),
            self.satisfied_preconditions@.len() > 0 ==> r.satisfied_preconditions == self.satisfied_preconditions,
            self.satisfied_preconditions@.len() == 0 ==> strs(r.satisfied_preconditions@) == strs(self.action.preconditions@),
            r.approval_evidence is None,
    {
        let DaemonActionCandidate { action, adapter, quota_usage, satisfied_preconditions } = self;
        let mut candidate = ActionCandidate::new(action);
        if let Some(a) = adapter {
            candidate = candidate.with_adapter(a);
        }
        if let Some(u) = quota_usage {
            candidate = candidate.with_usage(u);
        }
        if satisfied_preconditions.len() > 0 {
            candidate = candidate.with_satisfied_preconditions(satisfied_preconditions);
        }
        candidate
    }
}

/// A request to create a run.
#[derive(Debug)]
pub struct CreateRunRequest {
    pub tenant_id: TenantId,
    pub agent_id: AgentId,
    pub work_order: WorkOrderAuthorization,
    pub credential: Option<CallerCredential>,
    pub audit_attribution: Option<AuditAttribution>,
    pub allowed_actions: Vec<String>,
    pub allowed_adapters: Vec<String>,
    pub allowed_permissions: Vec<String>,
    pub policy_actions: Vec<DaemonActionCandidate>,
    pub registered_actions: Vec<RegisteredAction>,
    pub allowed_percept_schemas: Vec<String>,
    pub allowed_percept_sources: Vec<String>,
    pub initial_state: Option<Json>,
    pub snapshot_interval: Option<u64>,
    /// Whether the run may only be created under a policy bundle.
    pub policy_bundle_required: bool,
    /// The signed policy bundle envelope, as a JSON document.
    pub policy_bundle: Option<Json>,
}

/// A registration as (action name, adapter).
pub open spec fn reg_view(r: RegisteredAction) -> (Seq<char>, Seq<char>) {
    (r.name@, r.adapter@)
}

pub open spec fn reg_views(v: Seq<RegisteredAction>) -> Seq<(Seq<char>, Seq<char>)> {
    v.map_values(|r: RegisteredAction| reg_view(r))
}

pub open spec fn reg_names(v: Seq<(Seq<char>, Seq<char>)>) -> Seq<Seq<char>> {
    v.map_values(|p: (Seq<char>, Seq<char>)| p.0)
}

/// Appends `(names[k], adapters[k])` for each name not yet registered, in
/// order, checking against what was appended before.
pub open spec fn add_missing(
    base: Seq<(Seq<char>, Seq<char>)>,
    names: Seq<Seq<char>>,
    adapters: Seq<Seq<char>>,
) -> Seq<(Seq<char>, Seq<char>)>
    decreases names.len(),
{
    if names.len() == 0 {
        base
    } else {
        let prev = add_missing(base, names.drop_last(), adapters.drop_last());
        if reg_names(prev).contains(names.last()) {
            prev
        } else {
            prev.push((names.last(), adapters.last()))
        }
    }
}

/// The adapter an action without one is registered with: the first allowed
/// adapter, else the local one.
pub open spec fn fallback_adapter(req: CreateRunRequest) -> Seq<char> {
    if req.allowed_adapters@.len() > 0 {
        req.allowed_adapters@[0]@
    } else {
        "daemon.local"@
    }
}

pub open spec fn constant_texts(n: nat, t: Seq<char>) -> Seq<Seq<char>> {
    Seq::new(n, |i: int| t)
}

pub open spec fn policy_names(req: CreateRunRequest) -> Seq<Seq<char>> {
    req.policy_actions@.map_values(|c: DaemonActionCandidate| c.action.name@)
}

pub open spec fn policy_adapter(c: DaemonActionCandidate, fallback: Seq<char>) -> Seq<char> {
    match c.adapter {
        Some(a) => a@,
        None => fallback,
    }
}

pub open spec fn policy_adapters(req: CreateRunRequest) -> Seq<Seq<char>> {
    req.policy_actions@.map_values(|c: DaemonActionCandidate| policy_adapter(c, fallback_adapter(req)))
}

/// The registrations a run gets: the explicit ones, then each allowed action
/// with the fallback adapter, then each policy action with its own adapter
/// or the fallback, skipping names already registered.
pub open spec fn registrations_spec(req: CreateRunRequest) -> Seq<(Seq<char>, Seq<char>)> {
    let explicit = reg_views(req.registered_actions@);
    let with_allowed = add_missing(explicit, strs(req.allowed_actions@), constant_texts(req.allowed_actions@.len(), fallback_adapter(req)));
    add_missing(with_allowed, policy_names(req), policy_adapters(req))
}

fn is_registered(v: &Vec<RegisteredAction>, name: &String) -> (r: bool)
    ensures
        r == reg_names(reg_views(v@)).contains(name@),
{
    let mut i: usize = 0;
    while i < v.len()
        invariant
            i <= v@.len(),
            forall|k: int| 0 <= k < i ==> (#[trigger] v@[k]).name@ != name@,
        decreases v@.len() - i,
    {
        if v[i].name == *name {
            assert(reg_names(reg_views(v@))[i as int] == name@);
            return true;
        }
        i = i + 1;
    }
    proof {
        assert forall|k: int| 0 <= k < reg_names(reg_views(v@)).len() implies reg_names(reg_views(v@))[k] != name@ by {
            assert(v@[k].name@ != name@);
        }
    }
    false
}

proof fn lemma_add_missing_step(
    base: Seq<(Seq<char>, Seq<char>)>,
    names: Seq<Seq<char>>,
    adapters: Seq<Seq<char>>,
    i: int,
)
    requires
        0 <= i < names.len(),
        names.len() == adapters.len(),
    ensures
        add_missing(base, names.subrange(0, i + 1), adapters.subrange(0, i + 1)) == ({
            let prev = add_missing(base, names.subrange(0, i), adapters.subrange(0, i));
            if reg_names(prev).contains(names[i]) { prev } else { prev.push((names[i], adapters[i])) }
        }),
{
    assert(names.subrange(0, i + 1).drop_last() =~= names.subrange(0, i));
    assert(adapters.subrange(0, i + 1).drop_last() =~= adapters.subrange(0, i));
}

/// The registrations a run is created with.
pub fn registrations_for_request(request: &CreateRunRequest) -> (r: Vec<RegisteredAction>)
    ensures
        reg_views(r@) == registrations_spec(*request),
{
    let mut out: Vec<RegisteredAction> = Vec::new();
    let mut i: usize = 0;
    while i < request.registered_actions.len()
        invariant
            i <= request.registered_actions@.len(),
            reg_views(out@) == reg_views(request.registered_actions@.subrange(0, i as int)),
        decreases request.registered_actions@.len() - i,
    {
        let e = &request.registered_actions[i];
        let item = RegisteredAction { name: e.name.clone(), adapter: e.adapter.clone() };
        proof {
            assert(reg_views(request.registered_actions@.subrange(0, i as int + 1))
                =~= reg_views(request.registered_actions@.subrange(0, i as int)).push(reg_view(request.registered_actions@[i as int])));
        }
        out.push(item);
        proof {
            assert(reg_views(out@) =~= reg_views(request.registered_actions@.subrange(0, i as int + 1)));
        }
        i = i + 1;
    }
    proof {
        assert(request.registered_actions@.subrange(0, request.registered_actions@.len() as int) =~= request.registered_actions@);
    }
    let ghost explicit = reg_views(request.registered_actions@);
    let fallback = if request.allowed_adapters.len() > 0 {
        request.allowed_adapters[0].clone()
    } else {
        String::from_str("daemon.local")
    };
    let ghost allowed_names = strs(request.allowed_actions@);
    let ghost allowed_adapters = constant_texts(request.allowed_actions@.len(), fallback_adapter(*request));
    proof {
        assert(allowed_names.subrange(0, 0) =~= Seq::<Seq<char>>::empty());
        assert(allowed_adapters.subrange(0, 0) =~= Seq::<Seq<char>>::empty());
    }
    let mut j: usize = 0;
    while j < request.allowed_actions.len()
        invariant
            j <= request.allowed_actions@.len(),
            fallback@ == fallback_adapter(*request),
            allowed_names == strs(request.allowed_actions@),
            allowed_adapters == constant_texts(request.allowed_actions@.len(), fallback_adapter(*request)),
            reg_views(out@) == add_missing(explicit, allowed_names.subrange(0, j as int), allowed_adapters.subrange(0, j as int)),
        decreases request.allowed_actions@.len() - j,
    {
        proof { lemma_add_missing_step(explicit, allowed_names, allowed_adapters, j as int); }
        let name = &request.allowed_actions[j];
        if !is_registered(&out, name) {
            let ghost before = out@;
            out.push(RegisteredAction { name: name.clone(), adapter: fallback.clone() });
            proof {
                assert(reg_views(out@) =~= reg_views(before).push((allowed_names[j as int], allowed_adapters[j as int])));
            }
        }
        j = j + 1;
    }
    proof {
        assert(allowed_names.subrange(0, allowed_names.len() as int) =~= allowed_names);
        assert(allowed_adapters.subrange(0, allowed_adapters.len() as int) =~= allowed_adapters);
    }
    let ghost with_allowed = reg_views(out@);
    let ghost pnames = policy_names(*request);
    let ghost padapters = policy_adapters(*request);
    proof {
        assert(pnames.subrange(0, 0) =~= Seq::<Seq<char>>::empty());
        assert(padapters.subrange(0, 0) =~= Seq::<Seq<char>>::empty());
    }
    let mut k: usize = 0;
    while k < request.policy_actions.len()
        invariant
            k <= request.policy_actions@.len(),
            fallback@ == fallback_adapter(*request),
            pnames == policy_names(*request),
            padapters == policy_adapters(*request),
            with_allowed == add_missing(explicit, strs(request.allowed_actions@), constant_texts(request.allowed_actions@.len(), fallback_adapter(*request))),
            explicit == reg_views(request.registered_actions@),
            reg_views(out@) == add_missing(with_allowed, pnames.subrange(0, k as int), padapters.subrange(0, k as int)),
        decreases request.policy_actions@.len() - k,
    {
        proof { lemma_add_missing_step(with_allowed, pnames, padapters, k as int); }
        let candidate = &request.policy_actions[k];
        if !is_registered(&out, &candidate.action.name) {
            let adapter = match &candidate.adapter {
                Some(a) => a.clone(),
                None => fallback.clone(),
            };
            let ghost before = out@;
            out.push(RegisteredAction { name: candidate.action.name.clone(), adapter });
            proof {
                assert(reg_views(out@) =~= reg_views(before).push((pnames[k as int], padapters[k as int])));
            }
        }
        k = k + 1;
    }
    proof {
        assert(pnames.subrange(0, pnames.len() as int) =~= pnames);
        assert(padapters.subrange(0, padapters.len() as int) =~= padapters);
    }
    out
}

proof fn lemma_add_missing_covers(
    base: Seq<(Seq<char>, Seq<char>)>,
    names: Seq<Seq<char>>,
    adapters: Seq<Seq<char>>,
)
    requires
        names.len() == adapters.len(),
    ensures
        add_missing(base, names, adapters).len() >= base.len(),
        forall|k: int| 0 <= k < base.len() ==> #[trigger] add_missing(base, names, adapters)[k] == base[k],
        forall|k: int| 0 <= k < names.len() ==> reg_names(add_missing(base, names, adapters)).contains(#[trigger] names[k]),
    decreases names.len(),
{
    if names.len() > 0 {
        let prev = add_missing(base, names.drop_last(), adapters.drop_last());
        lemma_add_missing_covers(base, names.drop_last(), adapters.drop_last());
        let cur = add_missing(base, names, adapters);
        assert forall|k: int| 0 <= k < names.len() implies reg_names(cur).contains(#[trigger] names[k]) by {
            if k < names.len() - 1 {
                assert(names.drop_last()[k] == names[k]);
                assert(reg_names(prev).contains(names[k]));
                let w = choose|w: int| 0 <= w < reg_names(prev).len() && reg_names(prev)[w] == names[k];
                if !reg_names(prev).contains(names.last()) {
                    assert(reg_names(cur)[w] == names[k]);
                }
            } else {
                if !reg_names(prev).contains(names.last()) {
                    assert(reg_names(cur)[prev.len() as int] == names[k]);
                }
            }
        }
    }
}

/// Every allowed action and every policy action of a run request ends up
/// registered, and the explicit registrations come first, unchanged.
pub proof fn lemma_registrations_cover(req: CreateRunRequest)
    ensures
        forall|k: int| 0 <= k < req.allowed_actions@.len()
            ==> reg_names(registrations_spec(req)).contains(#[trigger] req.allowed_actions@[k]@),
        forall|k: int| 0 <= k < req.policy_actions@.len()
            ==> reg_names(registrations_spec(req)).contains(#[trigger] req.policy_actions@[k].action.name@),
        registrations_spec(req).len() >= req.registered_actions@.len(),
        forall|k: int| 0 <= k < req.registered_actions@.len()
            ==> #[trigger] registrations_spec(req)[k] == reg_view(req.registered_actions@[k]),
{
    let explicit = reg_views(req.registered_actions@);
    let names = strs(req.allowed_actions@);
    let ads = constant_texts(req.allowed_actions@.len(), fallback_adapter(req));
    let with_allowed = add_missing(explicit, names, ads);
    lemma_add_missing_covers(explicit, names, ads);
    lemma_add_missing_covers(with_allowed, policy_names(req), policy_adapters(req));
    let all = registrations_spec(req);
    assert forall|k: int| 0 <= k < req.allowed_actions@.len() implies reg_names(all).contains(#[trigger] req.allowed_actions@[k]@) by {
        assert(names[k] == req.allowed_actions@[k]@);
        assert(reg_names(with_allowed).contains(names[k]));
        let w = choose|w: int| 0 <= w < reg_names(with_allowed).len() && reg_names(with_allowed)[w] == names[k];
        assert(all[w] == with_allowed[w]);
        assert(reg_names(all)[w] == names[k]);
    }
    assert forall|k: int| 0 <= k < req.policy_actions@.len() implies reg_names(all).contains(#[trigger] req.policy_actions@[k].action.name@) by {
        assert(policy_names(req)[k] == req.policy_actions@[k].action.name@);
    }
    assert forall|k: int| 0 <= k < req.registered_actions@.len() implies #[trigger] all[k] == reg_view(req.registered_actions@[k]) by {
        assert(with_allowed[k] == explicit[k]);
        assert(all[k] == with_allowed[k]);
    }
}

/// Options a daemon is built with.
#[derive(Clone, Debug)]
pub struct DaemonConfig {
    pub expected_audience: CredentialAudience,
    pub insecure_dev_mode: Option<InsecureDevMode>,
}

pub open spec fn tcp_binding(m: InsecureDevMode) -> (Seq<char>, u16) {
    match m.transport {
        LocalTransportBinding::Tcp { host, port } => (host@, port),
    }
}

impl DaemonConfig {
    /// Loopback development configuration: daemon `daemon_local`, anonymous
    /// callers accepted on 127.0.0.1:8077 with the warning issued.
    pub fn local_dev() -> (r: DaemonConfig)
        ensures
            audience_id(r.expected_audience) == "daemon_local"@,
            r.insecure_dev_mode matches Some(m) && m.enabled && m.warning_issued && tcp_binding(m) == ("127.0.0.1"@, 8077u16),
    {
        DaemonConfig {
            expected_audience: CredentialAudience::Daemon { daemon_id: String::from_str("daemon_local") },
            insecure_dev_mode: Some(InsecureDevMode {
                enabled: true,
                transport: LocalTransportBinding::Tcp { host: String::from_str("127.0.0.1"), port: 8077 },
                warning_issued: true,
            }),
        }
    }
}

/// What the daemon keeps about one run.
#[derive(Debug)]
pub struct RunRecord {
    pub run_id: RunId,
    pub tenant_id: TenantId,
    pub agent_id: AgentId,
    pub status: RunStatus,
    pub allowed_percept_schemas: Vec<String>,
    pub allowed_percept_sources: Vec<String>,
    pub state_head: Option<StateNodeId>,
    pub tick_count: u64,
    pub created_at: Timestamp,
    pub updated_at: Timestamp,
}

/// The answer to a run creation.
#[derive(Clone, Copy, Debug, PartialEq, Eq, Structural)]
pub struct CreateRunResponse {
    pub run_id: RunId,
    pub status: RunStatus,
}

/// A run after a tick that committed `node`: the head moves, the tick is
/// counted (saturating) and the run is running.
pub open spec fn after_tick(rec: RunRecord, node: StateNodeId, now: Timestamp) -> RunRecord {
    RunRecord {
        state_head: Some(node),
        tick_count: if rec.tick_count == u64::MAX { u64::MAX } else { (rec.tick_count + 1) as u64 },
        status: RunStatus::Running,
        updated_at: now,
        ..rec
    }
}

/// The run table of a local daemon with its security settings.
pub struct DaemonState {
    runs: Vec<RunRecord>,
    config: DaemonConfig,
    runtime_available: bool,
}

/// The run a creation request names: the work order's run, else a fresh one.
pub open spec fn new_run_id(request: CreateRunRequest, fresh: RunId) -> RunId {
    match request.work_order.run_id {
        Some(r) => r,
        None => fresh,
    }
}

/// The record a newly created run starts with.
pub open spec fn new_run_record(request: CreateRunRequest, fresh: RunId, now: Timestamp) -> RunRecord {
    RunRecord {
        run_id: new_run_id(request, fresh),
        tenant_id: request.tenant_id,
        agent_id: request.agent_id,
        status: RunStatus::Created,
        allowed_percept_schemas: request.allowed_percept_schemas,
        allowed_percept_sources: request.allowed_percept_sources,
        state_head: None,
        tick_count: 0,
        created_at: now,
        updated_at: now,
    }
}

impl DaemonState {
    pub closed spec fn records(&self) -> Seq<RunRecord> {
        self.runs@
    }

    pub closed spec fn settings(&self) -> DaemonConfig {
        self.config
    }

    pub closed spec fn available(&self) -> bool {
        self.runtime_available
    }

    /// No two records share a run.
    pub open spec fn wf(&self) -> bool {
        forall|i: int, j: int| 0 <= i < j < self.records().len()
            ==> (#[trigger] self.records()[i]).run_id != (#[trigger] self.records()[j]).run_id
    }

    pub open spec fn has_run(&self, run_id: RunId) -> bool {
        exists|i: int| 0 <= i < self.records().len() && (#[trigger] self.records()[i]).run_id == run_id
    }

    /// The record of a held run.
    pub open spec fn record_of(&self, run_id: RunId) -> RunRecord {
        self.records()[choose|i: int| 0 <= i < self.records().len() && (#[trigger] self.records()[i]).run_id == run_id]
    }

    /// The refusal owed before a run's own rules are consulted.
    pub open spec fn lookup_refusal(&self, run_id: RunId) -> Option<(u16, Seq<char>, Seq<char>)> {
        if !self.available() {
            Some(unavailable_refusal())
        } else if !self.has_run(run_id) {
            Some(invalid_run_refusal())
        } else {
            None
        }
    }

    /// The refusal the security rules give a request to this daemon.
    pub open spec fn security_refusal_for(
        &self,
        e: DaemonEndpoint,
        credential: Option<CallerCredential>,
        work_order: Option<WorkOrderAuthorization>,
        attribution: Option<AuditAttribution>,
        now: Timestamp,
    ) -> Option<(u16, Seq<char>, Seq<char>)> {
        match security_error(e, credential, self.settings().expected_audience, work_order, attribution, self.settings().insecure_dev_mode, now) {
            Some(se) => Some(security_refusal(se)),
            None => None,
        }
    }

    /// The refusal a run creation earns, in the order checked.
    /// What refuses a run request before the run id is looked at, if anything.
    pub open spec fn create_precheck(&self, request: CreateRunRequest, now: Timestamp) -> Option<(u16, Seq<char>, Seq<char>)> {
        let sec = self.security_refusal_for(DaemonEndpoint::RunCreate { tenant_id: request.tenant_id },
            request.credential, Some(request.work_order), request.audit_attribution, now);
        if !self.available() {
            Some(unavailable_refusal())
        } else if sec is Some {
            sec
        } else if request.work_order.agent_id != request.agent_id || request.work_order.tenant_id != request.tenant_id {
            Some((STATUS_FORBIDDEN, "incompatible_work_order"@, "work order tenant or agent does not match the run request"@))
        } else if request.policy_bundle_required && request.policy_bundle is None {
            Some((STATUS_BAD_REQUEST, "missing_policy_bundle"@, "policy bundle is required for this run"@))
        } else {
            None
        }
    }

    pub open spec fn create_refusal(&self, request: CreateRunRequest, fresh: RunId, now: Timestamp) -> Option<(u16, Seq<char>, Seq<char>)> {
        if self.create_precheck(request, now) is Some {
            self.create_precheck(request, now)
        } else if self.has_run(new_run_id(request, fresh)) {
            Some((STATUS_CONFLICT, "run_already_exists"@, "run already exists in local daemon"@))
        } else {
            None
        }
    }

    pub fn new(config: DaemonConfig) -> (r: DaemonState)
        ensures
            r.records() == Seq::<RunRecord>::empty(),
            r.settings() == config,
            r.available(),
            r.wf(),
    {
        DaemonState { runs: Vec::new(), config, runtime_available: true }
    }

    /// A daemon in loopback development mode.
    pub fn local_dev() -> (r: DaemonState)
        ensures
            r.records() == Seq::<RunRecord>::empty(),
            r.available(),
            r.wf(),
            audience_id(r.settings().expected_audience) == "daemon_local"@,
            r.settings().insecure_dev_mode matches Some(m) && m.enabled && m.warning_issued && tcp_binding(m) == ("127.0.0.1"@, 8077u16),
    {
        DaemonState::new(DaemonConfig::local_dev())
    }

    pub fn config(&self) -> (r: &DaemonConfig)
        ensures
            *r == self.settings(),
    {
        &self.config
    }

    pub fn runs(&self) -> (r: &Vec<RunRecord>)
        ensures
            r@ == self.records(),
    {
        &self.runs
    }

    pub fn runtime_available(&self) -> (r: bool)
        ensures
            r == self.available(),
    {
        self.runtime_available
    }

    /// Marks the runtime available or not; an unavailable runtime refuses
    /// run requests.
    pub fn set_runtime_available(&mut self, available: bool)
        ensures
            final(self).records() == old(self).records(),
            final(self).settings() == old(self).settings(),
            final(self).available() == available,
    {
        self.runtime_available = available;
    }

    pub fn ensure_runtime_available(&self) -> (r: Result<(), ApiError>)
        ensures
            r is Ok <==> self.available(),
            r matches Err(e) ==> refusal_of(e) == unavailable_refusal(),
    {
        if self.runtime_available {
            Ok(())
        } else {
            Err(ApiError::new(STATUS_UNAVAILABLE, "runtime_unavailable", "local runtime is unavailable"))
        }
    }

    fn find(&self, run_id: &RunId) -> (r: Option<usize>)
        requires
            self.wf(),
        ensures
            r matches Some(i) ==> i < self.records().len() && self.records()[i as int].run_id == *run_id
                && self.has_run(*run_id) && self.records()[i as int] == self.record_of(*run_id),
            r is None ==> !self.has_run(*run_id),
    {
        let mut i: usize = 0;
        while i < self.runs.len()
            invariant
                i <= self.runs@.len(),
                self.wf(),
                forall|k: int| 0 <= k < i ==> (#[trigger] self.runs@[k]).run_id != *run_id,
            decreases self.runs@.len() - i,
        {
            if self.runs[i].run_id == *run_id {
                proof {
                    assert(self.records()[i as int].run_id == *run_id);
                    let j = choose|j: int| 0 <= j < self.records().len() && (#[trigger] self.records()[j]).run_id == *run_id;
                    if j != i as int {
                        if j < i as int {
                            assert(self.records()[j].run_id != self.records()[i as int].run_id);
                        } else {
                            assert(self.records()[i as int].run_id != self.records()[j].run_id);
                        }
                    }
                }
                return Some(i);
            }
            i = i + 1;
        }
        None
    }

    /// The position of a held run; an unknown run is refused.
    pub fn run_index(&self, run_id: &RunId) -> (r: Result<usize, ApiError>)
        requires
            self.wf(),
        ensures
            r matches Ok(i) ==> i < self.records().len() && self.records()[i as int] == self.record_of(*run_id)
                && self.records()[i as int].run_id == *run_id && self.has_run(*run_id),
            r is Err <==> !self.has_run(*run_id),
            r matches Err(e) ==> refusal_of(e) == invalid_run_refusal(),
    {
        match self.find(run_id) {
            Some(i) => Ok(i),
            None => Err(invalid_run(run_id)),
        }
    }

    fn lookup(&self, run_id: &RunId) -> (r: Result<usize, ApiError>)
        requires
            self.wf(),
        ensures
            r is Ok <==> self.lookup_refusal(*run_id) is None,
            r matches Err(e) ==> self.lookup_refusal(*run_id) == Some(refusal_of(e)),
            r matches Ok(i) ==> i < self.records().len() && self.records()[i as int] == self.record_of(*run_id)
                && self.records()[i as int].run_id == *run_id,
    {
        self.ensure_runtime_available()?;
        self.run_index(run_id)
    }

    /// Applies the security rules with this daemon's audience and
    /// development mode.
    pub fn validate_security(
        &self,
        endpoint: &DaemonEndpoint,
        credential: Option<&CallerCredential>,
        work_order: Option<&WorkOrderAuthorization>,
        attribution: Option<&AuditAttribution>,
        now: Timestamp,
    ) -> (r: Result<(), ApiError>)
        ensures
            r is Ok <==> self.security_refusal_for(*endpoint, opt_ref(credential), opt_ref(work_order), opt_ref(attribution), now) is None,
            r matches Err(e) ==> self.security_refusal_for(*endpoint, opt_ref(credential), opt_ref(work_order), opt_ref(attribution), now) == Some(refusal_of(e)),
    {
        let dev = match &self.config.insecure_dev_mode {
            Some(m) => Some(m),
            None => None,
        };
        match validate_daemon_request(endpoint, credential, &self.config.expected_audience, work_order, attribution, dev, now) {
            Ok(()) => Ok(()),
            Err(e) => Err(ApiError::from_security(&e)),
        }
    }

    /// Decides whether a new run would be admitted, changing nothing: the
    /// runtime must be available, the caller and work order must pass the
    /// security rules, the work order must be for the requested tenant and
    /// agent, and the run (the work order's, else `fresh_run_id`) must be new.
    /// Gives the run's id.
    pub fn admit_run(&self, request: &CreateRunRequest, fresh_run_id: RunId, now: Timestamp) -> (r: Result<RunId, ApiError>)
        requires
            self.wf(),
        ensures
            r is Ok <==> self.create_refusal(*request, fresh_run_id, now) is None,
            r matches Err(e) ==> self.create_refusal(*request, fresh_run_id, now) == Some(refusal_of(e)),
            r matches Ok(id) ==> id == new_run_id(*request, fresh_run_id),
    {
        match self.ensure_runtime_available() {
            Ok(()) => {},
            Err(e) => return Err(e),
        }
        let endpoint = DaemonEndpoint::RunCreate { tenant_id: request.tenant_id };
        let credential = match &request.credential {
            Some(c) => Some(c),
            None => None,
        };
        let attribution = match &request.audit_attribution {
            Some(a) => Some(a),
            None => None,
        };
        match self.validate_security(&endpoint, credential, Some(&request.work_order), attribution, now) {
            Ok(()) => {},
            Err(e) => return Err(e),
        }
        if request.work_order.agent_id != request.agent_id || request.work_order.tenant_id != request.tenant_id {
            return Err(ApiError::new(STATUS_FORBIDDEN, "incompatible_work_order", "work order tenant or agent does not match the run request"));
        }
        if request.policy_bundle_required && request.policy_bundle.is_none() {
            return Err(ApiError::new(STATUS_BAD_REQUEST, "missing_policy_bundle", "policy bundle is required for this run"));
        }
        let run_id = match request.work_order.run_id {
            Some(r) => r,
            None => fresh_run_id,
        };
        if self.find(&run_id).is_some() {
            return Err(ApiError::new(STATUS_CONFLICT, "run_already_exists", "run already exists in local daemon"));
        }
        Ok(run_id)
    }

    /// Admits a new run: the runtime must be available, the caller and work
    /// order must pass the security rules, the work order must be for the
    /// requested tenant and agent, and the run (the work order's, else
    /// `fresh_run_id`) must be new. The run starts `Created`.
    pub fn create_run(&mut self, request: CreateRunRequest, fresh_run_id: RunId, now: Timestamp) -> (r: Result<CreateRunResponse, ApiError>)
        requires
            old(self).wf(),
        ensures
            final(self).wf(),
            final(self).settings() == old(self).settings(),
            final(self).available() == old(self).available(),
            r is Ok <==> old(self).create_refusal(request, fresh_run_id, now) is None,
            r matches Err(e) ==> old(self).create_refusal(request, fresh_run_id, now) == Some(refusal_of(e))
                && final(self).records() == old(self).records(),
            r matches Ok(resp) ==> resp.run_id == new_run_id(request, fresh_run_id) && resp.status == RunStatus::Created
                && final(self).records() == old(self).records().push(new_run_record(request, fresh_run_id, now)),
    {
        let run_id = match self.admit_run(&request, fresh_run_id, now) {
            Ok(id) => id,
            Err(e) => return Err(e),
        };
        proof {
            if exists|k: int| 0 <= k < self.records().len() && (#[trigger] self.records()[k]).run_id == run_id {
                assert(old(self).create_refusal(request, fresh_run_id, now) is Some);
            }
        }
        let ghost before = self.runs@;
        let record = RunRecord {
            run_id,
            tenant_id: request.tenant_id,
            agent_id: request.agent_id,
            status: RunStatus::Created,
            allowed_percept_schemas: request.allowed_percept_schemas,
            allowed_percept_sources: request.allowed_percept_sources,
            state_head: None,
            tick_count: 0,
            created_at: now,
            updated_at: now,
        };
        self.runs.push(record);
        proof {
            assert forall|i: int, j: int| 0 <= i < j < self.records().len()
                implies (#[trigger] self.records()[i]).run_id != (#[trigger] self.records()[j]).run_id by {
                if j == before.len() {
                    assert(self.records()[i] == before[i]);
                    if before[i].run_id == run_id {
                        assert(exists|k: int| 0 <= k < before.len() && (#[trigger] before[k]).run_id == run_id);
                    }
                } else {
                    assert(self.records()[i] == before[i]);
                    assert(self.records()[j] == before[j]);
                }
            }
        }
        Ok(CreateRunResponse { run_id, status: RunStatus::Created })
    }
}

/// The lifecycle operations on a run.
#[derive(Clone, Copy, Debug, PartialEq, Eq, Structural)]
pub enum LifecycleKind {
    Start,
    Pause,
    Resume,
    Stop,
}

/// A lifecycle request.
#[derive(Debug)]
pub struct LifecycleRequest {
    pub credential: Option<CallerCredential>,
    pub work_order: Option<WorkOrderAuthorization>,
    pub audit_attribution: Option<AuditAttribution>,
    pub reason: Option<String>,
}

pub open spec fn lifecycle_endpoint(kind: LifecycleKind, tenant_id: TenantId, run_id: RunId) -> DaemonEndpoint {
    match kind {
        LifecycleKind::Start => DaemonEndpoint::RunStart { tenant_id, run_id },
        LifecycleKind::Pause => DaemonEndpoint::RunPause { tenant_id, run_id },
        LifecycleKind::Resume => DaemonEndpoint::RunResume { tenant_id, run_id },
        LifecycleKind::Stop => DaemonEndpoint::RunStop { tenant_id, run_id },
    }
}

/// Starting and resuming present the request's work order; pausing and
/// stopping present none.
pub open spec fn lifecycle_work_order(kind: LifecycleKind, request: LifecycleRequest) -> Option<WorkOrderAuthorization> {
    if kind is Start || kind is Resume {
        request.work_order
    } else {
        None
    }
}

pub open spec fn resume_agent_matches(request: LifecycleRequest, rec: RunRecord) -> bool {
    match request.work_order {
        Some(w) => w.agent_id == rec.agent_id,
        None => false,
    }
}

/// What a run's state refuses: resuming needs a work order for the run's
/// agent and a paused run; stopped or failed runs cannot start or resume.
pub open spec fn lifecycle_state_refusal(kind: LifecycleKind, rec: RunRecord, request: LifecycleRequest) -> Option<(u16, Seq<char>, Seq<char>)> {
    if kind is Resume && !resume_agent_matches(request, rec) {
        Some((STATUS_FORBIDDEN, "incompatible_work_order"@, "resume work order agent does not match the run agent"@))
    } else if kind is Resume && rec.status != RunStatus::Paused {
        Some((STATUS_CONFLICT, "invalid_run_state"@, "run must be paused before resume"@))
    } else if (kind is Start || kind is Resume) && (rec.status == RunStatus::Stopped || rec.status == RunStatus::Failed) {
        Some((STATUS_CONFLICT, "invalid_run_state"@, "stopped or failed runs cannot be started"@))
    } else {
        None
    }
}

/// The event a lifecycle operation records before its status changes.
pub fn lifecycle_event(kind: LifecycleKind, reason: Option<String>) -> (r: Option<TraceEventKind>)
    ensures
        kind is Start ==> r is None,
        kind is Pause ==> r == Some(TraceEventKind::RunPaused { reason }),
        kind is Resume ==> r == Some(TraceEventKind::RunResumed { reason }),
        kind is Stop ==> r == Some(TraceEventKind::RunStopped { reason }),
{
    match kind {
        LifecycleKind::Start => None,
        LifecycleKind::Pause => Some(TraceEventKind::RunPaused { reason }),
        LifecycleKind::Resume => Some(TraceEventKind::RunResumed { reason }),
        LifecycleKind::Stop => Some(TraceEventKind::RunStopped { reason }),
    }
}

/// The event recorded when one percept is appended.
pub fn percepts_appended(percept: &Percept) -> (r: TraceEventKind)
    ensures
        r matches TraceEventKind::PerceptsAppended { count, schemas } && count == 1 && strs(schemas@) == seq![percept.schema@],
{
    let mut schemas: Vec<String> = Vec::new();
    schemas.push(percept.schema.clone());
    proof {
        assert(strs(schemas@) =~= seq![percept.schema@]);
    }
    TraceEventKind::PerceptsAppended { count: 1, schemas }
}

pub open spec fn percept_endpoint(rec: RunRecord, run_id: RunId, percept: Percept) -> DaemonEndpoint {
    DaemonEndpoint::PerceptAppend {
        tenant_id: rec.tenant_id,
        run_id,
        schema: percept.schema,
        provenance_source: percept.provenance.source,
        allowed_schemas: rec.allowed_percept_schemas,
        allowed_provenance_sources: rec.allowed_percept_sources,
    }
}

/// The credentials a request may carry.
#[derive(Debug)]
pub struct SecurityFields {
    pub credential: Option<CallerCredential>,
    pub audit_attribution: Option<AuditAttribution>,
}

/// A replay request: the caller's credential.
#[derive(Debug)]
pub struct ReplayRequest {
    pub credential: Option<CallerCredential>,
}

/// The answer to a start or resume: the run's status after the tick, the
/// tick, the state it committed and what became of its actions.
#[derive(Debug)]
pub struct TickResponse {
    pub run_id: RunId,
    pub status: RunStatus,
    pub tick_id: u64,
    pub state_node_id: StateNodeId,
    pub action_outcomes: Vec<ActionOutcome>,
}

/// The answer to a state head read: the head node and its metadata.
#[derive(Debug)]
pub struct StateHeadResponse {
    pub run_id: RunId,
    pub state_node_id: StateNodeId,
    pub parent_state_node_ids: Vec<StateNodeId>,
    pub data_ref: crate::state::DataRef,
    pub created_at: Timestamp,
    pub label: Option<String>,
}

/// A page of a run's trace records.
#[derive(Debug)]
pub struct TracePageResponse {
    pub run_id: RunId,
    pub records: Vec<TraceRecord>,
}

/// `sequence` lies in the half-open range `[start, end)`.
pub open spec fn in_page(sequence: u64, start: u64, end: u64) -> bool {
    start <= sequence && sequence < end
}

/// The records a trace query selects, in stored order: with both bounds the
/// records whose sequence lies in `[start, end)`, otherwise all of them.
pub open spec fn page_of(records: Seq<TraceRecord>, start: Option<u64>, end: Option<u64>) -> Seq<TraceRecord>
    decreases records.len(),
{
    if records.len() == 0 {
        Seq::empty()
    } else {
        let rest = page_of(records.drop_last(), start, end);
        match (start, end) {
            (Some(a), Some(b)) => if in_page(records.last().sequence, a, b) { rest.push(records.last()) } else { rest },
            _ => rest.push(records.last()),
        }
    }
}

/// The page of `records` that `query` selects.
pub fn trace_page(run_id: RunId, query: &TraceQuery, records: Vec<TraceRecord>) -> (r: TracePageResponse)
    ensures
        r.run_id == run_id,
        r.records@ == page_of(records@, query.start, query.end),
{
    let ghost all = records@;
    let total = records.len();
    let mut page: Vec<TraceRecord> = Vec::new();
    let mut rest = records;
    let mut taken: usize = 0;
    while rest.len() > 0
        invariant
            total == all.len(),
            taken + rest@.len() == all.len(),
            rest@ =~= all.subrange(taken as int, all.len() as int),
            page@ == page_of(all.take(taken as int), query.start, query.end),
        decreases rest@.len(),
    {
        let record = rest.remove(0);
        proof {
            assert(record == all[taken as int]);
            assert(all.take(taken as int + 1).drop_last() =~= all.take(taken as int));
            assert(all.take(taken as int + 1).last() == all[taken as int]);
        }
        let keep = match (query.start, query.end) {
            (Some(a), Some(b)) => a <= record.sequence && record.sequence < b,
            _ => true,
        };
        if keep {
            page.push(record);
        }
        taken = taken + 1;
    }
    proof {
        assert(all.take(all.len() as int) =~= all);
    }
    TracePageResponse { run_id, records: page }
}

/// The answer to a percept append.
#[derive(Clone, Copy, Debug, PartialEq, Eq, Structural)]
pub struct AppendPerceptResponse {
    pub run_id: RunId,
    pub accepted: usize,
}

/// A trace read: an optional sequence range and the redaction policy.
#[derive(Clone, Debug)]
pub struct TraceQuery {
    pub start: Option<u64>,
    pub end: Option<u64>,
    pub redaction_policy: Option<String>,
}

/// A percept request: its credentials and the percept, if one was sent.
#[derive(Debug)]
pub struct AppendPerceptRequest {
    pub credential: Option<CallerCredential>,
    pub audit_attribution: Option<AuditAttribution>,
    pub percept: Option<Percept>,
}

/// What a run inspection reports.
#[derive(Clone, Copy, Debug, PartialEq, Eq, Structural)]
pub struct RunInspectResponse {
    pub run_id: RunId,
    pub tenant_id: TenantId,
    pub agent_id: AgentId,
    pub status: RunStatus,
    pub state_head: Option<StateNodeId>,
    pub ticks: u64,
    pub adapter_executions: u64,
    pub created_at: Timestamp,
    pub updated_at: Timestamp,
}

pub open spec fn inspect_of(rec: RunRecord, adapter_executions: u64) -> RunInspectResponse {
    RunInspectResponse {
        run_id: rec.run_id,
        tenant_id: rec.tenant_id,
        agent_id: rec.agent_id,
        status: rec.status,
        state_head: rec.state_head,
        ticks: rec.tick_count,
        adapter_executions,
        created_at: rec.created_at,
        updated_at: rec.updated_at,
    }
}

/// A request to submit one action through a run's gateway.
#[derive(Debug)]
pub struct SubmitActionRequest {
    pub run_id: RunId,
    pub tenant_id: TenantId,
    pub agent_id: AgentId,
    pub credential: Option<CallerCredential>,
    pub audit_attribution: Option<AuditAttribution>,
    pub causal_trace_id: Option<TraceEventId>,
    pub action: Action,
    pub adapter: Option<String>,
    pub quota_usage: Option<QuotaUsage>,
    pub satisfied_preconditions: Vec<String>,
}

pub open spec fn action_endpoint(request: SubmitActionRequest) -> DaemonEndpoint {
    DaemonEndpoint::ActionSubmit {
        tenant_id: request.tenant_id,
        run_id: request.run_id,
        trace_linked: request.causal_trace_id is Some,
        gateway_verification: GatewayVerificationState::Required,
    }
}

/// The health report.
#[derive(Debug)]
pub struct HealthResponse {
    pub status: String,
    pub local_only: bool,
    pub runtime_available: bool,
}

/// The capability report.
#[derive(Debug)]
pub struct CapabilitiesResponse {
    pub daemon_api_version: String,
    pub local_only: bool,
    pub replay_modes: Vec<String>,
    pub endpoints: Vec<String>,
}

pub open spec fn daemon_endpoints() -> Seq<Seq<char>> {
    seq![
        "POST /runs"@,
        "GET /runs/{run_id}"@,
        "POST /runs/{run_id}/start"@,
        "POST /runs/{run_id}/pause"@,
        "POST /runs/{run_id}/resume"@,
        "POST /runs/{run_id}/stop"@,
        "POST /runs/{run_id}/percepts"@,
        "GET /runs/{run_id}/state-head"@,
        "GET /runs/{run_id}/traces"@,
        "POST /runs/{run_id}/replay"@,
        "POST /actions"@,
        "GET /health"@,
        "GET /capabilities"@
    ]
}

impl DaemonState {
    /// The refusal a lifecycle request earns, in the order checked.
    pub open spec fn lifecycle_refusal(&self, run_id: RunId, kind: LifecycleKind, request: LifecycleRequest, now: Timestamp) -> Option<(u16, Seq<char>, Seq<char>)> {
        if self.lookup_refusal(run_id) is Some {
            self.lookup_refusal(run_id)
        } else {
            let rec = self.record_of(run_id);
            let sec = self.security_refusal_for(lifecycle_endpoint(kind, rec.tenant_id, run_id), request.credential,
                lifecycle_work_order(kind, request), request.audit_attribution, now);
            if sec is Some {
                sec
            } else {
                lifecycle_state_refusal(kind, rec, request)
            }
        }
    }

    /// A run is created once: after a run was created, a second creation
    /// that names the same run id is refused, whatever else it carries; once
    /// it passes the checks made before the id is looked at, the refusal is
    /// the conflict `run_already_exists`.
    pub proof fn law_second_create_refused(
        before: DaemonState, after: DaemonState,
        request: CreateRunRequest, fresh: RunId, now: Timestamp,
        again: CreateRunRequest, fresh_again: RunId, later: Timestamp,
    )
        requires
            after.records() == before.records().push(new_run_record(request, fresh, now)),
            new_run_id(again, fresh_again) == new_run_id(request, fresh),
        ensures
            after.create_refusal(again, fresh_again, later) is Some,
            after.create_precheck(again, later) is None ==> after.create_refusal(again, fresh_again, later)
                == Some((STATUS_CONFLICT, "run_already_exists"@, "run already exists in local daemon"@)),
    {
        let i = before.records().len() as int;
        assert(after.records()[i].run_id == new_run_id(again, fresh_again));
        assert(after.has_run(new_run_id(again, fresh_again)));
    }

    /// Stopped and failed runs stay down: a start or a resume of such a run
    /// is always refused.
    pub proof fn law_stopped_run_stays_down(d: DaemonState, run_id: RunId, kind: LifecycleKind, request: LifecycleRequest, now: Timestamp)
        requires
            d.has_run(run_id),
            d.record_of(run_id).status == RunStatus::Stopped || d.record_of(run_id).status == RunStatus::Failed,
            kind is Start || kind is Resume,
        ensures
            d.lifecycle_refusal(run_id, kind, request, now) is Some,
    {
    }

    /// The refusal a percept append earns, in the order checked.
    pub open spec fn percept_refusal(
        &self,
        run_id: RunId,
        percept: Option<Percept>,
        credential: Option<CallerCredential>,
        attribution: Option<AuditAttribution>,
        now: Timestamp,
    ) -> Option<(u16, Seq<char>, Seq<char>)> {
        if !self.available() {
            Some(unavailable_refusal())
        } else if percept is None {
            Some((STATUS_BAD_REQUEST, "malformed_percept"@, "percept payload is required"@))
        } else if !self.has_run(run_id) {
            Some(invalid_run_refusal())
        } else {
            self.security_refusal_for(percept_endpoint(self.record_of(run_id), run_id, percept.unwrap()), credential, None, attribution, now)
        }
    }

    /// The refusal a read of one run earns: the lookup, then the security
    /// rules for `endpoint` without credentials.
    pub open spec fn read_refusal(&self, run_id: RunId, endpoint: DaemonEndpoint, credential: Option<CallerCredential>, now: Timestamp) -> Option<(u16, Seq<char>, Seq<char>)> {
        if self.lookup_refusal(run_id) is Some {
            self.lookup_refusal(run_id)
        } else {
            self.security_refusal_for(endpoint, credential, None, None, now)
        }
    }

    /// The refusal an action submission earns, in the order checked.
    pub open spec fn action_refusal(&self, request: SubmitActionRequest, now: Timestamp) -> Option<(u16, Seq<char>, Seq<char>)> {
        if self.lookup_refusal(request.run_id) is Some {
            self.lookup_refusal(request.run_id)
        } else if request.tenant_id != self.record_of(request.run_id).tenant_id || request.agent_id != self.record_of(request.run_id).agent_id {
            Some((STATUS_FORBIDDEN, "wrong_scope"@, "action tenant or agent does not match the run"@))
        } else {
            self.security_refusal_for(action_endpoint(request), request.credential, None, request.audit_attribution, now)
        }
    }

    /// Checks a lifecycle request and returns the run's position.
    pub fn authorize_lifecycle(&self, run_id: &RunId, kind: LifecycleKind, request: &LifecycleRequest, now: Timestamp) -> (r: Result<usize, ApiError>)
        requires
            self.wf(),
        ensures
            r is Ok <==> self.lifecycle_refusal(*run_id, kind, *request, now) is None,
            r matches Err(e) ==> self.lifecycle_refusal(*run_id, kind, *request, now) == Some(refusal_of(e)),
            r matches Ok(i) ==> i < self.records().len() && self.records()[i as int] == self.record_of(*run_id),
    {
        let i = self.lookup(run_id)?;
        let rec = &self.runs[i];
        let endpoint = match kind {
            LifecycleKind::Start => DaemonEndpoint::RunStart { tenant_id: rec.tenant_id, run_id: *run_id },
            LifecycleKind::Pause => DaemonEndpoint::RunPause { tenant_id: rec.tenant_id, run_id: *run_id },
            LifecycleKind::Resume => DaemonEndpoint::RunResume { tenant_id: rec.tenant_id, run_id: *run_id },
            LifecycleKind::Stop => DaemonEndpoint::RunStop { tenant_id: rec.tenant_id, run_id: *run_id },
        };
        let credential = match &request.credential {
            Some(c) => Some(c),
            None => None,
        };
        let attribution = match &request.audit_attribution {
            Some(a) => Some(a),
            None => None,
        };
        let work_order = match kind {
            LifecycleKind::Start | LifecycleKind::Resume => match &request.work_order {
                Some(w) => Some(w),
                None => None,
            },
            _ => None,
        };
        self.validate_security(&endpoint, credential, work_order, attribution, now)?;
        if kind == LifecycleKind::Resume {
            let matches_agent = match &request.work_order {
                Some(w) => w.agent_id == rec.agent_id,
                None => false,
            };
            if !matches_agent {
                return Err(ApiError::new(STATUS_FORBIDDEN, "incompatible_work_order", "resume work order agent does not match the run agent"));
            }
            if rec.status != RunStatus::Paused {
                return Err(ApiError::new(STATUS_CONFLICT, "invalid_run_state", "run must be paused before resume"));
            }
        }
        if (kind == LifecycleKind::Start || kind == LifecycleKind::Resume)
            && (rec.status == RunStatus::Stopped || rec.status == RunStatus::Failed) {
            return Err(ApiError::new(STATUS_CONFLICT, "invalid_run_state", "stopped or failed runs cannot be started"));
        }
        Ok(i)
    }

    /// Sets a run's status, stamping the update.
    pub fn set_status(&mut self, index: usize, status: RunStatus, now: Timestamp)
        requires
            old(self).wf(),
            index < old(self).records().len(),
        ensures
            final(self).wf(),
            final(self).settings() == old(self).settings(),
            final(self).available() == old(self).available(),
            final(self).records() == old(self).records().update(index as int,
                RunRecord { status, updated_at: now, ..old(self).records()[index as int] }),
    {
        self.runs[index].status = status;
        self.runs[index].updated_at = now;
        proof {
            assert forall|i: int, j: int| 0 <= i < j < self.records().len()
                implies (#[trigger] self.records()[i]).run_id != (#[trigger] self.records()[j]).run_id by {
                assert(self.records()[i].run_id == old(self).records()[i].run_id);
                assert(self.records()[j].run_id == old(self).records()[j].run_id);
            }
        }
    }

    /// Stamps an update of a run.
    pub fn touch(&mut self, index: usize, now: Timestamp)
        requires
            old(self).wf(),
            index < old(self).records().len(),
        ensures
            final(self).wf(),
            final(self).settings() == old(self).settings(),
            final(self).available() == old(self).available(),
            final(self).records() == old(self).records().update(index as int,
                RunRecord { updated_at: now, ..old(self).records()[index as int] }),
    {
        self.runs[index].updated_at = now;
        proof {
            assert forall|i: int, j: int| 0 <= i < j < self.records().len()
                implies (#[trigger] self.records()[i]).run_id != (#[trigger] self.records()[j]).run_id by {
                assert(self.records()[i].run_id == old(self).records()[i].run_id);
                assert(self.records()[j].run_id == old(self).records()[j].run_id);
            }
        }
    }

    /// Records the end of a tick: a committed state moves the run's head,
    /// counts the tick (saturating) and leaves the run running; a failed
    /// tick fails the run.
    pub fn finish_tick(&mut self, index: usize, committed: Option<StateNodeId>, now: Timestamp)
        requires
            old(self).wf(),
            index < old(self).records().len(),
        ensures
            final(self).wf(),
            final(self).settings() == old(self).settings(),
            final(self).available() == old(self).available(),
            committed matches Some(node) ==> final(self).records() == old(self).records().update(index as int,
                RunRecord {
                    state_head: Some(node),
                    tick_count: if old(self).records()[index as int].tick_count == u64::MAX { u64::MAX } else { (old(self).records()[index as int].tick_count + 1) as u64 },
                    status: RunStatus::Running,
                    updated_at: now,
                    ..old(self).records()[index as int]
                }),
            committed is None ==> final(self).records() == old(self).records().update(index as int,
                RunRecord { status: RunStatus::Failed, updated_at: now, ..old(self).records()[index as int] }),
    {
        match committed {
            Some(node) => {
                let ticks = self.runs[index].tick_count.saturating_add(1);
                self.runs[index].state_head = Some(node);
                self.runs[index].tick_count = ticks;
                self.runs[index].status = RunStatus::Running;
                self.runs[index].updated_at = now;
            },
            None => {
                self.runs[index].status = RunStatus::Failed;
                self.runs[index].updated_at = now;
            },
        }
        proof {
            assert forall|i: int, j: int| 0 <= i < j < self.records().len()
                implies (#[trigger] self.records()[i]).run_id != (#[trigger] self.records()[j]).run_id by {
                assert(self.records()[i].run_id == old(self).records()[i].run_id);
                assert(self.records()[j].run_id == old(self).records()[j].run_id);
            }
        }
    }

    /// Ends a tick that committed `committed` and answers with the run's
    /// new status, the tick and what became of its actions.
    pub fn complete_tick(&mut self, index: usize, tick_id: u64, committed: StateNodeId, action_outcomes: Vec<ActionOutcome>, now: Timestamp) -> (r: TickResponse)
        requires
            old(self).wf(),
            index < old(self).records().len(),
        ensures
            final(self).wf(),
            final(self).settings() == old(self).settings(),
            final(self).available() == old(self).available(),
            final(self).records() == old(self).records().update(index as int, after_tick(old(self).records()[index as int], committed, now)),
            r.run_id == old(self).records()[index as int].run_id,
            r.status == RunStatus::Running,
            r.tick_id == tick_id,
            r.state_node_id == committed,
            r.action_outcomes == action_outcomes,
    {
        self.finish_tick(index, Some(committed), now);
        TickResponse {
            run_id: self.runs[index].run_id,
            status: self.runs[index].status,
            tick_id,
            state_node_id: committed,
            action_outcomes,
        }
    }

    /// Checks a percept append and returns the run's position.
    pub fn authorize_percept(
        &self,
        run_id: &RunId,
        percept: Option<&Percept>,
        credential: Option<&CallerCredential>,
        attribution: Option<&AuditAttribution>,
        now: Timestamp,
    ) -> (r: Result<usize, ApiError>)
        requires
            self.wf(),
        ensures
            r is Ok <==> self.percept_refusal(*run_id, opt_ref(percept), opt_ref(credential), opt_ref(attribution), now) is None,
            r matches Err(e) ==> self.percept_refusal(*run_id, opt_ref(percept), opt_ref(credential), opt_ref(attribution), now) == Some(refusal_of(e)),
            r matches Ok(i) ==> i < self.records().len() && self.records()[i as int] == self.record_of(*run_id),
    {
        self.ensure_runtime_available()?;
        let p = match percept {
            Some(p) => p,
            None => return Err(ApiError::new(STATUS_BAD_REQUEST, "malformed_percept", "percept payload is required")),
        };
        let i = self.run_index(run_id)?;
        let rec = &self.runs[i];
        let endpoint = DaemonEndpoint::PerceptAppend {
            tenant_id: rec.tenant_id,
            run_id: *run_id,
            schema: p.schema.clone(),
            provenance_source: p.provenance.source.clone(),
            allowed_schemas: copy_strings(&rec.allowed_percept_schemas),
            allowed_provenance_sources: copy_strings(&rec.allowed_percept_sources),
        };
        proof {
            let spec_e = percept_endpoint(*rec, *run_id, *p);
            assert(endpoint_error(endpoint) == endpoint_error(spec_e));
            assert(security_error(endpoint, opt_ref(credential), self.settings().expected_audience, None, opt_ref(attribution), self.settings().insecure_dev_mode, now)
                == security_error(spec_e, opt_ref(credential), self.settings().expected_audience, None, opt_ref(attribution), self.settings().insecure_dev_mode, now));
        }
        self.validate_security(&endpoint, credential, None, attribution, now)?;
        Ok(i)
    }

    /// Checks a read of a run's state head and returns the head.
    pub fn state_head(&self, run_id: &RunId, now: Timestamp) -> (r: Result<StateNodeId, ApiError>)
        requires
            self.wf(),
        ensures
            r is Ok <==> ({
                let refusal = self.read_refusal(*run_id, DaemonEndpoint::StateHeadRead { tenant_id: self.record_of(*run_id).tenant_id, run_id: *run_id }, None, now);
                refusal is None && self.record_of(*run_id).state_head is Some
            }),
            r matches Ok(h) ==> self.record_of(*run_id).state_head == Some(h),
            r matches Err(e) ==> ({
                let refusal = self.read_refusal(*run_id, DaemonEndpoint::StateHeadRead { tenant_id: self.record_of(*run_id).tenant_id, run_id: *run_id }, None, now);
                refusal == Some(refusal_of(e))
                    || (refusal is None && refusal_of(e) == (STATUS_NOT_FOUND, "state_head_not_found"@, "run has not committed state yet"@))
            }),
    {
        let i = self.lookup(run_id)?;
        let endpoint = DaemonEndpoint::StateHeadRead { tenant_id: self.runs[i].tenant_id, run_id: *run_id };
        self.validate_security(&endpoint, None, None, None, now)?;
        match self.runs[i].state_head {
            Some(h) => Ok(h),
            None => Err(ApiError::new(STATUS_NOT_FOUND, "state_head_not_found", "run has not committed state yet")),
        }
    }

    /// Checks a trace read and returns the run's position.
    pub fn authorize_traces(&self, run_id: &RunId, redaction_policy: Option<String>, now: Timestamp) -> (r: Result<usize, ApiError>)
        requires
            self.wf(),
        ensures
            r is Ok <==> self.read_refusal(*run_id, DaemonEndpoint::TraceRead { tenant_id: self.record_of(*run_id).tenant_id, run_id: *run_id, redaction_policy }, None, now) is None,
            r matches Err(e) ==> self.read_refusal(*run_id, DaemonEndpoint::TraceRead { tenant_id: self.record_of(*run_id).tenant_id, run_id: *run_id, redaction_policy }, None, now) == Some(refusal_of(e)),
            r matches Ok(i) ==> i < self.records().len() && self.records()[i as int] == self.record_of(*run_id),
    {
        let i = self.lookup(run_id)?;
        let endpoint = DaemonEndpoint::TraceRead { tenant_id: self.runs[i].tenant_id, run_id: *run_id, redaction_policy };
        self.validate_security(&endpoint, None, None, None, now)?;
        Ok(i)
    }

    /// Checks a replay request and returns the run's position.
    pub fn authorize_replay(&self, run_id: &RunId, request: &ReplayRequest, now: Timestamp) -> (r: Result<usize, ApiError>)
        requires
            self.wf(),
        ensures
            r is Ok <==> self.read_refusal(*run_id, DaemonEndpoint::ReplayCreate { tenant_id: self.record_of(*run_id).tenant_id, run_id: *run_id }, request.credential, now) is None,
            r matches Err(e) ==> self.read_refusal(*run_id, DaemonEndpoint::ReplayCreate { tenant_id: self.record_of(*run_id).tenant_id, run_id: *run_id }, request.credential, now) == Some(refusal_of(e)),
            r matches Ok(i) ==> i < self.records().len() && self.records()[i as int] == self.record_of(*run_id),
    {
        let i = self.lookup(run_id)?;
        let endpoint = DaemonEndpoint::ReplayCreate { tenant_id: self.runs[i].tenant_id, run_id: *run_id };
        let credential = match &request.credential {
            Some(c) => Some(c),
            None => None,
        };
        self.validate_security(&endpoint, credential, None, None, now)?;
        Ok(i)
    }

    /// The inspection report of the run at `index`.
    pub fn inspect_response(&self, index: usize, adapter_executions: u64) -> (r: RunInspectResponse)
        requires
            index < self.records().len(),
        ensures
            r == inspect_of(self.records()[index as int], adapter_executions),
    {
        let rec = &self.runs[index];
        RunInspectResponse {
            run_id: rec.run_id,
            tenant_id: rec.tenant_id,
            agent_id: rec.agent_id,
            status: rec.status,
            state_head: rec.state_head,
            ticks: rec.tick_count,
            adapter_executions,
            created_at: rec.created_at,
            updated_at: rec.updated_at,
        }
    }

    /// Inspects a run.
    pub fn inspect_run(&self, run_id: &RunId, adapter_executions: u64, now: Timestamp) -> (r: Result<RunInspectResponse, ApiError>)
        requires
            self.wf(),
        ensures
            r is Ok <==> self.read_refusal(*run_id, DaemonEndpoint::RunInspect { tenant_id: self.record_of(*run_id).tenant_id, run_id: *run_id }, None, now) is None,
            r matches Err(e) ==> self.read_refusal(*run_id, DaemonEndpoint::RunInspect { tenant_id: self.record_of(*run_id).tenant_id, run_id: *run_id }, None, now) == Some(refusal_of(e)),
            r matches Ok(resp) ==> resp == inspect_of(self.record_of(*run_id), adapter_executions),
    {
        let i = self.lookup(run_id)?;
        let endpoint = DaemonEndpoint::RunInspect { tenant_id: self.runs[i].tenant_id, run_id: *run_id };
        self.validate_security(&endpoint, None, None, None, now)?;
        Ok(self.inspect_response(i, adapter_executions))
    }

    /// Checks an action submission and returns the run's position.
    pub fn authorize_action(&self, request: &SubmitActionRequest, now: Timestamp) -> (r: Result<usize, ApiError>)
        requires
            self.wf(),
        ensures
            r is Ok <==> self.action_refusal(*request, now) is None,
            r matches Err(e) ==> self.action_refusal(*request, now) == Some(refusal_of(e)),
            r matches Ok(i) ==> i < self.records().len() && self.records()[i as int] == self.record_of(request.run_id),
    {
        let i = self.lookup(&request.run_id)?;
        if request.tenant_id != self.runs[i].tenant_id || request.agent_id != self.runs[i].agent_id {
            return Err(ApiError::new(STATUS_FORBIDDEN, "wrong_scope", "action tenant or agent does not match the run"));
        }
        let endpoint = DaemonEndpoint::ActionSubmit {
            tenant_id: request.tenant_id,
            run_id: request.run_id,
            trace_linked: request.causal_trace_id.is_some(),
            gateway_verification: GatewayVerificationState::Required,
        };
        let credential = match &request.credential {
            Some(c) => Some(c),
            None => None,
        };
        let attribution = match &request.audit_attribution {
            Some(a) => Some(a),
            None => None,
        };
        self.validate_security(&endpoint, credential, None, attribution, now)?;
        Ok(i)
    }

    /// Reports health; the runtime's availability does not gate it.
    pub fn health(&self, now: Timestamp) -> (r: Result<HealthResponse, ApiError>)
        ensures
            r is Ok <==> self.security_refusal_for(DaemonEndpoint::Health, None, None, None, now) is None,
            r matches Err(e) ==> self.security_refusal_for(DaemonEndpoint::Health, None, None, None, now) == Some(refusal_of(e)),
            r matches Ok(h) ==> h.status@ == (if self.available() { "ok"@ } else { "unavailable"@ }) && h.local_only
                && h.runtime_available == self.available(),
    {
        self.validate_security(&DaemonEndpoint::Health, None, None, None, now)?;
        let status = if self.runtime_available { String::from_str("ok") } else { String::from_str("unavailable") };
        Ok(HealthResponse { status, local_only: true, runtime_available: self.runtime_available })
    }

    /// Reports the daemon's API version, replay modes and endpoints.
    pub fn capabilities(&self, now: Timestamp) -> (r: Result<CapabilitiesResponse, ApiError>)
        ensures
            r is Ok <==> self.security_refusal_for(DaemonEndpoint::Capabilities, None, None, None, now) is None,
            r matches Err(e) ==> self.security_refusal_for(DaemonEndpoint::Capabilities, None, None, None, now) == Some(refusal_of(e)),
            r matches Ok(c) ==> c.daemon_api_version@ == "0.02-S5"@ && c.local_only
                && strs(c.replay_modes@) == seq!["inspect_only"@] && strs(c.endpoints@) == daemon_endpoints(),
    {
        self.validate_security(&DaemonEndpoint::Capabilities, None, None, None, now)?;
        let mut replay_modes: Vec<String> = Vec::new();
        replay_modes.push(String::from_str("inspect_only"));
        let mut endpoints: Vec<String> = Vec::new();
        endpoints.push(String::from_str("POST /runs"));
        endpoints.push(String::from_str("GET /runs/{run_id}"));
        endpoints.push(String::from_str("POST /runs/{run_id}/start"));
        endpoints.push(String::from_str("POST /runs/{run_id}/pause"));
        endpoints.push(String::from_str("POST /runs/{run_id}/resume"));
        endpoints.push(String::from_str("POST /runs/{run_id}/stop"));
        endpoints.push(String::from_str("POST /runs/{run_id}/percepts"));
        endpoints.push(String::from_str("GET /runs/{run_id}/state-head"));
        endpoints.push(String::from_str("GET /runs/{run_id}/traces"));
        endpoints.push(String::from_str("POST /runs/{run_id}/replay"));
        endpoints.push(String::from_str("POST /actions"));
        endpoints.push(String::from_str("GET /health"));
        endpoints.push(String::from_str("GET /capabilities"));
        proof {
            assert(strs(replay_modes@) =~= seq!["inspect_only"@]);
            assert(strs(endpoints@) =~= daemon_endpoints());
        }
        Ok(CapabilitiesResponse {
            daemon_api_version: String::from_str("0.02-S5"),
            local_only: true,
            replay_modes,
            endpoints,
        })
    }
}

/// The gateway request an action submission becomes: one action of usage
/// unless the request states its usage.
pub fn action_request(request: SubmitActionRequest, action_id: ActionId, now: Timestamp) -> (r: ActionRequest)
    ensures
        r.action_id == action_id,
        r.tenant_id == request.tenant_id,
        r.agent_id == request.agent_id,
        r.run_id == request.run_id,
        r.action == request.action,
        r.adapter == request.adapter,
        request.quota_usage matches Some(u) ==> r.quota_usage == u,
        request.quota_usage is None ==> r.quota_usage == (QuotaUsage { actions: 1, ..crate::quota::zero_usage() }),
        r.satisfied_preconditions == request.satisfied_preconditions,
        r.requested_at == now,
        r.approval_evidence is None,
{
    let quota_usage = match request.quota_usage {
        Some(u) => u,
        None => QuotaUsage::single_action(),
    };
    ActionRequest {
        action_id,
        tenant_id: request.tenant_id,
        agent_id: request.agent_id,
        run_id: request.run_id,
        action: request.action,
        adapter: request.adapter,
        quota_usage,
        satisfied_preconditions: request.satisfied_preconditions,
        requested_at: now,
        approval_evidence: None,
    }
}

/// The error text a failed action is recorded with.
pub open spec fn failure_text(outcome: ActionOutcome) -> Seq<char> {
    match outcome.error {
        Some(e) => e@,
        None => "action_failed"@,
    }
}

/// The verification a failed action is recorded with: the post-execution
/// one when there is one.
pub open spec fn failure_verification(outcome: ActionOutcome) -> crate::verification::VerificationResult {
    match outcome.post_verification {
        Some(p) => p,
        None => outcome.verification,
    }
}

fn causal_json(causal: Option<TraceEventId>) -> (r: Json)
    ensures
        r is Null <==> causal is None,
{
    match causal {
        Some(id) => {
            let run = uuid_string(id.run_id.value);
            let seq = crate::textual::u64_text(id.sequence);
            Json::Str(run.concat("/").concat(seq.as_str()))
        },
        None => Json::Null,
    }
}

/// The events an action submission records, in order: verification started,
/// verification completed, what became of the action, and the recorded
/// outcome (its source, causal trace link and the gateway's outcome).
pub fn action_events(action_name: &String, outcome: &ActionOutcome, causal_trace_id: Option<TraceEventId>) -> (r: Vec<TraceEventKind>)
    ensures
        r@.len() == 4,
        r@[0] matches TraceEventKind::ActionVerificationStarted { action } && action@ == action_name@,
        r@[1] matches TraceEventKind::ActionVerificationCompleted { action, result } && action@ == action_name@
            && result.allowed == outcome.verification.allowed && strs(result.reasons@) == strs(outcome.verification.reasons@),
        outcome.status == ActionStatus::Executed ==> r@[2] is ActionExecuted,
        outcome.status == ActionStatus::Denied ==> r@[2] is ActionDenied,
        outcome.status == ActionStatus::NeedsApproval ==> r@[2] is ActionNeedsApproval,
        outcome.status == ActionStatus::NeedsIntervention ==> r@[2] is ActionNeedsIntervention,
        outcome.status == ActionStatus::Failed ==> r@[2] is ActionFailed,
        r@[2] matches TraceEventKind::ActionExecuted { action, outcome: o } ==> action@ == action_name@
            && (outcome.output is None ==> o is Null)
            && (outcome.output matches Some(v) ==> crate::json::json_same(o, v)),
        r@[2] matches TraceEventKind::ActionDenied { action, result } ==> action@ == action_name@
            && result.allowed == outcome.verification.allowed && strs(result.reasons@) == strs(outcome.verification.reasons@),
        r@[2] matches TraceEventKind::ActionNeedsApproval { action, result } ==> action@ == action_name@
            && result.allowed == outcome.verification.allowed && strs(result.reasons@) == strs(outcome.verification.reasons@),
        r@[2] matches TraceEventKind::ActionNeedsIntervention { action, result } ==> action@ == action_name@
            && result.allowed == outcome.verification.allowed && strs(result.reasons@) == strs(outcome.verification.reasons@),
        r@[2] matches TraceEventKind::ActionFailed { action, error, result } ==> action@ == action_name@
            && error@ == failure_text(*outcome)
            && result.allowed == failure_verification(*outcome).allowed
            && strs(result.reasons@) == strs(failure_verification(*outcome).reasons@),
        r@[3] is OutcomeRecorded,
        r@[3] matches TraceEventKind::OutcomeRecorded { outcome: j } ==> json_get(j, "source"@) is Some
            && json_str(json_get(j, "source"@).unwrap()) == Some("daemon.action"@)
            && json_get(j, "causal_trace_id"@) is Some
            && (json_get(j, "causal_trace_id"@).unwrap() is Null <==> causal_trace_id is None)
            && json_get(j, "action_outcome"@) is Some,
{
    let mut events: Vec<TraceEventKind> = Vec::new();
    events.push(TraceEventKind::ActionVerificationStarted { action: action_name.clone() });
    events.push(TraceEventKind::ActionVerificationCompleted { action: action_name.clone(), result: outcome.verification.duplicate() });
    let third = match outcome.status {
        ActionStatus::Executed => {
            let o = match &outcome.output {
                Some(v) => crate::json::copy_json(v),
                None => Json::Null,
            };
            TraceEventKind::ActionExecuted { action: action_name.clone(), outcome: o }
        },
        ActionStatus::Denied => TraceEventKind::ActionDenied { action: action_name.clone(), result: outcome.verification.duplicate() },
        ActionStatus::NeedsApproval => TraceEventKind::ActionNeedsApproval { action: action_name.clone(), result: outcome.verification.duplicate() },
        ActionStatus::NeedsIntervention => TraceEventKind::ActionNeedsIntervention { action: action_name.clone(), result: outcome.verification.duplicate() },
        ActionStatus::Failed => {
            let error = match &outcome.error {
                Some(e) => e.clone(),
                None => String::from_str("action_failed"),
            };
            let result = match &outcome.post_verification {
                Some(p) => p.duplicate(),
                None => outcome.verification.duplicate(),
            };
            TraceEventKind::ActionFailed { action: action_name.clone(), error, result }
        },
    };
    events.push(third);
    let mut entries: Vec<(String, Json)> = Vec::new();
    entries.push((String::from_str("source"), Json::Str(String::from_str("daemon.action"))));
    entries.push((String::from_str("causal_trace_id"), causal_json(causal_trace_id)));
    entries.push((String::from_str("action_outcome"), outcome_json(outcome)));
    proof {
        reveal_strlit("source");
        reveal_strlit("causal_trace_id");
        reveal_strlit("action_outcome");
        assert("source"@ != "causal_trace_id"@) by { assert("source"@[0] != "causal_trace_id"@[0]); }
        assert("source"@ != "action_outcome"@) by { assert("source"@[0] != "action_outcome"@[0]); }
        assert("causal_trace_id"@ != "action_outcome"@) by { assert("causal_trace_id"@[0] != "action_outcome"@[0]); }
        let m = entries@;
        assert(m.subrange(1, 3).subrange(1, 2) =~= m.subrange(2, 3));
        assert(m.subrange(2, 3).subrange(1, 1) =~= Seq::<(String, Json)>::empty());
        assert(m.subrange(0, 3) =~= m);
        assert(crate::json::entries_get(m.subrange(2, 3), "action_outcome"@) == Some(m[2].1));
        assert(crate::json::entries_get(m.subrange(1, 3), "action_outcome"@) == Some(m[2].1));
        assert(crate::json::entries_get(m, "action_outcome"@) == Some(m[2].1));
        assert(crate::json::entries_get(m.subrange(1, 3), "causal_trace_id"@) == Some(m[1].1));
        assert(crate::json::entries_get(m, "causal_trace_id"@) == Some(m[1].1));
        assert(crate::json::entries_get(m, "source"@) == Some(m[0].1));
    }
    events.push(TraceEventKind::OutcomeRecorded { outcome: Json::Object(entries) });
    events
}

/// A stopped or failed run is never started or resumed again.
pub proof fn lemma_terminal_runs_do_not_tick(d: DaemonState, run_id: RunId, kind: LifecycleKind, request: LifecycleRequest, now: Timestamp)
    requires
        d.has_run(run_id),
        d.record_of(run_id).status == RunStatus::Stopped || d.record_of(run_id).status == RunStatus::Failed,
        kind is Start || kind is Resume,
    ensures
        d.lifecycle_refusal(run_id, kind, request, now) is Some,
{
}

/// Only a paused run resumes, and only under a work order for its agent.
pub proof fn lemma_resume_requires_pause(d: DaemonState, run_id: RunId, request: LifecycleRequest, now: Timestamp)
    requires
        d.lifecycle_refusal(run_id, LifecycleKind::Resume, request, now) is None,
    ensures
        d.has_run(run_id),
        d.record_of(run_id).status == RunStatus::Paused,
        resume_agent_matches(request, d.record_of(run_id)),
{
}

/// A run already held is never created twice.
pub proof fn lemma_no_duplicate_runs(d: DaemonState, request: CreateRunRequest, fresh: RunId, now: Timestamp)
    requires
        d.has_run(new_run_id(request, fresh)),
    ensures
        d.create_refusal(request, fresh, now) is Some,
{
}

} // verus!
