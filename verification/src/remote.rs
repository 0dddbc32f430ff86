//! Messages between instances: the envelope a message travels in, the
//! receiving boundary that checks remote authority and bridges accepted
//! messages into the local target inbox, an in-memory transport with
//! deterministic faults, and sending with retries that are only taken when
//! the envelope declares them safe.

use vstd::prelude::*;
use crate::clock::Timestamp;
use crate::ids::{MessageId, TenantId};
use crate::message::{MessageEnvelope, MessageTraceContext, MessageValidationError, RemoteMessageTraceContext, message_validation, validation_text};
use crate::message_router::{LocalMessageRouter, MessageRouterError, context_of, router_error_text};
use crate::state::{WorkOrderAuthorization, blank, is_blank};
use crate::textual::{uuid_string, uuid_text};
use crate::trace::{MessageTraceRecorder, TraceEventKind};

verus! {

/// Whether a failed attempt may be repeated.
#[derive(Debug)]
pub enum RemoteMessageRetryPolicy {
    /// Never retried.
    Never,
    /// Retried up to `max_attempts` attempts in all, under `idempotency_key`.
    Idempotent { max_attempts: u32, idempotency_key: String },
}

/// A local message wrapped for another instance, with the remote authority
/// that carries it.
#[derive(Debug)]
pub struct RemoteMessageEnvelope {
    pub tenant_id: TenantId,
    pub source_instance_id: String,
    pub target_instance_id: String,
    pub work_order: WorkOrderAuthorization,
    pub message_envelope: MessageEnvelope,
    pub retry_policy: RemoteMessageRetryPolicy,
    pub attempt: u32,
    pub created_at: Timestamp,
    pub expires_at: Option<Timestamp>,
}

/// Why a remote envelope is refused before any delivery.
#[derive(Clone, Copy, Debug, PartialEq, Eq, Structural)]
pub enum RemoteMessageValidationError {
    BlankSourceInstance,
    BlankTargetInstance,
    InvalidMessage(MessageValidationError),
    UnsignedWorkOrder,
    WorkOrderTenantMismatch,
    WorkOrderRunMismatch,
    InvalidAttempt,
    BlankIdempotencyKey,
    Expired,
}

/// The first check a remote envelope fails at `now`, in the order applied:
/// both instance ids are present; the message is valid; the work order is
/// signed, for the envelope's tenant and for the message's run when it names
/// one; the attempt number lies within the retry policy; an idempotent
/// policy has a key; the envelope has not expired.
pub open spec fn remote_validation(e: RemoteMessageEnvelope, now: Timestamp) -> Option<RemoteMessageValidationError> {
    if blank(e.source_instance_id@) {
        Some(RemoteMessageValidationError::BlankSourceInstance)
    } else if blank(e.target_instance_id@) {
        Some(RemoteMessageValidationError::BlankTargetInstance)
    } else if message_validation(e.message_envelope.message) is Some {
        Some(RemoteMessageValidationError::InvalidMessage(message_validation(e.message_envelope.message).unwrap()))
    } else if e.work_order.signature is None {
        Some(RemoteMessageValidationError::UnsignedWorkOrder)
    } else if e.work_order.tenant_id != e.tenant_id {
        Some(RemoteMessageValidationError::WorkOrderTenantMismatch)
    } else if e.work_order.run_id is Some && e.work_order.run_id != Some(e.message_envelope.message.run_id) {
        Some(RemoteMessageValidationError::WorkOrderRunMismatch)
    } else if e.attempt == 0 || (e.retry_policy matches RemoteMessageRetryPolicy::Idempotent { max_attempts, .. } && e.attempt > max_attempts) {
        Some(RemoteMessageValidationError::InvalidAttempt)
    } else if e.retry_policy matches RemoteMessageRetryPolicy::Idempotent { idempotency_key, .. } && blank(idempotency_key@) {
        Some(RemoteMessageValidationError::BlankIdempotencyKey)
    } else if e.expires_at matches Some(t) && t.unix_nanos <= now.unix_nanos {
        Some(RemoteMessageValidationError::Expired)
    } else {
        None
    }
}

pub open spec fn remote_validation_text(e: RemoteMessageValidationError) -> Seq<char> {
    match e {
        RemoteMessageValidationError::BlankSourceInstance => "source_instance_id must not be empty"@,
        RemoteMessageValidationError::BlankTargetInstance => "target_instance_id must not be empty"@,
        RemoteMessageValidationError::InvalidMessage(m) => "message is invalid: "@ + validation_text(m),
        RemoteMessageValidationError::UnsignedWorkOrder => "work order must be signed"@,
        RemoteMessageValidationError::WorkOrderTenantMismatch => "work order tenant does not match the envelope tenant"@,
        RemoteMessageValidationError::WorkOrderRunMismatch => "work order run does not match the message run"@,
        RemoteMessageValidationError::InvalidAttempt => "attempt is outside the retry policy"@,
        RemoteMessageValidationError::BlankIdempotencyKey => "idempotent retry requires an idempotency key"@,
        RemoteMessageValidationError::Expired => "remote message envelope expired"@,
    }
}

impl RemoteMessageValidationError {
    pub fn message(&self) -> (r: String)
        ensures
            r@ == remote_validation_text(*self),
    {
        match self {
            RemoteMessageValidationError::BlankSourceInstance => String::from_str("source_instance_id must not be empty"),
            RemoteMessageValidationError::BlankTargetInstance => String::from_str("target_instance_id must not be empty"),
            RemoteMessageValidationError::InvalidMessage(m) => String::from_str("message is invalid: ").concat(m.message().as_str()),
            RemoteMessageValidationError::UnsignedWorkOrder => String::from_str("work order must be signed"),
            RemoteMessageValidationError::WorkOrderTenantMismatch => String::from_str("work order tenant does not match the envelope tenant"),
            RemoteMessageValidationError::WorkOrderRunMismatch => String::from_str("work order run does not match the message run"),
            RemoteMessageValidationError::InvalidAttempt => String::from_str("attempt is outside the retry policy"),
            RemoteMessageValidationError::BlankIdempotencyKey => String::from_str("idempotent retry requires an idempotency key"),
            RemoteMessageValidationError::Expired => String::from_str("remote message envelope expired"),
        }
    }
}

/// The envelope may be sent again after its current attempt fails.
pub open spec fn can_retry(e: RemoteMessageEnvelope) -> bool {
    e.retry_policy matches RemoteMessageRetryPolicy::Idempotent { max_attempts, .. } && e.attempt < max_attempts
}

impl RemoteMessageEnvelope {
    /// Checks the envelope at `now`.
    pub fn validate_at(&self, now: Timestamp) -> (r: Result<(), RemoteMessageValidationError>)
        ensures
            r is Ok <==> remote_validation(*self, now) is None,
            r matches Err(e) ==> remote_validation(*self, now) == Some(e),
    {
        if is_blank(&self.source_instance_id) {
            return Err(RemoteMessageValidationError::BlankSourceInstance);
        }
        if is_blank(&self.target_instance_id) {
            return Err(RemoteMessageValidationError::BlankTargetInstance);
        }
        if let Err(m) = self.message_envelope.validate() {
            return Err(RemoteMessageValidationError::InvalidMessage(m));
        }
        if self.work_order.signature.is_none() {
            return Err(RemoteMessageValidationError::UnsignedWorkOrder);
        }
        if self.work_order.tenant_id != self.tenant_id {
            return Err(RemoteMessageValidationError::WorkOrderTenantMismatch);
        }
        if let Some(r) = self.work_order.run_id {
            if r != self.message_envelope.message.run_id {
                return Err(RemoteMessageValidationError::WorkOrderRunMismatch);
            }
        }
        if self.attempt == 0 {
            return Err(RemoteMessageValidationError::InvalidAttempt);
        }
        if let RemoteMessageRetryPolicy::Idempotent { max_attempts, idempotency_key } = &self.retry_policy {
            if self.attempt > *max_attempts {
                return Err(RemoteMessageValidationError::InvalidAttempt);
            }
            if is_blank(idempotency_key) {
                return Err(RemoteMessageValidationError::BlankIdempotencyKey);
            }
        }
        if let Some(t) = self.expires_at {
            if t.unix_nanos <= now.unix_nanos {
                return Err(RemoteMessageValidationError::Expired);
            }
        }
        Ok(())
    }

    /// Whether the envelope may be sent again after its current attempt.
    pub fn can_retry_after_current_attempt(&self) -> (r: bool)
        ensures
            r == can_retry(*self),
    {
        match &self.retry_policy {
            RemoteMessageRetryPolicy::Never => false,
            RemoteMessageRetryPolicy::Idempotent { max_attempts, .. } => self.attempt < *max_attempts,
        }
    }

    /// Copies this envelope.
    pub fn duplicate(&self) -> (r: RemoteMessageEnvelope)
        ensures
            remote_same(r, *self),
    {
        RemoteMessageEnvelope {
            tenant_id: self.tenant_id,
            source_instance_id: self.source_instance_id.clone(),
            target_instance_id: self.target_instance_id.clone(),
            work_order: self.work_order.clone(),
            message_envelope: self.message_envelope.duplicate(),
            retry_policy: match &self.retry_policy {
                RemoteMessageRetryPolicy::Never => RemoteMessageRetryPolicy::Never,
                RemoteMessageRetryPolicy::Idempotent { max_attempts, idempotency_key } =>
                    RemoteMessageRetryPolicy::Idempotent { max_attempts: *max_attempts, idempotency_key: idempotency_key.clone() },
            },
            attempt: self.attempt,
            created_at: self.created_at,
            expires_at: self.expires_at,
        }
    }
}

/// Two envelopes carry the same message, instances, policy and attempt.
pub open spec fn remote_same(a: RemoteMessageEnvelope, b: RemoteMessageEnvelope) -> bool {
    &&& a.tenant_id == b.tenant_id
    &&& a.source_instance_id@ == b.source_instance_id@
    &&& a.target_instance_id@ == b.target_instance_id@
    &&& crate::message::env_view(a.message_envelope) == crate::message::env_view(b.message_envelope)
    &&& a.message_envelope.message.schema@ == b.message_envelope.message.schema@
    &&& a.message_envelope.message.created_at == b.message_envelope.message.created_at
    &&& match (a.retry_policy, b.retry_policy) {
        (RemoteMessageRetryPolicy::Never, RemoteMessageRetryPolicy::Never) => true,
        (RemoteMessageRetryPolicy::Idempotent { max_attempts: x, idempotency_key: k },
            RemoteMessageRetryPolicy::Idempotent { max_attempts: y, idempotency_key: l }) => x == y && k@ == l@,
        _ => false,
    }
    &&& a.attempt == b.attempt
    &&& a.created_at == b.created_at
    &&& a.expires_at == b.expires_at
}

/// Errors of the remote message boundary.
#[derive(Debug)]
pub enum RemoteMessageTransportError {
    /// The envelope failed validation before any delivery attempt.
    InvalidEnvelope(RemoteMessageValidationError),
    /// The envelope is addressed to another instance.
    WrongTargetInstance { expected: String, actual: String },
    /// The receiver already accepted this message.
    Duplicate { message_id: MessageId },
    /// The transport timed out before the receiver could accept the message.
    Timeout { reason: String },
    /// The transport failed before the receiver could accept the message.
    TransportFailed { reason: String },
    /// The local router refused delivery after remote validation.
    LocalDelivery(MessageRouterError),
    /// A trace could not be recorded; the boundary fails closed.
    Trace(MessageRouterError),
}

/// Only a timeout or a transport failure may be retried.
pub open spec fn retryable(e: RemoteMessageTransportError) -> bool {
    e is Timeout || e is TransportFailed
}

/// A timeout and a transport failure are what a retry may overcome: an
/// attempt that ends in either counts as retryable, so under a policy with
/// attempts left `send_remote_message` tries again; every other error ends
/// the sending.
pub proof fn law_transport_failures_are_retried(e: RemoteMessageTransportError)
    ensures
        (e is Timeout || e is TransportFailed) ==> retryable(e)
            && attempt_outcome(Err::<MessageEnvelope, RemoteMessageTransportError>(e)) is Retryable,
        !(e is Timeout || e is TransportFailed) ==> !retryable(e)
            && attempt_outcome(Err::<MessageEnvelope, RemoteMessageTransportError>(e)) is Refused,
{
}

pub open spec fn transport_error_text(e: RemoteMessageTransportError) -> Seq<char> {
    match e {
        RemoteMessageTransportError::InvalidEnvelope(v) => "remote message envelope validation failed: "@ + remote_validation_text(v),
        RemoteMessageTransportError::WrongTargetInstance { expected, actual } =>
            "remote message target instance "@ + actual@ + " does not match receiver "@ + expected@,
        RemoteMessageTransportError::Duplicate { message_id } => "remote message "@ + uuid_text(message_id.value) + " is a duplicate"@,
        RemoteMessageTransportError::Timeout { reason } => "remote message transport timed out: "@ + reason@,
        RemoteMessageTransportError::TransportFailed { reason } => "remote message transport failed: "@ + reason@,
        RemoteMessageTransportError::LocalDelivery(r) => "remote message local delivery failed: "@ + router_error_text(r),
        RemoteMessageTransportError::Trace(r) => "remote message trace failed: "@ + router_error_text(r),
    }
}

impl RemoteMessageTransportError {
    pub fn is_retryable(&self) -> (r: bool)
        ensures
            r == retryable(*self),
            (*self is Timeout || *self is TransportFailed) ==> r,
            !(*self is Timeout || *self is TransportFailed) ==> !r,
    {
        match self {
            RemoteMessageTransportError::Timeout { .. } => true,
            RemoteMessageTransportError::TransportFailed { .. } => true,
            _ => false,
        }
    }

    pub fn message(&self) -> (r: String)
        ensures
            r@ == transport_error_text(*self),
    {
        match self {
            RemoteMessageTransportError::InvalidEnvelope(v) =>
                String::from_str("remote message envelope validation failed: ").concat(v.message().as_str()),
            RemoteMessageTransportError::WrongTargetInstance { expected, actual } =>
                String::from_str("remote message target instance ").concat(actual.as_str())
                    .concat(" does not match receiver ").concat(expected.as_str()),
            RemoteMessageTransportError::Duplicate { message_id } =>
                String::from_str("remote message ").concat(uuid_string(message_id.value).as_str()).concat(" is a duplicate"),
            RemoteMessageTransportError::Timeout { reason } =>
                String::from_str("remote message transport timed out: ").concat(reason.as_str()),
            RemoteMessageTransportError::TransportFailed { reason } =>
                String::from_str("remote message transport failed: ").concat(reason.as_str()),
            RemoteMessageTransportError::LocalDelivery(r) =>
                String::from_str("remote message local delivery failed: ").concat(r.message().as_str()),
            RemoteMessageTransportError::Trace(r) =>
                String::from_str("remote message trace failed: ").concat(r.message().as_str()),
        }
    }
}

/// `c` describes envelope `e`.
pub open spec fn remote_context_of(c: RemoteMessageTraceContext, e: RemoteMessageEnvelope) -> bool {
    &&& context_of(c.message, e.message_envelope.message)
    &&& c.tenant_id == e.tenant_id
    &&& c.source_instance_id@ == e.source_instance_id@
    &&& c.target_instance_id@ == e.target_instance_id@
    &&& c.attempt == e.attempt
}

fn remote_context(e: &RemoteMessageEnvelope) -> (r: RemoteMessageTraceContext)
    ensures
        remote_context_of(r, *e),
{
    RemoteMessageTraceContext {
        message: MessageTraceContext::from_message(&e.message_envelope.message),
        tenant_id: e.tenant_id,
        source_instance_id: e.source_instance_id.clone(),
        target_instance_id: e.target_instance_id.clone(),
        attempt: e.attempt,
    }
}

/// Records `kind` for `envelope` through `recorder`, which must record the
/// message's run.
/// How a recording for `envelope` through a recorder of run `run` ended: a
/// success or a run mismatch leaves the failure count `f0` unchanged, and a
/// recording failure raises it by one; with matching runs the only error is
/// a recording failure.
pub open spec fn remote_record_outcome(r: Result<(), RemoteMessageTransportError>, run: crate::ids::RunId, envelope: RemoteMessageEnvelope, f0: nat, f1: nat) -> bool {
    &&& (r matches Err(RemoteMessageTransportError::Trace(MessageRouterError::Trace(_)))) ==> f1 == f0 + 1
    &&& !(r matches Err(RemoteMessageTransportError::Trace(MessageRouterError::Trace(_)))) ==> f1 == f0
    &&& run == envelope.message_envelope.message.run_id && r is Err
        ==> (r matches Err(RemoteMessageTransportError::Trace(MessageRouterError::Trace(_))))
}

/// A refusal whose own recording could not be made: nothing was recorded,
/// and the error is the recording failure (the failure count rose) or, for
/// a recorder of another run, the run mismatch.
pub open spec fn remote_refusal_unrecorded(
    r: Result<MessageEnvelope, RemoteMessageTransportError>,
    run: crate::ids::RunId,
    envelope: RemoteMessageEnvelope,
    rec0: Seq<TraceEventKind>,
    rec1: Seq<TraceEventKind>,
    f0: nat,
    f1: nat,
) -> bool {
    &&& rec1 == rec0
    &&& if run == envelope.message_envelope.message.run_id {
            (r matches Err(RemoteMessageTransportError::Trace(MessageRouterError::Trace(_)))) && f1 > f0
        } else {
            r matches Err(RemoteMessageTransportError::Trace(MessageRouterError::TraceRunMismatch { runtime_run_id, message_run_id }))
                && runtime_run_id == run && message_run_id == envelope.message_envelope.message.run_id
        }
}

fn record_remote_event<R: MessageTraceRecorder>(recorder: &mut R, envelope: &RemoteMessageEnvelope, kind: TraceEventKind)
    -> (r: Result<(), RemoteMessageTransportError>)
    ensures
        final(recorder).recorder_run() == old(recorder).recorder_run(),
        old(recorder).recorder_run() != envelope.message_envelope.message.run_id ==> final(recorder).recorded() == old(recorder).recorded()
            && (r matches Err(RemoteMessageTransportError::Trace(MessageRouterError::TraceRunMismatch { runtime_run_id, message_run_id }))
                && runtime_run_id == old(recorder).recorder_run() && message_run_id == envelope.message_envelope.message.run_id),
        r is Ok ==> old(recorder).recorder_run() == envelope.message_envelope.message.run_id
            && final(recorder).recorded() == old(recorder).recorded().push(kind),
        r is Err ==> final(recorder).recorded() == old(recorder).recorded()
            && (r matches Err(RemoteMessageTransportError::Trace(_))),
        remote_record_outcome(r, old(recorder).recorder_run(), *envelope, old(recorder).failed_records(), final(recorder).failed_records()),
{
    let rr = recorder.run_id();
    if rr != envelope.message_envelope.message.run_id {
        return Err(RemoteMessageTransportError::Trace(MessageRouterError::TraceRunMismatch {
            runtime_run_id: rr,
            message_run_id: envelope.message_envelope.message.run_id,
        }));
    }
    match recorder.record_message_event(kind) {
        Ok(_) => Ok(()),
        Err(e) => Err(RemoteMessageTransportError::Trace(MessageRouterError::Trace(e))),
    }
}

/// `k` is a remote rejection of `e` for `reason`.
pub open spec fn is_remote_rejection(k: TraceEventKind, e: RemoteMessageEnvelope, reason: Seq<char>) -> bool {
    k matches TraceEventKind::RemoteMessageRejected { remote_message, reason: r } && remote_context_of(remote_message, e) && r@ == reason
}

fn record_remote_rejected<R: MessageTraceRecorder>(recorder: &mut R, envelope: &RemoteMessageEnvelope, reason: String)
    -> (r: Result<(), RemoteMessageTransportError>)
    ensures
        final(recorder).recorder_run() == old(recorder).recorder_run(),
        r is Ok ==> final(recorder).recorded().len() == old(recorder).recorded().len() + 1
            && final(recorder).recorded().drop_last() == old(recorder).recorded()
            && is_remote_rejection(final(recorder).recorded().last(), *envelope, reason@),
        r is Err ==> final(recorder).recorded() == old(recorder).recorded() && (r matches Err(RemoteMessageTransportError::Trace(_))),
        old(recorder).recorder_run() != envelope.message_envelope.message.run_id
            ==> (r matches Err(RemoteMessageTransportError::Trace(MessageRouterError::TraceRunMismatch { runtime_run_id, message_run_id }))
                && runtime_run_id == old(recorder).recorder_run() && message_run_id == envelope.message_envelope.message.run_id),
        remote_record_outcome(r, old(recorder).recorder_run(), *envelope, old(recorder).failed_records(), final(recorder).failed_records()),
{
    let context = remote_context(envelope);
    let kind = TraceEventKind::RemoteMessageRejected { remote_message: context, reason };
    let r = record_remote_event(recorder, envelope, kind);
    proof {
        if r is Ok {
            assert(final(recorder).recorded().drop_last() =~= old(recorder).recorded());
        }
    }
    r
}

/// The first check an envelope fails at a receiver.
pub enum AcceptCheck {
    Invalid(RemoteMessageValidationError),
    WrongTarget,
    Duplicate,
    Accept,
}

/// The receiving boundary of one instance: it validates remote authority,
/// accepts each message once, and delivers accepted messages into the
/// local target inbox.
pub struct RemoteMessageReceiver {
    local_instance_id: String,
    router: LocalMessageRouter,
    seen_messages: Vec<MessageId>,
}

impl RemoteMessageReceiver {
    pub closed spec fn instance(&self) -> Seq<char> {
        self.local_instance_id@
    }

    pub closed spec fn routing(&self) -> LocalMessageRouter {
        self.router
    }

    /// The messages accepted so far, in order.
    pub closed spec fn accepted(&self) -> Seq<MessageId> {
        self.seen_messages@
    }

    /// What accepting `e` at `now` runs into first.
    pub open spec fn accept_check(&self, e: RemoteMessageEnvelope, now: Timestamp) -> AcceptCheck {
        if remote_validation(e, now) is Some {
            AcceptCheck::Invalid(remote_validation(e, now).unwrap())
        } else if e.target_instance_id@ != self.instance() {
            AcceptCheck::WrongTarget
        } else if self.accepted().contains(e.message_envelope.message.message_id) {
            AcceptCheck::Duplicate
        } else {
            AcceptCheck::Accept
        }
    }

    /// A receiver for `local_instance_id` delivering into `router`.
    pub fn new(local_instance_id: String, router: LocalMessageRouter) -> (r: RemoteMessageReceiver)
        ensures
            r.instance() == local_instance_id@,
            r.routing() == router,
            r.accepted() == Seq::<MessageId>::empty(),
    {
        RemoteMessageReceiver { local_instance_id, router, seen_messages: Vec::new() }
    }

    pub fn local_instance_id(&self) -> (r: &String)
        ensures
            r@ == self.instance(),
    {
        &self.local_instance_id
    }

    /// The router accepted messages are delivered into.
    pub fn router(&self) -> (r: &LocalMessageRouter)
        ensures
            *r == self.routing(),
    {
        &self.router
    }

    /// Hands back the router.
    pub fn into_router(self) -> (r: LocalMessageRouter)
        ensures
            r == self.routing(),
    {
        self.router
    }

    fn seen(&self, id: &MessageId) -> (r: bool)
        ensures
            r == self.accepted().contains(*id),
    {
        let mut i: usize = 0;
        while i < self.seen_messages.len()
            invariant
                i <= self.seen_messages@.len(),
                forall|j: int| 0 <= j < i ==> self.seen_messages@[j] != *id,
            decreases self.seen_messages@.len() - i,
        {
            if self.seen_messages[i] == *id {
                assert(self.seen_messages@[i as int] == *id);
                return true;
            }
            i = i + 1;
        }
        false
    }

    /// Accepts `envelope` at `now`, recording through `target_recorder`.
    ///
    /// Checks, in order: the envelope is valid; it is addressed to this
    /// instance; its message was not accepted before. A refusal is recorded
    /// (a duplicate as a duplicate, the others as rejections) and returned.
    /// An accepted message is recorded as accepted, delivered into the local
    /// target inbox, and recorded as delivered; a local refusal releases the
    /// acceptance and is recorded as a rejection. A message is delivered at
    /// most once.
    pub fn accept_at<R: MessageTraceRecorder>(&mut self, target_recorder: &mut R, envelope: RemoteMessageEnvelope, now: Timestamp)
        -> (r: Result<MessageEnvelope, RemoteMessageTransportError>)
        ensures
            final(self).instance() == old(self).instance(),
            final(self).routing().limits() == old(self).routing().limits(),
            forall|a: crate::ids::AgentId| #[trigger] final(self).routing().registered(a) == old(self).routing().registered(a),
            final(target_recorder).recorder_run() == old(target_recorder).recorder_run(),
            r is Ok ==> old(self).accept_check(envelope, now) is Accept,
            r is Err ==> final(self).accepted() == old(self).accepted()
                && forall|a: crate::ids::AgentId| #[trigger] final(self).routing().mailbox_of(a) == old(self).routing().mailbox_of(a),
            match old(self).accept_check(envelope, now) {
                AcceptCheck::Invalid(v) =>
                    (r matches Err(RemoteMessageTransportError::InvalidEnvelope(x)) && x == v
                        && final(target_recorder).recorded().len() == old(target_recorder).recorded().len() + 1
                        && final(target_recorder).recorded().drop_last() == old(target_recorder).recorded()
                        && is_remote_rejection(final(target_recorder).recorded().last(), envelope, remote_validation_text(v)))
                    || remote_refusal_unrecorded(r, old(target_recorder).recorder_run(), envelope, old(target_recorder).recorded(),
                        final(target_recorder).recorded(), old(target_recorder).failed_records(), final(target_recorder).failed_records()),
                AcceptCheck::WrongTarget =>
                    (r matches Err(e) && e matches RemoteMessageTransportError::WrongTargetInstance { expected, actual }
                        && expected@ == old(self).instance() && actual@ == envelope.target_instance_id@
                        && final(target_recorder).recorded().len() == old(target_recorder).recorded().len() + 1
                        && final(target_recorder).recorded().drop_last() == old(target_recorder).recorded()
                        && is_remote_rejection(final(target_recorder).recorded().last(), envelope, transport_error_text(e)))
                    || remote_refusal_unrecorded(r, old(target_recorder).recorder_run(), envelope, old(target_recorder).recorded(),
                        final(target_recorder).recorded(), old(target_recorder).failed_records(), final(target_recorder).failed_records()),
                AcceptCheck::Duplicate =>
                    (r matches Err(RemoteMessageTransportError::Duplicate { message_id })
                        && message_id == envelope.message_envelope.message.message_id
                        && final(target_recorder).recorded().len() == old(target_recorder).recorded().len() + 1
                        && final(target_recorder).recorded().drop_last() == old(target_recorder).recorded()
                        && (final(target_recorder).recorded().last() matches TraceEventKind::RemoteMessageDuplicate { remote_message, reason }
                        && remote_context_of(remote_message, envelope) && reason@ == "message_id already accepted by receiver"@))
                    || remote_refusal_unrecorded(r, old(target_recorder).recorder_run(), envelope, old(target_recorder).recorded(),
                        final(target_recorder).recorded(), old(target_recorder).failed_records(), final(target_recorder).failed_records()),
                AcceptCheck::Accept => true,
            },
            final(target_recorder).failed_records() >= old(target_recorder).failed_records(),
            r matches Ok(delivered) ==> {
                let target = envelope.message_envelope.message.target_agent_id;
                &&& !old(self).accepted().contains(envelope.message_envelope.message.message_id)
                &&& final(self).accepted() == old(self).accepted().push(envelope.message_envelope.message.message_id)
                &&& crate::message::env_view(delivered).0 == envelope.message_envelope.message.message_id
                &&& delivered.message.source_agent_id == envelope.message_envelope.message.source_agent_id
                &&& delivered.message.target_agent_id == target
                &&& delivered.message.run_id == envelope.message_envelope.message.run_id
                &&& delivered.delivery_status == crate::message::MessageDeliveryStatus::Delivered
                &&& forall|a: crate::ids::AgentId| #[trigger] final(self).routing().inbox_of(a) == if a == target {
                        old(self).routing().inbox_of(a).push(crate::message::env_view(delivered))
                    } else {
                        old(self).routing().inbox_of(a)
                    }
                &&& forall|a: crate::ids::AgentId| #[trigger] final(self).routing().outbox_of(a) == old(self).routing().outbox_of(a)
                &&& final(target_recorder).recorded().len() > old(target_recorder).recorded().len()
                &&& final(target_recorder).recorded()[old(target_recorder).recorded().len() as int]
                        matches TraceEventKind::RemoteMessageAccepted { remote_message } && remote_context_of(remote_message, envelope)
                &&& final(target_recorder).recorded().len() > old(target_recorder).recorded().len() + 1
                &&& final(target_recorder).recorded()[old(target_recorder).recorded().len() as int + 1]
                        matches TraceEventKind::RemoteMessageDelivered { remote_message } && remote_context_of(remote_message, envelope)
            },
    {
        if let Err(error) = envelope.validate_at(now) {
            if let Err(e) = record_remote_rejected(target_recorder, &envelope, error.message()) {
                return Err(e);
            }
            return Err(RemoteMessageTransportError::InvalidEnvelope(error));
        }
        if envelope.target_instance_id != self.local_instance_id {
            let error = RemoteMessageTransportError::WrongTargetInstance {
                expected: self.local_instance_id.clone(),
                actual: envelope.target_instance_id.clone(),
            };
            if let Err(e) = record_remote_rejected(target_recorder, &envelope, error.message()) {
                return Err(e);
            }
            return Err(error);
        }
        let message_id = envelope.message_envelope.message.message_id;
        if self.seen(&message_id) {
            let context = remote_context(&envelope);
            match record_remote_event(target_recorder, &envelope, TraceEventKind::RemoteMessageDuplicate {
                remote_message: context,
                reason: String::from_str("message_id already accepted by receiver"),
            }) {
                Ok(()) => {},
                Err(e) => return Err(e),
            }
            return Err(RemoteMessageTransportError::Duplicate { message_id });
        }
        let ghost seen0 = self.seen_messages@;
        let ghost rec0 = target_recorder.recorded();
        let accepted_context = remote_context(&envelope);
        record_remote_event(target_recorder, &envelope, TraceEventKind::RemoteMessageAccepted { remote_message: accepted_context })?;
        self.seen_messages.push(message_id);
        let rec_run = target_recorder.run_id();
        if let Some(error) = self.router.inbound_refusal(rec_run, &envelope.message_envelope, now) {
            self.seen_messages.pop();
            proof { assert(self.seen_messages@ =~= seen0); }
            record_remote_rejected(target_recorder, &envelope, error.message())?;
            return Err(RemoteMessageTransportError::LocalDelivery(error));
        }
        let delivered_context = remote_context(&envelope);
        if let Err(e) = record_remote_event(target_recorder, &envelope, TraceEventKind::RemoteMessageDelivered { remote_message: delivered_context }) {
            self.seen_messages.pop();
            proof { assert(self.seen_messages@ =~= seen0); }
            return Err(e);
        }
        let ghost rec2 = target_recorder.recorded();
        let inner = envelope.message_envelope.duplicate();
        match self.router.deliver_inbound_at(target_recorder, inner, now) {
            Ok(d) => {
                proof {
                    assert(target_recorder.recorded()[rec0.len() as int] == rec2[rec0.len() as int]);
                    assert(target_recorder.recorded()[rec0.len() as int + 1] == rec2[rec0.len() as int + 1]);
                }
                Ok(d)
            },
            Err(error) => {
                self.seen_messages.pop();
                proof { assert(self.seen_messages@ =~= seen0); }
                record_remote_rejected(target_recorder, &envelope, error.message())?;
                Err(RemoteMessageTransportError::LocalDelivery(error))
            },
        }
    }
}

/// One transport attempt at a time; implemented by the hosts that carry
/// messages between instances.
pub trait RemoteMessageTransport {
    /// The (message, attempt) pairs handed to this transport so far, in order.
    spec fn transmitted(&self) -> Seq<(MessageId, u32)>;

    /// How each of those attempts ended, in the same order.
    spec fn outcomes(&self) -> Seq<AttemptOutcome>;

    /// Performs one attempt at carrying `envelope`, tracing its decisions
    /// through `source_recorder`.
    fn transmit_once<R: MessageTraceRecorder>(&mut self, source_recorder: &mut R, envelope: RemoteMessageEnvelope, now: Timestamp)
        -> (r: Result<MessageEnvelope, RemoteMessageTransportError>)
        ensures
            final(self).transmitted() == old(self).transmitted().push((envelope.message_envelope.message.message_id, envelope.attempt)),
            final(self).outcomes() == old(self).outcomes().push(attempt_outcome(r)),
            final(source_recorder).recorder_run() == old(source_recorder).recorder_run();
}

/// How one transport attempt ended.
pub enum AttemptOutcome {
    Delivered,
    /// Failed with an error that a retry may overcome.
    Retryable,
    /// Failed with an error that no retry overcomes.
    Refused,
}

/// The outcome of an attempt that returned `r`.
pub open spec fn attempt_outcome(r: Result<MessageEnvelope, RemoteMessageTransportError>) -> AttemptOutcome {
    match r {
        Ok(_) => AttemptOutcome::Delivered,
        Err(e) => if retryable(e) { AttemptOutcome::Retryable } else { AttemptOutcome::Refused },
    }
}

/// The attempts `sent` after `before` made for a message `id` starting at
/// attempt `first`: one or more, numbered on from `first`.
pub open spec fn attempts_from(sent: Seq<(MessageId, u32)>, id: MessageId, first: u32) -> bool {
    &&& sent.len() >= 1
    &&& forall|i: int| 0 <= i < sent.len() ==> #[trigger] sent[i] == (id, (first + i) as u32)
}

/// The retry budget left after the current attempt.
pub open spec fn retries_left(e: RemoteMessageEnvelope) -> int {
    match e.retry_policy {
        RemoteMessageRetryPolicy::Never => 0,
        RemoteMessageRetryPolicy::Idempotent { max_attempts, .. } => if e.attempt < max_attempts { max_attempts - e.attempt } else { 0 },
    }
}

/// Sends `envelope` through `transport`, retrying a timeout or a transport
/// failure only while the envelope declares idempotent retries with attempts
/// left; every retry carries the next attempt number.
pub fn send_remote_message<T: RemoteMessageTransport, R: MessageTraceRecorder>(
    transport: &mut T,
    source_recorder: &mut R,
    envelope: RemoteMessageEnvelope,
    now: Timestamp,
) -> (r: Result<MessageEnvelope, RemoteMessageTransportError>)
    ensures
        final(source_recorder).recorder_run() == old(source_recorder).recorder_run(),
        final(transport).transmitted().len() > old(transport).transmitted().len(),
        final(transport).transmitted().take(old(transport).transmitted().len() as int) == old(transport).transmitted(),
        attempts_from(final(transport).transmitted().skip(old(transport).transmitted().len() as int),
            envelope.message_envelope.message.message_id, envelope.attempt),
        // More than one attempt only under an idempotent policy, and never past its limit.
        final(transport).transmitted().len() - old(transport).transmitted().len() - 1 <= retries_left(envelope),
        envelope.retry_policy is Never ==> final(transport).transmitted().len() == old(transport).transmitted().len() + 1,
        r matches Err(e) ==> !retryable(e) || final(transport).transmitted().len() - old(transport).transmitted().len() - 1 == retries_left(envelope),
        // A timeout or a transport failure is given up on only once the
        // policy's attempts are used up.
        r matches Err(e) ==> !(e is Timeout || e is TransportFailed)
            || final(transport).transmitted().len() - old(transport).transmitted().len() - 1 == retries_left(envelope),
        // Retrying stops at the first delivery or the first error no retry
        // overcomes: every attempt but the last failed retryably, and the
        // last one's outcome is the result.
        final(transport).outcomes().len() - old(transport).outcomes().len() == final(transport).transmitted().len() - old(transport).transmitted().len(),
        final(transport).outcomes().take(old(transport).outcomes().len() as int) == old(transport).outcomes(),
        final(transport).outcomes().last() == attempt_outcome(r),
        forall|i: int| old(transport).outcomes().len() <= i < final(transport).outcomes().len() - 1
            ==> #[trigger] final(transport).outcomes()[i] is Retryable,
{
    let ghost t0 = transport.transmitted();
    let ghost o0 = transport.outcomes();
    let ghost id = envelope.message_envelope.message.message_id;
    let ghost first = envelope.attempt;
    let ghost budget = retries_left(envelope);
    let mut current = envelope.duplicate();
    loop
        invariant
            source_recorder.recorder_run() == old(source_recorder).recorder_run(),
            t0 == old(transport).transmitted(),
            id == envelope.message_envelope.message.message_id,
            first == envelope.attempt,
            budget == retries_left(envelope),
            envelope.retry_policy is Never ==> budget == 0,
            transport.transmitted().len() >= t0.len(),
            transport.transmitted().take(t0.len() as int) == t0,
            current.message_envelope.message.message_id == id,
            current.attempt == first + (transport.transmitted().len() - t0.len()),
            forall|i: int| t0.len() <= i < transport.transmitted().len() ==> #[trigger] transport.transmitted()[i] == (id, (first + (i - t0.len())) as u32),
            retries_left(current) == budget - (transport.transmitted().len() - t0.len()),
            retries_left(current) >= 0,
            transport.transmitted().len() - t0.len() <= budget + 1,
            o0 == old(transport).outcomes(),
            transport.outcomes().len() - o0.len() == transport.transmitted().len() - t0.len(),
            transport.outcomes().take(o0.len() as int) == o0,
            forall|i: int| o0.len() <= i < transport.outcomes().len() ==> #[trigger] transport.outcomes()[i] is Retryable,
        decreases retries_left(current),
    {
        let attempt = current.duplicate();
        let result = transport.transmit_once(source_recorder, attempt, now);
        proof {
            assert(transport.transmitted().take(t0.len() as int) =~= t0);
            let sent = transport.transmitted().skip(t0.len() as int);
            assert forall|i: int| 0 <= i < sent.len() implies #[trigger] sent[i] == (id, (first + i) as u32) by {
                assert(sent[i] == transport.transmitted()[t0.len() + i]);
            }
            assert(transport.outcomes().take(o0.len() as int) =~= o0);
        }
        match result {
            Ok(delivered) => {
                return Ok(delivered);
            },
            Err(error) => {
                if error.is_retryable() && current.can_retry_after_current_attempt() {
                    current.attempt = current.attempt + 1;
                } else {
                    return Err(error);
                }
            },
        }
    }
}

/// Faults the in-memory transport injects, one per attempt, in order.
#[derive(Clone, Debug, PartialEq, Eq)]
pub enum InMemoryRemoteTransportFault {
    /// A timeout before the receiver is reached.
    Timeout { reason: String },
    /// A transport failure other than a timeout before the receiver is reached.
    Failure { reason: String },
}

/// An in-memory transport connecting one source boundary to one receiving
/// boundary, with deterministic one-shot faults.
pub struct InMemoryRemoteMessageTransport<T: MessageTraceRecorder> {
    receiver: RemoteMessageReceiver,
    target_recorder: T,
    faults: Vec<InMemoryRemoteTransportFault>,
    sent: Ghost<Seq<(MessageId, u32)>>,
    ended: Ghost<Seq<AttemptOutcome>>,
}

impl<T: MessageTraceRecorder> InMemoryRemoteMessageTransport<T> {
    pub closed spec fn receiving(&self) -> RemoteMessageReceiver {
        self.receiver
    }

    pub closed spec fn target(&self) -> T {
        self.target_recorder
    }

    /// The faults still to be injected, the next first.
    pub closed spec fn pending_faults(&self) -> Seq<InMemoryRemoteTransportFault> {
        self.faults@
    }

    /// A healthy transport into `receiver`, which records through `target_recorder`.
    pub fn new(receiver: RemoteMessageReceiver, target_recorder: T) -> (r: Self)
        ensures
            r.receiving() == receiver,
            r.target() == target_recorder,
            r.pending_faults() == Seq::<InMemoryRemoteTransportFault>::empty(),
            r.transmitted() == Seq::<(MessageId, u32)>::empty(),
            r.outcomes() == Seq::<AttemptOutcome>::empty(),
    {
        Self::with_faults(receiver, target_recorder, Vec::new())
    }

    /// A transport that injects `faults`, one per attempt, before behaving healthily.
    pub fn with_faults(receiver: RemoteMessageReceiver, target_recorder: T, faults: Vec<InMemoryRemoteTransportFault>) -> (r: Self)
        ensures
            r.receiving() == receiver,
            r.target() == target_recorder,
            r.pending_faults() == faults@,
            r.transmitted() == Seq::<(MessageId, u32)>::empty(),
            r.outcomes() == Seq::<AttemptOutcome>::empty(),
    {
        InMemoryRemoteMessageTransport { receiver, target_recorder, faults, sent: Ghost(Seq::empty()), ended: Ghost(Seq::empty()) }
    }

    pub fn receiver(&self) -> (r: &RemoteMessageReceiver)
        ensures
            *r == self.receiving(),
    {
        &self.receiver
    }

    pub fn target_recorder(&self) -> (r: &T)
        ensures
            *r == self.target(),
    {
        &self.target_recorder
    }

    /// One attempt: validates the envelope (a refusal is recorded on the source side),
    /// records it as sent, then either injects the next pending fault
    /// (recorded on the source side) or hands the envelope to the receiver.
    fn attempt<R: MessageTraceRecorder>(&mut self, source_recorder: &mut R, envelope: RemoteMessageEnvelope, now: Timestamp)
        -> (r: Result<MessageEnvelope, RemoteMessageTransportError>)
        ensures
            final(self).transmitted() == old(self).transmitted().push((envelope.message_envelope.message.message_id, envelope.attempt)),
            final(self).outcomes() == old(self).outcomes(),
            final(source_recorder).recorder_run() == old(source_recorder).recorder_run(),
            remote_validation(envelope, now) matches Some(v) ==> final(self).receiving() == old(self).receiving()
                && final(self).pending_faults() == old(self).pending_faults()
                && (r matches Err(RemoteMessageTransportError::InvalidEnvelope(x)) && x == v
                    || r matches Err(RemoteMessageTransportError::Trace(_))),
            remote_validation(envelope, now) is None && old(self).pending_faults().len() > 0 ==> {
                &&& final(self).receiving() == old(self).receiving()
                &&& r is Err
                &&& (r matches Err(RemoteMessageTransportError::Trace(_))
                    || (final(self).pending_faults() == old(self).pending_faults().drop_first()
                        && match old(self).pending_faults()[0] {
                            InMemoryRemoteTransportFault::Timeout { reason } =>
                                r matches Err(RemoteMessageTransportError::Timeout { reason: x }) && x@ == reason@,
                            InMemoryRemoteTransportFault::Failure { reason } =>
                                r matches Err(RemoteMessageTransportError::TransportFailed { reason: x }) && x@ == reason@,
                        }))
            },
            old(self).pending_faults().len() == 0 ==> final(self).pending_faults().len() == 0,
            r is Ok ==> remote_validation(envelope, now) is None
                && old(self).receiving().accept_check(envelope, now) is Accept
                && final(self).receiving().accepted() == old(self).receiving().accepted().push(envelope.message_envelope.message.message_id),
    {
        proof { self.sent@ = self.sent@.push((envelope.message_envelope.message.message_id, envelope.attempt)); }
        if let Err(error) = envelope.validate_at(now) {
            record_remote_rejected(source_recorder, &envelope, error.message())?;
            return Err(RemoteMessageTransportError::InvalidEnvelope(error));
        }
        let sent_context = remote_context(&envelope);
        record_remote_event(source_recorder, &envelope, TraceEventKind::RemoteMessageSent { remote_message: sent_context })?;
        if self.faults.len() > 0 {
            let fault = self.faults.remove(0);
            match fault {
                InMemoryRemoteTransportFault::Timeout { reason } => {
                    let context = remote_context(&envelope);
                    record_remote_event(source_recorder, &envelope, TraceEventKind::RemoteMessageTimedOut {
                        remote_message: context,
                        reason: reason.clone(),
                    })?;
                    Err(RemoteMessageTransportError::Timeout { reason })
                },
                InMemoryRemoteTransportFault::Failure { reason } => {
                    let context = remote_context(&envelope);
                    record_remote_event(source_recorder, &envelope, TraceEventKind::RemoteMessageTransportFailed {
                        remote_message: context,
                        reason: reason.clone(),
                    })?;
                    Err(RemoteMessageTransportError::TransportFailed { reason })
                },
            }
        } else {
            self.receiver.accept_at(&mut self.target_recorder, envelope, now)
        }
    }

    /// Hands back the receiving boundary and its recorder.
    pub fn into_parts(self) -> (r: (RemoteMessageReceiver, T))
        ensures
            r.0 == self.receiving(),
            r.1 == self.target(),
    {
        (self.receiver, self.target_recorder)
    }
}

impl<T: MessageTraceRecorder> RemoteMessageTransport for InMemoryRemoteMessageTransport<T> {
    closed spec fn transmitted(&self) -> Seq<(MessageId, u32)> {
        self.sent@
    }

    closed spec fn outcomes(&self) -> Seq<AttemptOutcome> {
        self.ended@
    }

    /// Validates the envelope (a refusal is recorded on the source side),
    /// records it as sent, then either injects the next pending fault
    /// (recorded on the source side) or hands the envelope to the receiver.
    fn transmit_once<R: MessageTraceRecorder>(&mut self, source_recorder: &mut R, envelope: RemoteMessageEnvelope, now: Timestamp)
        -> (r: Result<MessageEnvelope, RemoteMessageTransportError>)
        ensures
            remote_validation(envelope, now) matches Some(v) ==> final(self).receiving() == old(self).receiving()
                && final(self).pending_faults() == old(self).pending_faults()
                && (r matches Err(RemoteMessageTransportError::InvalidEnvelope(x)) && x == v
                    || r matches Err(RemoteMessageTransportError::Trace(_))),
            remote_validation(envelope, now) is None && old(self).pending_faults().len() > 0 ==> {
                &&& final(self).receiving() == old(self).receiving()
                &&& r is Err
                &&& (r matches Err(RemoteMessageTransportError::Trace(_))
                    || (final(self).pending_faults() == old(self).pending_faults().drop_first()
                        && match old(self).pending_faults()[0] {
                            InMemoryRemoteTransportFault::Timeout { reason } =>
                                r matches Err(RemoteMessageTransportError::Timeout { reason: x }) && x@ == reason@,
                            InMemoryRemoteTransportFault::Failure { reason } =>
                                r matches Err(RemoteMessageTransportError::TransportFailed { reason: x }) && x@ == reason@,
                        }))
            },
            old(self).pending_faults().len() == 0 ==> final(self).pending_faults().len() == 0,
            r is Ok ==> remote_validation(envelope, now) is None
                && old(self).receiving().accept_check(envelope, now) is Accept
                && final(self).receiving().accepted() == old(self).receiving().accepted().push(envelope.message_envelope.message.message_id),
    {
        let r = self.attempt(source_recorder, envelope, now);
        proof { self.ended@ = self.ended@.push(attempt_outcome(r)); }
        r
    }
}

} // verus!
