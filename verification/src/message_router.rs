//! In-process message routing between registered agents. Each agent has an
//! inbox of delivered messages and an outbox of messages it sent. Envelopes
//! are validated before delivery, and every accepted, rejected, expired and
//! consumed transition is recorded; when recording fails the operation fails
//! and the mailboxes stay as they were.

use vstd::prelude::*;
use crate::assoc::{assoc_get, assoc_absent, is_last_index, lemma_assoc_absent, lemma_assoc_last, lemma_assoc_push, lemma_assoc_update};
use crate::clock::{Span, Timestamp, clamp_i128};
use crate::ids::{AgentId, MessageId, RunId};
use crate::message::{
    MessageDeliveryStatus, MessageEnvelope, MessageTraceContext, MessageTraceLinks,
    MessageValidationError, Message, env_view, env_views, message_validation, validation_text, same_message,
};
use crate::textual::{uuid_text, decimal_text, decimal_digits, uuid_string, u64_text};
use crate::trace::{MessageTraceRecorder, TraceError, TraceEventKind};

verus! {

/// The routing-relevant view of an envelope: message, source, target and run
/// identities, delivery status and trace links.
pub type EnvView = (MessageId, AgentId, AgentId, RunId, MessageDeliveryStatus, MessageTraceLinks);

/// Queue limits and expiration policy of a router.
#[derive(Clone, Copy, Debug, PartialEq, Eq, Structural)]
pub struct MessageRouterConfig {
    pub max_inbox_messages: usize,
    pub max_outbox_messages: usize,
    pub max_message_age: Option<Span>,
}

impl MessageRouterConfig {
    /// 1024 messages per inbox and per outbox, no expiration.
    pub fn standard() -> (r: MessageRouterConfig)
        ensures
            r.max_inbox_messages == 1024,
            r.max_outbox_messages == 1024,
            r.max_message_age is None,
    {
        MessageRouterConfig { max_inbox_messages: 1024, max_outbox_messages: 1024, max_message_age: None }
    }
}

impl Default for MessageRouterConfig {
    fn default() -> (r: Self)
        ensures
            r.max_inbox_messages == 1024,
            r.max_outbox_messages == 1024,
            r.max_message_age is None,
    {
        MessageRouterConfig::standard()
    }
}

/// One agent's queues.
#[derive(Debug)]
pub struct AgentMailbox {
    pub inbox: Vec<MessageEnvelope>,
    pub outbox: Vec<MessageEnvelope>,
}

/// Copy of one agent's queues for one run.
#[derive(Debug)]
pub struct AgentMailboxSnapshot {
    pub agent_id: AgentId,
    pub inbox: Vec<MessageEnvelope>,
    pub outbox: Vec<MessageEnvelope>,
}

/// Why a routing operation failed.
#[derive(Debug, PartialEq, Eq)]
pub enum MessageRouterError {
    InvalidMessage { message_id: MessageId, source: MessageValidationError },
    UnknownSourceAgent(AgentId),
    UnknownTargetAgent(AgentId),
    UnknownAgent(AgentId),
    InboxFull { agent_id: AgentId, limit: usize },
    OutboxFull { agent_id: AgentId, limit: usize },
    Expired { message_id: MessageId, reason: String },
    MessageNotVisible { agent_id: AgentId, run_id: RunId, message_id: MessageId },
    TraceRunMismatch { runtime_run_id: RunId, message_run_id: RunId },
    Trace(TraceError),
    StorageUnavailable,
}

/// Description of a refusal that the router records as a rejection.
pub open spec fn rejection_text(e: MessageRouterError) -> Seq<char> {
    match e {
        MessageRouterError::InvalidMessage { message_id, source } =>
            "message "@ + uuid_text(message_id.value) + " validation failed: "@ + validation_text(source),
        MessageRouterError::UnknownSourceAgent(a) => "source agent "@ + uuid_text(a.value) + " is not registered"@,
        MessageRouterError::UnknownTargetAgent(a) => "target agent "@ + uuid_text(a.value) + " is not registered"@,
        MessageRouterError::InboxFull { agent_id, limit } =>
            "target inbox for agent "@ + uuid_text(agent_id.value) + " is full at "@ + decimal_text(limit as u64) + " messages"@,
        MessageRouterError::OutboxFull { agent_id, limit } =>
            "source outbox for agent "@ + uuid_text(agent_id.value) + " is full at "@ + decimal_text(limit as u64) + " messages"@,
        _ => seq![],
    }
}

pub open spec fn is_rejection(e: MessageRouterError) -> bool {
    ||| e is InvalidMessage
    ||| e is UnknownSourceAgent
    ||| e is UnknownTargetAgent
    ||| e is InboxFull
    ||| e is OutboxFull
}

/// The description of a routing failure.
pub open spec fn router_error_text(e: MessageRouterError) -> Seq<char> {
    match e {
        MessageRouterError::UnknownAgent(a) => "agent "@ + uuid_text(a.value) + " is not registered"@,
        MessageRouterError::Expired { message_id, reason } => "message "@ + uuid_text(message_id.value) + " expired: "@ + reason@,
        MessageRouterError::MessageNotVisible { agent_id, run_id, message_id } =>
            "message "@ + uuid_text(message_id.value) + " is not visible to agent "@ + uuid_text(agent_id.value)
                + " in run "@ + uuid_text(run_id.value),
        MessageRouterError::TraceRunMismatch { runtime_run_id, message_run_id } =>
            "trace recorder run "@ + uuid_text(runtime_run_id.value) + " cannot record message run "@ + uuid_text(message_run_id.value),
        MessageRouterError::Trace(t) => "trace error: "@ + crate::trace::trace_error_text(t),
        MessageRouterError::StorageUnavailable => "message router storage is unavailable"@,
        _ => rejection_text(e),
    }
}

impl MessageRouterError {
    /// Human-readable description.
    pub fn message(&self) -> (r: String)
        ensures
            r@ == router_error_text(*self),
            is_rejection(*self) ==> r@ == rejection_text(*self),
    {
        match self {
            MessageRouterError::InvalidMessage { message_id, source } => {
                String::from_str("message ").concat(uuid_string(message_id.value).as_str())
                    .concat(" validation failed: ").concat(source.message().as_str())
            },
            MessageRouterError::UnknownSourceAgent(a) =>
                String::from_str("source agent ").concat(uuid_string(a.value).as_str()).concat(" is not registered"),
            MessageRouterError::UnknownTargetAgent(a) =>
                String::from_str("target agent ").concat(uuid_string(a.value).as_str()).concat(" is not registered"),
            MessageRouterError::UnknownAgent(a) =>
                String::from_str("agent ").concat(uuid_string(a.value).as_str()).concat(" is not registered"),
            MessageRouterError::InboxFull { agent_id, limit } =>
                String::from_str("target inbox for agent ").concat(uuid_string(agent_id.value).as_str())
                    .concat(" is full at ").concat(u64_text(*limit as u64).as_str()).concat(" messages"),
            MessageRouterError::OutboxFull { agent_id, limit } =>
                String::from_str("source outbox for agent ").concat(uuid_string(agent_id.value).as_str())
                    .concat(" is full at ").concat(u64_text(*limit as u64).as_str()).concat(" messages"),
            MessageRouterError::Expired { message_id, reason } =>
                String::from_str("message ").concat(uuid_string(message_id.value).as_str())
                    .concat(" expired: ").concat(reason.as_str()),
            MessageRouterError::MessageNotVisible { agent_id, run_id, message_id } =>
                String::from_str("message ").concat(uuid_string(message_id.value).as_str())
                    .concat(" is not visible to agent ").concat(uuid_string(agent_id.value).as_str())
                    .concat(" in run ").concat(uuid_string(run_id.value).as_str()),
            MessageRouterError::TraceRunMismatch { runtime_run_id, message_run_id } =>
                String::from_str("trace recorder run ").concat(uuid_string(runtime_run_id.value).as_str())
                    .concat(" cannot record message run ").concat(uuid_string(message_run_id.value).as_str()),
            MessageRouterError::Trace(e) => String::from_str("trace error: ").concat(e.message().as_str()),
            MessageRouterError::StorageUnavailable => String::from_str("message router storage is unavailable"),
        }
    }
}

/// A whole number given by its sign and magnitude, in decimal; zero has no
/// sign.
pub open spec fn signed_text(negative: bool, magnitude: nat) -> Seq<char> {
    if negative && magnitude != 0 { seq!['-'] + decimal_digits(magnitude) } else { decimal_digits(magnitude) }
}

/// The text `{:?}` gives for a `time::Duration` of `nanos` nanoseconds: its
/// whole seconds and the nanoseconds left over, both truncated toward zero
/// and carrying the span's sign.
pub open spec fn duration_debug_text(nanos: i128) -> Seq<char> {
    let magnitude: nat = if nanos < 0 { (-nanos) as nat } else { nanos as nat };
    "SignedDuration { seconds: "@ + signed_text(nanos < 0, magnitude / 1_000_000_000)
        + ", nanoseconds: "@ + signed_text(nanos < 0, magnitude % 1_000_000_000) + " }"@
}

/// Nanosecond counts that `time::Duration::nanoseconds_i128` accepts: whole
/// seconds within the `i64` range.
pub open spec fn duration_in_range(nanos: i128) -> bool {
    -9_223_372_036_854_775_807_000_000_000 <= nanos <= 9_223_372_036_854_775_807_000_000_000
}

/// A whole number given by its sign and magnitude, in decimal.
fn signed_string(negative: bool, magnitude: u64) -> (r: String)
    ensures
        r@ == signed_text(negative, magnitude as nat),
{
    let digits = u64_text(magnitude);
    if negative && magnitude != 0 {
        proof { reveal_strlit("-"); }
        String::from_str("-").concat(digits.as_str())
    } else {
        digits
    }
}

/// Formats a span as `{:?}` formats a `time::Duration` of that many
/// nanoseconds, within the range such a duration holds.
fn duration_text(nanos: i128) -> (r: String)
    requires
        duration_in_range(nanos),
    ensures
        r@ == duration_debug_text(nanos),
{
    let negative = nanos < 0;
    let magnitude: u128 = if negative { (0 - nanos) as u128 } else { nanos as u128 };
    let seconds: u64 = (magnitude / 1_000_000_000) as u64;
    let rest: u64 = (magnitude % 1_000_000_000) as u64;
    let text = String::from_str("SignedDuration { seconds: ")
        .concat(signed_string(negative, seconds).as_str())
        .concat(", nanoseconds: ")
        .concat(signed_string(negative, rest).as_str())
        .concat(" }");
    proof {
        reveal_strlit("SignedDuration { seconds: ");
        reveal_strlit(", nanoseconds: ");
        reveal_strlit(" }");
    }
    text
}

/// A span clamped into the range a `time::Duration` can hold.
pub open spec fn duration_clamp(nanos: i128) -> i128 {
    if nanos < -9_223_372_036_854_775_807_000_000_000i128 {
        -9_223_372_036_854_775_807_000_000_000i128
    } else if nanos > 9_223_372_036_854_775_807_000_000_000i128 {
        9_223_372_036_854_775_807_000_000_000i128
    } else {
        nanos
    }
}

/// Age of a message created at `created`, seen at `now`.
pub open spec fn message_age(created: Timestamp, now: Timestamp) -> i128 {
    clamp_i128(now.unix_nanos - created.unix_nanos)
}

/// Whether a message created at `created` has expired at `now`.
pub open spec fn is_expired(cfg: MessageRouterConfig, created: Timestamp, now: Timestamp) -> bool {
    match cfg.max_message_age {
        None => false,
        Some(max) => message_age(created, now) >= max.nanos,
    }
}

/// The expiration reason recorded for an expired message.
pub open spec fn expiration_text(cfg: MessageRouterConfig, created: Timestamp, now: Timestamp) -> Seq<char> {
    "message age "@ + duration_debug_text(duration_clamp(message_age(created, now)))
        + " exceeded max_message_age "@ + duration_debug_text(duration_clamp(cfg.max_message_age.unwrap().nanos))
}

/// The reason a message expired at `now`, or none while it is fresh.
pub fn expiration_reason(config: &MessageRouterConfig, created: &Timestamp, now: &Timestamp) -> (r: Option<String>)
    ensures
        r is Some <==> is_expired(*config, *created, *now),
        r matches Some(t) ==> t@ == expiration_text(*config, *created, *now),
{
    match config.max_message_age {
        None => None,
        Some(max_age) => {
            let age = now.since(created);
            if age.nanos >= max_age.nanos {
                let a = clamp_duration(age.nanos);
                let m = clamp_duration(max_age.nanos);
                let text = String::from_str("message age ").concat(duration_text(a).as_str())
                    .concat(" exceeded max_message_age ").concat(duration_text(m).as_str());
                Some(text)
            } else {
                None
            }
        },
    }
}

fn clamp_duration(nanos: i128) -> (r: i128)
    ensures
        r == duration_clamp(nanos),
        duration_in_range(r),
{
    if nanos < -9_223_372_036_854_775_807_000_000_000i128 {
        -9_223_372_036_854_775_807_000_000_000i128
    } else if nanos > 9_223_372_036_854_775_807_000_000_000i128 {
        9_223_372_036_854_775_807_000_000_000i128
    } else {
        nanos
    }
}

/// The trace context recorded for `m`.
pub open spec fn context_of(c: MessageTraceContext, m: Message) -> bool {
    &&& c.message_id == m.message_id
    &&& c.source_agent_id == m.source_agent_id
    &&& c.target_agent_id == m.target_agent_id
    &&& c.run_id == m.run_id
    &&& c.schema@ == m.schema@
}

/// `k` is a rejection event for `m` with the given reason.
pub open spec fn is_rejection_event(k: TraceEventKind, m: Message, reason: Seq<char>) -> bool {
    k matches TraceEventKind::MessageRejected { message, reason: rs } && context_of(message, m) && rs@ == reason
}

/// `k` is an expiration event for `m` with the given reason.
pub open spec fn is_expiration_event(k: TraceEventKind, m: Message, reason: Seq<char>) -> bool {
    k matches TraceEventKind::MessageExpired { message, reason: Some(rs) } && context_of(message, m) && rs@ == reason
}

/// The first check that a send fails, in the order the router applies them.
pub enum RouteCheck {
    Invalid(MessageValidationError),
    RunMismatch,
    Expired,
    UnknownSource,
    UnknownTarget,
    OutboxFull,
    InboxFull,
    Route,
}

/// The first check that an inbound delivery from another instance fails,
/// in the order the router applies them.
pub enum InboundCheck {
    Invalid(MessageValidationError),
    RunMismatch,
    Expired,
    UnknownTarget,
    InboxFull,
    Deliver,
}

/// The messages of `s` that belong to `run`, in order.
pub open spec fn of_run(s: Seq<EnvView>, run: RunId) -> Seq<EnvView>
    decreases s.len(),
{
    if s.len() == 0 {
        seq![]
    } else if s.last().3 == run {
        of_run(s.drop_last(), run).push(s.last())
    } else {
        of_run(s.drop_last(), run)
    }
}

/// `i` is the first position of `s` with a message of `run`.
pub open spec fn first_of_run(s: Seq<EnvView>, run: RunId, i: int) -> bool {
    &&& 0 <= i < s.len()
    &&& s[i].3 == run
    &&& forall|j: int| 0 <= j < i ==> #[trigger] s[j].3 != run
}

/// `i` is the first position of `s` holding message `id` of `run`.
pub open spec fn first_with(s: Seq<EnvView>, run: RunId, id: MessageId, i: int) -> bool {
    &&& 0 <= i < s.len()
    &&& s[i].3 == run
    &&& s[i].0 == id
    &&& forall|j: int| 0 <= j < i ==> !(#[trigger] s[j].3 == run && s[j].0 == id)
}

/// `s` with the first entry for message `id` replaced by `v`, if there is one.
pub open spec fn outbox_updated(s: Seq<EnvView>, t: Seq<EnvView>, id: MessageId, v: EnvView) -> bool {
    ||| exists|i: int| 0 <= i < s.len() && s[i].0 == id
            && (forall|j: int| 0 <= j < i ==> #[trigger] s[j].0 != id)
            && t == s.update(i, v)
    ||| (forall|j: int| 0 <= j < s.len() ==> #[trigger] s[j].0 != id) && t == s
}

/// In-memory router for local agents.
pub struct LocalMessageRouter {
    config: MessageRouterConfig,
    mailboxes: Vec<(AgentId, AgentMailbox)>,
}

impl LocalMessageRouter {
    pub closed spec fn limits(&self) -> MessageRouterConfig {
        self.config
    }

    pub closed spec fn mailbox_of(&self, a: AgentId) -> Option<AgentMailbox> {
        assoc_get(self.mailboxes@, a)
    }

    pub open spec fn registered(&self, a: AgentId) -> bool {
        self.mailbox_of(a) is Some
    }

    /// The delivered messages waiting in `a`'s inbox, oldest first.
    pub open spec fn inbox_of(&self, a: AgentId) -> Seq<EnvView> {
        match self.mailbox_of(a) {
            Some(m) => env_views(m.inbox@),
            None => seq![],
        }
    }

    /// The messages `a` sent, oldest first, with their latest status.
    pub open spec fn outbox_of(&self, a: AgentId) -> Seq<EnvView> {
        match self.mailbox_of(a) {
            Some(m) => env_views(m.outbox@),
            None => seq![],
        }
    }

    /// What sending a valid message from `source` to `target`, created at the
    /// moment it is sent and traced in its own run, runs into first.
    pub open spec fn fresh_route_check(&self, source: AgentId, target: AgentId) -> RouteCheck {
        if self.limits().max_message_age matches Some(max) && 0 >= max.nanos {
            RouteCheck::Expired
        } else if !self.registered(source) {
            RouteCheck::UnknownSource
        } else if !self.registered(target) {
            RouteCheck::UnknownTarget
        } else if self.mailbox_of(source).unwrap().outbox@.len() >= self.limits().max_outbox_messages {
            RouteCheck::OutboxFull
        } else if self.mailbox_of(target).unwrap().inbox@.len() >= self.limits().max_inbox_messages {
            RouteCheck::InboxFull
        } else {
            RouteCheck::Route
        }
    }

    /// A valid message created when it is sent, traced in its own run, meets
    /// the checks of a fresh message.
    pub proof fn lemma_fresh_route_check(&self, rec_run: RunId, m: Message, now: Timestamp)
        requires
            message_validation(m) is None,
            rec_run == m.run_id,
            m.created_at == now,
        ensures
            self.route_check(rec_run, m, now) == self.fresh_route_check(m.source_agent_id, m.target_agent_id),
    {
        assert(message_age(now, now) == 0);
    }

    /// The first check that sending `m` at `now` fails, for a recorder of `rec_run`.
    pub open spec fn route_check(&self, rec_run: RunId, m: Message, now: Timestamp) -> RouteCheck {
        if message_validation(m) is Some {
            RouteCheck::Invalid(message_validation(m).unwrap())
        } else if rec_run != m.run_id {
            RouteCheck::RunMismatch
        } else if is_expired(self.limits(), m.created_at, now) {
            RouteCheck::Expired
        } else if !self.registered(m.source_agent_id) {
            RouteCheck::UnknownSource
        } else if !self.registered(m.target_agent_id) {
            RouteCheck::UnknownTarget
        } else if self.mailbox_of(m.source_agent_id).unwrap().outbox@.len() >= self.limits().max_outbox_messages {
            RouteCheck::OutboxFull
        } else if self.mailbox_of(m.target_agent_id).unwrap().inbox@.len() >= self.limits().max_inbox_messages {
            RouteCheck::InboxFull
        } else {
            RouteCheck::Route
        }
    }

    /// What delivering `m`, which arrived from another instance, at `now`
    /// through a recorder of `rec_run` runs into first.
    pub open spec fn inbound_check(&self, rec_run: RunId, m: Message, now: Timestamp) -> InboundCheck {
        if message_validation(m) is Some {
            InboundCheck::Invalid(message_validation(m).unwrap())
        } else if rec_run != m.run_id {
            InboundCheck::RunMismatch
        } else if is_expired(self.limits(), m.created_at, now) {
            InboundCheck::Expired
        } else if !self.registered(m.target_agent_id) {
            InboundCheck::UnknownTarget
        } else if self.mailbox_of(m.target_agent_id).unwrap().inbox@.len() >= self.limits().max_inbox_messages {
            InboundCheck::InboxFull
        } else {
            InboundCheck::Deliver
        }
    }

    /// An empty router with the standard limits.
    pub fn new() -> (r: LocalMessageRouter)
        ensures
            r.limits() == MessageRouterConfig::standard_spec(),
            forall|a: AgentId| !#[trigger] r.registered(a),
    {
        Self::with_config(MessageRouterConfig::standard())
    }

    /// An empty router with explicit limits.
    pub fn with_config(config: MessageRouterConfig) -> (r: LocalMessageRouter)
        ensures
            r.limits() == config,
            forall|a: AgentId| !#[trigger] r.registered(a),
    {
        let r = LocalMessageRouter { config, mailboxes: Vec::new() };
        proof {
            assert forall|a: AgentId| !#[trigger] r.registered(a) by {
                lemma_assoc_absent(r.mailboxes@, a);
            }
        }
        r
    }

    fn find(&self, id: &AgentId) -> (r: Option<usize>)
        ensures
            r matches Some(i) ==> is_last_index(self.mailboxes@, *id, i as int)
                && self.mailbox_of(*id) == Some(self.mailboxes@[i as int].1),
            r is None ==> self.mailbox_of(*id) is None,
    {
        let mut i: usize = self.mailboxes.len();
        while i > 0
            invariant
                i <= self.mailboxes@.len(),
                forall|j: int| i <= j < self.mailboxes@.len() ==> #[trigger] self.mailboxes@[j].0 != *id,
            decreases i,
        {
            i = i - 1;
            if self.mailboxes[i].0 == *id {
                proof { lemma_assoc_last(self.mailboxes@, *id, i as int); }
                return Some(i);
            }
        }
        proof { lemma_assoc_absent(self.mailboxes@, *id); }
        None
    }

    /// Registers an agent; an agent already registered keeps its queues.
    pub fn register_agent(&mut self, agent_id: AgentId) -> (r: Result<(), MessageRouterError>)
        ensures
            r is Ok,
            final(self).limits() == old(self).limits(),
            final(self).registered(agent_id),
            old(self).registered(agent_id) ==> final(self).mailbox_of(agent_id) == old(self).mailbox_of(agent_id),
            !old(self).registered(agent_id) ==> final(self).inbox_of(agent_id).len() == 0
                && final(self).outbox_of(agent_id).len() == 0,
            forall|a: AgentId| a != agent_id ==> #[trigger] final(self).mailbox_of(a) == old(self).mailbox_of(a),
            forall|a: AgentId| #[trigger] final(self).inbox_messages(a) == old(self).inbox_messages(a),
    {
        match self.find(&agent_id) {
            Some(_) => Ok(()),
            None => {
                let ghost before = self.mailboxes@;
                let mb = AgentMailbox { inbox: Vec::new(), outbox: Vec::new() };
                let ghost g = mb;
                self.mailboxes.push((agent_id, mb));
                proof {
                    assert forall|q: AgentId| #[trigger] assoc_get(self.mailboxes@, q)
                        == if q == agent_id { Some(g) } else { assoc_get(before, q) } by {
                        lemma_assoc_push(before, agent_id, g, q);
                    }
                    assert(env_views(g.inbox@) =~= seq![]);
                    assert(env_views(g.outbox@) =~= seq![]);
                    assert(g.inbox@.map_values(|e: MessageEnvelope| e.message) =~= seq![]);
                }
                Ok(())
            },
        }
    }

    /// Registers the agent of a runtime context.
    pub fn register_agent_context(&mut self, agent: &crate::tenancy::AgentContext) -> (r: Result<(), MessageRouterError>)
        ensures
            r is Ok,
            final(self).limits() == old(self).limits(),
            final(self).registered(agent.agent_id),
            old(self).registered(agent.agent_id) ==> final(self).mailbox_of(agent.agent_id) == old(self).mailbox_of(agent.agent_id),
            forall|a: AgentId| a != agent.agent_id ==> #[trigger] final(self).mailbox_of(a) == old(self).mailbox_of(a),
    {
        self.register_agent(agent.agent_id)
    }
}

/// `t` is `s` with one more entry at the end.
pub open spec fn appended_one<T>(s: Seq<T>, t: Seq<T>) -> bool {
    t.len() == s.len() + 1 && t.drop_last() == s
}

/// A refusal that is recorded as a rejection: either the refusal error came
/// back after a matching rejection event was recorded, or recording failed
/// and nothing was recorded.
pub open spec fn rejected_with(
    r: Result<MessageEnvelope, MessageRouterError>,
    e: MessageRouterError,
    before: Seq<TraceEventKind>,
    after: Seq<TraceEventKind>,
    m: Message,
) -> bool {
    ||| r == Err::<MessageEnvelope, MessageRouterError>(e) && appended_one(before, after)
            && is_rejection_event(after.last(), m, rejection_text(e))
    ||| r matches Err(MessageRouterError::Trace(_)) && after == before
}

fn ensure_recorder_run<R: MessageTraceRecorder>(recorder: &R, run_id: &RunId) -> (r: Result<(), MessageRouterError>)
    ensures
        r is Ok <==> recorder.recorder_run() == *run_id,
        r is Err ==> r == Err::<(), MessageRouterError>(MessageRouterError::TraceRunMismatch {
            runtime_run_id: recorder.recorder_run(),
            message_run_id: *run_id,
        }),
{
    let rr = recorder.run_id();
    if rr != *run_id {
        return Err(MessageRouterError::TraceRunMismatch { runtime_run_id: rr, message_run_id: *run_id });
    }
    Ok(())
}

fn record_rejection<R: MessageTraceRecorder>(recorder: &mut R, m: &Message, reason: String) -> (r: Result<(), MessageRouterError>)
    ensures
        final(recorder).failed_records() >= old(recorder).failed_records(),
        r matches Err(MessageRouterError::Trace(_)) ==> final(recorder).failed_records() > old(recorder).failed_records(),
        !(r matches Err(MessageRouterError::Trace(_))) ==> final(recorder).failed_records() == old(recorder).failed_records(),
        final(recorder).recorder_run() == old(recorder).recorder_run(),
        r is Ok ==> appended_one(old(recorder).recorded(), final(recorder).recorded())
            && is_rejection_event(final(recorder).recorded().last(), *m, reason@),
        r is Err ==> (r matches Err(MessageRouterError::Trace(_))) && final(recorder).recorded() == old(recorder).recorded(),
{
    let context = MessageTraceContext::from_message(m);
    let kind = TraceEventKind::MessageRejected { message: context, reason };
    let ghost k = kind;
    match recorder.record_message_event(kind) {
        Ok(_) => {
            assert(final(recorder).recorded().drop_last() =~= old(recorder).recorded());
            Ok(())
        },
        Err(e) => Err(MessageRouterError::Trace(e)),
    }
}

fn record_expiration<R: MessageTraceRecorder>(recorder: &mut R, m: &Message, reason: String) -> (r: Result<crate::ids::TraceEventId, MessageRouterError>)
    ensures
        final(recorder).failed_records() >= old(recorder).failed_records(),
        r matches Err(MessageRouterError::Trace(_)) ==> final(recorder).failed_records() > old(recorder).failed_records(),
        !(r matches Err(MessageRouterError::Trace(_))) ==> final(recorder).failed_records() == old(recorder).failed_records(),
        final(recorder).recorder_run() == old(recorder).recorder_run(),
        r is Ok ==> appended_one(old(recorder).recorded(), final(recorder).recorded())
            && is_expiration_event(final(recorder).recorded().last(), *m, reason@),
        r is Err ==> (r matches Err(MessageRouterError::Trace(_))) && final(recorder).recorded() == old(recorder).recorded(),
{
    let context = MessageTraceContext::from_message(m);
    let kind = TraceEventKind::MessageExpired { message: context, reason: Some(reason) };
    match recorder.record_message_event(kind) {
        Ok(id) => {
            assert(final(recorder).recorded().drop_last() =~= old(recorder).recorded());
            Ok(id)
        },
        Err(e) => Err(MessageRouterError::Trace(e)),
    }
}

proof fn lemma_env_views_push(s: Seq<MessageEnvelope>, e: MessageEnvelope)
    ensures
        env_views(s.push(e)) == env_views(s).push(env_view(e)),
{
    assert(env_views(s.push(e)) =~= env_views(s).push(env_view(e)));
}

impl LocalMessageRouter {
    /// Routes `envelope` at time `now`, recording through `recorder`.
    ///
    /// Checks, in order: the envelope is valid; the recorder records the
    /// message's run; the message has not expired; source and target are
    /// registered; the source outbox and the target inbox have room. A
    /// refusal is recorded as a rejection (an expiry as an expiration) and
    /// returned. A routed message is recorded as queued, then delivered, and
    /// appended to the source's outbox and the target's inbox. No failure
    /// changes any mailbox.
    pub fn send_at<R: MessageTraceRecorder>(&mut self, recorder: &mut R, envelope: MessageEnvelope, now: Timestamp)
        -> (r: Result<MessageEnvelope, MessageRouterError>)
        ensures
            final(recorder).failed_records() >= old(recorder).failed_records(),
            r matches Err(MessageRouterError::Trace(_)) ==> final(recorder).failed_records() > old(recorder).failed_records(),
            !(r matches Err(MessageRouterError::Trace(_))) ==> final(recorder).failed_records() == old(recorder).failed_records(),
            final(self).limits() == old(self).limits(),
            final(recorder).recorder_run() == old(recorder).recorder_run(),
            r is Ok ==> old(self).route_check(old(recorder).recorder_run(), envelope.message, now) is Route,
            r is Err ==> forall|a: AgentId| #[trigger] final(self).mailbox_of(a) == old(self).mailbox_of(a),
            match old(self).route_check(old(recorder).recorder_run(), envelope.message, now) {
                RouteCheck::Invalid(source) =>
                    if old(recorder).recorder_run() != envelope.message.run_id {
                        r == Err::<MessageEnvelope, MessageRouterError>(MessageRouterError::TraceRunMismatch {
                            runtime_run_id: old(recorder).recorder_run(),
                            message_run_id: envelope.message.run_id,
                        }) && final(recorder).recorded() == old(recorder).recorded()
                    } else {
                        rejected_with(r, MessageRouterError::InvalidMessage { message_id: envelope.message.message_id, source },
                            old(recorder).recorded(), final(recorder).recorded(), envelope.message)
                    },
                RouteCheck::RunMismatch =>
                    r == Err::<MessageEnvelope, MessageRouterError>(MessageRouterError::TraceRunMismatch {
                        runtime_run_id: old(recorder).recorder_run(),
                        message_run_id: envelope.message.run_id,
                    }) && final(recorder).recorded() == old(recorder).recorded(),
                RouteCheck::Expired =>
                    (r matches Err(MessageRouterError::Expired { message_id, reason })
                        && message_id == envelope.message.message_id
                        && reason@ == expiration_text(old(self).limits(), envelope.message.created_at, now)
                        && appended_one(old(recorder).recorded(), final(recorder).recorded())
                        && is_expiration_event(final(recorder).recorded().last(), envelope.message, reason@))
                    || (r matches Err(MessageRouterError::Trace(_)) && final(recorder).recorded() == old(recorder).recorded()),
                RouteCheck::UnknownSource =>
                    rejected_with(r, MessageRouterError::UnknownSourceAgent(envelope.message.source_agent_id),
                        old(recorder).recorded(), final(recorder).recorded(), envelope.message),
                RouteCheck::UnknownTarget =>
                    rejected_with(r, MessageRouterError::UnknownTargetAgent(envelope.message.target_agent_id),
                        old(recorder).recorded(), final(recorder).recorded(), envelope.message),
                RouteCheck::OutboxFull =>
                    rejected_with(r, MessageRouterError::OutboxFull {
                            agent_id: envelope.message.source_agent_id,
                            limit: old(self).limits().max_outbox_messages,
                        }, old(recorder).recorded(), final(recorder).recorded(), envelope.message),
                RouteCheck::InboxFull =>
                    rejected_with(r, MessageRouterError::InboxFull {
                            agent_id: envelope.message.target_agent_id,
                            limit: old(self).limits().max_inbox_messages,
                        }, old(recorder).recorded(), final(recorder).recorded(), envelope.message),
                RouteCheck::Route =>
                    r is Ok || r matches Err(MessageRouterError::Trace(_)),
            },
            r matches Ok(routed) ==> {
                let n = old(recorder).recorded().len();
                let rec = final(recorder).recorded();
                // The inbox keeps the message itself; the envelope handed back
                // is a copy of it.
                &&& same_message(routed.message, envelope.message)
                &&& final(self).inbox_entry(envelope.message.target_agent_id, old(self).inbox_of(envelope.message.target_agent_id).len() as int)
                        == (MessageEnvelope { message: envelope.message, ..routed })
                &&& forall|a: AgentId| #[trigger] final(self).inbox_messages(a) == if a == envelope.message.target_agent_id {
                        old(self).inbox_messages(a).push(envelope.message)
                    } else {
                        old(self).inbox_messages(a)
                    }
                &&& routed.delivery_status == MessageDeliveryStatus::Delivered
                &&& routed.trace_links.queued_trace_id is Some
                &&& routed.trace_links.delivered_trace_id is Some
                // The links name the ids the recorder gave the two events.
                &&& final(recorder).recorded_ids().len() == old(recorder).recorded_ids().len() + 2
                &&& routed.trace_links.queued_trace_id == Some(final(recorder).recorded_ids()[old(recorder).recorded_ids().len() as int])
                &&& routed.trace_links.delivered_trace_id == Some(final(recorder).recorded_ids()[old(recorder).recorded_ids().len() as int + 1])
                &&& routed.trace_links.consumed_trace_id == envelope.trace_links.consumed_trace_id
                &&& routed.trace_links.expired_trace_id == envelope.trace_links.expired_trace_id
                &&& rec.len() == n + 2
                &&& rec.take(n as int) == old(recorder).recorded()
                &&& rec[n as int] matches TraceEventKind::MessageQueued { message } && context_of(message, envelope.message)
                &&& rec[n as int + 1] matches TraceEventKind::MessageDelivered { message } && context_of(message, envelope.message)
                &&& forall|a: AgentId| #[trigger] final(self).registered(a) == old(self).registered(a)
                &&& forall|a: AgentId| #[trigger] final(self).inbox_of(a) == if a == envelope.message.target_agent_id {
                        old(self).inbox_of(a).push(env_view(routed))
                    } else {
                        old(self).inbox_of(a)
                    }
                &&& forall|a: AgentId| #[trigger] final(self).outbox_of(a) == if a == envelope.message.source_agent_id {
                        old(self).outbox_of(a).push(env_view(routed))
                    } else {
                        old(self).outbox_of(a)
                    }
            },
    {
        let ghost m = envelope.message;
        if let Err(source) = envelope.validate() {
            let error = MessageRouterError::InvalidMessage { message_id: envelope.message.message_id, source };
            ensure_recorder_run(recorder, &envelope.message.run_id)?;
            let reason = error.message();
            return match record_rejection(recorder, &envelope.message, reason) {
                Ok(()) => Err(error),
                Err(e) => Err(e),
            };
        }
        ensure_recorder_run(recorder, &envelope.message.run_id)?;
        if let Some(reason) = expiration_reason(&self.config, &envelope.message.created_at, &now) {
            let ghost rs = reason@;
            let id = envelope.message.message_id;
            return match record_expiration(recorder, &envelope.message, reason.clone()) {
                Ok(_) => Err(MessageRouterError::Expired { message_id: id, reason }),
                Err(e) => Err(e),
            };
        }
        let source_id = envelope.message.source_agent_id;
        let target_id = envelope.message.target_agent_id;
        let si = match self.find(&source_id) {
            Some(i) => i,
            None => {
                let error = MessageRouterError::UnknownSourceAgent(source_id);
                let reason = error.message();
                return match record_rejection(recorder, &envelope.message, reason) {
                    Ok(()) => Err(error),
                    Err(e) => Err(e),
                };
            },
        };
        let ti = match self.find(&target_id) {
            Some(i) => i,
            None => {
                let error = MessageRouterError::UnknownTargetAgent(target_id);
                let reason = error.message();
                return match record_rejection(recorder, &envelope.message, reason) {
                    Ok(()) => Err(error),
                    Err(e) => Err(e),
                };
            },
        };
        if self.mailboxes[si].1.outbox.len() >= self.config.max_outbox_messages {
            let error = MessageRouterError::OutboxFull { agent_id: source_id, limit: self.config.max_outbox_messages };
            let reason = error.message();
            return match record_rejection(recorder, &envelope.message, reason) {
                Ok(()) => Err(error),
                Err(e) => Err(e),
            };
        }
        if self.mailboxes[ti].1.inbox.len() >= self.config.max_inbox_messages {
            let error = MessageRouterError::InboxFull { agent_id: target_id, limit: self.config.max_inbox_messages };
            let reason = error.message();
            return match record_rejection(recorder, &envelope.message, reason) {
                Ok(()) => Err(error),
                Err(e) => Err(e),
            };
        }

        let ghost rec0 = recorder.recorded();
        let mut routed = envelope;
        let queued_context = MessageTraceContext::from_message(&routed.message);
        routed.delivery_status = MessageDeliveryStatus::Queued;
        let queued = match recorder.record_message_event(TraceEventKind::MessageQueued { message: queued_context }) {
            Ok(id) => id,
            Err(e) => return Err(MessageRouterError::Trace(e)),
        };
        routed.trace_links.queued_trace_id = Some(queued);
        let delivered_context = MessageTraceContext::from_message(&routed.message);
        let delivered = match recorder.record_message_event(TraceEventKind::MessageDelivered { message: delivered_context }) {
            Ok(id) => id,
            Err(e) => return Err(MessageRouterError::Trace(e)),
        };
        routed.delivery_status = MessageDeliveryStatus::Delivered;
        routed.trace_links.delivered_trace_id = Some(delivered);
        proof {
            let rec = recorder.recorded();
            assert(rec.take(rec0.len() as int) =~= rec0);
        }

        let ghost s0 = self.mailboxes@;
        let out_copy = routed.duplicate();
        let in_copy = routed.duplicate();
        let ghost stored = routed;
        self.mailboxes[si].1.outbox.push(out_copy);
        let ghost s1 = self.mailboxes@;
        self.mailboxes[ti].1.inbox.push(routed);
        let ghost s2 = self.mailboxes@;
        proof {
            assert(s1 == s0.update(si as int, (source_id, s1[si as int].1)));
            assert forall|q: AgentId| #[trigger] assoc_get(s1, q)
                == if q == source_id { Some(s1[si as int].1) } else { assoc_get(s0, q) } by {
                lemma_assoc_update(s0, source_id, si as int, s1[si as int].1, q);
            }
            assert(is_last_index(s0, target_id, ti as int));
            assert(is_last_index(s1, target_id, ti as int));
            assert(s2 == s1.update(ti as int, (target_id, s2[ti as int].1)));
            assert forall|q: AgentId| #[trigger] assoc_get(s2, q)
                == if q == target_id { Some(s2[ti as int].1) } else { assoc_get(s1, q) } by {
                lemma_assoc_update(s1, target_id, ti as int, s2[ti as int].1, q);
            }
            lemma_env_views_push(s0[si as int].1.outbox@, out_copy);
            lemma_env_views_push(s1[ti as int].1.inbox@, stored);
            assert forall|a: AgentId| #[trigger] self.inbox_of(a) == if a == target_id {
                old(self).inbox_of(a).push(env_view(stored))
            } else {
                old(self).inbox_of(a)
            } by {
                if a == target_id && a == source_id {
                    assert(s1[si as int].1.inbox == s0[si as int].1.inbox);
                } else if a == source_id {
                    assert(s1[si as int].1.inbox == s0[si as int].1.inbox);
                }
            }
            assert forall|a: AgentId| #[trigger] self.outbox_of(a) == if a == source_id {
                old(self).outbox_of(a).push(env_view(stored))
            } else {
                old(self).outbox_of(a)
            } by {
                if a == target_id && a == source_id {
                    assert(s2[ti as int].1.outbox == s1[ti as int].1.outbox);
                } else if a == target_id {
                    assert(s2[ti as int].1.outbox == s1[ti as int].1.outbox);
                }
            }
        }
        Ok(in_copy)
    }
}

impl LocalMessageRouter {
    /// The refusal delivering `envelope` from another instance at `now`
    /// through a recorder of `rec_run` would meet, if any.
    pub fn inbound_refusal(&self, rec_run: RunId, envelope: &MessageEnvelope, now: Timestamp) -> (r: Option<MessageRouterError>)
        ensures
            r is None <==> self.inbound_check(rec_run, envelope.message, now) is Deliver,
            match self.inbound_check(rec_run, envelope.message, now) {
                InboundCheck::Invalid(source) =>
                    r == Some(MessageRouterError::InvalidMessage { message_id: envelope.message.message_id, source }),
                InboundCheck::RunMismatch =>
                    r == Some(MessageRouterError::TraceRunMismatch { runtime_run_id: rec_run, message_run_id: envelope.message.run_id }),
                InboundCheck::Expired =>
                    r matches Some(MessageRouterError::Expired { message_id, reason })
                        && message_id == envelope.message.message_id
                        && reason@ == expiration_text(self.limits(), envelope.message.created_at, now),
                InboundCheck::UnknownTarget => r == Some(MessageRouterError::UnknownTargetAgent(envelope.message.target_agent_id)),
                InboundCheck::InboxFull => r == Some(MessageRouterError::InboxFull {
                        agent_id: envelope.message.target_agent_id,
                        limit: self.limits().max_inbox_messages,
                    }),
                InboundCheck::Deliver => true,
            },
    {
        if let Err(source) = envelope.validate() {
            return Some(MessageRouterError::InvalidMessage { message_id: envelope.message.message_id, source });
        }
        if rec_run != envelope.message.run_id {
            return Some(MessageRouterError::TraceRunMismatch { runtime_run_id: rec_run, message_run_id: envelope.message.run_id });
        }
        if let Some(reason) = expiration_reason(&self.config, &envelope.message.created_at, &now) {
            return Some(MessageRouterError::Expired { message_id: envelope.message.message_id, reason });
        }
        let target_id = envelope.message.target_agent_id;
        let ti = match self.find(&target_id) {
            Some(i) => i,
            None => return Some(MessageRouterError::UnknownTargetAgent(target_id)),
        };
        if self.mailboxes[ti].1.inbox.len() >= self.config.max_inbox_messages {
            return Some(MessageRouterError::InboxFull { agent_id: target_id, limit: self.config.max_inbox_messages });
        }
        None
    }

    /// Delivers `envelope`, which arrived from another instance, into its
    /// target's inbox at `now`, recording through `recorder`.
    ///
    /// Checks, in order: the message is valid; the recorder records the
    /// message's run; the message has not expired; the target is registered;
    /// its inbox has room. A refusal records nothing and changes no mailbox;
    /// the sending instance's side records it. A delivered message is
    /// recorded as queued, then delivered, and appended to the target's inbox
    /// only: its source lives on the other instance.
    pub fn deliver_inbound_at<R: MessageTraceRecorder>(&mut self, recorder: &mut R, envelope: MessageEnvelope, now: Timestamp)
        -> (r: Result<MessageEnvelope, MessageRouterError>)
        ensures
            final(recorder).failed_records() >= old(recorder).failed_records(),
            r matches Err(MessageRouterError::Trace(_)) ==> final(recorder).failed_records() > old(recorder).failed_records(),
            !(r matches Err(MessageRouterError::Trace(_))) ==> final(recorder).failed_records() == old(recorder).failed_records(),
            final(self).limits() == old(self).limits(),
            final(recorder).recorder_run() == old(recorder).recorder_run(),
            forall|a: AgentId| #[trigger] final(self).registered(a) == old(self).registered(a),
            r is Ok ==> old(self).inbound_check(old(recorder).recorder_run(), envelope.message, now) is Deliver,
            r is Err ==> forall|a: AgentId| #[trigger] final(self).mailbox_of(a) == old(self).mailbox_of(a),
            !(old(self).inbound_check(old(recorder).recorder_run(), envelope.message, now) is Deliver)
                ==> final(recorder).recorded() == old(recorder).recorded()
                    && final(recorder).recorded_ids() == old(recorder).recorded_ids(),
            match old(self).inbound_check(old(recorder).recorder_run(), envelope.message, now) {
                InboundCheck::Invalid(source) =>
                    r == Err::<MessageEnvelope, MessageRouterError>(MessageRouterError::InvalidMessage { message_id: envelope.message.message_id, source }),
                InboundCheck::RunMismatch =>
                    r == Err::<MessageEnvelope, MessageRouterError>(MessageRouterError::TraceRunMismatch {
                        runtime_run_id: old(recorder).recorder_run(),
                        message_run_id: envelope.message.run_id,
                    }),
                InboundCheck::Expired =>
                    r matches Err(MessageRouterError::Expired { message_id, reason })
                        && message_id == envelope.message.message_id
                        && reason@ == expiration_text(old(self).limits(), envelope.message.created_at, now),
                InboundCheck::UnknownTarget =>
                    r == Err::<MessageEnvelope, MessageRouterError>(MessageRouterError::UnknownTargetAgent(envelope.message.target_agent_id)),
                InboundCheck::InboxFull =>
                    r == Err::<MessageEnvelope, MessageRouterError>(MessageRouterError::InboxFull {
                        agent_id: envelope.message.target_agent_id,
                        limit: old(self).limits().max_inbox_messages,
                    }),
                InboundCheck::Deliver => r is Ok || r matches Err(MessageRouterError::Trace(_)),
            },
            r matches Ok(routed) ==> {
                let n = old(recorder).recorded().len();
                let rec = final(recorder).recorded();
                let ids = final(recorder).recorded_ids();
                let m = old(recorder).recorded_ids().len();
                // The inbox keeps the message itself; the envelope handed back
                // is a copy of it.
                &&& same_message(routed.message, envelope.message)
                &&& final(self).inbox_entry(envelope.message.target_agent_id, old(self).inbox_of(envelope.message.target_agent_id).len() as int)
                        == (MessageEnvelope { message: envelope.message, ..routed })
                &&& forall|a: AgentId| #[trigger] final(self).inbox_messages(a) == if a == envelope.message.target_agent_id {
                        old(self).inbox_messages(a).push(envelope.message)
                    } else {
                        old(self).inbox_messages(a)
                    }
                &&& routed.delivery_status == MessageDeliveryStatus::Delivered
                &&& rec.len() == n + 2
                &&& rec.take(n as int) == old(recorder).recorded()
                &&& rec[n as int] matches TraceEventKind::MessageQueued { message } && context_of(message, envelope.message)
                &&& rec[n as int + 1] matches TraceEventKind::MessageDelivered { message } && context_of(message, envelope.message)
                &&& ids.len() == m + 2
                &&& routed.trace_links.queued_trace_id == Some(ids[m as int])
                &&& routed.trace_links.delivered_trace_id == Some(ids[m as int + 1])
                &&& routed.trace_links.consumed_trace_id == envelope.trace_links.consumed_trace_id
                &&& routed.trace_links.expired_trace_id == envelope.trace_links.expired_trace_id
                &&& forall|a: AgentId| #[trigger] final(self).inbox_of(a) == if a == envelope.message.target_agent_id {
                        old(self).inbox_of(a).push(env_view(routed))
                    } else {
                        old(self).inbox_of(a)
                    }
                &&& forall|a: AgentId| #[trigger] final(self).outbox_of(a) == old(self).outbox_of(a)
            },
    {
        if let Err(source) = envelope.validate() {
            return Err(MessageRouterError::InvalidMessage { message_id: envelope.message.message_id, source });
        }
        ensure_recorder_run(recorder, &envelope.message.run_id)?;
        if let Some(reason) = expiration_reason(&self.config, &envelope.message.created_at, &now) {
            return Err(MessageRouterError::Expired { message_id: envelope.message.message_id, reason });
        }
        let target_id = envelope.message.target_agent_id;
        let ti = match self.find(&target_id) {
            Some(i) => i,
            None => return Err(MessageRouterError::UnknownTargetAgent(target_id)),
        };
        if self.mailboxes[ti].1.inbox.len() >= self.config.max_inbox_messages {
            return Err(MessageRouterError::InboxFull { agent_id: target_id, limit: self.config.max_inbox_messages });
        }
        let ghost rec0 = recorder.recorded();
        let mut routed = envelope;
        let queued_context = MessageTraceContext::from_message(&routed.message);
        routed.delivery_status = MessageDeliveryStatus::Queued;
        let queued = match recorder.record_message_event(TraceEventKind::MessageQueued { message: queued_context }) {
            Ok(id) => id,
            Err(e) => return Err(MessageRouterError::Trace(e)),
        };
        routed.trace_links.queued_trace_id = Some(queued);
        let delivered_context = MessageTraceContext::from_message(&routed.message);
        let delivered = match recorder.record_message_event(TraceEventKind::MessageDelivered { message: delivered_context }) {
            Ok(id) => id,
            Err(e) => return Err(MessageRouterError::Trace(e)),
        };
        routed.delivery_status = MessageDeliveryStatus::Delivered;
        routed.trace_links.delivered_trace_id = Some(delivered);
        proof {
            let rec = recorder.recorded();
            assert(rec.take(rec0.len() as int) =~= rec0);
        }
        let ghost s0 = self.mailboxes@;
        let in_copy = routed.duplicate();
        let ghost stored = routed;
        self.mailboxes[ti].1.inbox.push(routed);
        let ghost s1 = self.mailboxes@;
        proof {
            assert(s1 == s0.update(ti as int, (target_id, s1[ti as int].1)));
            assert forall|q: AgentId| #[trigger] assoc_get(s1, q)
                == if q == target_id { Some(s1[ti as int].1) } else { assoc_get(s0, q) } by {
                lemma_assoc_update(s0, target_id, ti as int, s1[ti as int].1, q);
            }
            lemma_env_views_push(s0[ti as int].1.inbox@, stored);
            assert forall|a: AgentId| #[trigger] self.outbox_of(a) == old(self).outbox_of(a) by {
                if a == target_id {
                    assert(s1[ti as int].1.outbox == s0[ti as int].1.outbox);
                }
            }
        }
        Ok(in_copy)
    }
}

/// The view of `e` once its status is `status` and its links are `links`.
pub open spec fn with_status(v: EnvView, status: MessageDeliveryStatus, links: MessageTraceLinks) -> EnvView {
    (v.0, v.1, v.2, v.3, status, links)
}

fn copy_of_run(v: &Vec<MessageEnvelope>, run_id: &RunId) -> (r: Vec<MessageEnvelope>)
    ensures
        env_views(r@) == of_run(env_views(v@), *run_id),
{
    let mut out: Vec<MessageEnvelope> = Vec::new();
    let mut i: usize = 0;
    while i < v.len()
        invariant
            i <= v@.len(),
            env_views(out@) == of_run(env_views(v@).take(i as int), *run_id),
        decreases v@.len() - i,
    {
        let ghost pre = env_views(v@).take(i as int + 1);
        assert(pre.drop_last() =~= env_views(v@).take(i as int));
        assert(pre.last() == env_view(v@[i as int]));
        if v[i].message.run_id == *run_id {
            let c = v[i].duplicate();
            proof { lemma_env_views_push(out@, c); }
            out.push(c);
        }
        i = i + 1;
    }
    assert(env_views(v@).take(v@.len() as int) =~= env_views(v@));
    out
}

fn position_of_run(v: &Vec<MessageEnvelope>, run_id: &RunId) -> (r: Option<usize>)
    ensures
        r matches Some(p) ==> first_of_run(env_views(v@), *run_id, p as int),
        r is None ==> forall|j: int| 0 <= j < v@.len() ==> #[trigger] env_views(v@)[j].3 != *run_id,
{
    let mut i: usize = 0;
    while i < v.len()
        invariant
            i <= v@.len(),
            forall|j: int| 0 <= j < i ==> #[trigger] env_views(v@)[j].3 != *run_id,
        decreases v@.len() - i,
    {
        if v[i].message.run_id == *run_id {
            return Some(i);
        }
        i = i + 1;
    }
    None
}

fn position_of_message(v: &Vec<MessageEnvelope>, run_id: &RunId, message_id: &MessageId) -> (r: Option<usize>)
    ensures
        r matches Some(p) ==> first_with(env_views(v@), *run_id, *message_id, p as int),
        r is None ==> forall|j: int| 0 <= j < v@.len()
            ==> !(#[trigger] env_views(v@)[j].3 == *run_id && env_views(v@)[j].0 == *message_id),
{
    let mut i: usize = 0;
    while i < v.len()
        invariant
            i <= v@.len(),
            forall|j: int| 0 <= j < i ==> !(#[trigger] env_views(v@)[j].3 == *run_id && env_views(v@)[j].0 == *message_id),
        decreases v@.len() - i,
    {
        if v[i].message.run_id == *run_id && v[i].message.message_id == *message_id {
            return Some(i);
        }
        i = i + 1;
    }
    None
}

impl LocalMessageRouter {
    /// The messages in `a`'s inbox, oldest first.
    pub closed spec fn inbox_messages(&self, a: AgentId) -> Seq<Message> {
        match self.mailbox_of(a) {
            Some(m) => m.inbox@.map_values(|e: MessageEnvelope| e.message),
            None => seq![],
        }
    }

    /// A message just routed to `agent` is the message its inbox holds at the
    /// position it was appended at: consuming that position hands back this
    /// message, with only its status and links changed.
    pub proof fn law_routed_message_is_kept(before: Self, after: Self, agent: AgentId, m: Message)
        requires
            after.inbox_messages(agent) == before.inbox_messages(agent).push(m),
        ensures
            after.inbox_entry(agent, before.inbox_messages(agent).len() as int).message == m,
    {
        let p = before.inbox_messages(agent).len() as int;
        assert(after.inbox_messages(agent)[p] == m);
        match after.mailbox_of(agent) {
            None => {
                assert(after.inbox_messages(agent).len() == 0);
            },
            Some(mb) => {
                assert(after.inbox_messages(agent) == mb.inbox@.map_values(|e: MessageEnvelope| e.message));
                assert(mb.inbox@.map_values(|e: MessageEnvelope| e.message)[p] == mb.inbox@[p].message);
            },
        }
    }

    /// The envelope at position `p` of `a`'s inbox.
    pub closed spec fn inbox_entry(&self, a: AgentId, p: int) -> MessageEnvelope {
        self.mailbox_of(a).unwrap().inbox@[p]
    }

    /// The delivered messages of `run` in `agent_id`'s inbox, oldest first.
    pub fn inbox(&self, agent_id: &AgentId, run_id: &RunId) -> (r: Result<Vec<MessageEnvelope>, MessageRouterError>)
        ensures
            !self.registered(*agent_id) ==> r == Err::<Vec<MessageEnvelope>, MessageRouterError>(MessageRouterError::UnknownAgent(*agent_id)),
            self.registered(*agent_id) ==> (r matches Ok(v) && env_views(v@) == of_run(self.inbox_of(*agent_id), *run_id)),
    {
        match self.find(agent_id) {
            None => Err(MessageRouterError::UnknownAgent(*agent_id)),
            Some(i) => Ok(copy_of_run(&self.mailboxes[i].1.inbox, run_id)),
        }
    }

    /// The messages of `run` that `agent_id` sent, oldest first.
    pub fn outbox(&self, agent_id: &AgentId, run_id: &RunId) -> (r: Result<Vec<MessageEnvelope>, MessageRouterError>)
        ensures
            !self.registered(*agent_id) ==> r == Err::<Vec<MessageEnvelope>, MessageRouterError>(MessageRouterError::UnknownAgent(*agent_id)),
            self.registered(*agent_id) ==> (r matches Ok(v) && env_views(v@) == of_run(self.outbox_of(*agent_id), *run_id)),
    {
        match self.find(agent_id) {
            None => Err(MessageRouterError::UnknownAgent(*agent_id)),
            Some(i) => Ok(copy_of_run(&self.mailboxes[i].1.outbox, run_id)),
        }
    }

    /// Both queues of `agent_id` for `run`.
    pub fn mailbox(&self, agent_id: &AgentId, run_id: &RunId) -> (r: Result<AgentMailboxSnapshot, MessageRouterError>)
        ensures
            !self.registered(*agent_id) ==> r == Err::<AgentMailboxSnapshot, MessageRouterError>(MessageRouterError::UnknownAgent(*agent_id)),
            self.registered(*agent_id) ==> (r matches Ok(snap) && snap.agent_id == *agent_id
                && env_views(snap.inbox@) == of_run(self.inbox_of(*agent_id), *run_id)
                && env_views(snap.outbox@) == of_run(self.outbox_of(*agent_id), *run_id)),
    {
        let inbox = self.inbox(agent_id, run_id)?;
        let outbox = self.outbox(agent_id, run_id)?;
        Ok(AgentMailboxSnapshot { agent_id: *agent_id, inbox, outbox })
    }

    fn remove_inbox_position(&mut self, i: usize, agent_id: AgentId, p: usize) -> (r: MessageEnvelope)
        requires
            is_last_index(old(self).mailboxes@, agent_id, i as int),
            p < old(self).mailboxes@[i as int].1.inbox@.len(),
        ensures
            final(self).limits() == old(self).limits(),
            forall|a: AgentId| #[trigger] final(self).registered(a) == old(self).registered(a),
            forall|a: AgentId| #[trigger] final(self).inbox_of(a) == if a == agent_id {
                old(self).inbox_of(a).remove(p as int)
            } else {
                old(self).inbox_of(a)
            },
            forall|a: AgentId| #[trigger] final(self).outbox_of(a) == old(self).outbox_of(a),
            final(self).mailboxes@.len() == old(self).mailboxes@.len(),
            forall|j: int| 0 <= j < final(self).mailboxes@.len() ==> #[trigger] final(self).mailboxes@[j].0 == old(self).mailboxes@[j].0,
            r == old(self).inbox_entry(agent_id, p as int),
            forall|a: AgentId| #[trigger] final(self).inbox_messages(a) == if a == agent_id {
                old(self).inbox_messages(a).remove(p as int)
            } else {
                old(self).inbox_messages(a)
            },
    {
        let ghost s0 = self.mailboxes@;
        let removed = self.mailboxes[i].1.inbox.remove(p);
        let ghost s1 = self.mailboxes@;
        proof {
            lemma_assoc_last(s0, agent_id, i as int);
            assert(s1 == s0.update(i as int, (agent_id, s1[i as int].1)));
            assert forall|q: AgentId| #[trigger] assoc_get(s1, q)
                == if q == agent_id { Some(s1[i as int].1) } else { assoc_get(s0, q) } by {
                lemma_assoc_update(s0, agent_id, i as int, s1[i as int].1, q);
            }
            assert(env_views(s1[i as int].1.inbox@) =~= env_views(s0[i as int].1.inbox@).remove(p as int));
            assert(s1[i as int].1.inbox@.map_values(|e: MessageEnvelope| e.message)
                =~= s0[i as int].1.inbox@.map_values(|e: MessageEnvelope| e.message).remove(p as int));
        }
        removed
    }

    fn update_outbox(&mut self, envelope: &MessageEnvelope)
        ensures
            final(self).limits() == old(self).limits(),
            forall|a: AgentId| #[trigger] final(self).registered(a) == old(self).registered(a),
            forall|a: AgentId| #[trigger] final(self).inbox_of(a) == old(self).inbox_of(a),
            forall|a: AgentId| #[trigger] final(self).inbox_messages(a) == old(self).inbox_messages(a),
            forall|a: AgentId| a != envelope.message.source_agent_id ==> #[trigger] final(self).outbox_of(a) == old(self).outbox_of(a),
            outbox_updated(old(self).outbox_of(envelope.message.source_agent_id),
                final(self).outbox_of(envelope.message.source_agent_id), envelope.message.message_id, env_view(*envelope)),
            final(self).mailboxes@.len() == old(self).mailboxes@.len(),
            forall|j: int| 0 <= j < final(self).mailboxes@.len() ==> #[trigger] final(self).mailboxes@[j].0 == old(self).mailboxes@[j].0,
    {
        let src = envelope.message.source_agent_id;
        let id = envelope.message.message_id;
        match self.find(&src) {
            None => {},
            Some(i) => {
                let mut j: usize = 0;
                let n = self.mailboxes[i].1.outbox.len();
                while j < n
                    invariant
                        n == self.mailboxes@[i as int].1.outbox@.len(),
                        i < self.mailboxes@.len(),
                        j <= n,
                        forall|k: int| 0 <= k < j ==> #[trigger] env_views(self.mailboxes@[i as int].1.outbox@)[k].0 != id,
                    ensures
                        j <= n,
                        forall|k: int| 0 <= k < j ==> #[trigger] env_views(self.mailboxes@[i as int].1.outbox@)[k].0 != id,
                        j < n ==> env_views(self.mailboxes@[i as int].1.outbox@)[j as int].0 == id,
                    decreases n - j,
                {
                    if self.mailboxes[i].1.outbox[j].message.message_id == id {
                        break;
                    }
                    j = j + 1;
                }
                if j < n {
                    let ghost s0 = self.mailboxes@;
                    let c = envelope.duplicate();
                    self.mailboxes[i].1.outbox.set(j, c);
                    let ghost s1 = self.mailboxes@;
                    proof {
                        assert(s1 == s0.update(i as int, (src, s1[i as int].1)));
                        assert forall|q: AgentId| #[trigger] assoc_get(s1, q)
                            == if q == src { Some(s1[i as int].1) } else { assoc_get(s0, q) } by {
                            lemma_assoc_update(s0, src, i as int, s1[i as int].1, q);
                        }
                        let o = env_views(s0[i as int].1.outbox@);
                        assert(env_views(s1[i as int].1.outbox@) =~= o.update(j as int, env_view(*envelope)));
                        assert(o[j as int].0 == id);
                    }
                }
            },
        }
    }
}

/// `after` is `before` with position `p` removed from `agent`'s inbox and the
/// first outbox entry of message `v.0` in the sender's outbox set to `v`.
pub open spec fn removed_and_updated(before: LocalMessageRouter, after: LocalMessageRouter, agent: AgentId, p: int, v: EnvView) -> bool {
    &&& after.limits() == before.limits()
    &&& forall|a: AgentId| #[trigger] after.registered(a) == before.registered(a)
    &&& forall|a: AgentId| #[trigger] after.inbox_of(a) == if a == agent {
            before.inbox_of(a).remove(p)
        } else {
            before.inbox_of(a)
        }
    &&& forall|a: AgentId| a != v.1 ==> #[trigger] after.outbox_of(a) == before.outbox_of(a)
    &&& outbox_updated(before.outbox_of(v.1), after.outbox_of(v.1), v.0, v)
    &&& forall|a: AgentId| #[trigger] after.inbox_messages(a) == if a == agent {
            before.inbox_messages(a).remove(p)
        } else {
            before.inbox_messages(a)
        }
}

pub open spec fn unchanged(before: LocalMessageRouter, after: LocalMessageRouter) -> bool {
    &&& after.limits() == before.limits()
    &&& forall|a: AgentId| #[trigger] after.mailbox_of(a) == before.mailbox_of(a)
}

/// Links `l` with the expiration event set.
pub open spec fn expired_links(l: MessageTraceLinks, id: crate::ids::TraceEventId) -> MessageTraceLinks {
    MessageTraceLinks { expired_trace_id: Some(id), ..l }
}

/// Links `l` with the consumption event set.
pub open spec fn consumed_links(l: MessageTraceLinks, id: crate::ids::TraceEventId) -> MessageTraceLinks {
    MessageTraceLinks { consumed_trace_id: Some(id), ..l }
}

/// What consuming position `p` of `agent`'s inbox (for `run`, optionally
/// naming the expected message) does: a recorder of another run or a
/// message the agent may not see is refused with nothing changed; an
/// expired message is recorded as expired, leaves the inbox and is
/// reported; otherwise the message is recorded as consumed, leaves the
/// inbox and is returned. Either update is mirrored in the sender's outbox.
/// A failed recording changes nothing.
pub open spec fn consume_result(
    before: LocalMessageRouter,
    after: LocalMessageRouter,
    rec0: Seq<TraceEventKind>,
    rec1: Seq<TraceEventKind>,
    rec_run: RunId,
    agent: AgentId,
    run: RunId,
    p: int,
    expected: Option<MessageId>,
    now: Timestamp,
    r: Result<MessageEnvelope, MessageRouterError>,
) -> bool {
    let c = before.inbox_entry(agent, p);
    let cv = env_view(c);
    if rec_run != run {
        r == Err::<MessageEnvelope, MessageRouterError>(MessageRouterError::TraceRunMismatch { runtime_run_id: rec_run, message_run_id: run })
            && unchanged(before, after) && rec1 == rec0
    } else if cv.2 != agent || cv.3 != run || (expected is Some && expected.unwrap() != cv.0) {
        r == Err::<MessageEnvelope, MessageRouterError>(MessageRouterError::MessageNotVisible {
            agent_id: agent,
            run_id: run,
            message_id: if expected is Some { expected.unwrap() } else { cv.0 },
        }) && unchanged(before, after) && rec1 == rec0
    } else if is_expired(before.limits(), c.message.created_at, now) {
        ||| (r matches Err(MessageRouterError::Trace(_))) && unchanged(before, after) && rec1 == rec0
        ||| (r matches Err(MessageRouterError::Expired { message_id, reason })
                && message_id == cv.0
                && reason@ == expiration_text(before.limits(), c.message.created_at, now)
                && appended_one(rec0, rec1)
                && is_expiration_event(rec1.last(), c.message, reason@)
                && exists|id: crate::ids::TraceEventId| removed_and_updated(before, after, agent, p,
                    with_status(cv, MessageDeliveryStatus::Expired, #[trigger] expired_links(cv.5, id))))
    } else {
        ||| (r matches Err(MessageRouterError::Trace(_))) && unchanged(before, after) && rec1 == rec0
        ||| (r matches Ok(e)
                && (exists|id: crate::ids::TraceEventId| env_view(e) == with_status(cv, MessageDeliveryStatus::Consumed, #[trigger] consumed_links(cv.5, id)))
                && e.message == c.message
                && appended_one(rec0, rec1)
                && (rec1.last() matches TraceEventKind::MessageConsumed { message } && context_of(message, c.message))
                && removed_and_updated(before, after, agent, p, env_view(e)))
    }
}

/// A consume-next result read as a consume result at a known position.
pub open spec fn some_result(r: Result<Option<MessageEnvelope>, MessageRouterError>) -> Result<MessageEnvelope, MessageRouterError> {
    match r {
        Ok(Some(e)) => Ok(e),
        Ok(None) => Err(MessageRouterError::StorageUnavailable),
        Err(e) => Err(e),
    }
}

impl LocalMessageRouter {
    fn consume_position<R: MessageTraceRecorder>(
        &mut self,
        recorder: &mut R,
        i: usize,
        agent_id: AgentId,
        run_id: RunId,
        p: usize,
        expected: Option<MessageId>,
        now: Timestamp,
    ) -> (r: Result<MessageEnvelope, MessageRouterError>)
        requires
            is_last_index(old(self).mailboxes@, agent_id, i as int),
            p < old(self).mailboxes@[i as int].1.inbox@.len(),
        ensures
            final(recorder).recorder_run() == old(recorder).recorder_run(),
            consume_result(*old(self), *final(self), old(recorder).recorded(), final(recorder).recorded(),
                old(recorder).recorder_run(), agent_id, run_id, p as int, expected, now, r),
    {
        proof { lemma_assoc_last(self.mailboxes@, agent_id, i as int); }
        let candidate = self.mailboxes[i].1.inbox[p].duplicate();
        let ghost c = self.inbox_entry(agent_id, p as int);
        assert(env_view(candidate) == env_view(c));
        assert(env_views(self.mailboxes@[i as int].1.inbox@)[p as int] == env_view(c));
        ensure_recorder_run(recorder, &run_id)?;
        let mismatch = match expected {
            Some(id) => candidate.message.message_id != id,
            None => false,
        };
        if candidate.message.target_agent_id != agent_id || candidate.message.run_id != run_id || mismatch {
            let message_id = match expected {
                Some(id) => id,
                None => candidate.message.message_id,
            };
            return Err(MessageRouterError::MessageNotVisible { agent_id, run_id, message_id });
        }
        if let Some(reason) = expiration_reason(&self.config, &candidate.message.created_at, &now) {
            let mut expired = candidate;
            let expired_id = match record_expiration(recorder, &expired.message, reason.clone()) {
                Ok(id) => id,
                Err(e) => return Err(e),
            };
            expired.delivery_status = MessageDeliveryStatus::Expired;
            expired.trace_links.expired_trace_id = Some(expired_id);
            let ghost mid = self.mailboxes@;
            let _ = self.remove_inbox_position(i, agent_id, p);
            self.update_outbox(&expired);
            proof {
                assert(env_view(expired) == with_status(env_view(c), MessageDeliveryStatus::Expired, expired_links(env_view(c).5, expired_id)));
            }
            return Err(MessageRouterError::Expired { message_id: expired.message.message_id, reason });
        }
        let context = MessageTraceContext::from_message(&candidate.message);
        let consumed_id = match recorder.record_message_event(TraceEventKind::MessageConsumed { message: context }) {
            Ok(id) => id,
            Err(e) => return Err(MessageRouterError::Trace(e)),
        };
        proof {
            assert(final(recorder).recorded().drop_last() =~= old(recorder).recorded());
        }
        let mut consumed = self.remove_inbox_position(i, agent_id, p);
        consumed.delivery_status = MessageDeliveryStatus::Consumed;
        consumed.trace_links.consumed_trace_id = Some(consumed_id);
        self.update_outbox(&consumed);
        proof {
            assert(env_view(consumed) == with_status(env_view(c), MessageDeliveryStatus::Consumed, consumed_links(env_view(c).5, consumed_id)));
        }
        Ok(consumed)
    }

    /// Consumes the oldest message of `run_id` in `agent_id`'s inbox at `now`.
    pub fn consume_next_at<R: MessageTraceRecorder>(&mut self, recorder: &mut R, agent_id: &AgentId, run_id: &RunId, now: Timestamp)
        -> (r: Result<Option<MessageEnvelope>, MessageRouterError>)
        ensures
            final(recorder).recorder_run() == old(recorder).recorder_run(),
            !old(self).registered(*agent_id) ==> r == Err::<Option<MessageEnvelope>, MessageRouterError>(MessageRouterError::UnknownAgent(*agent_id))
                && unchanged(*old(self), *final(self)) && final(recorder).recorded() == old(recorder).recorded(),
            old(self).registered(*agent_id) && (forall|j: int| 0 <= j < old(self).inbox_of(*agent_id).len() ==> #[trigger] old(self).inbox_of(*agent_id)[j].3 != *run_id)
                ==> r == Ok::<Option<MessageEnvelope>, MessageRouterError>(None)
                    && unchanged(*old(self), *final(self)) && final(recorder).recorded() == old(recorder).recorded(),
            forall|p: int| old(self).registered(*agent_id) && #[trigger] first_of_run(old(self).inbox_of(*agent_id), *run_id, p)
                ==> consume_result(*old(self), *final(self), old(recorder).recorded(), final(recorder).recorded(),
                    old(recorder).recorder_run(), *agent_id, *run_id, p, None, now, some_result(r)),
    {
        let i = match self.find(agent_id) {
            None => return Err(MessageRouterError::UnknownAgent(*agent_id)),
            Some(i) => i,
        };
        match position_of_run(&self.mailboxes[i].1.inbox, run_id) {
            None => Ok(None),
            Some(p) => {
                let ghost v = self.inbox_of(*agent_id);
                proof {
                    assert forall|q: int| #[trigger] first_of_run(v, *run_id, q) implies q == p as int by {
                        if q < p as int { assert(v[q].3 != *run_id); }
                        if q > p as int { assert(v[p as int].3 == *run_id); }
                    }
                }
                match self.consume_position(recorder, i, *agent_id, *run_id, p, None, now) {
                    Ok(e) => Ok(Some(e)),
                    Err(e) => Err(e),
                }
            },
        }
    }

    /// Consumes message `message_id` of `run_id` from `agent_id`'s inbox at `now`.
    pub fn consume_at<R: MessageTraceRecorder>(&mut self, recorder: &mut R, agent_id: &AgentId, run_id: &RunId, message_id: &MessageId, now: Timestamp)
        -> (r: Result<MessageEnvelope, MessageRouterError>)
        ensures
            final(recorder).recorder_run() == old(recorder).recorder_run(),
            !old(self).registered(*agent_id) ==> r == Err::<MessageEnvelope, MessageRouterError>(MessageRouterError::UnknownAgent(*agent_id))
                && unchanged(*old(self), *final(self)) && final(recorder).recorded() == old(recorder).recorded(),
            old(self).registered(*agent_id) && (forall|j: int| 0 <= j < old(self).inbox_of(*agent_id).len()
                ==> !(#[trigger] old(self).inbox_of(*agent_id)[j].3 == *run_id && old(self).inbox_of(*agent_id)[j].0 == *message_id))
                ==> r == Err::<MessageEnvelope, MessageRouterError>(MessageRouterError::MessageNotVisible {
                        agent_id: *agent_id, run_id: *run_id, message_id: *message_id,
                    }) && unchanged(*old(self), *final(self)) && final(recorder).recorded() == old(recorder).recorded(),
            forall|p: int| old(self).registered(*agent_id) && #[trigger] first_with(old(self).inbox_of(*agent_id), *run_id, *message_id, p)
                ==> consume_result(*old(self), *final(self), old(recorder).recorded(), final(recorder).recorded(),
                    old(recorder).recorder_run(), *agent_id, *run_id, p, Some(*message_id), now, r),
    {
        let i = match self.find(agent_id) {
            None => return Err(MessageRouterError::UnknownAgent(*agent_id)),
            Some(i) => i,
        };
        match position_of_message(&self.mailboxes[i].1.inbox, run_id, message_id) {
            None => Err(MessageRouterError::MessageNotVisible { agent_id: *agent_id, run_id: *run_id, message_id: *message_id }),
            Some(p) => {
                let ghost v = self.inbox_of(*agent_id);
                proof {
                    assert forall|q: int| #[trigger] first_with(v, *run_id, *message_id, q) implies q == p as int by {
                        if q < p as int { assert(!(v[q].3 == *run_id && v[q].0 == *message_id)); }
                        if q > p as int { assert(v[p as int].3 == *run_id && v[p as int].0 == *message_id); }
                    }
                }
                self.consume_position(recorder, i, *agent_id, *run_id, p, Some(*message_id), now)
            },
        }
    }
}

impl MessageRouterConfig {
    pub open spec fn standard_spec() -> MessageRouterConfig {
        MessageRouterConfig { max_inbox_messages: 1024, max_outbox_messages: 1024, max_message_age: None }
    }
}

} // verus!
