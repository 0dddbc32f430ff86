//! Typed messages exchanged between local agents, with their delivery status
//! and the trace events that record their lifecycle.

use vstd::prelude::*;
use crate::clock::Timestamp;
use crate::ids::{AgentId, MessageId, RunId, TenantId, TraceEventId};
use crate::json::{Json, copy_json};

verus! {

/// Delivery lifecycle of a message envelope.
#[derive(Clone, Copy, Debug, PartialEq, Eq, Structural)]
pub enum MessageDeliveryStatus {
    Created,
    Queued,
    Delivered,
    Consumed,
    Expired,
}

/// A typed message from one agent to another within a run.
#[derive(Debug)]
pub struct Message {
    pub message_id: MessageId,
    pub source_agent_id: AgentId,
    pub target_agent_id: AgentId,
    pub run_id: RunId,
    pub schema: String,
    pub payload: Json,
    pub causal_trace_id: Option<TraceEventId>,
    pub requires_response: bool,
    pub created_at: Timestamp,
}

/// Trace events linked to an envelope's transitions.
#[derive(Clone, Copy, Debug, PartialEq, Eq, Structural)]
pub struct MessageTraceLinks {
    pub queued_trace_id: Option<TraceEventId>,
    pub delivered_trace_id: Option<TraceEventId>,
    pub consumed_trace_id: Option<TraceEventId>,
    pub expired_trace_id: Option<TraceEventId>,
}

/// A message with its delivery status and trace links.
#[derive(Debug)]
pub struct MessageEnvelope {
    pub message: Message,
    pub delivery_status: MessageDeliveryStatus,
    pub trace_links: MessageTraceLinks,
}

/// Why a message was refused before routing.
#[derive(Clone, Copy, Debug, PartialEq, Eq, Structural)]
pub enum MessageValidationError {
    NilMessageId,
    NilSourceAgent,
    NilTargetAgent,
    NilRunId,
    EmptySchema,
}

/// Identity and schema of a message, as recorded in trace events.
#[derive(Clone, Debug, PartialEq, Eq)]
pub struct MessageTraceContext {
    pub message_id: MessageId,
    pub source_agent_id: AgentId,
    pub target_agent_id: AgentId,
    pub run_id: RunId,
    pub schema: String,
}

/// What a trace records of a message crossing between instances.
#[derive(Clone, Debug)]
pub struct RemoteMessageTraceContext {
    pub message: MessageTraceContext,
    pub tenant_id: TenantId,
    pub source_instance_id: String,
    pub target_instance_id: String,
    pub attempt: u32,
}

/// The identity part of an envelope that routing reasons about.
pub open spec fn env_view(e: MessageEnvelope) -> (MessageId, AgentId, AgentId, RunId, MessageDeliveryStatus, MessageTraceLinks) {
    (e.message.message_id, e.message.source_agent_id, e.message.target_agent_id, e.message.run_id, e.delivery_status, e.trace_links)
}

pub open spec fn env_views(s: Seq<MessageEnvelope>) -> Seq<(MessageId, AgentId, AgentId, RunId, MessageDeliveryStatus, MessageTraceLinks)> {
    s.map_values(|e: MessageEnvelope| env_view(e))
}

/// The validation outcome of a message: the first failed check, in order.
pub open spec fn message_validation(m: Message) -> Option<MessageValidationError> {
    if m.message_id.value == 0 {
        Some(MessageValidationError::NilMessageId)
    } else if m.source_agent_id.value == 0 {
        Some(MessageValidationError::NilSourceAgent)
    } else if m.target_agent_id.value == 0 {
        Some(MessageValidationError::NilTargetAgent)
    } else if m.run_id.value == 0 {
        Some(MessageValidationError::NilRunId)
    } else if m.schema@.len() == 0 {
        Some(MessageValidationError::EmptySchema)
    } else {
        None
    }
}

/// Description of a validation failure.
pub open spec fn validation_text(e: MessageValidationError) -> Seq<char> {
    match e {
        MessageValidationError::NilMessageId => "message_id must not be nil"@,
        MessageValidationError::NilSourceAgent => "source_agent_id must not be nil"@,
        MessageValidationError::NilTargetAgent => "target_agent_id must not be nil"@,
        MessageValidationError::NilRunId => "run_id must not be nil"@,
        MessageValidationError::EmptySchema => "schema must not be empty"@,
    }
}

impl MessageValidationError {
    pub fn message(&self) -> (r: String)
        ensures
            r@ == validation_text(*self),
    {
        match self {
            MessageValidationError::NilMessageId => String::from_str("message_id must not be nil"),
            MessageValidationError::NilSourceAgent => String::from_str("source_agent_id must not be nil"),
            MessageValidationError::NilTargetAgent => String::from_str("target_agent_id must not be nil"),
            MessageValidationError::NilRunId => String::from_str("run_id must not be nil"),
            MessageValidationError::EmptySchema => String::from_str("schema must not be empty"),
        }
    }
}

impl Message {
    /// Checks identities and schema.
    pub fn validate(&self) -> (r: Result<(), MessageValidationError>)
        ensures
            r is Ok <==> message_validation(*self) is None,
            r matches Err(e) ==> message_validation(*self) == Some(e),
    {
        if self.message_id.is_nil() {
            return Err(MessageValidationError::NilMessageId);
        }
        if self.source_agent_id.is_nil() {
            return Err(MessageValidationError::NilSourceAgent);
        }
        if self.target_agent_id.is_nil() {
            return Err(MessageValidationError::NilTargetAgent);
        }
        if self.run_id.is_nil() {
            return Err(MessageValidationError::NilRunId);
        }
        if self.schema.as_str().unicode_len() == 0 {
            return Err(MessageValidationError::EmptySchema);
        }
        Ok(())
    }

    /// Copies this message.
    pub fn duplicate(&self) -> (r: Message)
        ensures
            r.message_id == self.message_id,
            r.source_agent_id == self.source_agent_id,
            r.target_agent_id == self.target_agent_id,
            r.run_id == self.run_id,
            r.schema@ == self.schema@,
            r.causal_trace_id == self.causal_trace_id,
            r.requires_response == self.requires_response,
            r.created_at == self.created_at,
            same_message(r, *self),
    {
        Message {
            message_id: self.message_id,
            source_agent_id: self.source_agent_id,
            target_agent_id: self.target_agent_id,
            run_id: self.run_id,
            schema: self.schema.clone(),
            payload: copy_json(&self.payload),
            causal_trace_id: self.causal_trace_id,
            requires_response: self.requires_response,
            created_at: self.created_at,
        }
    }
}

impl MessageEnvelope {
    /// Wraps a valid message in a new envelope.
    pub fn new(message: Message) -> (r: Result<MessageEnvelope, MessageValidationError>)
        ensures
            r is Ok <==> message_validation(message) is None,
            r matches Err(e) ==> message_validation(message) == Some(e),
            r matches Ok(env) ==> env.message == message && env.delivery_status == MessageDeliveryStatus::Created
                && env.trace_links == empty_links(),
    {
        match message.validate() {
            Err(e) => Err(e),
            Ok(()) => Ok(MessageEnvelope {
                message,
                delivery_status: MessageDeliveryStatus::Created,
                trace_links: MessageTraceLinks {
                    queued_trace_id: None,
                    delivered_trace_id: None,
                    consumed_trace_id: None,
                    expired_trace_id: None,
                },
            }),
        }
    }

    /// Checks the wrapped message.
    pub fn validate(&self) -> (r: Result<(), MessageValidationError>)
        ensures
            r is Ok <==> message_validation(self.message) is None,
            r matches Err(e) ==> message_validation(self.message) == Some(e),
    {
        self.message.validate()
    }

    /// Copies this envelope.
    pub fn duplicate(&self) -> (r: MessageEnvelope)
        ensures
            env_view(r) == env_view(*self),
            r.message.schema@ == self.message.schema@,
            r.message.created_at == self.message.created_at,
            same_message(r.message, self.message),
    {
        MessageEnvelope {
            message: self.message.duplicate(),
            delivery_status: self.delivery_status,
            trace_links: self.trace_links,
        }
    }
}

/// Two messages carry the same content: ids, schema, payload, causal link,
/// response flag and creation time.
pub open spec fn same_message(a: Message, b: Message) -> bool {
    &&& a.message_id == b.message_id
    &&& a.source_agent_id == b.source_agent_id
    &&& a.target_agent_id == b.target_agent_id
    &&& a.run_id == b.run_id
    &&& a.schema@ == b.schema@
    &&& crate::json::json_same(a.payload, b.payload)
    &&& a.causal_trace_id == b.causal_trace_id
    &&& a.requires_response == b.requires_response
    &&& a.created_at == b.created_at
}

pub open spec fn empty_links() -> MessageTraceLinks {
    MessageTraceLinks { queued_trace_id: None, delivered_trace_id: None, consumed_trace_id: None, expired_trace_id: None }
}

impl MessageTraceContext {
    /// Trace context of a message.
    pub fn from_message(m: &Message) -> (r: MessageTraceContext)
        ensures
            r.message_id == m.message_id,
            r.source_agent_id == m.source_agent_id,
            r.target_agent_id == m.target_agent_id,
            r.run_id == m.run_id,
            r.schema@ == m.schema@,
    {
        MessageTraceContext {
            message_id: m.message_id,
            source_agent_id: m.source_agent_id,
            target_agent_id: m.target_agent_id,
            run_id: m.run_id,
            schema: m.schema.clone(),
        }
    }
}

} // verus!
