//! Identifier types shared by every kernel component.
//!
//! Identifiers are 128-bit values; the all-zero value is the nil identifier
//! that identity validation rejects.

use vstd::prelude::*;

verus! {

/// Tenant identity boundary.
#[derive(Clone, Copy, Debug, PartialEq, Eq, Hash, Structural)]
pub struct TenantId {
    pub value: u128,
}

/// Agent runtime identity.
#[derive(Clone, Copy, Debug, PartialEq, Eq, Hash, Structural)]
pub struct AgentId {
    pub value: u128,
}

/// Run identity that scopes trace events and messages.
#[derive(Clone, Copy, Debug, PartialEq, Eq, Hash, Structural)]
pub struct RunId {
    pub value: u128,
}

/// Action identity assigned by the loop or the caller.
#[derive(Clone, Copy, Debug, PartialEq, Eq, Hash, Structural)]
pub struct ActionId {
    pub value: u128,
}

/// Message identity.
#[derive(Clone, Copy, Debug, PartialEq, Eq, Hash, Structural)]
pub struct MessageId {
    pub value: u128,
}

/// State graph node identity.
#[derive(Clone, Copy, Debug, PartialEq, Eq, Hash, Structural)]
pub struct StateNodeId {
    pub value: u128,
}

/// Trace event identity: the run it belongs to and its position in that run.
#[derive(Clone, Copy, Debug, PartialEq, Eq, Hash, Structural)]
pub struct TraceEventId {
    pub run_id: RunId,
    pub sequence: u64,
}

impl TraceEventId {
    /// Builds the trace event identity for a run sequence number.
    pub fn from_run_sequence(run_id: &RunId, sequence: u64) -> (r: TraceEventId)
        ensures
            r.run_id == *run_id,
            r.sequence == sequence,
    {
        TraceEventId { run_id: *run_id, sequence }
    }
}

impl TenantId {
    pub fn from_u128(value: u128) -> (r: TenantId)
        ensures
            r.value == value,
    {
        TenantId { value }
    }

    pub fn is_nil(&self) -> (r: bool)
        ensures
            r == (self.value == 0),
    {
        self.value == 0
    }
}

impl AgentId {
    pub fn from_u128(value: u128) -> (r: AgentId)
        ensures
            r.value == value,
    {
        AgentId { value }
    }

    pub fn is_nil(&self) -> (r: bool)
        ensures
            r == (self.value == 0),
    {
        self.value == 0
    }
}

impl RunId {
    pub fn from_u128(value: u128) -> (r: RunId)
        ensures
            r.value == value,
    {
        RunId { value }
    }

    pub fn is_nil(&self) -> (r: bool)
        ensures
            r == (self.value == 0),
    {
        self.value == 0
    }
}

impl ActionId {
    pub fn from_u128(value: u128) -> (r: ActionId)
        ensures
            r.value == value,
    {
        ActionId { value }
    }

    pub fn is_nil(&self) -> (r: bool)
        ensures
            r == (self.value == 0),
    {
        self.value == 0
    }
}

impl MessageId {
    pub fn from_u128(value: u128) -> (r: MessageId)
        ensures
            r.value == value,
    {
        MessageId { value }
    }

    pub fn is_nil(&self) -> (r: bool)
        ensures
            r == (self.value == 0),
    {
        self.value == 0
    }
}

} // verus!
