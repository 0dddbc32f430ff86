//! Splendor kernel library: tenancy and quota enforcement, the verified action
//! gateway, local message routing, local delegation, policy caching, node
//! registry, escalation observation, scheduling and adapter guards.

pub mod clock;
pub mod ids;
pub mod json;
pub mod assoc;
pub mod verification;
pub mod quota;
pub mod textual;
pub mod action;
pub mod tenancy;
pub mod approval;
pub mod gateway;
pub mod message;
pub mod trace;
pub mod delegation;
pub mod message_router;
pub mod escalation;
pub mod state;
pub mod loop_engine;
pub mod scheduler;
pub mod policy_cache;
pub mod node_registry;
pub mod adapters;
pub mod daemon;
pub mod fleet_telemetry;
pub mod remote;
