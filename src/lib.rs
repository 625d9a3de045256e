//! A registry and rental marketplace for agents: named, priced service
//! records that owners register and other accounts rent by the day.
//!
//! The registry is a state machine. The host that runs it supplies the
//! caller's identity, the value attached to a call and the outcome of each
//! value transfer as plain arguments; the registry answers with its new state
//! and the event the host is to emit.
pub mod account;
pub mod agent;
pub mod laws;
pub mod registry;

pub use account::AccountId;
pub use agent::{Agent, AgentRegistered, AgentRented, AgentView, Balance, Error};
pub use registry::{AgentRegistry, RegistryView, RentalPlan};
