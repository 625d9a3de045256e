use vstd::prelude::*;
use crate::account::AccountId;

verus! {

/// An amount of the host ledger's currency.
pub type Balance = u128;

/// One registered agent.
#[derive(Debug)]
pub struct Agent {
    pub id: u32,
    pub owner: AccountId,
    pub name: String,
    pub description: String,
    pub price_per_day: Balance,
    pub active: bool,
    pub total_rentals: u32,
}

/// What an agent record means: its text fields as character sequences.
pub struct AgentView {
    pub id: u32,
    pub owner: AccountId,
    pub name: Seq<char>,
    pub description: Seq<char>,
    pub price_per_day: Balance,
    pub active: bool,
    pub total_rentals: u32,
}

impl View for Agent {
    type V = AgentView;

    open spec fn view(&self) -> AgentView {
        AgentView {
            id: self.id,
            owner: self.owner,
            name: self.name@,
            description: self.description@,
            price_per_day: self.price_per_day,
            active: self.active,
            total_rentals: self.total_rentals,
        }
    }
}

impl Clone for Agent {
    fn clone(&self) -> (r: Agent)
        ensures
            r@ == self@,
    {
        Agent {
            id: self.id,
            owner: self.owner,
            name: self.name.clone(),
            description: self.description.clone(),
            price_per_day: self.price_per_day,
            active: self.active,
            total_rentals: self.total_rentals,
        }
    }
}

/// Emitted when an agent is registered.
#[derive(Debug)]
pub struct AgentRegistered {
    pub agent_id: u32,
    pub owner: AccountId,
    pub name: String,
}

impl Clone for AgentRegistered {
    fn clone(&self) -> (r: AgentRegistered)
        ensures
            r.agent_id == self.agent_id,
            r.owner == self.owner,
            r.name@ == self.name@,
    {
        AgentRegistered { agent_id: self.agent_id, owner: self.owner, name: self.name.clone() }
    }
}

/// Emitted when an agent is rented.
#[derive(Clone, Copy, Debug)]
pub struct AgentRented {
    pub agent_id: u32,
    pub renter: AccountId,
    pub amount_paid: Balance,
}

/// Why an operation on the registry failed.
#[derive(Clone, Copy, Debug, PartialEq, Eq, Structural)]
pub enum Error {
    /// No agent was ever registered under the id.
    AgentNotFound,
    /// The agent has been deactivated.
    AgentNotActive,
    /// The payment is below the rental's cost, or paying the owner failed.
    InsufficientPayment,
    /// Only the agent's owner may do this.
    Unauthorized,
}

} // verus!
