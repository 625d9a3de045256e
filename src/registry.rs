use vstd::prelude::*;
use crate::account::AccountId;
use crate::agent::{Agent, AgentRegistered, AgentRented, AgentView, Balance, Error};

verus! {

/// The product `a * b`, clamped to the largest `u128`.
pub open spec fn saturating_product(a: int, b: int) -> int {
    if a * b > u128::MAX {
        u128::MAX as int
    } else {
        a * b
    }
}

/// What renting at `price_per_day` for `duration_days` days costs.
pub open spec fn rental_cost(price_per_day: Balance, duration_days: u32) -> int {
    saturating_product(price_per_day as int, duration_days as int)
}

/// The platform's share of `total_cost` at `fee_percent` percent, rounded down.
pub open spec fn platform_fee(total_cost: int, fee_percent: u8) -> int {
    saturating_product(total_cost, fee_percent as int) / 100
}

/// What the owner is paid: the cost less the fee, and never below zero.
pub open spec fn creator_share(total_cost: int, fee: int) -> int {
    if fee <= total_cost {
        total_cost - fee
    } else {
        0
    }
}

/// How a rental that passed every check is to be settled.
#[derive(Clone, Copy, Debug)]
pub struct RentalPlan {
    pub agent_id: u32,
    /// The agent's owner, who is to be paid.
    pub payee: AccountId,
    pub total_cost: Balance,
    /// The part of `total_cost` that the platform keeps.
    pub fee: Balance,
    /// The part of `total_cost` that goes to `payee`.
    pub creator_payment: Balance,
}

/// The registry's whole state, as mathematical values.
pub struct RegistryView {
    /// The agent stored under each id, in id order.
    pub agents: Seq<AgentView>,
    /// The account that deployed the registry.
    pub owner: AccountId,
    pub platform_fee_percent: u8,
}

impl RegistryView {
    /// Each agent sits under its own id, and ids run from 0 to at most `u32::MAX`.
    pub open spec fn wf(self) -> bool {
        &&& self.agents.len() <= u32::MAX as int + 1
        &&& forall|i: int| 0 <= i < self.agents.len() ==> #[trigger] self.agents[i].id == i
    }

    /// The count of registrations, clamped to `u32::MAX`; also the next id to assign.
    pub open spec fn total_agents(self) -> u32 {
        if self.agents.len() < u32::MAX {
            self.agents.len() as u32
        } else {
            u32::MAX
        }
    }

    /// The agent registered under `agent_id`, if any.
    pub open spec fn agent(self, agent_id: u32) -> Option<AgentView> {
        if (agent_id as int) < self.agents.len() {
            Some(self.agents[agent_id as int])
        } else {
            None
        }
    }

    /// The state after `caller` registers an agent. The new agent gets the id
    /// `total_agents()`; once that count is saturated, every further agent
    /// takes the last id and replaces the agent stored there.
    pub open spec fn register(
        self,
        caller: AccountId,
        name: Seq<char>,
        description: Seq<char>,
        price_per_day: Balance,
    ) -> RegistryView {
        let agent = AgentView {
            id: self.total_agents(),
            owner: caller,
            name,
            description,
            price_per_day,
            active: true,
            total_rentals: 0,
        };
        RegistryView {
            agents: if self.agents.len() <= u32::MAX {
                self.agents.push(agent)
            } else {
                self.agents.update(u32::MAX as int, agent)
            },
            ..self
        }
    }

    /// The checks on renting `agent_id` for `duration_days` days against
    /// `payment`, in order, and on success how the payment is split.
    pub open spec fn plan(self, agent_id: u32, duration_days: u32, payment: Balance) -> Result<
        RentalPlan,
        Error,
    > {
        match self.agent(agent_id) {
            None => Err(Error::AgentNotFound),
            Some(a) => {
                if !a.active {
                    Err(Error::AgentNotActive)
                } else {
                    let total = rental_cost(a.price_per_day, duration_days);
                    let fee = platform_fee(total, self.platform_fee_percent);
                    if payment < total {
                        Err(Error::InsufficientPayment)
                    } else {
                        Ok(
                            RentalPlan {
                                agent_id,
                                payee: a.owner,
                                total_cost: total as u128,
                                fee: fee as u128,
                                creator_payment: creator_share(total, fee) as u128,
                            },
                        )
                    }
                }
            },
        }
    }

    /// The state and the outcome after `caller` rents `agent_id`, where
    /// `transferred` tells whether paying the owner succeeded. Only a success
    /// changes the state: the agent's rental count goes up by one (saturating).
    pub open spec fn rent(
        self,
        caller: AccountId,
        payment: Balance,
        agent_id: u32,
        duration_days: u32,
        transferred: bool,
    ) -> (RegistryView, Result<AgentRented, Error>) {
        match self.plan(agent_id, duration_days, payment) {
            Err(e) => (self, Err(e)),
            Ok(p) => {
                if !transferred {
                    (self, Err(Error::InsufficientPayment))
                } else {
                    let a = self.agents[agent_id as int];
                    let count = if a.total_rentals < u32::MAX {
                        (a.total_rentals + 1) as u32
                    } else {
                        u32::MAX
                    };
                    (
                        RegistryView {
                            agents: self.agents.update(
                                agent_id as int,
                                AgentView { total_rentals: count, ..a },
                            ),
                            ..self
                        },
                        Ok(AgentRented { agent_id, renter: caller, amount_paid: p.total_cost }),
                    )
                }
            },
        }
    }

    /// The state and the outcome after `caller` deactivates `agent_id`.
    pub open spec fn deactivate(self, caller: AccountId, agent_id: u32) -> (
        RegistryView,
        Result<(), Error>,
    ) {
        match self.agent(agent_id) {
            None => (self, Err(Error::AgentNotFound)),
            Some(a) => {
                if a.owner != caller {
                    (self, Err(Error::Unauthorized))
                } else {
                    (
                        RegistryView {
                            agents: self.agents.update(
                                agent_id as int,
                                AgentView { active: false, ..a },
                            ),
                            ..self
                        },
                        Ok(()),
                    )
                }
            },
        }
    }
}

/// The registry of agents, with the platform's owner and fee.
pub struct AgentRegistry {
    agents: Vec<Agent>,
    owner: AccountId,
    platform_fee_percent: u8,
}

impl View for AgentRegistry {
    type V = RegistryView;

    closed spec fn view(&self) -> RegistryView {
        RegistryView {
            agents: self.agents@.map_values(|a: Agent| a@),
            owner: self.owner,
            platform_fee_percent: self.platform_fee_percent,
        }
    }
}

impl AgentRegistry {
    /// The stored agents sit under their own ids.
    pub open spec fn wf(&self) -> bool {
        self@.wf()
    }

    /// An empty registry deployed by `caller`, keeping `platform_fee_percent`
    /// percent of every rental.
    pub fn new(caller: AccountId, platform_fee_percent: u8) -> (r: AgentRegistry)
        ensures
            r.wf(),
            r@.agents.len() == 0,
            r@.owner == caller,
            r@.platform_fee_percent == platform_fee_percent,
    {
        let r = AgentRegistry { agents: Vec::new(), owner: caller, platform_fee_percent };
        assert(r@.agents =~= Seq::<AgentView>::empty());
        r
    }

    /// A registry restored from stored parts: the agents in id order, the
    /// platform's owner and its fee. `None` where some agent does not sit
    /// under its own id, or where there are more agents than ids.
    pub fn from_parts(agents: Vec<Agent>, owner: AccountId, platform_fee_percent: u8) -> (r:
        Option<AgentRegistry>)
        ensures
            ({
                let v = RegistryView {
                    agents: agents@.map_values(|a: Agent| a@),
                    owner,
                    platform_fee_percent,
                };
                &&& (r is Some) == v.wf()
                &&& r is Some ==> r->0.wf() && r->0@ == v
            }),
    {
        let ghost v = RegistryView {
            agents: agents@.map_values(|a: Agent| a@),
            owner,
            platform_fee_percent,
        };
        if agents.len() > 0 && agents.len() - 1 > u32::MAX as usize {
            return None;
        }
        let mut i: usize = 0;
        while i < agents.len()
            invariant
                i <= agents@.len(),
                v.agents == agents@.map_values(|a: Agent| a@),
                forall|j: int| 0 <= j < i ==> #[trigger] v.agents[j].id == j,
            decreases agents@.len() - i,
        {
            if agents[i].id as usize != i {
                assert(v.agents[i as int].id != i);
                return None;
            }
            i = i + 1;
        }
        Some(AgentRegistry { agents, owner, platform_fee_percent })
    }

    /// Checks a rental of `agent_id` for `duration_days` days against
    /// `payment` and, if it passes, says how the payment is split. The checks
    /// come in this order: the agent exists, it is active, the payment covers
    /// the cost. Nothing changes; the host pays `creator_payment` to `payee`
    /// and then settles with `rent_agent`.
    pub fn plan_rental(&self, agent_id: u32, duration_days: u32, payment: Balance) -> (r: Result<
        RentalPlan,
        Error,
    >)
        ensures
            r == self@.plan(agent_id, duration_days, payment),
    {
        if agent_id as usize >= self.agents.len() {
            return Err(Error::AgentNotFound);
        }
        let agent = &self.agents[agent_id as usize];
        if !agent.active {
            return Err(Error::AgentNotActive);
        }
        let total_cost: u128 = match agent.price_per_day.checked_mul(duration_days as u128) {
            Some(c) => c,
            None => u128::MAX,
        };
        if payment < total_cost {
            return Err(Error::InsufficientPayment);
        }
        let scaled: u128 = match total_cost.checked_mul(self.platform_fee_percent as u128) {
            Some(c) => c,
            None => u128::MAX,
        };
        let fee: u128 = scaled / 100;
        let creator_payment: u128 = if fee <= total_cost {
            total_cost - fee
        } else {
            0
        };
        Ok(RentalPlan { agent_id, payee: agent.owner, total_cost, fee, creator_payment })
    }

    /// Rents `agent_id` for `duration_days` days on behalf of `caller`, who
    /// attached `payment`. `transferred` is whether the host managed to pay
    /// the owner the plan's `creator_payment`: if it did not, the rental fails
    /// with `InsufficientPayment`. On success the agent's rental count goes up
    /// and the event to emit is returned; on failure nothing changes.
    pub fn rent_agent(
        &mut self,
        caller: AccountId,
        payment: Balance,
        agent_id: u32,
        duration_days: u32,
        transferred: bool,
    ) -> (r: Result<AgentRented, Error>)
        requires
            old(self).wf(),
        ensures
            final(self).wf(),
            (final(self)@, r) == old(self)@.rent(caller, payment, agent_id, duration_days, transferred),
    {
        let plan = match self.plan_rental(agent_id, duration_days, payment) {
            Ok(p) => p,
            Err(e) => {
                return Err(e);
            },
        };
        if !transferred {
            return Err(Error::InsufficientPayment);
        }
        let i = agent_id as usize;
        let count = self.agents[i].total_rentals;
        let new_count: u32 = if count < u32::MAX {
            count + 1
        } else {
            u32::MAX
        };
        self.agents[i].total_rentals = new_count;
        proof {
            let expected = old(self)@.rent(caller, payment, agent_id, duration_days, transferred).0;
            assert(self@.agents =~= expected.agents);
        }
        Ok(AgentRented { agent_id, renter: caller, amount_paid: plan.total_cost })
    }

    /// Registers an agent owned by `caller`, active and never rented, and
    /// returns the event to emit, which carries the new agent's id. Never fails.
    pub fn register_agent(
        &mut self,
        caller: AccountId,
        name: String,
        description: String,
        price_per_day: Balance,
    ) -> (r: AgentRegistered)
        requires
            old(self).wf(),
        ensures
            final(self).wf(),
            final(self)@ == old(self)@.register(caller, name@, description@, price_per_day),
            r.agent_id == old(self)@.total_agents(),
            r.owner == caller,
            r.name@ == name@,
    {
        let len = self.agents.len();
        let agent_id: u32 = if len < u32::MAX as usize {
            len as u32
        } else {
            u32::MAX
        };
        let agent = Agent {
            id: agent_id,
            owner: caller,
            name: name.clone(),
            description,
            price_per_day,
            active: true,
            total_rentals: 0,
        };
        if len <= u32::MAX as usize {
            self.agents.push(agent);
        } else {
            self.agents.set(u32::MAX as usize, agent);
        }
        proof {
            let expected = old(self)@.register(caller, name@, description@, price_per_day);
            assert(self@.agents =~= expected.agents);
        }
        AgentRegistered { agent_id, owner: caller, name }
    }

    /// Deactivates `agent_id` on behalf of `caller`, who must be its owner.
    /// Deactivating an agent that is already inactive succeeds.
    pub fn deactivate_agent(&mut self, caller: AccountId, agent_id: u32) -> (r: Result<(), Error>)
        requires
            old(self).wf(),
        ensures
            final(self).wf(),
            (final(self)@, r) == old(self)@.deactivate(caller, agent_id),
    {
        if agent_id as usize >= self.agents.len() {
            return Err(Error::AgentNotFound);
        }
        let i = agent_id as usize;
        if !self.agents[i].owner.same_as(&caller) {
            return Err(Error::Unauthorized);
        }
        self.agents[i].active = false;
        proof {
            let expected = old(self)@.deactivate(caller, agent_id).0;
            assert(self@.agents =~= expected.agents);
        }
        Ok(())
    }

    /// The agent registered under `agent_id`, if any.
    pub fn get_agent(&self, agent_id: u32) -> (r: Option<Agent>)
        ensures
            (r is Some) == (self@.agent(agent_id) is Some),
            r is Some ==> Some(r->0@) == self@.agent(agent_id),
    {
        if agent_id as usize >= self.agents.len() {
            None
        } else {
            Some(self.agents[agent_id as usize].clone())
        }
    }

    /// Every stored agent, in ascending id order.
    pub fn get_all_agents(&self) -> (r: Vec<Agent>)
        ensures
            r@.map_values(|a: Agent| a@) == self@.agents,
    {
        let mut out: Vec<Agent> = Vec::new();
        let mut i: usize = 0;
        while i < self.agents.len()
            invariant
                i <= self.agents@.len(),
                out@.len() == i,
                forall|k: int| 0 <= k < i ==> #[trigger] out@[k]@ == self.agents@[k]@,
            decreases self.agents@.len() - i,
        {
            out.push(self.agents[i].clone());
            i = i + 1;
        }
        assert(out@.map_values(|a: Agent| a@) =~= self@.agents);
        out
    }

    /// The number of agents registered, clamped to `u32::MAX`.
    pub fn get_total_agents(&self) -> (r: u32)
        ensures
            r == self@.total_agents(),
    {
        let len = self.agents.len();
        if len < u32::MAX as usize {
            len as u32
        } else {
            u32::MAX
        }
    }

    /// The account that deployed the registry.
    pub fn get_owner(&self) -> (r: AccountId)
        ensures
            r == self@.owner,
    {
        self.owner
    }

    /// The percentage of each rental's cost that the platform keeps.
    pub fn get_platform_fee_percent(&self) -> (r: u8)
        ensures
            r == self@.platform_fee_percent,
    {
        self.platform_fee_percent
    }
}

} // verus!
