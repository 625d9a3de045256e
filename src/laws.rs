use vstd::prelude::*;
use crate::account::AccountId;
use crate::agent::{AgentRented, AgentView, Balance, Error};
use crate::registry::{creator_share, platform_fee, rental_cost, RegistryView, RentalPlan};

verus! {

/// One call of `register_agent`: who calls, and the agent's fields.
pub struct Registration {
    pub caller: AccountId,
    pub name: Seq<char>,
    pub description: Seq<char>,
    pub price_per_day: Balance,
}

/// The state after the registrations `regs`, made in order, starting from `r`.
pub open spec fn register_all(r: RegistryView, regs: Seq<Registration>) -> RegistryView
    decreases regs.len(),
{
    if regs.len() == 0 {
        r
    } else {
        let g = regs.last();
        register_all(r, regs.drop_last()).register(g.caller, g.name, g.description, g.price_per_day)
    }
}

proof fn lemma_register_all_len(r: RegistryView, regs: Seq<Registration>)
    requires
        r.agents.len() + regs.len() <= u32::MAX,
    ensures
        register_all(r, regs).agents.len() == r.agents.len() + regs.len(),
    decreases regs.len(),
{
    if regs.len() > 0 {
        lemma_register_all_len(r, regs.drop_last());
    }
}

/// `after` keeps what `before` fixed for good: the platform's owner and fee,
/// and of every agent its id, owner, name, description and price; no agent
/// that was inactive has become active, and none has gone.
pub open spec fn keeps_records(before: RegistryView, after: RegistryView) -> bool {
    &&& after.owner == before.owner
    &&& after.platform_fee_percent == before.platform_fee_percent
    &&& after.agents.len() >= before.agents.len()
    &&& forall|i: int|
        0 <= i < before.agents.len() ==> {
            let (a, b) = (#[trigger] before.agents[i], after.agents[i]);
            &&& b.id == a.id
            &&& b.owner == a.owner
            &&& b.name == a.name
            &&& b.description == a.description
            &&& b.price_per_day == a.price_per_day
            &&& b.active ==> a.active
        }
}

/// No operation changes what a record fixed at its creation, nor reactivates
/// an agent, nor changes the platform's owner or fee. (A registration made
/// after all ids are taken replaces the agent under the last id, so it is
/// left out here.)
pub proof fn operations_keep_records(
    r: RegistryView,
    caller: AccountId,
    name: Seq<char>,
    description: Seq<char>,
    price_per_day: Balance,
    payment: Balance,
    agent_id: u32,
    duration_days: u32,
    transferred: bool,
)
    requires
        r.wf(),
    ensures
        r.agents.len() <= u32::MAX ==> keeps_records(
            r,
            r.register(caller, name, description, price_per_day),
        ),
        keeps_records(r, r.rent(caller, payment, agent_id, duration_days, transferred).0),
        keeps_records(r, r.deactivate(caller, agent_id).0),
{
}

/// Registrations on a fresh registry are given the ids 0, 1, 2, ... in the
/// order of the calls (the id returned is the count before the call), and
/// afterwards the count of agents is the number of registrations.
pub proof fn registration_ids_count_up(r: RegistryView, regs: Seq<Registration>)
    requires
        r.agents.len() == 0,
        regs.len() <= u32::MAX,
    ensures
        forall|i: int|
            0 <= i < regs.len() ==> #[trigger] register_all(r, regs.take(i)).total_agents() == i,
        register_all(r, regs).total_agents() == regs.len(),
{
    assert forall|i: int| 0 <= i < regs.len() implies #[trigger] register_all(
        r,
        regs.take(i),
    ).total_agents() == i by {
        lemma_register_all_len(r, regs.take(i));
    }
    lemma_register_all_len(r, regs);
}

/// Right after a registration, the new agent is stored under the id that was
/// returned, active, owned by the caller, with the fields it was given.
pub proof fn registered_agent_is_active_and_owned(
    r: RegistryView,
    caller: AccountId,
    name: Seq<char>,
    description: Seq<char>,
    price_per_day: Balance,
)
    requires
        r.wf(),
    ensures
        ({
            let next = r.register(caller, name, description, price_per_day);
            &&& next.wf()
            &&& next.agent(r.total_agents()) == Some(
                AgentView {
                    id: r.total_agents(),
                    owner: caller,
                    name,
                    description,
                    price_per_day,
                    active: true,
                    total_rentals: 0,
                },
            )
        }),
{
    let next = r.register(caller, name, description, price_per_day);
    assert forall|i: int| 0 <= i < next.agents.len() implies #[trigger] next.agents[i].id == i by {
        if i < r.agents.len() && !(r.agents.len() > u32::MAX && i == u32::MAX) {
            assert(next.agents[i] == r.agents[i]);
        }
    }
}

/// Renting an id that was never registered fails with `AgentNotFound` and
/// changes nothing.
pub proof fn renting_unknown_agent_fails(
    r: RegistryView,
    caller: AccountId,
    payment: Balance,
    agent_id: u32,
    duration_days: u32,
    transferred: bool,
)
    requires
        r.wf(),
        r.agent(agent_id) is None,
    ensures
        r.plan(agent_id, duration_days, payment) == Err::<RentalPlan, Error>(
            Error::AgentNotFound,
        ),
        r.rent(caller, payment, agent_id, duration_days, transferred) == (
            r,
            Err::<AgentRented, Error>(Error::AgentNotFound),
        ),
{
}

/// Once its owner has deactivated an agent, renting it fails with
/// `AgentNotActive` and changes nothing.
pub proof fn renting_deactivated_agent_fails(
    r: RegistryView,
    owner: AccountId,
    renter: AccountId,
    payment: Balance,
    agent_id: u32,
    duration_days: u32,
    transferred: bool,
)
    requires
        r.wf(),
        r.deactivate(owner, agent_id).1 is Ok,
    ensures
        ({
            let after = r.deactivate(owner, agent_id).0;
            after.rent(renter, payment, agent_id, duration_days, transferred) == (
                after,
                Err::<AgentRented, Error>(Error::AgentNotActive),
            )
        }),
{
}

/// Offering less than `price_per_day * duration_days` for an active agent
/// fails with `InsufficientPayment`: no payment to the owner is planned, no
/// event comes out and nothing changes. (Where the product exceeds the
/// largest amount, the cost is clamped to it, and a payment of exactly that
/// amount is enough.)
pub proof fn underpayment_fails(
    r: RegistryView,
    caller: AccountId,
    payment: Balance,
    agent_id: u32,
    duration_days: u32,
    transferred: bool,
)
    requires
        r.wf(),
        r.agent(agent_id) is Some,
        r.agent(agent_id)->0.active,
        payment < r.agent(agent_id)->0.price_per_day * duration_days,
        payment < u128::MAX || r.agent(agent_id)->0.price_per_day * duration_days <= u128::MAX,
    ensures
        r.plan(agent_id, duration_days, payment) == Err::<RentalPlan, Error>(
            Error::InsufficientPayment,
        ),
        r.rent(caller, payment, agent_id, duration_days, transferred) == (
            r,
            Err::<AgentRented, Error>(Error::InsufficientPayment),
        ),
{
}

/// A rental that passes its checks and whose owner payment goes through:
/// the owner is paid the cost less the fee rounded down, the fee is the rest
/// of the cost, the agent's rental count goes up by one, only that count
/// changes, and one event names the agent, the renter and the cost. (The fee
/// is exact while cost times percentage fits in a `u128` and the percentage
/// is at most 100; the count stops at `u32::MAX`.)
pub proof fn successful_rental_settles(
    r: RegistryView,
    caller: AccountId,
    payment: Balance,
    agent_id: u32,
    duration_days: u32,
)
    requires
        r.wf(),
        r.plan(agent_id, duration_days, payment) is Ok,
    ensures
        ({
            let p = r.plan(agent_id, duration_days, payment)->Ok_0;
            let a = r.agents[agent_id as int];
            let (after, event) = r.rent(caller, payment, agent_id, duration_days, true);
            let cost = rental_cost(a.price_per_day, duration_days);
            &&& p.payee == a.owner
            &&& p.total_cost == cost
            &&& (cost * r.platform_fee_percent <= u128::MAX && r.platform_fee_percent <= 100) ==> {
                &&& p.creator_payment == cost - (cost * r.platform_fee_percent) / 100
                &&& p.fee + p.creator_payment == cost
            }
            &&& event == Ok::<AgentRented, Error>(
                AgentRented { agent_id, renter: caller, amount_paid: p.total_cost },
            )
            &&& after.wf()
            &&& after.agents.len() == r.agents.len()
            &&& after.agents[agent_id as int] == AgentView {
                total_rentals: after.agents[agent_id as int].total_rentals,
                ..a
            }
            &&& a.total_rentals < u32::MAX ==> after.agents[agent_id as int].total_rentals
                == a.total_rentals + 1
            &&& forall|i: int|
                0 <= i < r.agents.len() && i != agent_id ==> #[trigger] after.agents[i]
                    == r.agents[i]
            &&& after.owner == r.owner
            &&& after.platform_fee_percent == r.platform_fee_percent
        }),
{
    let a = r.agents[agent_id as int];
    let cost = rental_cost(a.price_per_day, duration_days);
    let pct = r.platform_fee_percent as int;
    if cost * pct <= u128::MAX && pct <= 100 {
        assert(cost * pct <= cost * 100) by (nonlinear_arith)
            requires
                0 <= cost,
                pct <= 100,
        ;
        assert(platform_fee(cost, r.platform_fee_percent) <= cost);
        assert(creator_share(cost, platform_fee(cost, r.platform_fee_percent)) == cost
            - platform_fee(cost, r.platform_fee_percent));
    }
}

/// An account that does not own an agent cannot deactivate it: the call
/// fails with `Unauthorized` and the agent stays as it was (active stays active).
pub proof fn deactivation_by_stranger_fails(r: RegistryView, caller: AccountId, agent_id: u32)
    requires
        r.wf(),
        r.agent(agent_id) is Some,
        r.agent(agent_id)->0.owner != caller,
    ensures
        r.deactivate(caller, agent_id) == (r, Err::<(), Error>(Error::Unauthorized)),
{
}

/// The owner may deactivate an agent twice: both calls succeed, the second
/// changes nothing, and the agent is inactive.
pub proof fn deactivation_is_idempotent(r: RegistryView, agent_id: u32)
    requires
        r.wf(),
        r.agent(agent_id) is Some,
    ensures
        ({
            let owner = r.agent(agent_id)->0.owner;
            let (once, first) = r.deactivate(owner, agent_id);
            let (twice, second) = once.deactivate(owner, agent_id);
            &&& first is Ok
            &&& second is Ok
            &&& twice == once
            &&& !twice.agent(agent_id)->0.active
        }),
{
    let owner = r.agent(agent_id)->0.owner;
    let once = r.deactivate(owner, agent_id).0;
    let twice = once.deactivate(owner, agent_id).0;
    assert(twice.agents =~= once.agents);
}

} // verus!
