use agent_registry::{AccountId, AgentRegistry, Error};

fn account(b: u8) -> AccountId {
    AccountId::from_bytes([b; 32])
}

fn alice() -> AccountId {
    account(1)
}

fn bob() -> AccountId {
    account(2)
}

#[test]
fn new_works() {
    let contract = AgentRegistry::new(alice(), 5);
    assert_eq!(contract.get_total_agents(), 0);
}

#[test]
fn register_agent_works() {
    let mut contract = AgentRegistry::new(alice(), 5);
    let id = contract
        .register_agent(
            alice(),
            String::from("YieldOptimizer"),
            String::from("Optimizes yield across parachains"),
            1_000_000_000_000,
        )
        .agent_id;
    assert_eq!(id, 0);
    assert_eq!(contract.get_total_agents(), 1);

    let agent = contract.get_agent(0).unwrap();
    assert_eq!(agent.name, "YieldOptimizer");
    assert_eq!(agent.price_per_day, 1_000_000_000_000);
    assert!(agent.active);
}

#[test]
fn deactivate_agent_works() {
    let mut contract = AgentRegistry::new(alice(), 5);
    let id = contract
        .register_agent(alice(), String::from("Test"), String::from("Test agent"), 1000)
        .agent_id;

    assert!(contract.deactivate_agent(alice(), id).is_ok());
    let agent = contract.get_agent(id).unwrap();
    assert!(!agent.active);
}

#[test]
fn ids_count_up_in_call_order() {
    let mut reg = AgentRegistry::new(alice(), 5);
    for n in 0..20u32 {
        let caller = account((n % 3) as u8);
        let ev = reg.register_agent(caller, format!("agent{}", n), String::new(), n as u128);
        assert_eq!(ev.agent_id, n);
        assert_eq!(ev.owner, caller);
        assert_eq!(ev.name, format!("agent{}", n));
        assert_eq!(reg.get_total_agents(), n + 1);
    }
    let all = reg.get_all_agents();
    assert_eq!(all.len(), 20);
    for (i, a) in all.iter().enumerate() {
        assert_eq!(a.id, i as u32);
        assert_eq!(a.name, format!("agent{}", i));
    }
}

#[test]
fn register_accepts_empty_large_and_free() {
    let mut reg = AgentRegistry::new(alice(), 5);
    let big = "x".repeat(100_000);
    let a = reg.register_agent(bob(), String::new(), String::new(), 0).agent_id;
    let b = reg.register_agent(bob(), big.clone(), big.clone(), u128::MAX).agent_id;
    assert_eq!((a, b), (0, 1));
    let got = reg.get_agent(1).unwrap();
    assert_eq!(got.name.len(), 100_000);
    assert_eq!(got.description, big);
    assert_eq!(got.price_per_day, u128::MAX);
    assert_eq!(reg.get_agent(0).unwrap().price_per_day, 0);
}

#[test]
fn registered_agent_is_active_and_owned_by_caller() {
    let mut reg = AgentRegistry::new(alice(), 5);
    let id = reg.register_agent(bob(), String::from("A"), String::from("d"), 7).agent_id;
    let agent = reg.get_agent(id).unwrap();
    assert!(agent.active);
    assert_eq!(agent.owner, bob());
    assert_eq!(agent.id, id);
    assert_eq!(agent.description, "d");
    assert_eq!(agent.total_rentals, 0);
    assert_eq!(reg.get_owner(), alice());
}

#[test]
fn get_agent_of_unknown_id_is_none() {
    let mut reg = AgentRegistry::new(alice(), 5);
    assert!(reg.get_agent(0).is_none());
    reg.register_agent(bob(), String::from("A"), String::new(), 7);
    assert!(reg.get_agent(1).is_none());
    assert!(reg.get_agent(u32::MAX).is_none());
}

#[test]
fn renting_unknown_agent_is_not_found() {
    let mut reg = AgentRegistry::new(alice(), 5);
    reg.register_agent(alice(), String::from("A"), String::new(), 10);
    assert_eq!(reg.plan_rental(1, 3, 1000).unwrap_err(), Error::AgentNotFound);
    assert_eq!(reg.rent_agent(bob(), 1000, 1, 3, true).unwrap_err(), Error::AgentNotFound);
    assert_eq!(reg.get_total_agents(), 1);
    assert_eq!(reg.get_agent(0).unwrap().total_rentals, 0);
}

#[test]
fn renting_deactivated_agent_is_not_active() {
    let mut reg = AgentRegistry::new(alice(), 5);
    let id = reg.register_agent(alice(), String::from("A"), String::new(), 10).agent_id;
    reg.deactivate_agent(alice(), id).unwrap();
    assert_eq!(reg.plan_rental(id, 1, 10).unwrap_err(), Error::AgentNotActive);
    assert_eq!(reg.rent_agent(bob(), 10, id, 1, true).unwrap_err(), Error::AgentNotActive);
    assert_eq!(reg.get_agent(id).unwrap().total_rentals, 0);
}

#[test]
fn not_found_comes_before_not_active() {
    let mut reg = AgentRegistry::new(alice(), 5);
    let id = reg.register_agent(alice(), String::from("A"), String::new(), 10).agent_id;
    reg.deactivate_agent(alice(), id).unwrap();
    // An inactive agent is refused before the payment is looked at.
    assert_eq!(reg.rent_agent(bob(), 0, id, 1000, true).unwrap_err(), Error::AgentNotActive);
    assert_eq!(reg.rent_agent(bob(), 0, id + 1, 1000, true).unwrap_err(), Error::AgentNotFound);
}

#[test]
fn underpayment_is_refused() {
    let mut reg = AgentRegistry::new(alice(), 5);
    let id = reg.register_agent(alice(), String::from("A"), String::new(), 1000).agent_id;
    assert_eq!(reg.plan_rental(id, 10, 9999).unwrap_err(), Error::InsufficientPayment);
    assert_eq!(reg.rent_agent(bob(), 9999, id, 10, true).unwrap_err(), Error::InsufficientPayment);
    assert_eq!(reg.rent_agent(bob(), 0, id, 1, true).unwrap_err(), Error::InsufficientPayment);
    assert_eq!(reg.get_agent(id).unwrap().total_rentals, 0);
}

#[test]
fn fee_scenario_five_percent() {
    let mut reg = AgentRegistry::new(alice(), 5);
    assert_eq!(reg.get_platform_fee_percent(), 5);
    let id = reg.register_agent(bob(), String::from("A"), String::new(), 1000).agent_id;
    let plan = reg.plan_rental(id, 10, 10000).unwrap();
    assert_eq!(plan.total_cost, 10000);
    assert_eq!(plan.fee, 500);
    assert_eq!(plan.creator_payment, 9500);
    assert_eq!(plan.payee, bob());
    assert_eq!(plan.agent_id, id);
    assert_eq!(reg.plan_rental(id, 10, 9999).unwrap_err(), Error::InsufficientPayment);
    assert!(reg.rent_agent(alice(), 10000, id, 10, true).is_ok());
    assert_eq!(reg.rent_agent(alice(), 9999, id, 10, true).unwrap_err(), Error::InsufficientPayment);
}

#[test]
fn successful_rental_settles_and_counts() {
    let mut reg = AgentRegistry::new(alice(), 7);
    let id = reg.register_agent(alice(), String::from("A"), String::new(), 333).agent_id;
    let plan = reg.plan_rental(id, 3, 999).unwrap();
    assert_eq!(plan.total_cost, 999);
    // floor(999 * 7 / 100) = 69
    assert_eq!(plan.fee, 69);
    assert_eq!(plan.creator_payment, 930);
    assert_eq!(plan.fee + plan.creator_payment, plan.total_cost);
    let ev = reg.rent_agent(bob(), 999, id, 3, true).unwrap();
    assert_eq!(ev.agent_id, id);
    assert_eq!(ev.renter, bob());
    assert_eq!(ev.amount_paid, 999);
    assert_eq!(reg.get_agent(id).unwrap().total_rentals, 1);
    reg.rent_agent(bob(), 999, id, 3, true).unwrap();
    assert_eq!(reg.get_agent(id).unwrap().total_rentals, 2);
}

#[test]
fn rent_three_days_emits_one_event() {
    let mut reg = AgentRegistry::new(alice(), 5);
    let a = reg.register_agent(alice(), String::from("A"), String::from("agent A"), 250).agent_id;
    let price = reg.get_agent(a).unwrap().price_per_day;
    let payment = price * 3;
    let plan = reg.plan_rental(a, 3, payment).unwrap();
    let ev = reg.rent_agent(bob(), payment, a, 3, true).unwrap();
    assert_eq!(ev.agent_id, a);
    assert_eq!(ev.renter, bob());
    assert_eq!(ev.amount_paid, price * 3);
    assert_eq!(ev.amount_paid, plan.total_cost);
}

#[test]
fn overpayment_is_accepted_and_cost_is_what_was_asked() {
    let mut reg = AgentRegistry::new(alice(), 5);
    let id = reg.register_agent(alice(), String::from("A"), String::new(), 100).agent_id;
    let ev = reg.rent_agent(bob(), 1_000_000, id, 2, true).unwrap();
    assert_eq!(ev.amount_paid, 200);
}

#[test]
fn failed_transfer_is_insufficient_payment_and_changes_nothing() {
    let mut reg = AgentRegistry::new(alice(), 5);
    let id = reg.register_agent(alice(), String::from("A"), String::new(), 100).agent_id;
    assert!(reg.plan_rental(id, 2, 200).is_ok());
    assert_eq!(reg.rent_agent(bob(), 200, id, 2, false).unwrap_err(), Error::InsufficientPayment);
    assert_eq!(reg.get_agent(id).unwrap().total_rentals, 0);
    assert!(reg.get_agent(id).unwrap().active);
}

#[test]
fn cost_saturates_at_largest_amount() {
    let mut reg = AgentRegistry::new(alice(), 5);
    let id = reg.register_agent(alice(), String::from("A"), String::new(), u128::MAX).agent_id;
    let plan = reg.plan_rental(id, 2, u128::MAX).unwrap();
    assert_eq!(plan.total_cost, u128::MAX);
    // cost * 5 saturates too, so the fee is u128::MAX / 100.
    assert_eq!(plan.fee, u128::MAX / 100);
    assert_eq!(plan.creator_payment, u128::MAX - u128::MAX / 100);
    assert_eq!(reg.plan_rental(id, 2, u128::MAX - 1).unwrap_err(), Error::InsufficientPayment);
}

#[test]
fn zero_fee_and_zero_days() {
    let mut reg = AgentRegistry::new(alice(), 0);
    let id = reg.register_agent(alice(), String::from("A"), String::new(), 40).agent_id;
    let plan = reg.plan_rental(id, 5, 200).unwrap();
    assert_eq!((plan.fee, plan.creator_payment), (0, 200));
    let free = reg.plan_rental(id, 0, 0).unwrap();
    assert_eq!((free.total_cost, free.fee, free.creator_payment), (0, 0, 0));
}

#[test]
fn fee_above_whole_cost_leaves_owner_nothing() {
    let mut reg = AgentRegistry::new(alice(), 250);
    let id = reg.register_agent(alice(), String::from("A"), String::new(), 100).agent_id;
    let plan = reg.plan_rental(id, 1, 100).unwrap();
    assert_eq!(plan.fee, 250);
    assert_eq!(plan.creator_payment, 0);
}

#[test]
fn stranger_cannot_deactivate() {
    let mut reg = AgentRegistry::new(alice(), 5);
    let id = reg.register_agent(alice(), String::from("A"), String::new(), 10).agent_id;
    assert_eq!(reg.deactivate_agent(bob(), id).unwrap_err(), Error::Unauthorized);
    assert!(reg.get_agent(id).unwrap().active);
    // The platform owner is no exception.
    let other = reg.register_agent(bob(), String::from("B"), String::new(), 10).agent_id;
    assert_eq!(reg.deactivate_agent(alice(), other).unwrap_err(), Error::Unauthorized);
    assert!(reg.get_agent(other).unwrap().active);
}

#[test]
fn deactivating_unknown_agent_is_not_found() {
    let mut reg = AgentRegistry::new(alice(), 5);
    assert_eq!(reg.deactivate_agent(alice(), 0).unwrap_err(), Error::AgentNotFound);
}

#[test]
fn deactivating_twice_succeeds() {
    let mut reg = AgentRegistry::new(alice(), 5);
    let id = reg.register_agent(bob(), String::from("A"), String::new(), 10).agent_id;
    assert_eq!(reg.deactivate_agent(bob(), id), Ok(()));
    assert_eq!(reg.deactivate_agent(bob(), id), Ok(()));
    assert!(!reg.get_agent(id).unwrap().active);
}

#[test]
fn account_ids_compare_by_bytes() {
    let mut bytes = [9u8; 32];
    let a = AccountId::from_bytes(bytes);
    bytes[31] = 8;
    let b = AccountId::from_bytes(bytes);
    assert!(a.same_as(&a));
    assert!(!a.same_as(&b));
    assert_ne!(a, b);
    assert_eq!(a, AccountId::from_bytes([9u8; 32]));
}

#[test]
fn registry_restores_from_its_parts() {
    let mut reg = AgentRegistry::new(alice(), 9);
    reg.register_agent(alice(), String::from("A"), String::new(), 10);
    reg.register_agent(bob(), String::from("B"), String::new(), 20);
    let restored = AgentRegistry::from_parts(reg.get_all_agents(), reg.get_owner(), 9).unwrap();
    assert_eq!(restored.get_total_agents(), 2);
    assert_eq!(restored.get_owner(), alice());
    assert_eq!(restored.get_platform_fee_percent(), 9);
    assert_eq!(restored.get_agent(1).unwrap().owner, bob());

    let mut swapped = reg.get_all_agents();
    swapped.swap(0, 1);
    assert!(AgentRegistry::from_parts(swapped, alice(), 9).is_none());
    assert!(AgentRegistry::from_parts(Vec::new(), alice(), 9).is_some());
}
