use bastion::prelude::{
    Callbacks, Dispatcher, DispatcherType, Distributor, RestartStrategy, SupervisionStrategy,
};
use bastor::{
    children_plan, supervisor_plan, ChildrenSettings, ChildrenStep, SupervisorSettings,
    SupervisorStep,
};
use std::time::Duration;

fn names(plan: &[ChildrenStep]) -> Vec<String> {
    let mut out = Vec::new();
    for step in plan {
        if let ChildrenStep::Name(n) = step {
            out.push(n.clone());
        }
    }
    out
}

#[test]
fn unset_settings_give_no_steps() {
    assert!(supervisor_plan(SupervisorSettings::none(), SupervisorSettings::none()).is_empty());
    assert!(children_plan(ChildrenSettings::none(), ChildrenSettings::none()).is_empty());
}

#[test]
fn supervisor_steps_come_actor_first_in_fixed_order() {
    let actor = SupervisorSettings {
        callbacks: None,
        strategy: Some(SupervisionStrategy::OneForAll),
        restart_strategy: Some(RestartStrategy::default()),
    };
    let overriding = SupervisorSettings {
        callbacks: Some(Callbacks::new()),
        strategy: Some(SupervisionStrategy::RestForOne),
        restart_strategy: None,
    };
    let plan = supervisor_plan(actor, overriding);
    assert_eq!(plan.len(), 4);
    assert!(matches!(plan[0], SupervisorStep::Strategy(SupervisionStrategy::OneForAll)));
    assert!(matches!(plan[1], SupervisorStep::RestartStrategy(_)));
    assert!(matches!(plan[2], SupervisorStep::Callbacks(_)));
    assert!(matches!(plan[3], SupervisorStep::Strategy(SupervisionStrategy::RestForOne)));
}

#[test]
fn override_strategy_is_the_last_one_given() {
    let actor = SupervisorSettings {
        callbacks: None,
        strategy: Some(SupervisionStrategy::OneForAll),
        restart_strategy: None,
    };
    let overriding = SupervisorSettings {
        callbacks: None,
        strategy: Some(SupervisionStrategy::RestForOne),
        restart_strategy: None,
    };
    let plan = supervisor_plan(actor, overriding);
    let last = plan
        .iter()
        .rev()
        .find(|s| matches!(s, SupervisorStep::Strategy(_)))
        .unwrap();
    assert!(matches!(last, SupervisorStep::Strategy(SupervisionStrategy::RestForOne)));
}

#[test]
fn actor_setting_kept_where_override_sets_nothing() {
    let actor = ChildrenSettings {
        callbacks: None,
        dispatcher: None,
        distributor: None,
        heartbeat_tick: Some(Duration::from_secs(5)),
        name: Some("actor".to_string()),
        redundancy: Some(3),
    };
    let plan = children_plan(actor, ChildrenSettings::none());
    assert_eq!(plan.len(), 3);
    assert!(matches!(plan[0], ChildrenStep::HeartbeatTick(d) if d == Duration::from_secs(5)));
    assert!(matches!(&plan[1], ChildrenStep::Name(n) if n == "actor"));
    assert!(matches!(plan[2], ChildrenStep::Redundancy(3)));
}

#[test]
fn override_name_and_redundancy_come_last() {
    let actor = ChildrenSettings {
        callbacks: None,
        dispatcher: None,
        distributor: None,
        heartbeat_tick: None,
        name: Some("actor".to_string()),
        redundancy: Some(5),
    };
    let overriding = ChildrenSettings {
        callbacks: None,
        dispatcher: None,
        distributor: None,
        heartbeat_tick: None,
        name: Some("override".to_string()),
        redundancy: Some(2),
    };
    let plan = children_plan(actor, overriding);
    assert_eq!(names(&plan), vec!["actor".to_string(), "override".to_string()]);
    assert!(matches!(plan[plan.len() - 1], ChildrenStep::Redundancy(2)));
}

#[test]
fn both_distributors_and_dispatchers_are_added() {
    let actor = ChildrenSettings {
        callbacks: Some(Callbacks::new()),
        dispatcher: Some(Dispatcher::with_type(DispatcherType::Named("a".to_string()))),
        distributor: Some(Distributor::named("plans_actor")),
        heartbeat_tick: None,
        name: None,
        redundancy: None,
    };
    let overriding = ChildrenSettings {
        callbacks: None,
        dispatcher: Some(Dispatcher::with_type(DispatcherType::Anonymous)),
        distributor: Some(Distributor::named("plans_override")),
        heartbeat_tick: None,
        name: None,
        redundancy: None,
    };
    let plan = children_plan(actor, overriding);
    assert_eq!(plan.len(), 5);
    assert!(matches!(plan[0], ChildrenStep::Callbacks(_)));
    match &plan[1] {
        ChildrenStep::Dispatcher(d) => {
            assert_eq!(d.dispatcher_type(), DispatcherType::Named("a".to_string()))
        }
        _ => panic!("expected the actor's dispatcher"),
    }
    assert!(matches!(plan[2], ChildrenStep::Distributor(d) if d == Distributor::named("plans_actor")));
    match &plan[3] {
        ChildrenStep::Dispatcher(d) => assert_eq!(d.dispatcher_type(), DispatcherType::Anonymous),
        _ => panic!("expected the override's dispatcher"),
    }
    assert!(matches!(plan[4], ChildrenStep::Distributor(d) if d == Distributor::named("plans_override")));
}
