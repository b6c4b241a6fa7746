use bastion::prelude::{Bastion, BastionContext, Distributor, SupervisionStrategy};
use bastor::{
    children_plan_for, children_settings_of, supervisor_plan_for, supervisor_settings_of, Actor,
    ChildrenStep, Error, Override, SupervisorSettings,
};
use std::future::Future;
use std::pin::Pin;
use std::time::Duration;

#[derive(Clone)]
struct Plain;

impl Actor for Plain {}

#[derive(Clone)]
struct Named;

impl Actor for Named {
    fn with_name(&self) -> Option<String> {
        Some("named".to_string())
    }

    fn with_redundancy(&self) -> Option<usize> {
        Some(5)
    }
}

fn idle(_ctx: BastionContext) -> Pin<Box<dyn Future<Output = Result<(), ()>> + Send>> {
    Box::pin(async { Ok(()) })
}

#[test]
fn default_hooks_give_nothing() {
    let s = supervisor_settings_of(&Plain);
    assert!(s.callbacks.is_none() && s.strategy.is_none() && s.restart_strategy.is_none());
    let c = children_settings_of(&Plain);
    assert!(c.callbacks.is_none() && c.dispatcher.is_none() && c.distributor.is_none());
    assert!(c.heartbeat_tick.is_none() && c.name.is_none() && c.redundancy.is_none());
}

#[test]
fn hooks_that_are_implemented_are_asked() {
    let c = children_settings_of(&Named);
    assert_eq!(c.name, Some("named".to_string()));
    assert_eq!(c.redundancy, Some(5));
}

#[test]
fn default_override_sets_nothing() {
    Bastion::init();
    let o = Override::try_default().unwrap();
    assert!(o.supervisor_settings().callbacks.is_none());
    assert!(o.supervisor_settings().strategy.is_none());
    assert!(o.children_settings().name.is_none());
    assert!(o.children_settings().redundancy.is_none());
}

#[test]
fn override_builders_set_their_field() {
    Bastion::init();
    let o = Override::try_default()
        .unwrap()
        .with_name("override")
        .with_redundancy(2)
        .with_heartbeat_tick(Duration::from_secs(7))
        .with_distributor(Distributor::named("running_override"))
        .with_stategy(SupervisionStrategy::OneForAll);
    assert_eq!(o.children_settings().name, Some("override".to_string()));
    assert_eq!(o.children_settings().redundancy, Some(2));
    assert_eq!(o.children_settings().heartbeat_tick, Some(Duration::from_secs(7)));
    assert_eq!(o.children_settings().distributor, Some(Distributor::named("running_override")));
    assert!(matches!(o.supervisor_settings().strategy, Some(SupervisionStrategy::OneForAll)));
    assert!(o.children_settings().callbacks.is_none());
}

#[test]
fn later_builder_call_replaces_earlier() {
    Bastion::init();
    let o = Override::try_default().unwrap().with_name("first").with_name("second".to_string());
    assert_eq!(o.children_settings().name, Some("second".to_string()));
}

#[test]
fn with_parent_keeps_settings() {
    Bastion::init();
    let other = Override::try_default().unwrap();
    let parent = other.parent().clone();
    let o = Override::try_default().unwrap().with_redundancy(4).with_parent(parent.clone());
    assert!(*o.parent() == parent);
    assert_eq!(o.children_settings().redundancy, Some(4));
}

#[test]
fn actor_runs() {
    Bastion::init();
    Bastion::start();
    assert_eq!(Named.run(idle), Ok(()));
    Bastion::stop();
}

#[test]
fn override_runs() {
    Bastion::init();
    Bastion::start();
    let outcome = Override::try_default().unwrap().with_name("overridden").run(Named, idle);
    assert_eq!(outcome, Ok(()));
    Bastion::stop();
}

#[test]
fn override_runs_under_given_supervisor() {
    Bastion::init();
    Bastion::start();
    let o = Override::try_default().unwrap();
    let parent = o.parent().clone();
    let outcome: Result<(), Error> = o.with_redundancy(2).run_with_supervisor(parent, Plain, idle);
    assert_eq!(outcome, Ok(()));
    Bastion::stop();
}

#[test]
fn created_supervisor_becomes_the_parent() {
    Bastion::init();
    let parent = Override::try_default().unwrap().parent().clone();
    let o = Override::from_created(Ok(parent.clone())).unwrap();
    assert!(*o.parent() == parent);
    assert!(o.children_settings().name.is_none());
    assert!(o.supervisor_settings().strategy.is_none());
}

#[test]
fn override_plan_puts_its_settings_after_the_actors() {
    let mut over = bastor::ChildrenSettings::none();
    over.redundancy = Some(3);
    let plan = children_plan_for(&Named, over);
    assert_eq!(plan.len(), 3);
    assert!(matches!(&plan[0], ChildrenStep::Name(n) if n == "named"));
    assert!(matches!(plan[1], ChildrenStep::Redundancy(5)));
    assert!(matches!(plan[2], ChildrenStep::Redundancy(3)));
    assert!(supervisor_plan_for(&Named, SupervisorSettings::none()).is_empty());
}

#[test]
fn override_runs_beneath_given_parent() {
    Bastion::init();
    Bastion::start();
    let holder = Override::try_default().unwrap();
    let sp = holder.parent().clone();
    let outcome = Override::try_default().unwrap().with_parent(sp).with_redundancy(2).run(Plain, idle);
    assert_eq!(outcome, Ok(()));
    Bastion::stop();
}
