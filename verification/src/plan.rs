use bastion::prelude::{
    Callbacks, Children, Dispatcher, Distributor, RestartStrategy, SupervisionStrategy, Supervisor,
};
use bastion::prelude::BastionContext;
use std::future::Future;
use std::time::Duration;
use vstd::prelude::*;

use crate::bastion_api::{
    children_with_callbacks, children_with_dispatcher, children_with_distributor,
    children_with_exec, children_with_heartbeat_tick, children_with_name, children_with_redundancy,
    supervisor_with_callbacks, supervisor_with_restart_strategy, supervisor_with_strategy,
};
use crate::bastion_api::{children_config, supervisor_config};
use crate::outcome::{configured_children, configured_supervisor};
use crate::settings::{ChildrenSettings, SupervisorSettings};

verus! {

/// One call of a configuration method of Bastion's supervisor builder.
pub enum SupervisorStep {
    /// `Supervisor::with_callbacks`
    Callbacks(Callbacks),
    /// `Supervisor::with_strategy`
    Strategy(SupervisionStrategy),
    /// `Supervisor::with_restart_strategy`
    RestartStrategy(RestartStrategy),
}

/// One call of a configuration method of Bastion's children group builder.
pub enum ChildrenStep {
    /// `Children::with_callbacks`
    Callbacks(Callbacks),
    /// `Children::with_dispatcher`
    Dispatcher(Dispatcher),
    /// `Children::with_distributor`
    Distributor(Distributor),
    /// `Children::with_heartbeat_tick`
    HeartbeatTick(Duration),
    /// `Children::with_name`
    Name(String),
    /// `Children::with_redundancy`
    Redundancy(usize),
}

/// The one step that a set value asks for, or no step when it is not set.
pub open spec fn step_if_set<T, S>(value: Option<T>, step: spec_fn(T) -> S) -> Seq<S> {
    match value {
        Some(v) => seq![step(v)],
        None => Seq::empty(),
    }
}

/// The value as a sequence of at most one element.
pub open spec fn option_seq<T>(value: Option<T>) -> Seq<T> {
    match value {
        Some(v) => seq![v],
        None => Seq::empty(),
    }
}

/// The steps that configure a supervisor with `s`: callbacks, then the
/// supervision strategy, then the restart strategy, each only where set.
pub open spec fn supervisor_steps(s: SupervisorSettings) -> Seq<SupervisorStep> {
    step_if_set(s.callbacks, |v: Callbacks| SupervisorStep::Callbacks(v)) + step_if_set(
        s.strategy,
        |v: SupervisionStrategy| SupervisorStep::Strategy(v),
    ) + step_if_set(s.restart_strategy, |v: RestartStrategy| SupervisorStep::RestartStrategy(v))
}

/// The steps that configure a children group with `s`: callbacks,
/// dispatcher, distributor, heartbeat tick, name, then redundancy, each only
/// where set.
pub open spec fn children_steps(s: ChildrenSettings) -> Seq<ChildrenStep> {
    membership_steps(s) + shape_steps(s)
}

/// The first half of `children_steps`: callbacks, dispatcher, distributor.
pub open spec fn membership_steps(s: ChildrenSettings) -> Seq<ChildrenStep> {
    step_if_set(s.callbacks, |v: Callbacks| ChildrenStep::Callbacks(v)) + step_if_set(
        s.dispatcher,
        |v: Dispatcher| ChildrenStep::Dispatcher(v),
    ) + step_if_set(s.distributor, |v: Distributor| ChildrenStep::Distributor(v))
}

/// The second half of `children_steps`: heartbeat tick, name, redundancy.
pub open spec fn shape_steps(s: ChildrenSettings) -> Seq<ChildrenStep> {
    step_if_set(s.heartbeat_tick, |v: Duration| ChildrenStep::HeartbeatTick(v)) + step_if_set(
        s.name,
        |v: String| ChildrenStep::Name(v),
    ) + step_if_set(s.redundancy, |v: usize| ChildrenStep::Redundancy(v))
}

/// Appends to `plan` the steps that configure a supervisor with `settings`.
fn push_supervisor_steps(plan: &mut Vec<SupervisorStep>, settings: SupervisorSettings)
    ensures
        final(plan)@ == old(plan)@ + supervisor_steps(settings),
{
    let SupervisorSettings { callbacks, strategy, restart_strategy } = settings;
    let ghost start = plan@;
    if let Some(v) = callbacks {
        plan.push(SupervisorStep::Callbacks(v));
    }
    let ghost after_callbacks = plan@;
    if let Some(v) = strategy {
        plan.push(SupervisorStep::Strategy(v));
    }
    let ghost after_strategy = plan@;
    if let Some(v) = restart_strategy {
        plan.push(SupervisorStep::RestartStrategy(v));
    }
    assert(after_callbacks =~= start + step_if_set(
        callbacks,
        |v: Callbacks| SupervisorStep::Callbacks(v),
    ));
    assert(after_strategy =~= after_callbacks + step_if_set(
        strategy,
        |v: SupervisionStrategy| SupervisorStep::Strategy(v),
    ));
    assert(plan@ =~= after_strategy + step_if_set(
        restart_strategy,
        |v: RestartStrategy| SupervisorStep::RestartStrategy(v),
    ));
    assert(plan@ =~= start + supervisor_steps(settings));
}

/// Appends to `plan` the steps for the callbacks, dispatcher and
/// distributor of a children group.
fn push_membership_steps(
    plan: &mut Vec<ChildrenStep>,
    callbacks: Option<Callbacks>,
    dispatcher: Option<Dispatcher>,
    distributor: Option<Distributor>,
)
    ensures
        final(plan)@ == old(plan)@ + step_if_set(
            callbacks,
            |v: Callbacks| ChildrenStep::Callbacks(v),
        ) + step_if_set(dispatcher, |v: Dispatcher| ChildrenStep::Dispatcher(v)) + step_if_set(
            distributor,
            |v: Distributor| ChildrenStep::Distributor(v),
        ),
{
    let ghost s0 = plan@;
    if let Some(v) = callbacks {
        plan.push(ChildrenStep::Callbacks(v));
    }
    let ghost s1 = plan@;
    if let Some(v) = dispatcher {
        plan.push(ChildrenStep::Dispatcher(v));
    }
    let ghost s2 = plan@;
    if let Some(v) = distributor {
        plan.push(ChildrenStep::Distributor(v));
    }
    assert(s1 =~= s0 + step_if_set(callbacks, |v: Callbacks| ChildrenStep::Callbacks(v)));
    assert(s2 =~= s1 + step_if_set(dispatcher, |v: Dispatcher| ChildrenStep::Dispatcher(v)));
    assert(plan@ =~= s2 + step_if_set(distributor, |v: Distributor| ChildrenStep::Distributor(v)));
}

/// Appends to `plan` the steps for the heartbeat tick, name and redundancy
/// of a children group.
fn push_shape_steps(
    plan: &mut Vec<ChildrenStep>,
    heartbeat_tick: Option<Duration>,
    name: Option<String>,
    redundancy: Option<usize>,
)
    ensures
        final(plan)@ == old(plan)@ + step_if_set(
            heartbeat_tick,
            |v: Duration| ChildrenStep::HeartbeatTick(v),
        ) + step_if_set(name, |v: String| ChildrenStep::Name(v)) + step_if_set(
            redundancy,
            |v: usize| ChildrenStep::Redundancy(v),
        ),
{
    let ghost s0 = plan@;
    if let Some(v) = heartbeat_tick {
        plan.push(ChildrenStep::HeartbeatTick(v));
    }
    let ghost s1 = plan@;
    if let Some(v) = name {
        plan.push(ChildrenStep::Name(v));
    }
    let ghost s2 = plan@;
    if let Some(v) = redundancy {
        plan.push(ChildrenStep::Redundancy(v));
    }
    assert(s1 =~= s0 + step_if_set(heartbeat_tick, |v: Duration| ChildrenStep::HeartbeatTick(v)));
    assert(s2 =~= s1 + step_if_set(name, |v: String| ChildrenStep::Name(v)));
    assert(plan@ =~= s2 + step_if_set(redundancy, |v: usize| ChildrenStep::Redundancy(v)));
}

/// Appends to `plan` the steps that configure a children group with
/// `settings`.
fn push_children_steps(plan: &mut Vec<ChildrenStep>, settings: ChildrenSettings)
    ensures
        final(plan)@ == old(plan)@ + children_steps(settings),
{
    let ghost s0 = plan@;
    let ChildrenSettings { callbacks, dispatcher, distributor, heartbeat_tick, name, redundancy } =
        settings;
    push_membership_steps(plan, callbacks, dispatcher, distributor);
    let ghost s1 = plan@;
    push_shape_steps(plan, heartbeat_tick, name, redundancy);
    assert(plan@ =~= s1 + shape_steps(settings));
    assert(plan@ =~= s0 + children_steps(settings));
}

/// The calls that configure a supervisor: first those that an actor's own
/// settings ask for, then those that the overriding settings ask for.
pub fn supervisor_plan(actor: SupervisorSettings, overriding: SupervisorSettings) -> (plan: Vec<
    SupervisorStep,
>)
    ensures
        plan@ == supervisor_steps(actor) + supervisor_steps(overriding),
{
    let mut plan: Vec<SupervisorStep> = Vec::new();
    push_supervisor_steps(&mut plan, actor);
    push_supervisor_steps(&mut plan, overriding);
    assert(plan@ =~= supervisor_steps(actor) + supervisor_steps(overriding));
    plan
}

/// The calls that configure a children group: first those that an actor's
/// own settings ask for, then those that the overriding settings ask for.
pub fn children_plan(actor: ChildrenSettings, overriding: ChildrenSettings) -> (plan: Vec<
    ChildrenStep,
>)
    ensures
        plan@ == children_steps(actor) + children_steps(overriding),
{
    let mut plan: Vec<ChildrenStep> = Vec::new();
    push_children_steps(&mut plan, actor);
    push_children_steps(&mut plan, overriding);
    assert(plan@ =~= children_steps(actor) + children_steps(overriding));
    plan
}

/// Makes on `supervisor`, in order, the calls that `plan` lists: the
/// builder ends up with the settings it had, overridden by those the plan
/// gives.
pub(crate) fn apply_supervisor_plan(supervisor: Supervisor, plan: Vec<SupervisorStep>) -> (configured:
    Supervisor)
    ensures
        supervisor_config(configured) == supervisor_config(supervisor).overridden_by(
            configured_supervisor(plan@),
        ),
{
    let ghost steps = plan@;
    let ghost start = supervisor_config(supervisor);
    let mut configured = supervisor;
    let mut rest = plan;
    assert(steps.take(0) =~= Seq::<SupervisorStep>::empty());
    assert(rest@ =~= steps.skip(0));
    while rest.len() > 0
        invariant
            rest@.len() <= steps.len(),
            rest@ == steps.skip(steps.len() - rest@.len()),
            supervisor_config(configured) == start.overridden_by(
                configured_supervisor(steps.take(steps.len() - rest@.len())),
            ),
        decreases rest.len(),
    {
        let ghost done = steps.len() - rest@.len();
        let ghost before = rest@;
        let step = rest.remove(0);
        assert(rest@ =~= steps.skip(done + 1));
        assert(steps.take(done + 1).drop_last() =~= steps.take(done));
        assert(steps.take(done + 1).last() == before[0]);
        configured = match step {
            SupervisorStep::Callbacks(v) => supervisor_with_callbacks(configured, v),
            SupervisorStep::Strategy(v) => supervisor_with_strategy(configured, v),
            SupervisorStep::RestartStrategy(v) => supervisor_with_restart_strategy(configured, v),
        };
    }
    assert(steps.take(steps.len() as int) =~= steps);
    configured
}

/// Makes on `children`, in order, the calls that `plan` lists, then sets
/// `init` as what each element of the group runs: the builder ends up with
/// the settings it had, followed by those the plan gives, and is what
/// `with_exec` with `init` gave on the builder so configured.
pub(crate) fn apply_children_plan<I, F>(children: Children, plan: Vec<ChildrenStep>, init: I) -> (configured:
    Children) where
    I: Fn(BastionContext) -> F + Send + 'static,
    F: Future<Output = Result<(), ()>> + Send + 'static,

    ensures
        children_config(configured) == children_config(children).followed_by(
            configured_children(plan@),
        ),
        exists|before: Children|
            {
                &&& children_config(before) == children_config(children).followed_by(
                    configured_children(plan@),
                )
                &&& call_ensures(children_with_exec::<I, F>, (before, init), configured)
            },
{
    let ghost steps = plan@;
    let ghost start = children_config(children);
    let mut configured = children;
    let mut rest = plan;
    assert(steps.take(0) =~= Seq::<ChildrenStep>::empty());
    assert(rest@ =~= steps.skip(0));
    assert(start.dispatchers + Seq::empty() =~= start.dispatchers);
    assert(start.distributors + Seq::empty() =~= start.distributors);
    while rest.len() > 0
        invariant
            rest@.len() <= steps.len(),
            rest@ == steps.skip(steps.len() - rest@.len()),
            children_config(configured) == start.followed_by(
                configured_children(steps.take(steps.len() - rest@.len())),
            ),
        decreases rest.len(),
    {
        let ghost done = steps.len() - rest@.len();
        let ghost before = rest@;
        let ghost prior = configured_children(steps.take(done));
        let step = rest.remove(0);
        assert(rest@ =~= steps.skip(done + 1));
        assert(steps.take(done + 1).drop_last() =~= steps.take(done));
        assert(steps.take(done + 1).last() == before[0]);
        configured = match step {
            ChildrenStep::Callbacks(v) => children_with_callbacks(configured, v),
            ChildrenStep::Dispatcher(v) => {
                assert(start.dispatchers + prior.dispatchers.push(v) =~= (start.dispatchers
                    + prior.dispatchers).push(v));
                children_with_dispatcher(configured, v)
            },
            ChildrenStep::Distributor(v) => {
                assert(start.distributors + prior.distributors.push(v) =~= (start.distributors
                    + prior.distributors).push(v));
                children_with_distributor(configured, v)
            },
            ChildrenStep::HeartbeatTick(v) => children_with_heartbeat_tick(configured, v),
            ChildrenStep::Name(v) => children_with_name(configured, v),
            ChildrenStep::Redundancy(v) => children_with_redundancy(configured, v),
        };
    }
    assert(steps.take(steps.len() as int) =~= steps);
    let ghost before = configured;
    let configured = (children_with_exec::<I, F>)(configured, init);
    assert(call_ensures(children_with_exec::<I, F>, (before, init), configured));
    configured
}

/// A children group builder prepared for deployment runs the executor it
/// was handed: it is what `with_exec` with that executor gave, on a builder
/// that holds the settings it had followed by those of the plan.
pub(crate) proof fn law_prepared_group_runs_exec<I, F>(
    children: Children,
    plan: Vec<ChildrenStep>,
    init: I,
    configured: Children,
) where
    I: Fn(BastionContext) -> F + Send + 'static,
    F: Future<Output = Result<(), ()>> + Send + 'static,

    requires
        call_ensures(apply_children_plan::<I, F>, (children, plan, init), configured),
    ensures
        exists|before: Children|
            {
                &&& children_config(before) == children_config(children).followed_by(
                    configured_children(plan@),
                )
                &&& call_ensures(children_with_exec::<I, F>, (before, init), configured)
            },
        children_config(configured) == children_config(children).followed_by(
            configured_children(plan@),
        ),
{
}

} // verus!
