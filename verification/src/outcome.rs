//! What a sequence of configuration calls leaves a builder with, and the laws
//! that relate an actor's settings, an override's settings and that outcome.
use bastion::prelude::{Callbacks, Dispatcher, Distributor, RestartStrategy, SupervisionStrategy};
use std::time::Duration;
use vstd::prelude::*;

use crate::plan::{
    children_steps, membership_steps, option_seq, shape_steps, step_if_set, supervisor_steps,
    ChildrenStep, SupervisorStep,
};
use crate::settings::{or_else, ChildrenSettings, SupervisorSettings};

verus! {

/// What a children group ends up configured with. Bastion's children builder
/// keeps the last callbacks, heartbeat tick, name and redundancy it was given
/// (a redundancy of zero is kept as one), and every dispatcher and
/// distributor it was given, in order.
pub struct ChildrenConfig {
    /// The last callbacks given, if any.
    pub callbacks: Option<Callbacks>,
    /// Every dispatcher given, in order.
    pub dispatchers: Seq<Dispatcher>,
    /// Every distributor given, in order.
    pub distributors: Seq<Distributor>,
    /// The last heartbeat interval given, if any.
    pub heartbeat_tick: Option<Duration>,
    /// The last name given, if any.
    pub name: Option<String>,
    /// The number of elements that the last redundancy given leads to, if any.
    pub redundancy: Option<usize>,
}

impl ChildrenConfig {
    /// The configuration of a builder that was given nothing.
    pub open spec fn untouched() -> ChildrenConfig {
        ChildrenConfig {
            callbacks: None,
            dispatchers: Seq::empty(),
            distributors: Seq::empty(),
            heartbeat_tick: None,
            name: None,
            redundancy: None,
        }
    }

    /// The configuration that `later`'s calls, made after those that led to
    /// `self`, lead to.
    pub open spec fn followed_by(self, later: ChildrenConfig) -> ChildrenConfig {
        ChildrenConfig {
            callbacks: or_else(later.callbacks, self.callbacks),
            dispatchers: self.dispatchers + later.dispatchers,
            distributors: self.distributors + later.distributors,
            heartbeat_tick: or_else(later.heartbeat_tick, self.heartbeat_tick),
            name: or_else(later.name, self.name),
            redundancy: or_else(later.redundancy, self.redundancy),
        }
    }

    /// The configuration that one layer of settings leads to on its own.
    pub open spec fn of_settings(s: ChildrenSettings) -> ChildrenConfig {
        ChildrenConfig {
            callbacks: s.callbacks,
            dispatchers: option_seq(s.dispatcher),
            distributors: option_seq(s.distributor),
            heartbeat_tick: s.heartbeat_tick,
            name: s.name,
            redundancy: stored_redundancy(s.redundancy),
        }
    }
}

/// The number of elements a children group builder keeps for a given
/// redundancy: Bastion stores a redundancy of zero as one.
pub open spec fn stored_redundancy(redundancy: Option<usize>) -> Option<usize> {
    match redundancy {
        Some(n) => Some(if n == 0 { 1 } else { n }),
        None => None,
    }
}

/// What a supervisor builder ends up configured with after the calls of
/// `plan`: for each kind of setting, the last value given. Bastion's
/// supervisor builder keeps the last callbacks, strategy and restart strategy
/// it was given.
pub open spec fn configured_supervisor(plan: Seq<SupervisorStep>) -> SupervisorSettings
    decreases plan.len(),
{
    if plan.len() == 0 {
        SupervisorSettings::unset()
    } else {
        let before = configured_supervisor(plan.drop_last());
        match plan.last() {
            SupervisorStep::Callbacks(v) => SupervisorSettings { callbacks: Some(v), ..before },
            SupervisorStep::Strategy(v) => SupervisorSettings { strategy: Some(v), ..before },
            SupervisorStep::RestartStrategy(v) => SupervisorSettings {
                restart_strategy: Some(v),
                ..before
            },
        }
    }
}

/// What a children group builder ends up configured with after the calls of
/// `plan`.
pub open spec fn configured_children(plan: Seq<ChildrenStep>) -> ChildrenConfig
    decreases plan.len(),
{
    if plan.len() == 0 {
        ChildrenConfig::untouched()
    } else {
        let before = configured_children(plan.drop_last());
        match plan.last() {
            ChildrenStep::Callbacks(v) => ChildrenConfig { callbacks: Some(v), ..before },
            ChildrenStep::Dispatcher(v) => ChildrenConfig {
                dispatchers: before.dispatchers.push(v),
                ..before
            },
            ChildrenStep::Distributor(v) => ChildrenConfig {
                distributors: before.distributors.push(v),
                ..before
            },
            ChildrenStep::HeartbeatTick(v) => ChildrenConfig { heartbeat_tick: Some(v), ..before },
            ChildrenStep::Name(v) => ChildrenConfig { name: Some(v), ..before },
            ChildrenStep::Redundancy(v) => ChildrenConfig {
                redundancy: stored_redundancy(Some(v)),
                ..before
            },
        }
    }
}

/// Calls made after others win, setting by setting.
proof fn lemma_configured_supervisor_append(first: Seq<SupervisorStep>, then: Seq<SupervisorStep>)
    ensures
        configured_supervisor(first + then) == configured_supervisor(first).overridden_by(
            configured_supervisor(then),
        ),
    decreases then.len(),
{
    if then.len() == 0 {
        assert(first + then =~= first);
    } else {
        lemma_configured_supervisor_append(first, then.drop_last());
        assert((first + then).drop_last() =~= first + then.drop_last());
        assert((first + then).last() == then.last());
    }
}

/// Calls made after others override the kept settings and add to the
/// dispatchers and distributors.
proof fn lemma_configured_children_append(first: Seq<ChildrenStep>, then: Seq<ChildrenStep>)
    ensures
        configured_children(first + then) == configured_children(first).followed_by(
            configured_children(then),
        ),
    decreases then.len(),
{
    if then.len() == 0 {
        assert(first + then =~= first);
        let c = configured_children(first);
        assert(c.dispatchers + Seq::empty() =~= c.dispatchers);
        assert(c.distributors + Seq::empty() =~= c.distributors);
    } else {
        lemma_configured_children_append(first, then.drop_last());
        assert((first + then).drop_last() =~= first + then.drop_last());
        assert((first + then).last() == then.last());
        let a = configured_children(first);
        let b = configured_children(then.drop_last());
        match then.last() {
            ChildrenStep::Dispatcher(v) => {
                assert(a.dispatchers + b.dispatchers.push(v) =~= (a.dispatchers
                    + b.dispatchers).push(v));
            },
            ChildrenStep::Distributor(v) => {
                assert(a.distributors + b.distributors.push(v) =~= (a.distributors
                    + b.distributors).push(v));
            },
            _ => {},
        }
    }
}

/// The steps of one layer of supervisor settings configure exactly those
/// settings.
proof fn lemma_supervisor_steps_configure(s: SupervisorSettings)
    ensures
        configured_supervisor(supervisor_steps(s)) == s,
{
    let a = step_if_set(s.callbacks, |v: Callbacks| SupervisorStep::Callbacks(v));
    let b = step_if_set(
        s.strategy,
        |v: SupervisionStrategy| SupervisorStep::Strategy(v),
    );
    let c = step_if_set(
        s.restart_strategy,
        |v: RestartStrategy| SupervisorStep::RestartStrategy(v),
    );
    lemma_single_supervisor_step(a);
    lemma_single_supervisor_step(b);
    lemma_single_supervisor_step(c);
    lemma_configured_supervisor_append(a, b);
    lemma_configured_supervisor_append(a + b, c);
}

/// A sequence of at most one step configures what that step sets.
proof fn lemma_single_supervisor_step(steps: Seq<SupervisorStep>)
    requires
        steps.len() <= 1,
    ensures
        steps.len() == 0 ==> configured_supervisor(steps) == SupervisorSettings::unset(),
        steps.len() == 1 ==> configured_supervisor(steps.drop_last())
            == SupervisorSettings::unset(),
{
    if steps.len() == 1 {
        assert(steps.drop_last() =~= Seq::<SupervisorStep>::empty());
    }
}

/// The steps of one layer of children settings configure exactly those
/// settings.
proof fn lemma_children_steps_configure(s: ChildrenSettings)
    ensures
        configured_children(children_steps(s)) == ChildrenConfig::of_settings(s),
{
    let a = step_if_set(s.callbacks, |v: Callbacks| ChildrenStep::Callbacks(v));
    let b = step_if_set(s.dispatcher, |v: Dispatcher| ChildrenStep::Dispatcher(v));
    let c = step_if_set(s.distributor, |v: Distributor| ChildrenStep::Distributor(v));
    let d = step_if_set(s.heartbeat_tick, |v: Duration| ChildrenStep::HeartbeatTick(v));
    let e = step_if_set(s.name, |v: String| ChildrenStep::Name(v));
    let f = step_if_set(s.redundancy, |v: usize| ChildrenStep::Redundancy(v));
    lemma_single_children_step(a);
    lemma_single_children_step(b);
    lemma_single_children_step(c);
    lemma_single_children_step(d);
    lemma_single_children_step(e);
    lemma_single_children_step(f);
    lemma_configured_children_append(a, b);
    lemma_configured_children_append(a + b, c);
    lemma_configured_children_append(d, e);
    lemma_configured_children_append(d + e, f);
    lemma_configured_children_append(membership_steps(s), shape_steps(s));
    let result = configured_children(children_steps(s));
    let expected = ChildrenConfig::of_settings(s);
    assert(result.dispatchers =~= expected.dispatchers);
    assert(result.distributors =~= expected.distributors);
}

/// A sequence of at most one step configures what that step sets.
proof fn lemma_single_children_step(steps: Seq<ChildrenStep>)
    requires
        steps.len() <= 1,
    ensures
        steps.len() == 0 ==> configured_children(steps) == ChildrenConfig::untouched(),
        steps.len() == 1 ==> configured_children(steps) == ChildrenConfig::untouched().followed_by(
            configured_children(steps),
        ),
        steps.len() == 1 ==> configured_children(steps.drop_last()) == ChildrenConfig::untouched(),
{
    if steps.len() == 1 {
        assert(steps.drop_last() =~= Seq::<ChildrenStep>::empty());
        let c = configured_children(steps);
        assert(Seq::<Dispatcher>::empty() + c.dispatchers =~= c.dispatchers);
        assert(Seq::<Distributor>::empty() + c.distributors =~= c.distributors);
    }
}

/// An override wins over the actor it runs: once a supervisor has been
/// given the actor's settings and then the override's, each setting is the
/// override's where the override sets it, and the actor's otherwise.
pub proof fn law_supervisor_override_wins(actor: SupervisorSettings, overriding: SupervisorSettings)
    ensures
        configured_supervisor(supervisor_steps(actor) + supervisor_steps(overriding))
            == actor.overridden_by(overriding),
        configured_supervisor(supervisor_steps(actor) + supervisor_steps(overriding)).callbacks
            == or_else(overriding.callbacks, actor.callbacks),
        configured_supervisor(supervisor_steps(actor) + supervisor_steps(overriding)).strategy
            == or_else(overriding.strategy, actor.strategy),
        configured_supervisor(
            supervisor_steps(actor) + supervisor_steps(overriding),
        ).restart_strategy == or_else(overriding.restart_strategy, actor.restart_strategy),
{
    lemma_configured_supervisor_append(supervisor_steps(actor), supervisor_steps(overriding));
    lemma_supervisor_steps_configure(actor);
    lemma_supervisor_steps_configure(overriding);
}

/// An override wins over the actor it runs for a children group's
/// callbacks, heartbeat tick, name and redundancy; the actor's dispatcher
/// and distributor are kept, and the override's are added after them.
pub proof fn law_children_override_wins(actor: ChildrenSettings, overriding: ChildrenSettings)
    ensures
        ({
            let c = configured_children(children_steps(actor) + children_steps(overriding));
            &&& c == ChildrenConfig::of_settings(actor).followed_by(
                ChildrenConfig::of_settings(overriding),
            )
            &&& c.callbacks == or_else(overriding.callbacks, actor.callbacks)
            &&& c.dispatchers == option_seq(actor.dispatcher) + option_seq(overriding.dispatcher)
            &&& c.distributors == option_seq(actor.distributor) + option_seq(
                overriding.distributor,
            )
            &&& c.heartbeat_tick == or_else(overriding.heartbeat_tick, actor.heartbeat_tick)
            &&& c.name == or_else(overriding.name, actor.name)
            &&& c.redundancy == stored_redundancy(or_else(overriding.redundancy, actor.redundancy))
        }),
{
    lemma_configured_children_append(children_steps(actor), children_steps(overriding));
    lemma_children_steps_configure(actor);
    lemma_children_steps_configure(overriding);
}

/// An override that sets nothing hands Bastion exactly the calls that the
/// actor's own settings ask for, for the supervisor and for the children
/// group alike.
pub proof fn law_unset_override_changes_nothing(
    supervisor: SupervisorSettings,
    children: ChildrenSettings,
)
    ensures
        supervisor_steps(supervisor) + supervisor_steps(SupervisorSettings::unset())
            == supervisor_steps(supervisor),
        children_steps(children) + children_steps(ChildrenSettings::unset()) == children_steps(
            children,
        ),
{
    assert(supervisor_steps(SupervisorSettings::unset()) =~= Seq::<SupervisorStep>::empty());
    assert(supervisor_steps(supervisor) + supervisor_steps(SupervisorSettings::unset())
        =~= supervisor_steps(supervisor));
    assert(membership_steps(ChildrenSettings::unset()) =~= Seq::<ChildrenStep>::empty());
    assert(shape_steps(ChildrenSettings::unset()) =~= Seq::<ChildrenStep>::empty());
    assert(children_steps(ChildrenSettings::unset()) =~= Seq::<ChildrenStep>::empty());
    assert(children_steps(children) + children_steps(ChildrenSettings::unset()) =~= children_steps(
        children,
    ));
}

} // verus!
