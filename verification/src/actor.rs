use bastion::prelude::{
    BastionContext, Callbacks, Dispatcher, Distributor, RestartStrategy, SupervisionStrategy,
    ChildrenRef, SupervisorRef,
};
use std::future::Future;
use std::time::Duration;
use vstd::prelude::*;

use crate::bastion_api::{
    children_deployed, deploy_children, deploy_supervisor, lemma_children_deployed,
    lemma_supervisor_deployed, supervisor_deployed,
};
use crate::error::{children_created, supervisor_created, Error};
use crate::outcome::{
    configured_children, configured_supervisor, law_children_override_wins,
    law_supervisor_override_wins, law_unset_override_changes_nothing, stored_redundancy,
    ChildrenConfig,
};
use crate::plan::{
    option_seq, children_plan, children_steps, supervisor_plan, supervisor_steps, ChildrenStep, SupervisorStep,
};
use crate::settings::{ChildrenSettings, SupervisorSettings};

verus! {

/// A trait to be implemented for a state struct that is attached to an actor.
///
/// Each `with_*` method gives one setting of the supervisor or of the
/// children group that runs the actor; by default none is given and
/// Bastion's defaults apply. What each element of the group runs is handed
/// to `run` and `run_with_supervisor` as `exec`.
pub trait Actor: Clone + Sync + Send + Sized + 'static {
    /// Runs the actor, with `exec` as what each element runs, in a children
    /// group under a new supervisor that `Bastion::supervisor` creates with
    /// this actor's supervisor settings. It fails with
    /// `InitializeSupervisorFailed` when Bastion cannot create the supervisor,
    /// and otherwise ends as `run_with_supervisor` does under it.
    fn run<I, F>(&self, exec: I) -> (outcome: Result<(), Error>) where
        I: Fn(BastionContext) -> F + Send + 'static,
        F: Future<Output = Result<(), ()>> + Send + 'static,

        ensures
            outcome is Ok || outcome == Err::<(), Error>(Error::InitializeSupervisorFailed)
                || outcome == Err::<(), Error>(Error::InitializeChildrenGroupFailed),
            outcome == Err::<(), Error>(Error::InitializeSupervisorFailed) || exists|
                parent: SupervisorRef,
            | call_ensures(Self::run_with_supervisor::<I, F>, (self, parent, exec), outcome),
            exists|plan: Vec<SupervisorStep>, created: Result<SupervisorRef, ()>, s: SupervisorSettings|
                {
                    &&& call_ensures(Self::with_supervisor_callbacks, (self,), s.callbacks)
                    &&& call_ensures(Self::with_strategy, (self,), s.strategy)
                    &&& call_ensures(Self::with_restart_strategy, (self,), s.restart_strategy)
                    &&& plan@ == supervisor_steps(s)
                    &&& configured_supervisor(plan@) == s
                    &&& supervisor_deployed(plan, created)
                    &&& (created is Err ==> outcome == Err::<(), Error>(
                        Error::InitializeSupervisorFailed,
                    ))
                    &&& (created matches Ok(p) ==> call_ensures(
                        Self::run_with_supervisor::<I, F>,
                        (self, p, exec),
                        outcome,
                    ))
                },
    {
        let settings = SupervisorSettings {
            callbacks: (Self::with_supervisor_callbacks)(self),
            strategy: (Self::with_strategy)(self),
            restart_strategy: (Self::with_restart_strategy)(self),
        };
        let ghost given = settings;
        let plan = supervisor_plan(settings, SupervisorSettings::none());
        proof {
            law_supervisor_override_wins(given, SupervisorSettings::unset());
            law_unset_override_changes_nothing(given, ChildrenSettings::unset());
            assert(given.overridden_by(SupervisorSettings::unset()) == given);
        }
        let ghost handed = plan;
        let deployed = (deploy_supervisor)(plan);
        proof {
            lemma_supervisor_deployed(handed, deployed);
        }
        let parent = match supervisor_created(deployed) {
            Ok(p) => p,
            Err(e) => {
                return Err(e);
            },
        };
        (Self::run_with_supervisor::<I, F>)(self, parent, exec)
    }

    /// Runs the actor, with `exec` as what each element runs, in a children
    /// group under `parent`. It fails with `InitializeChildrenGroupFailed`
    /// when Bastion cannot create the group.
    fn run_with_supervisor<I, F>(&self, parent: SupervisorRef, exec: I) -> (outcome: Result<
        (),
        Error,
    >) where
        I: Fn(BastionContext) -> F + Send + 'static,
        F: Future<Output = Result<(), ()>> + Send + 'static,

        ensures
            outcome is Ok || outcome == Err::<(), Error>(Error::InitializeChildrenGroupFailed),
            exists|plan: Vec<ChildrenStep>, created: Result<ChildrenRef, ()>, s: ChildrenSettings|
                {
                    &&& call_ensures(Self::with_children_callbacks, (self,), s.callbacks)
                    &&& call_ensures(Self::with_dispatcher, (self,), s.dispatcher)
                    &&& call_ensures(Self::with_distributor, (self,), s.distributor)
                    &&& call_ensures(Self::with_heartbeat_tick, (self,), s.heartbeat_tick)
                    &&& call_ensures(Self::with_name, (self,), s.name)
                    &&& call_ensures(Self::with_redundancy, (self,), s.redundancy)
                    &&& plan@ == children_steps(s)
                    &&& configured_children(plan@) == ChildrenConfig::of_settings(s)
                    &&& children_deployed::<I, F>(parent, plan, exec, created)
                    &&& outcome == match created {
                        Ok(_) => Ok(()),
                        Err(_) => Err::<(), Error>(Error::InitializeChildrenGroupFailed),
                    }
                },
    {
        let settings = ChildrenSettings {
            callbacks: (Self::with_children_callbacks)(self),
            dispatcher: (Self::with_dispatcher)(self),
            distributor: (Self::with_distributor)(self),
            heartbeat_tick: (Self::with_heartbeat_tick)(self),
            name: (Self::with_name)(self),
            redundancy: (Self::with_redundancy)(self),
        };
        let ghost given = settings;
        let plan = children_plan(settings, ChildrenSettings::none());
        proof {
            law_children_override_wins(given, ChildrenSettings::unset());
            law_unset_override_changes_nothing(SupervisorSettings::unset(), given);
            let c = ChildrenConfig::of_settings(given);
            assert(c.dispatchers + Seq::empty() =~= c.dispatchers);
            assert(c.distributors + Seq::empty() =~= c.distributors);
            assert(c.followed_by(ChildrenConfig::of_settings(ChildrenSettings::unset())) == c);
        }
        let ghost handed = plan;
        let ghost at = parent;
        let created = (deploy_children::<I, F>)(&parent, plan, exec);
        proof {
            lemma_children_deployed::<I, F>(at, handed, exec, created);
        }
        children_created(created)
    }

    /// The callbacks that get called at the supervisor's lifecycle events.
    fn with_supervisor_callbacks(&self) -> (callbacks: Option<Callbacks>)
        default_ensures
            callbacks is None,
    {
        None
    }

    /// The strategy the supervisor uses when one of its supervised children
    /// groups or supervisors dies; Bastion's default is `OneForOne`.
    fn with_strategy(&self) -> (strategy: Option<SupervisionStrategy>)
        default_ensures
            strategy is None,
    {
        None
    }

    /// The strategy the supervisor uses to restart its supervised elements;
    /// Bastion's default restarts them immediately, without limit.
    fn with_restart_strategy(&self) -> (restart_strategy: Option<RestartStrategy>)
        default_ensures
            restart_strategy is None,
    {
        None
    }

    /// The callbacks that get called at the children group's lifecycle events.
    fn with_children_callbacks(&self) -> (callbacks: Option<Callbacks>)
        default_ensures
            callbacks is None,
    {
        None
    }

    /// A dispatcher that each element of the group is added to; by default
    /// they are added to none.
    fn with_dispatcher(&self) -> (dispatcher: Option<Dispatcher>)
        default_ensures
            dispatcher is None,
    {
        None
    }

    /// A distributor that the group is added to; by default it is added to
    /// none.
    fn with_distributor(&self) -> (distributor: Option<Distributor>)
        default_ensures
            distributor is None,
    {
        None
    }

    /// The interval of the group's heartbeat checks, in place of Bastion's
    /// default.
    fn with_heartbeat_tick(&self) -> (interval: Option<Duration>)
        default_ensures
            interval is None,
    {
        None
    }

    /// The name of the children group.
    fn with_name(&self) -> (name: Option<String>)
        default_ensures
            name is None,
    {
        None
    }

    /// The number of elements of the children group; Bastion's default is one.
    fn with_redundancy(&self) -> (redundancy: Option<usize>)
        default_ensures
            redundancy is None,
    {
        None
    }
}

/// Whether `s` holds, for each supervisor setting, a value that the hook of
/// that name can return for `actor`.
pub open spec fn gives_supervisor_settings<A: Actor>(actor: &A, s: SupervisorSettings) -> bool {
    &&& call_ensures(A::with_supervisor_callbacks, (actor,), s.callbacks)
    &&& call_ensures(A::with_strategy, (actor,), s.strategy)
    &&& call_ensures(A::with_restart_strategy, (actor,), s.restart_strategy)
}

/// Whether `s` holds, for each children group setting, a value that the hook
/// of that name can return for `actor`.
pub open spec fn gives_children_settings<A: Actor>(actor: &A, s: ChildrenSettings) -> bool {
    &&& call_ensures(A::with_children_callbacks, (actor,), s.callbacks)
    &&& call_ensures(A::with_dispatcher, (actor,), s.dispatcher)
    &&& call_ensures(A::with_distributor, (actor,), s.distributor)
    &&& call_ensures(A::with_heartbeat_tick, (actor,), s.heartbeat_tick)
    &&& call_ensures(A::with_name, (actor,), s.name)
    &&& call_ensures(A::with_redundancy, (actor,), s.redundancy)
}

/// The supervisor settings that `actor` gives: callbacks, then strategy, then
/// restart strategy, each asked of it once, in that order; each setting is
/// what the hook of that name returned.
pub fn supervisor_settings_of<A: Actor>(actor: &A) -> (settings: SupervisorSettings)
    ensures
        call_ensures(A::with_supervisor_callbacks, (actor,), settings.callbacks),
        call_ensures(A::with_strategy, (actor,), settings.strategy),
        call_ensures(A::with_restart_strategy, (actor,), settings.restart_strategy),
{
    let callbacks = (A::with_supervisor_callbacks)(actor);
    let strategy = (A::with_strategy)(actor);
    let restart_strategy = (A::with_restart_strategy)(actor);
    SupervisorSettings { callbacks, strategy, restart_strategy }
}

/// The children group settings that `actor` gives: callbacks, dispatcher,
/// distributor, heartbeat tick, name, then redundancy, each asked of it once,
/// in that order; each setting is what the hook of that name returned.
pub fn children_settings_of<A: Actor>(actor: &A) -> (settings: ChildrenSettings)
    ensures
        call_ensures(A::with_children_callbacks, (actor,), settings.callbacks),
        call_ensures(A::with_dispatcher, (actor,), settings.dispatcher),
        call_ensures(A::with_distributor, (actor,), settings.distributor),
        call_ensures(A::with_heartbeat_tick, (actor,), settings.heartbeat_tick),
        call_ensures(A::with_name, (actor,), settings.name),
        call_ensures(A::with_redundancy, (actor,), settings.redundancy),
{
    let callbacks = (A::with_children_callbacks)(actor);
    let dispatcher = (A::with_dispatcher)(actor);
    let distributor = (A::with_distributor)(actor);
    let heartbeat_tick = (A::with_heartbeat_tick)(actor);
    let name = (A::with_name)(actor);
    let redundancy = (A::with_redundancy)(actor);
    ChildrenSettings { callbacks, dispatcher, distributor, heartbeat_tick, name, redundancy }
}

/// The calls that configure the supervisor of `inner`: those its own
/// settings ask for, then those of `overriding`. For each setting, the value
/// the supervisor ends up with is `overriding`'s where it sets one, else
/// `inner`'s.
pub fn supervisor_plan_for<A: Actor>(inner: &A, overriding: SupervisorSettings) -> (plan: Vec<
    SupervisorStep,
>)
    ensures
        exists|actor: SupervisorSettings|
            {
                &&& gives_supervisor_settings(inner, actor)
                &&& plan@ == supervisor_steps(actor) + supervisor_steps(overriding)
                &&& configured_supervisor(plan@) == actor.overridden_by(overriding)
            },
{
    let actor = supervisor_settings_of(inner);
    let ghost given = actor;
    let ghost over = overriding;
    let plan = supervisor_plan(actor, overriding);
    proof {
        law_supervisor_override_wins(given, over);
    }
    assert(gives_supervisor_settings(inner, given));
    plan
}

/// The calls that configure the children group of `inner`: those its own
/// settings ask for, then those of `overriding`. The group ends up with
/// `overriding`'s callbacks, heartbeat tick, name and redundancy where it
/// sets them, else `inner`'s, and with `inner`'s dispatcher and distributor
/// followed by `overriding`'s.
pub fn children_plan_for<A: Actor>(inner: &A, overriding: ChildrenSettings) -> (plan: Vec<
    ChildrenStep,
>)
    ensures
        exists|actor: ChildrenSettings|
            {
                &&& gives_children_settings(inner, actor)
                &&& plan@ == children_steps(actor) + children_steps(overriding)
                &&& configured_children(plan@) == ChildrenConfig::of_settings(actor).followed_by(
                    ChildrenConfig::of_settings(overriding),
                )
            },
{
    let actor = children_settings_of(inner);
    let ghost given = actor;
    let ghost over = overriding;
    let plan = children_plan(actor, overriding);
    proof {
        law_children_override_wins(given, over);
    }
    assert(gives_children_settings(inner, given));
    plan
}

/// Running an actor on its own asks Bastion for a top-level supervisor
/// configured with exactly the supervisor settings its hooks give: each of
/// its callbacks, strategy and restart strategy is what the hook of that
/// name returned (Bastion's default where the hook returns `None`). When that
/// supervisor cannot be created the run fails with
/// `InitializeSupervisorFailed`.
pub proof fn law_actor_run_uses_its_settings<A: Actor, I, F>(
    actor: &A,
    exec: I,
    outcome: Result<(), Error>,
) where
    I: Fn(BastionContext) -> F + Send + 'static,
    F: Future<Output = Result<(), ()>> + Send + 'static,

    requires
        call_ensures(A::run::<I, F>, (actor, exec), outcome),
    ensures
        exists|plan: Vec<SupervisorStep>, created: Result<SupervisorRef, ()>, s: SupervisorSettings|
            {
                &&& gives_supervisor_settings(actor, s)
                &&& supervisor_deployed(plan, created)
                &&& configured_supervisor(plan@).callbacks == s.callbacks
                &&& configured_supervisor(plan@).strategy == s.strategy
                &&& configured_supervisor(plan@).restart_strategy == s.restart_strategy
                &&& (created is Err ==> outcome == Err::<(), Error>(
                    Error::InitializeSupervisorFailed,
                ))
            },
{
    let (plan, created, s) = choose|
        plan: Vec<SupervisorStep>,
        created: Result<SupervisorRef, ()>,
        s: SupervisorSettings,
    |
        {
            &&& call_ensures(A::with_supervisor_callbacks, (actor,), s.callbacks)
            &&& call_ensures(A::with_strategy, (actor,), s.strategy)
            &&& call_ensures(A::with_restart_strategy, (actor,), s.restart_strategy)
            &&& plan@ == supervisor_steps(s)
            &&& configured_supervisor(plan@) == s
            &&& supervisor_deployed(plan, created)
            &&& (created is Err ==> outcome == Err::<(), Error>(
                Error::InitializeSupervisorFailed,
            ))
            &&& (created matches Ok(p) ==> call_ensures(
                A::run_with_supervisor::<I, F>,
                (actor, p, exec),
                outcome,
            ))
        };
    assert(gives_supervisor_settings(actor, s));
    assert(supervisor_deployed(plan, created));
}

/// Running an actor's children group under a supervisor asks Bastion, under
/// that supervisor, for a group configured with exactly the children
/// settings its hooks give: the callbacks, heartbeat tick and name its hooks
/// return, the number of elements its `with_redundancy` returns (zero kept
/// as one), and its dispatcher and distributor, if any. The run succeeds
/// exactly when Bastion creates that group.
pub proof fn law_actor_children_use_its_settings<A: Actor, I, F>(
    actor: &A,
    parent: SupervisorRef,
    exec: I,
    outcome: Result<(), Error>,
) where
    I: Fn(BastionContext) -> F + Send + 'static,
    F: Future<Output = Result<(), ()>> + Send + 'static,

    requires
        call_ensures(A::run_with_supervisor::<I, F>, (actor, parent, exec), outcome),
    ensures
        exists|plan: Vec<ChildrenStep>, created: Result<ChildrenRef, ()>, s: ChildrenSettings|
            {
                &&& gives_children_settings(actor, s)
                &&& children_deployed::<I, F>(parent, plan, exec, created)
                &&& configured_children(plan@).callbacks == s.callbacks
                &&& configured_children(plan@).dispatchers == option_seq(s.dispatcher)
                &&& configured_children(plan@).distributors == option_seq(s.distributor)
                &&& configured_children(plan@).heartbeat_tick == s.heartbeat_tick
                &&& configured_children(plan@).name == s.name
                &&& configured_children(plan@).redundancy == stored_redundancy(s.redundancy)
                &&& (outcome is Ok <==> created is Ok)
            },
{
    let (plan, created, s) = choose|
        plan: Vec<ChildrenStep>,
        created: Result<ChildrenRef, ()>,
        s: ChildrenSettings,
    |
        {
            &&& call_ensures(A::with_children_callbacks, (actor,), s.callbacks)
            &&& call_ensures(A::with_dispatcher, (actor,), s.dispatcher)
            &&& call_ensures(A::with_distributor, (actor,), s.distributor)
            &&& call_ensures(A::with_heartbeat_tick, (actor,), s.heartbeat_tick)
            &&& call_ensures(A::with_name, (actor,), s.name)
            &&& call_ensures(A::with_redundancy, (actor,), s.redundancy)
            &&& plan@ == children_steps(s)
            &&& configured_children(plan@) == ChildrenConfig::of_settings(s)
            &&& children_deployed::<I, F>(parent, plan, exec, created)
            &&& outcome == match created {
                Ok(_) => Ok(()),
                Err(_) => Err::<(), Error>(Error::InitializeChildrenGroupFailed),
            }
        };
    assert(gives_children_settings(actor, s));
    assert(children_deployed::<I, F>(parent, plan, exec, created));
}

} // verus!
