use bastion::prelude::{
    BastionContext, Callbacks, Dispatcher, Distributor, RestartStrategy, SupervisionStrategy,
    ChildrenRef, SupervisorRef,
};
use std::future::Future;
use std::time::Duration;
use vstd::prelude::*;

use crate::actor::{
    children_plan_for, gives_children_settings, gives_supervisor_settings, supervisor_plan_for, Actor,
};
use crate::outcome::{configured_children, configured_supervisor, stored_redundancy, ChildrenConfig};
use crate::bastion_api::{
    children_deployed, deploy_children, lemma_children_deployed, lemma_supervisor_deployed_under, deploy_supervisor, deploy_supervisor_under,
    supervisor_deployed_under,
};
use crate::error::{children_created, supervisor_created, Error};
use crate::plan::{children_steps, option_seq, supervisor_steps, ChildrenStep, SupervisorStep};
use crate::settings::{or_else, ChildrenSettings, SupervisorSettings};

verus! {

/// An overridden actor that is used to override [`Actor`]'s Bastion settings.
#[derive(Debug)]
pub struct Override {
    supervisor: SupervisorRef,
    supervisor_settings: SupervisorSettings,
    children_settings: ChildrenSettings,
}

/// What an [`Override`] holds.
pub struct OverrideView {
    /// The supervisor it was created with or given by `with_parent`.
    pub parent: SupervisorRef,
    /// The supervisor settings that it overrides.
    pub supervisor: SupervisorSettings,
    /// The children group settings that it overrides.
    pub children: ChildrenSettings,
}

impl View for Override {
    type V = OverrideView;

    closed spec fn view(&self) -> OverrideView {
        OverrideView {
            parent: self.supervisor,
            supervisor: self.supervisor_settings,
            children: self.children_settings,
        }
    }
}

/// How deploying the children group ends: it succeeds, or fails with
/// `InitializeChildrenGroupFailed`.
pub open spec fn children_outcome(outcome: Result<(), Error>) -> bool {
    outcome is Ok || outcome == Err::<(), Error>(Error::InitializeChildrenGroupFailed)
}

impl Override {
    /// An override that overrides nothing, holding the supervisor that a
    /// deployment created; `InitializeSupervisorFailed` when it failed.
    pub fn from_created(created: Result<SupervisorRef, ()>) -> (o: Result<Override, Error>)
        ensures
            created is Ok <==> o is Ok,
            o matches Ok(o) ==> o@ == (OverrideView {
                parent: created->Ok_0,
                supervisor: SupervisorSettings::unset(),
                children: ChildrenSettings::unset(),
            }),
            o matches Err(e) ==> e == Error::InitializeSupervisorFailed,
    {
        let supervisor = supervisor_created(created)?;
        Ok(
            Override {
                supervisor,
                supervisor_settings: SupervisorSettings::none(),
                children_settings: ChildrenSettings::none(),
            },
        )
    }

    /// An override that overrides nothing, under a new supervisor that
    /// `Bastion::supervisor` creates with Bastion's defaults; fails with
    /// `InitializeSupervisorFailed` when Bastion cannot create it.
    pub fn try_default() -> (created: Result<Override, Error>)
        ensures
            created matches Ok(o) ==> o@.supervisor == SupervisorSettings::unset()
                && o@.children == ChildrenSettings::unset(),
            created matches Err(e) ==> e == Error::InitializeSupervisorFailed,
    {
        let plan: Vec<SupervisorStep> = Vec::new();
        Override::from_created(deploy_supervisor(plan))
    }

    /// The supervisor this override was created with or given by
    /// `with_parent`.
    pub fn parent(&self) -> (parent: &SupervisorRef)
        ensures
            *parent == self@.parent,
    {
        &self.supervisor
    }

    /// The supervisor settings this override overrides.
    pub fn supervisor_settings(&self) -> (settings: &SupervisorSettings)
        ensures
            *settings == self@.supervisor,
    {
        &self.supervisor_settings
    }

    /// The children group settings this override overrides.
    pub fn children_settings(&self) -> (settings: &ChildrenSettings)
        ensures
            *settings == self@.children,
    {
        &self.children_settings
    }

    /// Runs the actor, with `exec` as what each element runs, in a children
    /// group under a new supervisor that is created beneath the supervisor
    /// this override holds (the one it was created with, or given by
    /// `with_parent`). The new supervisor is given the calls of
    /// `supervisor_plan_for(&inner, ..)` with this override's supervisor
    /// settings, so that its settings win over the actor's. When Bastion
    /// cannot create it, `InitializeSupervisorFailed` is returned and no
    /// children group is asked for; otherwise the outcome is that of
    /// `run_with_supervisor` under it, with this override's children settings.
    pub fn run<A: Actor, I, F>(self, inner: A, exec: I) -> (outcome: Result<(), Error>) where
        I: Fn(BastionContext) -> F + Send + 'static,
        F: Future<Output = Result<(), ()>> + Send + 'static,

        ensures
            outcome is Ok || outcome == Err::<(), Error>(Error::InitializeSupervisorFailed)
                || outcome == Err::<(), Error>(Error::InitializeChildrenGroupFailed),
            outcome == Err::<(), Error>(Error::InitializeSupervisorFailed) || exists|
                rest: Override,
                parent: SupervisorRef,
            |
                {
                    &&& rest@.parent == self@.parent
                    &&& rest@.children == self@.children
                    &&& call_ensures(
                        Override::run_with_supervisor::<A, I, F>,
                        (rest, parent, inner, exec),
                        outcome,
                    )
                },
            exists|
                plan: Vec<SupervisorStep>,
                created: Result<SupervisorRef, ()>,
                actor: SupervisorSettings,
            |
                {
                    &&& gives_supervisor_settings(&inner, actor)
                    &&& plan@ == supervisor_steps(actor) + supervisor_steps(self@.supervisor)
                    &&& configured_supervisor(plan@) == actor.overridden_by(self@.supervisor)
                    &&& supervisor_deployed_under(self@.parent, plan, created)
                    &&& (created is Err ==> outcome == Err::<(), Error>(
                        Error::InitializeSupervisorFailed,
                    ))
                    &&& (created matches Ok(p) ==> exists|rest: Override|
                        {
                            &&& rest@.parent == self@.parent
                            &&& rest@.children == self@.children
                            &&& call_ensures(
                                Override::run_with_supervisor::<A, I, F>,
                                (rest, p, inner, exec),
                                outcome,
                            )
                        })
                },
    {
        let ghost overriding = self@.supervisor;
        let ghost held = self@.parent;
        let Override { supervisor, supervisor_settings, children_settings } = self;
        let plan = supervisor_plan_for(&inner, supervisor_settings);
        let ghost handed = plan;
        let ghost actor = choose|actor: SupervisorSettings|
            {
                &&& gives_supervisor_settings(&inner, actor)
                &&& handed@ == supervisor_steps(actor) + supervisor_steps(overriding)
                &&& configured_supervisor(handed@) == actor.overridden_by(overriding)
            };
        let deployed = (deploy_supervisor_under)(&supervisor, plan);
        proof {
            lemma_supervisor_deployed_under(held, handed, deployed);
        }
        let created = match supervisor_created(deployed) {
            Ok(p) => p,
            Err(e) => {
                return Err(e);
            },
        };
        let rest = Override {
            supervisor,
            supervisor_settings: SupervisorSettings::none(),
            children_settings,
        };
        (Override::run_with_supervisor::<A, I, F>)(rest, created, inner, exec)
    }

    /// Runs the actor, with `exec` as what each element runs, in a children
    /// group under `parent`, creating no supervisor. The group is given the
    /// calls of `children_plan_for(&inner, ..)` with this override's children
    /// settings, so that its settings win over the actor's (dispatchers and
    /// distributors are added to the actor's). It fails with
    /// `InitializeChildrenGroupFailed` exactly when Bastion cannot create the
    /// group.
    pub fn run_with_supervisor<A: Actor, I, F>(self, parent: SupervisorRef, inner: A, exec: I) -> (outcome:
        Result<(), Error>) where
        I: Fn(BastionContext) -> F + Send + 'static,
        F: Future<Output = Result<(), ()>> + Send + 'static,

        ensures
            children_outcome(outcome),
            exists|plan: Vec<ChildrenStep>, created: Result<ChildrenRef, ()>, actor: ChildrenSettings|
                {
                    &&& gives_children_settings(&inner, actor)
                    &&& plan@ == children_steps(actor) + children_steps(self@.children)
                    &&& configured_children(plan@) == ChildrenConfig::of_settings(
                        actor,
                    ).followed_by(ChildrenConfig::of_settings(self@.children))
                    &&& children_deployed::<I, F>(parent, plan, exec, created)
                    &&& outcome == match created {
                        Ok(_) => Ok(()),
                        Err(_) => Err::<(), Error>(Error::InitializeChildrenGroupFailed),
                    }
                },
    {
        let ghost overriding = self@.children;
        let Override { supervisor: _, supervisor_settings: _, children_settings } = self;
        let children = children_plan_for(&inner, children_settings);
        let ghost plan = children;
        let ghost actor = choose|actor: ChildrenSettings|
            {
                &&& gives_children_settings(&inner, actor)
                &&& plan@ == children_steps(actor) + children_steps(overriding)
                &&& configured_children(plan@) == ChildrenConfig::of_settings(actor).followed_by(
                    ChildrenConfig::of_settings(overriding),
                )
            };
        let created = (deploy_children::<I, F>)(&parent, children, exec);
        let outcome = children_created(created);
        proof {
            lemma_children_deployed::<I, F>(parent, plan, exec, created);
        }
        outcome
    }

    /// Init actor with specified supervisor: `run` creates the actor's
    /// supervisor beneath `sp`.
    pub fn with_parent(self, sp: SupervisorRef) -> (o: Self)
        ensures
            o@ == (OverrideView { parent: sp, ..self@ }),
    {
        Override { supervisor: sp, ..self }
    }

    /// Callbacks for the supervisor.
    pub fn with_supervisor_callbacks(self, callbacks: Callbacks) -> (o: Self)
        ensures
            o@ == (OverrideView {
                supervisor: SupervisorSettings { callbacks: Some(callbacks), ..self@.supervisor },
                ..self@
            }),
    {
        let Override { supervisor, supervisor_settings, children_settings } = self;
        Override {
            supervisor,
            supervisor_settings: SupervisorSettings {
                callbacks: Some(callbacks),
                ..supervisor_settings
            },
            children_settings,
        }
    }

    /// Supervision strategy for the supervisor.
    pub fn with_stategy(self, strategy: SupervisionStrategy) -> (o: Self)
        ensures
            o@ == (OverrideView {
                supervisor: SupervisorSettings { strategy: Some(strategy), ..self@.supervisor },
                ..self@
            }),
    {
        let Override { supervisor, supervisor_settings, children_settings } = self;
        Override {
            supervisor,
            supervisor_settings: SupervisorSettings { strategy: Some(strategy), ..supervisor_settings },
            children_settings,
        }
    }

    /// Restart strategy for the supervisor.
    pub fn with_restart_strategy(self, restart_strategy: RestartStrategy) -> (o: Self)
        ensures
            o@ == (OverrideView {
                supervisor: SupervisorSettings {
                    restart_strategy: Some(restart_strategy),
                    ..self@.supervisor
                },
                ..self@
            }),
    {
        let Override { supervisor, supervisor_settings, children_settings } = self;
        Override {
            supervisor,
            supervisor_settings: SupervisorSettings {
                restart_strategy: Some(restart_strategy),
                ..supervisor_settings
            },
            children_settings,
        }
    }

    /// Callbacks for the supervisor's children.
    pub fn with_children_callbacks(self, callbacks: Callbacks) -> (o: Self)
        ensures
            o@ == (OverrideView {
                children: ChildrenSettings { callbacks: Some(callbacks), ..self@.children },
                ..self@
            }),
    {
        let Override { supervisor, supervisor_settings, children_settings } = self;
        Override {
            supervisor,
            supervisor_settings,
            children_settings: ChildrenSettings { callbacks: Some(callbacks), ..children_settings },
        }
    }

    /// Dispatcher for children.
    pub fn with_dispatcher(self, dispatcher: Dispatcher) -> (o: Self)
        ensures
            o@ == (OverrideView {
                children: ChildrenSettings { dispatcher: Some(dispatcher), ..self@.children },
                ..self@
            }),
    {
        let Override { supervisor, supervisor_settings, children_settings } = self;
        Override {
            supervisor,
            supervisor_settings,
            children_settings: ChildrenSettings { dispatcher: Some(dispatcher), ..children_settings },
        }
    }

    /// Distributor for children.
    pub fn with_distributor(self, distributor: Distributor) -> (o: Self)
        ensures
            o@ == (OverrideView {
                children: ChildrenSettings { distributor: Some(distributor), ..self@.children },
                ..self@
            }),
    {
        let Override { supervisor, supervisor_settings, children_settings } = self;
        Override {
            supervisor,
            supervisor_settings,
            children_settings: ChildrenSettings {
                distributor: Some(distributor),
                ..children_settings
            },
        }
    }

    /// Heartbeat interval.
    pub fn with_heartbeat_tick(self, interval: Duration) -> (o: Self)
        ensures
            o@ == (OverrideView {
                children: ChildrenSettings { heartbeat_tick: Some(interval), ..self@.children },
                ..self@
            }),
    {
        let Override { supervisor, supervisor_settings, children_settings } = self;
        Override {
            supervisor,
            supervisor_settings,
            children_settings: ChildrenSettings {
                heartbeat_tick: Some(interval),
                ..children_settings
            },
        }
    }

    /// Children group name.
    pub fn with_name<N: Into<String>>(self, name: N) -> (o: Self)
        ensures
            o@.parent == self@.parent,
            o@.supervisor == self@.supervisor,
            o@.children.name is Some,
            <N as vstd::std_specs::convert::IntoSpec<String>>::obeys_into_spec()
                ==> o@.children.name == Some(<N as vstd::std_specs::convert::IntoSpec<String>>::into_spec(name)),
            o@.children == (ChildrenSettings { name: o@.children.name, ..self@.children }),
    {
        let name: String = name.into();
        let Override { supervisor, supervisor_settings, children_settings } = self;
        Override {
            supervisor,
            supervisor_settings,
            children_settings: ChildrenSettings { name: Some(name), ..children_settings },
        }
    }

    /// Number of child in children group.
    pub fn with_redundancy(self, redundancy: usize) -> (o: Self)
        ensures
            o@ == (OverrideView {
                children: ChildrenSettings { redundancy: Some(redundancy), ..self@.children },
                ..self@
            }),
    {
        let Override { supervisor, supervisor_settings, children_settings } = self;
        Override {
            supervisor,
            supervisor_settings,
            children_settings: ChildrenSettings {
                redundancy: Some(redundancy),
                ..children_settings
            },
        }
    }
}

/// Running an actor with an override asks Bastion, beneath the supervisor
/// the override holds, for a supervisor whose callbacks, strategy and
/// restart strategy are the override's where it sets them and the actor's
/// (what its hooks return) otherwise. When that supervisor cannot be created
/// the run fails with `InitializeSupervisorFailed`.
pub proof fn law_override_supervisor_settings_win<A: Actor, I, F>(
    o: Override,
    inner: A,
    exec: I,
    outcome: Result<(), Error>,
) where
    I: Fn(BastionContext) -> F + Send + 'static,
    F: Future<Output = Result<(), ()>> + Send + 'static,

    requires
        call_ensures(Override::run::<A, I, F>, (o, inner, exec), outcome),
    ensures
        exists|plan: Vec<SupervisorStep>, created: Result<SupervisorRef, ()>, actor: SupervisorSettings|
            {
                &&& gives_supervisor_settings(&inner, actor)
                &&& supervisor_deployed_under(o@.parent, plan, created)
                &&& configured_supervisor(plan@).callbacks == or_else(
                    o@.supervisor.callbacks,
                    actor.callbacks,
                )
                &&& configured_supervisor(plan@).strategy == or_else(
                    o@.supervisor.strategy,
                    actor.strategy,
                )
                &&& configured_supervisor(plan@).restart_strategy == or_else(
                    o@.supervisor.restart_strategy,
                    actor.restart_strategy,
                )
                &&& (created is Err ==> outcome == Err::<(), Error>(
                    Error::InitializeSupervisorFailed,
                ))
            },
{
    let (plan, created, actor) = choose|
        plan: Vec<SupervisorStep>,
        created: Result<SupervisorRef, ()>,
        actor: SupervisorSettings,
    |
        {
            &&& gives_supervisor_settings(&inner, actor)
            &&& plan@ == supervisor_steps(actor) + supervisor_steps(o@.supervisor)
            &&& configured_supervisor(plan@) == actor.overridden_by(o@.supervisor)
            &&& supervisor_deployed_under(o@.parent, plan, created)
            &&& (created is Err ==> outcome == Err::<(), Error>(
                Error::InitializeSupervisorFailed,
            ))
            &&& (created matches Ok(p) ==> exists|rest: Override|
                {
                    &&& rest@.parent == o@.parent
                    &&& rest@.children == o@.children
                    &&& call_ensures(
                        Override::run_with_supervisor::<A, I, F>,
                        (rest, p, inner, exec),
                        outcome,
                    )
                })
        };
    assert(supervisor_deployed_under(o@.parent, plan, created));
}

/// Running an actor's children group with an override asks Bastion, under
/// the given supervisor, for a group whose callbacks, heartbeat tick, name
/// and redundancy (zero kept as one) are the override's where it sets them
/// and the actor's otherwise, and whose dispatchers and distributors are the
/// actor's followed by the override's. The run succeeds exactly when Bastion
/// creates that group.
pub proof fn law_override_children_settings_win<A: Actor, I, F>(
    o: Override,
    parent: SupervisorRef,
    inner: A,
    exec: I,
    outcome: Result<(), Error>,
) where
    I: Fn(BastionContext) -> F + Send + 'static,
    F: Future<Output = Result<(), ()>> + Send + 'static,

    requires
        call_ensures(Override::run_with_supervisor::<A, I, F>, (o, parent, inner, exec), outcome),
    ensures
        exists|plan: Vec<ChildrenStep>, created: Result<ChildrenRef, ()>, actor: ChildrenSettings|
            {
                &&& gives_children_settings(&inner, actor)
                &&& children_deployed::<I, F>(parent, plan, exec, created)
                &&& configured_children(plan@).callbacks == or_else(
                    o@.children.callbacks,
                    actor.callbacks,
                )
                &&& configured_children(plan@).dispatchers == option_seq(actor.dispatcher)
                    + option_seq(o@.children.dispatcher)
                &&& configured_children(plan@).distributors == option_seq(actor.distributor)
                    + option_seq(o@.children.distributor)
                &&& configured_children(plan@).heartbeat_tick == or_else(
                    o@.children.heartbeat_tick,
                    actor.heartbeat_tick,
                )
                &&& configured_children(plan@).name == or_else(o@.children.name, actor.name)
                &&& configured_children(plan@).redundancy == stored_redundancy(
                    or_else(o@.children.redundancy, actor.redundancy),
                )
                &&& (outcome is Ok <==> created is Ok)
            },
{
    let (plan, created, actor) = choose|
        plan: Vec<ChildrenStep>,
        created: Result<ChildrenRef, ()>,
        actor: ChildrenSettings,
    |
        {
            &&& gives_children_settings(&inner, actor)
            &&& plan@ == children_steps(actor) + children_steps(o@.children)
            &&& configured_children(plan@) == ChildrenConfig::of_settings(actor).followed_by(
                ChildrenConfig::of_settings(o@.children),
            )
            &&& children_deployed::<I, F>(parent, plan, exec, created)
            &&& outcome == match created {
                Ok(_) => Ok(()),
                Err(_) => Err::<(), Error>(Error::InitializeChildrenGroupFailed),
            }
        };
    assert(children_deployed::<I, F>(parent, plan, exec, created));
}

} // verus!
