//! The calls into Bastion that the library makes, and the Bastion types that
//! it carries. Nothing here is proved: each item says what it relies on.
use bastion::prelude::{
    Bastion, BastionContext, Callbacks, Children, ChildrenRef, Dispatcher, Distributor,
    RestartStrategy, SupervisionStrategy, Supervisor, SupervisorRef,
};
use std::future::Future;
use std::time::Duration;
use vstd::prelude::*;

use crate::outcome::{stored_redundancy, ChildrenConfig};
use crate::plan::{apply_children_plan, apply_supervisor_plan, ChildrenStep, SupervisorStep};
use crate::settings::SupervisorSettings;

verus! {

/// Bastion's lifecycle callbacks (`bastion::Callbacks`), carried as is.
#[verifier::external_type_specification]
#[verifier::external_body]
pub struct ExCallbacks(Callbacks);

/// Bastion's supervisor builder (`bastion::supervisor::Supervisor`).
#[verifier::external_type_specification]
#[verifier::external_body]
pub struct ExSupervisor(Supervisor);

/// A handle on a running supervisor (`bastion::supervisor::SupervisorRef`).
#[verifier::external_type_specification]
#[verifier::external_body]
pub struct ExSupervisorRef(SupervisorRef);

/// Bastion's children group builder (`bastion::children::Children`).
#[verifier::external_type_specification]
#[verifier::external_body]
pub struct ExChildren(Children);

/// A handle on a running children group (`bastion::children_ref::ChildrenRef`).
#[verifier::external_type_specification]
#[verifier::external_body]
pub struct ExChildrenRef(ChildrenRef);

/// A supervision strategy (`bastion::supervisor::SupervisionStrategy`).
#[verifier::external_type_specification]
#[verifier::external_body]
pub struct ExSupervisionStrategy(SupervisionStrategy);

/// An actor restart strategy (`bastion::supervisor::RestartStrategy`).
#[verifier::external_type_specification]
#[verifier::external_body]
pub struct ExRestartStrategy(RestartStrategy);

/// A dispatcher (`bastion::dispatcher::Dispatcher`).
#[verifier::external_type_specification]
#[verifier::external_body]
pub struct ExDispatcher(Dispatcher);

/// A distributor (`bastion::distributor::Distributor`).
#[verifier::external_type_specification]
#[verifier::external_body]
pub struct ExDistributor(Distributor);

/// The context that an element of a children group runs with
/// (`bastion::context::BastionContext`).
#[verifier::external_type_specification]
#[verifier::external_body]
pub struct ExBastionContext(BastionContext);

/// The settings that configuration calls have given a supervisor builder:
/// for callbacks, strategy and restart strategy, the value of the last call
/// (each `with_*` method of `Supervisor` overwrites its own field).
pub uninterp spec fn supervisor_config(builder: Supervisor) -> SupervisorSettings;

/// The settings that configuration calls have given a children group
/// builder: the last callbacks, heartbeat tick, name and redundancy, and all
/// dispatchers and distributors in order (`Children::with_dispatcher` and
/// `with_distributor` push onto vectors, the other `with_*` methods
/// overwrite their own field).
pub uninterp spec fn children_config(builder: Children) -> ChildrenConfig;

/// Calls `Supervisor::with_callbacks`, which stores the callbacks in the
/// builder in place of earlier ones, and leaves its other settings as they
/// were.
#[verifier::external_body]
pub(crate) fn supervisor_with_callbacks(supervisor: Supervisor, callbacks: Callbacks) -> (configured:
    Supervisor)
    ensures
        supervisor_config(configured) == (SupervisorSettings {
            callbacks: Some(callbacks),
            ..supervisor_config(supervisor)
        }),
{
    supervisor.with_callbacks(callbacks)
}

/// Calls `Supervisor::with_strategy`, which stores the strategy in the
/// builder in place of an earlier one, and leaves its other settings as they
/// were.
#[verifier::external_body]
pub(crate) fn supervisor_with_strategy(supervisor: Supervisor, strategy: SupervisionStrategy) -> (configured:
    Supervisor)
    ensures
        supervisor_config(configured) == (SupervisorSettings {
            strategy: Some(strategy),
            ..supervisor_config(supervisor)
        }),
{
    supervisor.with_strategy(strategy)
}

/// Calls `Supervisor::with_restart_strategy`, which stores the restart
/// strategy in the builder in place of an earlier one, and leaves its other
/// settings as they were.
#[verifier::external_body]
pub(crate) fn supervisor_with_restart_strategy(
    supervisor: Supervisor,
    restart_strategy: RestartStrategy,
) -> (configured: Supervisor)
    ensures
        supervisor_config(configured) == (SupervisorSettings {
            restart_strategy: Some(restart_strategy),
            ..supervisor_config(supervisor)
        }),
{
    supervisor.with_restart_strategy(restart_strategy)
}

/// Calls `Children::with_callbacks`, which stores the callbacks in the
/// builder in place of earlier ones, and leaves its other settings as they
/// were.
#[verifier::external_body]
pub(crate) fn children_with_callbacks(children: Children, callbacks: Callbacks) -> (configured:
    Children)
    ensures
        children_config(configured) == (ChildrenConfig {
            callbacks: Some(callbacks),
            ..children_config(children)
        }),
{
    children.with_callbacks(callbacks)
}

/// Calls `Children::with_dispatcher`, which pushes the dispatcher onto those
/// of the builder, and leaves its other settings as they were.
#[verifier::external_body]
pub(crate) fn children_with_dispatcher(children: Children, dispatcher: Dispatcher) -> (configured:
    Children)
    ensures
        children_config(configured) == (ChildrenConfig {
            dispatchers: children_config(children).dispatchers.push(dispatcher),
            ..children_config(children)
        }),
{
    children.with_dispatcher(dispatcher)
}

/// Calls `Children::with_distributor`, which registers the distributor with
/// the running system and pushes it onto those of the builder, and leaves
/// the builder's other settings as they were.
#[verifier::external_body]
pub(crate) fn children_with_distributor(children: Children, distributor: Distributor) -> (configured:
    Children)
    ensures
        children_config(configured) == (ChildrenConfig {
            distributors: children_config(children).distributors.push(distributor),
            ..children_config(children)
        }),
{
    children.with_distributor(distributor)
}

/// Calls `Children::with_heartbeat_tick`, which stores the interval in the
/// builder in place of an earlier one, and leaves its other settings as they
/// were.
#[verifier::external_body]
pub(crate) fn children_with_heartbeat_tick(children: Children, interval: Duration) -> (configured:
    Children)
    ensures
        children_config(configured) == (ChildrenConfig {
            heartbeat_tick: Some(interval),
            ..children_config(children)
        }),
{
    children.with_heartbeat_tick(interval)
}

/// Calls `Children::with_name`, which stores the name in the builder in place
/// of an earlier one, and leaves its other settings as they were.
#[verifier::external_body]
pub(crate) fn children_with_name(children: Children, name: String) -> (configured: Children)
    ensures
        children_config(configured) == (ChildrenConfig {
            name: Some(name),
            ..children_config(children)
        }),
{
    children.with_name(name)
}

/// Calls `Children::with_redundancy`, which stores the number of elements in
/// the builder in place of an earlier one (a zero is stored as one), and
/// leaves its other settings as they were.
#[verifier::external_body]
pub(crate) fn children_with_redundancy(children: Children, redundancy: usize) -> (configured:
    Children)
    ensures
        children_config(configured) == (ChildrenConfig {
            redundancy: stored_redundancy(Some(redundancy)),
            ..children_config(children)
        }),
{
    children.with_redundancy(redundancy)
}

/// Calls `Children::with_exec`, which stores `init` as what each element of
/// the group runs, and leaves the builder's settings as they were.
#[verifier::external_body]
pub(crate) fn children_with_exec<I, F>(children: Children, init: I) -> (configured: Children) where
    I: Fn(BastionContext) -> F + Send + 'static,
    F: Future<Output = Result<(), ()>> + Send + 'static,

    ensures
        children_config(configured) == children_config(children),
{
    children.with_exec(init)
}

/// Calls `Bastion::supervisor`, handing it a builder that the verified
/// `apply_supervisor_plan` configures with `plan`; Bastion then deploys the
/// supervisor under the system's root. Whether that succeeds depends on the
/// running system, so nothing is stated of the result.
#[verifier::external_body]
pub(crate) fn deploy_supervisor(plan: Vec<SupervisorStep>) -> Result<SupervisorRef, ()> {
    Bastion::supervisor(move |supervisor| apply_supervisor_plan(supervisor, plan))
}

/// Calls `SupervisorRef::supervisor` on `parent`, handing it a builder that
/// the verified `apply_supervisor_plan` configures with `plan`; Bastion then
/// deploys the new supervisor beneath `parent`. Whether that succeeds depends
/// on the running system, so nothing is stated of the result.
#[verifier::external_body]
pub(crate) fn deploy_supervisor_under(
    parent: &SupervisorRef,
    plan: Vec<SupervisorStep>,
) -> Result<SupervisorRef, ()> {
    parent.supervisor(move |supervisor| apply_supervisor_plan(supervisor, plan))
}

/// Calls `SupervisorRef::children` on `parent`, handing it a builder that the
/// verified `apply_children_plan` configures with `plan` and `init`; Bastion
/// then launches the group's elements and deploys it under `parent`. Whether
/// that succeeds depends on the running system, so nothing is stated of the
/// result.
#[verifier::external_body]
pub(crate) fn deploy_children<I, F>(
    parent: &SupervisorRef,
    plan: Vec<ChildrenStep>,
    init: I,
) -> Result<ChildrenRef, ()> where
    I: Fn(BastionContext) -> F + Send + 'static,
    F: Future<Output = Result<(), ()>> + Send + 'static,
 {
    parent.children(move |children| apply_children_plan(children, plan, init))
}

/// Holds when `deploy_supervisor` was called with `plan` and returned
/// `created`: Bastion was asked for a top-level supervisor whose builder the
/// calls of `plan` configured.
pub closed spec fn supervisor_deployed(plan: Vec<SupervisorStep>, created: Result<SupervisorRef, ()>) -> bool {
    call_ensures(deploy_supervisor, (plan,), created)
}

/// Holds when `deploy_supervisor_under` was called with `parent` and `plan`
/// and returned `created`: Bastion was asked for a supervisor beneath
/// `parent` whose builder the calls of `plan` configured.
pub closed spec fn supervisor_deployed_under(
    parent: SupervisorRef,
    plan: Vec<SupervisorStep>,
    created: Result<SupervisorRef, ()>,
) -> bool {
    call_ensures(deploy_supervisor_under, (&parent, plan), created)
}

/// Holds when `deploy_children` was called with `parent`, `plan` and `init`
/// and returned `created`: Bastion was asked for a children group beneath
/// `parent` whose builder the calls of `plan` configured and whose elements
/// run `init`.
pub closed spec fn children_deployed<I, F>(
    parent: SupervisorRef,
    plan: Vec<ChildrenStep>,
    init: I,
    created: Result<ChildrenRef, ()>,
) -> bool where
    I: Fn(BastionContext) -> F + Send + 'static,
    F: Future<Output = Result<(), ()>> + Send + 'static,
 {
    call_ensures(deploy_children::<I, F>, (&parent, plan, init), created)
}

/// A call of `deploy_supervisor` made as a function value is recorded by
/// `supervisor_deployed`.
pub(crate) proof fn lemma_supervisor_deployed(plan: Vec<SupervisorStep>, created: Result<SupervisorRef, ()>)
    requires
        call_ensures(deploy_supervisor, (plan,), created),
    ensures
        supervisor_deployed(plan, created),
{
}

/// A call of `deploy_supervisor_under` made as a function value is recorded
/// by `supervisor_deployed_under`.
pub(crate) proof fn lemma_supervisor_deployed_under(
    parent: SupervisorRef,
    plan: Vec<SupervisorStep>,
    created: Result<SupervisorRef, ()>,
)
    requires
        call_ensures(deploy_supervisor_under, (&parent, plan), created),
    ensures
        supervisor_deployed_under(parent, plan, created),
{
}

/// A call of `deploy_children` made as a function value is recorded by
/// `children_deployed`.
pub(crate) proof fn lemma_children_deployed<I, F>(
    parent: SupervisorRef,
    plan: Vec<ChildrenStep>,
    init: I,
    created: Result<ChildrenRef, ()>,
) where
    I: Fn(BastionContext) -> F + Send + 'static,
    F: Future<Output = Result<(), ()>> + Send + 'static,

    requires
        call_ensures(deploy_children::<I, F>, (&parent, plan, init), created),
    ensures
        children_deployed::<I, F>(parent, plan, init, created),
{
}

} // verus!
