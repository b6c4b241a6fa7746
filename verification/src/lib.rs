//! Actors with a state of their own on top of the Bastion runtime.
//!
//! An [`Actor`] gives the settings of the supervisor and of the children
//! group that run it; an [`Override`] overrides them where it sets them.

mod actor;
mod bastion_api;
mod error;
mod outcome;
mod overrides;
mod plan;
mod settings;

pub use crate::actor::{
    children_plan_for, children_settings_of, gives_children_settings, gives_supervisor_settings,
    law_actor_children_use_its_settings, law_actor_run_uses_its_settings, supervisor_plan_for,
    supervisor_settings_of, Actor,
};
pub use crate::bastion_api::{
    children_config, children_deployed, supervisor_config, supervisor_deployed,
    supervisor_deployed_under,
};
pub use crate::error::{children_created, supervisor_created, Error};
pub use crate::outcome::{
    configured_children, configured_supervisor, law_children_override_wins,
    law_supervisor_override_wins, law_unset_override_changes_nothing, stored_redundancy,
    ChildrenConfig,
};
pub use crate::overrides::{
    children_outcome, law_override_children_settings_win, law_override_supervisor_settings_win,
    Override, OverrideView,
};
pub use crate::plan::{
    children_plan, children_steps, supervisor_plan, supervisor_steps, ChildrenStep, SupervisorStep,
};
pub use crate::settings::{ChildrenSettings, SupervisorSettings};
