use bastion::prelude::{Callbacks, Dispatcher, Distributor, RestartStrategy, SupervisionStrategy};
use std::time::Duration;
use vstd::prelude::*;

verus! {

/// What a supervisor can be configured with: each setting is either left to
/// Bastion's default (`None`) or given a value.
#[derive(Debug)]
pub struct SupervisorSettings {
    /// Callbacks called at the supervisor's lifecycle events.
    pub callbacks: Option<Callbacks>,
    /// How the supervisor restarts its supervised elements when one dies.
    pub strategy: Option<SupervisionStrategy>,
    /// How (and how often) the supervised elements are restarted.
    pub restart_strategy: Option<RestartStrategy>,
}

/// What a children group can be configured with: each setting is either
/// left to Bastion's default (`None`) or given a value.
#[derive(Debug)]
pub struct ChildrenSettings {
    /// Callbacks called at the children group's lifecycle events.
    pub callbacks: Option<Callbacks>,
    /// A dispatcher that each element of the group is added to.
    pub dispatcher: Option<Dispatcher>,
    /// A distributor that the group is added to.
    pub distributor: Option<Distributor>,
    /// The interval of the group's heartbeat checks.
    pub heartbeat_tick: Option<Duration>,
    /// The name of the group.
    pub name: Option<String>,
    /// The number of elements of the group.
    pub redundancy: Option<usize>,
}

/// The value of `preferred` where it is set, else that of `fallback`.
pub open spec fn or_else<T>(preferred: Option<T>, fallback: Option<T>) -> Option<T> {
    match preferred {
        Some(v) => Some(v),
        None => fallback,
    }
}

impl SupervisorSettings {
    /// Settings that leave everything to Bastion's defaults.
    pub open spec fn unset() -> SupervisorSettings {
        SupervisorSettings { callbacks: None, strategy: None, restart_strategy: None }
    }

    /// Each setting of `overriding` where it is set, else the one of `self`.
    pub open spec fn overridden_by(self, overriding: SupervisorSettings) -> SupervisorSettings {
        SupervisorSettings {
            callbacks: or_else(overriding.callbacks, self.callbacks),
            strategy: or_else(overriding.strategy, self.strategy),
            restart_strategy: or_else(overriding.restart_strategy, self.restart_strategy),
        }
    }

    /// Settings that leave everything to Bastion's defaults.
    pub fn none() -> (settings: SupervisorSettings)
        ensures
            settings == SupervisorSettings::unset(),
    {
        SupervisorSettings { callbacks: None, strategy: None, restart_strategy: None }
    }
}

impl ChildrenSettings {
    /// Settings that leave everything to Bastion's defaults.
    pub open spec fn unset() -> ChildrenSettings {
        ChildrenSettings {
            callbacks: None,
            dispatcher: None,
            distributor: None,
            heartbeat_tick: None,
            name: None,
            redundancy: None,
        }
    }

    /// Settings that leave everything to Bastion's defaults.
    pub fn none() -> (settings: ChildrenSettings)
        ensures
            settings == ChildrenSettings::unset(),
    {
        ChildrenSettings {
            callbacks: None,
            dispatcher: None,
            distributor: None,
            heartbeat_tick: None,
            name: None,
            redundancy: None,
        }
    }
}

} // verus!
