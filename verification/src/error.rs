use bastion::prelude::{ChildrenRef, SupervisorRef};
use vstd::prelude::*;

verus! {

/// Actor trait primary errors.
#[derive(Debug, Clone, Copy, PartialEq, Eq, Structural)]
pub enum Error {
    /// This happens when it is unable to create a new supervisor at the moment.
    InitializeSupervisorFailed,
    /// This happens when it is unable to create a new children group at the moment.
    InitializeChildrenGroupFailed,
}

impl Error {
    /// The message that describes the error.
    pub fn message(&self) -> (text: &'static str)
        ensures
            *self == Error::InitializeSupervisorFailed ==> text@ == "Unable to create supervisor"@,
            *self == Error::InitializeChildrenGroupFailed ==> text@
                == "Unable to create children group"@,
    {
        match self {
            Error::InitializeSupervisorFailed => "Unable to create supervisor",
            Error::InitializeChildrenGroupFailed => "Unable to create children group",
        }
    }
}

/// What the deployment of a supervisor comes to: its handle, or
/// `InitializeSupervisorFailed` when Bastion could not create it.
pub fn supervisor_created(created: Result<SupervisorRef, ()>) -> (outcome: Result<
    SupervisorRef,
    Error,
>)
    ensures
        outcome == match created {
            Ok(parent) => Ok(parent),
            Err(_) => Err::<SupervisorRef, Error>(Error::InitializeSupervisorFailed),
        },
{
    match created {
        Ok(parent) => Ok(parent),
        Err(_) => Err(Error::InitializeSupervisorFailed),
    }
}

/// What the deployment of a children group comes to: success, or
/// `InitializeChildrenGroupFailed` when Bastion could not create it.
pub fn children_created(created: Result<ChildrenRef, ()>) -> (outcome: Result<(), Error>)
    ensures
        outcome == match created {
            Ok(_) => Ok(()),
            Err(_) => Err::<(), Error>(Error::InitializeChildrenGroupFailed),
        },
{
    match created {
        Ok(_) => Ok(()),
        Err(_) => Err(Error::InitializeChildrenGroupFailed),
    }
}

} // verus!
