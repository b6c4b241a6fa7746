use bastor::{children_created, supervisor_created, Error};

#[test]
fn error_messages() {
    assert_eq!(Error::InitializeSupervisorFailed.message(), "Unable to create supervisor");
    assert_eq!(Error::InitializeChildrenGroupFailed.message(), "Unable to create children group");
}

#[test]
fn failed_supervisor_creation_is_reported() {
    assert_eq!(supervisor_created(Err(())).unwrap_err(), Error::InitializeSupervisorFailed);
}

#[test]
fn failed_children_creation_is_reported() {
    assert_eq!(children_created(Err(())), Err(Error::InitializeChildrenGroupFailed));
}

#[test]
fn failed_deployment_gives_no_override() {
    assert!(matches!(
        bastor::Override::from_created(Err(())),
        Err(Error::InitializeSupervisorFailed)
    ));
}
