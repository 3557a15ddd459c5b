use openstack_tui::action::{Action, ApiRequest, IdentityApiRequest, IdentityProjectApiRequest, IdentityProjectList};
use openstack_tui::cloud_worker::{
    auth_data_request, failure_reply, needs_reauthorization, received_data, received_secret,
    region_service_types, require_cloud_profile, scope_switch_cloud, tui_service_types,
    worker_command, AuthAction, AuthHelperError, AuthState, ServiceType, WorkerCommand,
    WorkerError, REAUTH_MARGIN_SECONDS,
};
use openstack_tui::scope::{AuthTokenScope, Domain};

fn list_request() -> ApiRequest {
    ApiRequest::Identity(IdentityApiRequest::Project(Box::new(IdentityProjectApiRequest::List(
        Box::new(IdentityProjectList::default()),
    ))))
}

#[test]
fn commands_for_messages() {
    assert_eq!(
        worker_command(Action::ConnectToCloud("devstack".into()), false),
        WorkerCommand::Connect("devstack".into())
    );
    assert_eq!(worker_command(Action::ListClouds, false), WorkerCommand::ListClouds);
    let scope = AuthTokenScope::Domain(Domain { id: Some("d".into()), name: None });
    assert_eq!(
        worker_command(Action::CloudChangeScope(Box::new(scope.clone())), false),
        WorkerCommand::SwitchScope(scope)
    );
    assert_eq!(
        worker_command(Action::SwitchToRegion("RegionTwo".into()), true),
        WorkerCommand::SwitchRegion("RegionTwo".into())
    );
    assert_eq!(worker_command(Action::ListRegions, true), WorkerCommand::ListRegions);
    assert_eq!(worker_command(Action::ListRegions, false), WorkerCommand::Ignore);
    assert_eq!(
        worker_command(Action::PerformApiRequest(list_request()), true),
        WorkerCommand::PerformRequest(list_request())
    );
    assert_eq!(worker_command(Action::PerformApiRequest(list_request()), false), WorkerCommand::Ignore);
    assert_eq!(worker_command(Action::Tick, true), WorkerCommand::Ignore);
}

#[test]
fn region_change_without_session_is_an_error() {
    assert_eq!(
        worker_command(Action::SwitchToRegion("RegionTwo".into()), false),
        WorkerCommand::Reply(Action::Error {
            msg: "Cannot switch region without being connected first".into(),
            action: Some(Box::new(Action::SwitchToRegion("RegionTwo".into()))),
        })
    );
}

#[test]
fn failures_carry_the_message() {
    assert_eq!(
        failure_reply(WorkerCommand::Connect("devstack".into()), "timeout"),
        Some(Action::Error {
            msg: "Failed to connect to the cloud: timeout".into(),
            action: Some(Box::new(Action::ConnectToCloud("devstack".into()))),
        })
    );
    assert_eq!(
        failure_reply(WorkerCommand::SwitchScope(AuthTokenScope::Unscoped), "denied"),
        Some(Action::Error {
            msg: "Cannot switch session scope: denied".into(),
            action: Some(Box::new(Action::CloudChangeScope(Box::new(AuthTokenScope::Unscoped)))),
        })
    );
    assert_eq!(
        failure_reply(WorkerCommand::SwitchRegion("R".into()), "no such region"),
        Some(Action::Error {
            msg: "Cannot switch region: no such region".into(),
            action: Some(Box::new(Action::SwitchToRegion("R".into()))),
        })
    );
    assert_eq!(
        failure_reply(WorkerCommand::PerformRequest(list_request()), "404"),
        Some(Action::Error {
            msg: "Error performing API request\n\n404".into(),
            action: Some(Box::new(Action::PerformApiRequest(list_request()))),
        })
    );
    assert_eq!(failure_reply(WorkerCommand::ListClouds, "x"), None);
    assert_eq!(failure_reply(WorkerCommand::Ignore, "x"), None);
}

#[test]
fn reauthorization_when_expiring() {
    assert!(needs_reauthorization(Some(AuthState::Expired)));
    assert!(needs_reauthorization(Some(AuthState::AboutToExpire)));
    assert!(!needs_reauthorization(Some(AuthState::Valid)));
    assert!(!needs_reauthorization(Some(AuthState::Unset)));
    assert!(!needs_reauthorization(None));
    assert_eq!(REAUTH_MARGIN_SECONDS, 10);
}

#[test]
fn service_lists() {
    assert_eq!(
        tui_service_types(),
        vec![
            ServiceType::Compute,
            ServiceType::BlockStorage,
            ServiceType::Dns,
            ServiceType::Image,
            ServiceType::LoadBalancer,
            ServiceType::Network
        ]
    );
    assert_eq!(
        region_service_types(),
        vec![ServiceType::Compute, ServiceType::BlockStorage, ServiceType::Image, ServiceType::Network]
    );
}

#[test]
fn scope_switch_preconditions() {
    assert_eq!(scope_switch_cloud(false, &Some("c".into())), Err(WorkerError::NotConnected));
    assert_eq!(scope_switch_cloud(true, &None), Err(WorkerError::NoSelectedCloud));
    assert_eq!(scope_switch_cloud(true, &Some("c".into())), Ok(String::from("c")));
    assert_eq!(
        WorkerError::NotConnected.message(),
        "Cannot change scope without being connected first"
    );
    assert_eq!(WorkerError::NoSelectedCloud.message(), "Cannot change scope without a selected cloud");
    assert_eq!(
        WorkerError::ChannelMissing.message(),
        "Channel between cloud worker and application is missing"
    );
}

#[test]
fn unknown_cloud() {
    let r: Result<u32, WorkerError> = require_cloud_profile("devstack", None);
    let err = r.unwrap_err();
    assert_eq!(err, WorkerError::UnknownCloud("devstack".into()));
    assert_eq!(err.message(), "Cloud `devstack` is not present in configuration files");
    assert_eq!(require_cloud_profile("devstack", Some(7u32)), Ok(7));
}

#[test]
fn auth_prompts() {
    assert_eq!(
        auth_data_request("Password".into(), Some("c".into()), true, true),
        Ok(Action::AuthDataRequired {
            prompt: "Password".into(),
            connection_name: Some("c".into()),
            is_sensitive: true
        })
    );
    assert_eq!(
        auth_data_request("Password".into(), None, true, false),
        Err(WorkerError::ChannelMissing)
    );
}

#[test]
fn auth_replies() {
    let missing = AuthHelperError::Other("error receiving the requested data".into());
    assert_eq!(received_data::<u8>(Some(AuthAction::Data("user".into()))), Ok("user".into()));
    assert_eq!(received_data::<u8>(Some(AuthAction::Secret(1))), Err(missing.clone()));
    assert_eq!(received_data::<u8>(Some(AuthAction::Cancel)), Err(missing.clone()));
    assert_eq!(received_data::<u8>(None), Err(missing.clone()));
    assert_eq!(received_secret::<u8>(Some(AuthAction::Secret(1))), Ok(1));
    assert_eq!(received_secret::<u8>(Some(AuthAction::Data("x".into()))), Err(missing.clone()));
    assert_eq!(received_secret::<u8>(Some(AuthAction::Cancel)), Err(missing.clone()));
    assert_eq!(received_secret::<u8>(None), Err(missing));
}
