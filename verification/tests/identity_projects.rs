use openstack_tui::action::{
    Action, ApiRequest, IdentityApiRequest, IdentityProjectApiRequest, IdentityProjectDelete,
    IdentityProjectList, Mode,
};
use openstack_tui::identity_projects::{IdentityProjectsBehaviour, ProjectResponse, VIEW_CONFIG_KEY};
use openstack_tui::scope::AuthTokenScope;

fn make_project(id: &str, name: &str, domain_id: &str) -> ProjectResponse {
    ProjectResponse {
        id: Some(id.to_string()),
        name: Some(name.to_string()),
        domain_id: Some(domain_id.to_string()),
    }
}

#[test]
fn view_key_and_title() {
    assert_eq!(IdentityProjectsBehaviour::view_key(), "identity.project");
    assert_eq!(IdentityProjectsBehaviour::title(), "Identity Projects");
    assert_eq!(IdentityProjectsBehaviour::mode(), Mode::IdentityProjects);
}

#[test]
fn request_from_filter_creates_list_request() {
    let filter = IdentityProjectList::default();
    let request = IdentityProjectsBehaviour::request_from_filter(&filter);
    assert!(matches!(
        request,
        ApiRequest::Identity(IdentityApiRequest::Project(boxreq))
        if matches!(*boxreq, IdentityProjectApiRequest::List(_))
    ));
}

#[test]
fn matches_request_returns_true_for_list() {
    let filter = IdentityProjectList::default();
    let request = IdentityProjectsBehaviour::request_from_filter(&filter);
    assert!(IdentityProjectsBehaviour::matches_request(&request));
}

#[test]
fn matches_request_returns_false_for_unrelated() {
    let del = IdentityProjectDelete { id: "test".into() };
    let req = ApiRequest::Identity(IdentityApiRequest::Project(Box::new(
        IdentityProjectApiRequest::Delete(Box::new(del)),
    )));
    assert!(!IdentityProjectsBehaviour::matches_request(&req));
}

#[test]
fn filter_carry_action_switch_project_with_selected() {
    let project = make_project("proj-1", "test-proj", "domain-1");
    let actions = IdentityProjectsBehaviour::filter_carry_action(
        &Action::SwitchToProject,
        Some(&project),
        &IdentityProjectList::default(),
    );
    assert_eq!(actions.len(), 1);
    let Action::CloudChangeScope(scope) = &actions[0] else {
        panic!("expected CloudChangeScope action");
    };
    let AuthTokenScope::Project(project) = scope.as_ref() else {
        panic!("expected project scope");
    };
    assert_eq!(project.id.as_deref(), Some("proj-1"));
    assert_eq!(project.name, None);
    assert_eq!(project.domain, None);
}

#[test]
fn filter_carry_action_without_selected() {
    let actions = IdentityProjectsBehaviour::filter_carry_action(
        &Action::SwitchToProject,
        None,
        &IdentityProjectList::default(),
    );
    assert!(actions.is_empty());
}

#[test]
fn filter_carry_action_returns_empty_for_unrelated() {
    let project = make_project("proj-1", "test-proj", "domain-1");
    let actions = IdentityProjectsBehaviour::filter_carry_action(
        &Action::Tick,
        Some(&project),
        &IdentityProjectList::default(),
    );
    assert!(actions.is_empty());
}

#[test]
fn filter_carry_action_project_without_id_goes_by_name_and_domain() {
    let project = ProjectResponse {
        id: None,
        name: Some("test-proj".into()),
        domain_id: Some("domain-1".into()),
    };
    let actions = IdentityProjectsBehaviour::filter_carry_action(
        &Action::SwitchToProject,
        Some(&project),
        &IdentityProjectList::default(),
    );
    assert_eq!(actions.len(), 1);
    let Action::CloudChangeScope(scope) = &actions[0] else {
        panic!("expected CloudChangeScope action");
    };
    let AuthTokenScope::Project(project) = scope.as_ref() else {
        panic!("expected project scope");
    };
    assert_eq!(project.id, None);
    assert_eq!(project.name.as_deref(), Some("test-proj"));
    let domain = project.domain.as_ref().unwrap();
    assert_eq!(domain.id.as_deref(), Some("domain-1"));
    assert_eq!(domain.name, None);
}

#[test]
fn request_from_filter_keeps_the_filter() {
    let filter = IdentityProjectList { domain_id: Some("d".into()), name: Some("n".into()) };
    let request = IdentityProjectsBehaviour::request_from_filter(&filter);
    assert_eq!(
        request,
        ApiRequest::Identity(IdentityApiRequest::Project(Box::new(
            IdentityProjectApiRequest::List(Box::new(filter.clone()))
        )))
    );
    assert!(IdentityProjectsBehaviour::matches_request(&request));
}

#[test]
fn config_keys() {
    assert_eq!(ProjectResponse::get_key(), "identity.project");
    assert_eq!(VIEW_CONFIG_KEY, "identity.project");
}
