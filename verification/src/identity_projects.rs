//! The view of the identity service's projects, and what it asks of the
//! cloud worker.

use vstd::prelude::*;
use crate::action::{Action, ApiRequest, IdentityApiRequest, IdentityProjectApiRequest, IdentityProjectList, Mode};
use crate::scope::{project_scope, project_scope_of};
use crate::text::clone_text;

verus! {

/// The key under which the view's settings are kept.
pub const VIEW_CONFIG_KEY: &'static str = "identity.project";

/// A project as the identity service lists it, as far as the view reads it.
#[derive(Clone, Debug, Default, PartialEq, Eq)]
pub struct ProjectResponse {
    pub id: Option<String>,
    pub name: Option<String>,
    pub domain_id: Option<String>,
}

impl ProjectResponse {
    /// The key under which the settings of project lists are kept.
    pub fn get_key() -> (r: &'static str)
        ensures
            r@ == "identity.project"@,
    {
        proof {
            reveal_strlit("identity.project");
        }
        VIEW_CONFIG_KEY
    }
}

/// The request that lists the projects that `filter` selects.
pub open spec fn project_list_request(filter: IdentityProjectList) -> ApiRequest {
    ApiRequest::Identity(
        IdentityApiRequest::Project(
            Box::new(IdentityProjectApiRequest::List(Box::new(filter))),
        ),
    )
}

/// Whether a request lists projects.
pub open spec fn is_project_list_request(request: ApiRequest) -> bool {
    match request {
        ApiRequest::Identity(IdentityApiRequest::Project(inner)) => *inner is List,
        _ => false,
    }
}

/// The messages that carry over from a filtered list: switching to the
/// selected project asks to rescope the session to it, by id when it has one.
pub open spec fn carried_actions(action: Action, selected: Option<ProjectResponse>) -> Seq<
    Action,
> {
    if action is SwitchToProject && selected is Some {
        seq![
            Action::CloudChangeScope(
                Box::new(
                    project_scope_of(
                        selected.unwrap().id,
                        selected.unwrap().name,
                        selected.unwrap().domain_id,
                        None,
                    ),
                ),
            ),
        ]
    } else {
        Seq::empty()
    }
}

/// How the list of identity projects behaves.
pub struct IdentityProjectsBehaviour;

impl IdentityProjectsBehaviour {
    /// The key under which the view's settings are kept.
    pub fn view_key() -> (r: &'static str)
        ensures
            r@ == "identity.project"@,
    {
        proof {
            reveal_strlit("identity.project");
        }
        VIEW_CONFIG_KEY
    }

    /// The view's title.
    pub fn title() -> (r: &'static str)
        ensures
            r@ == "Identity Projects"@,
    {
        proof {
            reveal_strlit("Identity Projects");
        }
        "Identity Projects"
    }

    /// The mode the view stands for.
    pub fn mode() -> (r: Mode)
        ensures
            r == Mode::IdentityProjects,
    {
        Mode::IdentityProjects
    }

    /// The request that fetches the list for `filter`.
    pub fn request_from_filter(filter: &IdentityProjectList) -> (r: ApiRequest)
        ensures
            r == project_list_request(*filter),
    {
        ApiRequest::Identity(
            IdentityApiRequest::Project(
                Box::new(IdentityProjectApiRequest::List(Box::new(filter.copy()))),
            ),
        )
    }

    /// Whether a request is one that this view's list answers.
    pub fn matches_request(request: &ApiRequest) -> (r: bool)
        ensures
            r == is_project_list_request(*request),
    {
        match request {
            ApiRequest::Identity(IdentityApiRequest::Project(inner)) => {
                match &**inner {
                    IdentityProjectApiRequest::List(_) => true,
                    _ => false,
                }
            },
            _ => false,
        }
    }

    /// The messages that an action on the list gives rise to: switching to
    /// the selected project asks to rescope the session to it.
    pub fn filter_carry_action(
        action: &Action,
        selected: Option<&ProjectResponse>,
        _filter: &IdentityProjectList,
    ) -> (r: Vec<Action>)
        ensures
            r@ == carried_actions(
                *action,
                match selected {
                    Some(p) => Some(*p),
                    None => None,
                },
            ),
    {
        let mut r: Vec<Action> = Vec::new();
        if let Action::SwitchToProject = action {
            if let Some(sel) = selected {
                r.push(
                    Action::CloudChangeScope(
                        Box::new(
                            project_scope(
                                clone_text(&sel.id),
                                clone_text(&sel.name),
                                clone_text(&sel.domain_id),
                                None,
                            ),
                        ),
                    ),
                );
                assert(r@ =~= carried_actions(*action, Some(*sel)));
                return r;
            }
        }
        assert(r@ =~= Seq::<Action>::empty());
        r
    }
}

/// The request a filter yields is one that the view's list answers.
pub proof fn lemma_list_request_is_recognised(filter: IdentityProjectList)
    ensures
        is_project_list_request(project_list_request(filter)),
{
}

/// Exactly the project listings are recognised: a recognised request is
/// the listing of some filter, and no compute request and no project
/// deletion is recognised.
pub proof fn lemma_only_project_listings_are_recognised(request: ApiRequest)
    ensures
        is_project_list_request(request) ==> exists|f: IdentityProjectList|
            request == #[trigger] project_list_request(f),
        request is Compute ==> !is_project_list_request(request),
        (request matches ApiRequest::Identity(IdentityApiRequest::Project(inner))
            && *inner is Delete) ==> !is_project_list_request(request),
{
    if is_project_list_request(request) {
        if let ApiRequest::Identity(IdentityApiRequest::Project(inner)) = request {
            if let IdentityProjectApiRequest::List(f) = *inner {
                assert(request == project_list_request(*f));
            }
        }
    }
}

} // verus!
