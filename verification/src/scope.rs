//! Authorization scopes and the scope part of a cloud profile.

use vstd::prelude::*;
use crate::text::{opt_view, clone_text, owned};

verus! {

/// A domain, named by its id, its name, or both.
#[derive(Clone, Debug, Default, PartialEq, Eq)]
pub struct Domain {
    pub id: Option<String>,
    pub name: Option<String>,
}

/// A project, named by its id or by its name within a domain.
#[derive(Clone, Debug, Default, PartialEq, Eq)]
pub struct Project {
    pub id: Option<String>,
    pub name: Option<String>,
    pub domain: Option<Domain>,
}

/// The system scope.
#[derive(Clone, Debug, Default, PartialEq, Eq)]
pub struct System {
    pub all: Option<bool>,
}

/// What an authorization token is scoped to.
#[derive(Clone, Debug, PartialEq, Eq)]
pub enum AuthTokenScope {
    Project(Project),
    Domain(Domain),
    System(System),
    Unscoped,
}

/// The project scope that `project_scope` builds: a project id, when given,
/// names the project alone; otherwise the name and the domain (when either of
/// its parts is given) do.
pub open spec fn project_scope_of(
    id: Option<String>,
    name: Option<String>,
    domain_id: Option<String>,
    domain_name: Option<String>,
) -> AuthTokenScope {
    AuthTokenScope::Project(
        Project {
            id: id,
            name: if id is Some {
                None
            } else {
                name
            },
            domain: if id is Some || (domain_id is None && domain_name is None) {
                None
            } else {
                Some(Domain { id: domain_id, name: domain_name })
            },
        },
    )
}

/// Builds the scope of a project: by id when there is one, else by name and
/// domain.
pub fn project_scope(
    id: Option<String>,
    name: Option<String>,
    domain_id: Option<String>,
    domain_name: Option<String>,
) -> (r: AuthTokenScope)
    ensures
        r == project_scope_of(id, name, domain_id, domain_name),
{
    let use_id = id.is_some();
    let domain = if use_id {
        None
    } else {
        match (domain_id, domain_name) {
            (None, None) => None,
            (did, dname) => Some(Domain { id: did, name: dname }),
        }
    };
    AuthTokenScope::Project(Project {
        id,
        name: if use_id {
            None
        } else {
            name
        },
        domain,
    })
}

/// The scope settings of a cloud profile's authentication.
#[derive(Clone, Debug, Default, PartialEq, Eq)]
pub struct Auth {
    pub project_id: Option<String>,
    pub project_name: Option<String>,
    pub project_domain_id: Option<String>,
    pub project_domain_name: Option<String>,
    pub domain_id: Option<String>,
    pub domain_name: Option<String>,
    pub system_scope: Option<String>,
}

/// A cloud profile, as far as its authorization scope goes.
#[derive(Clone, Debug, Default, PartialEq, Eq)]
pub struct CloudConfig {
    pub auth: Option<Auth>,
    pub auth_cache: Option<bool>,
}

/// The scope settings of a profile, as texts.
pub struct AuthView {
    pub project_id: Option<Seq<char>>,
    pub project_name: Option<Seq<char>>,
    pub project_domain_id: Option<Seq<char>>,
    pub project_domain_name: Option<Seq<char>>,
    pub domain_id: Option<Seq<char>>,
    pub domain_name: Option<Seq<char>>,
    pub system_scope: Option<Seq<char>>,
}

/// A profile's scope settings and token caching, as texts.
pub struct CloudConfigView {
    pub auth: Option<AuthView>,
    pub auth_cache: Option<bool>,
}

impl View for Auth {
    type V = AuthView;

    open spec fn view(&self) -> AuthView {
        AuthView {
            project_id: opt_view(self.project_id),
            project_name: opt_view(self.project_name),
            project_domain_id: opt_view(self.project_domain_id),
            project_domain_name: opt_view(self.project_domain_name),
            domain_id: opt_view(self.domain_id),
            domain_name: opt_view(self.domain_name),
            system_scope: opt_view(self.system_scope),
        }
    }
}

impl View for CloudConfig {
    type V = CloudConfigView;

    open spec fn view(&self) -> CloudConfigView {
        CloudConfigView {
            auth: match self.auth {
                Some(a) => Some(a@),
                None => None,
            },
            auth_cache: self.auth_cache,
        }
    }
}

/// Scope settings with nothing set.
pub open spec fn no_scope() -> AuthView {
    AuthView {
        project_id: None,
        project_name: None,
        project_domain_id: None,
        project_domain_name: None,
        domain_id: None,
        domain_name: None,
        system_scope: None,
    }
}

/// The scope settings that stand for `scope`: a project by id alone, or by
/// name with its domain; a domain by id and name; the whole system as `all`;
/// nothing for an unscoped token.
pub open spec fn scope_settings(scope: AuthTokenScope) -> AuthView {
    match scope {
        AuthTokenScope::Project(p) => AuthView {
            project_id: opt_view(p.id),
            project_name: if p.id is None {
                opt_view(p.name)
            } else {
                None
            },
            project_domain_id: if p.id is None && p.domain is Some {
                opt_view(p.domain.unwrap().id)
            } else {
                None
            },
            project_domain_name: if p.id is None && p.domain is Some {
                opt_view(p.domain.unwrap().name)
            } else {
                None
            },
            ..no_scope()
        },
        AuthTokenScope::Domain(d) => AuthView {
            domain_id: opt_view(d.id),
            domain_name: opt_view(d.name),
            ..no_scope()
        },
        AuthTokenScope::System(s) => AuthView {
            system_scope: if s.all == Some(true) {
                Some("all"@)
            } else {
                None
            },
            ..no_scope()
        },
        AuthTokenScope::Unscoped => no_scope(),
    }
}

/// A profile scoped to `scope`: its scope settings are those of `scope`
/// alone, and the token cache is switched off.
pub open spec fn scoped_profile(scope: AuthTokenScope) -> CloudConfigView {
    CloudConfigView { auth: Some(scope_settings(scope)), auth_cache: Some(false) }
}

/// Scope settings with nothing set.
fn unscoped_auth() -> (a: Auth)
    ensures
        a@ == no_scope(),
{
    Auth {
        project_id: None,
        project_name: None,
        project_domain_id: None,
        project_domain_name: None,
        domain_id: None,
        domain_name: None,
        system_scope: None,
    }
}

/// Rewrites the scope of a cloud profile to `scope`, clearing every scope
/// setting it held before, and turns the token cache off.
pub fn profile_scoped_to(profile: CloudConfig, scope: &AuthTokenScope) -> (r: CloudConfig)
    ensures
        r@ == scoped_profile(*scope),
{
    proof {
        reveal_strlit("all");
    }
    let mut profile = profile;
    let mut auth = match profile.auth {
        Some(a) => a,
        None => unscoped_auth(),
    };
    auth.project_id = None;
    auth.project_name = None;
    auth.project_domain_id = None;
    auth.project_domain_name = None;
    auth.domain_id = None;
    auth.domain_name = None;
    auth.system_scope = None;

    match scope {
        AuthTokenScope::Project(project) => {
            auth.project_id = clone_text(&project.id);
            if project.id.is_none() {
                auth.project_name = clone_text(&project.name);
                if let Some(domain) = &project.domain {
                    auth.project_domain_id = clone_text(&domain.id);
                    auth.project_domain_name = clone_text(&domain.name);
                }
            }
        },
        AuthTokenScope::Domain(domain) => {
            auth.domain_id = clone_text(&domain.id);
            auth.domain_name = clone_text(&domain.name);
        },
        AuthTokenScope::System(system) => {
            if let Some(true) = system.all {
                auth.system_scope = Some(owned("all"));
            }
        },
        AuthTokenScope::Unscoped => {},
    }

    profile.auth = Some(auth);
    profile.auth_cache = Some(false);
    profile
}

/// Whether any project setting is set.
pub open spec fn names_project(a: AuthView) -> bool {
    a.project_id is Some || a.project_name is Some || a.project_domain_id is Some
        || a.project_domain_name is Some
}

/// Whether any domain setting is set.
pub open spec fn names_domain(a: AuthView) -> bool {
    a.domain_id is Some || a.domain_name is Some
}

/// The settings written for a scope name at most one kind of target: a
/// project, a domain or the system.
pub proof fn lemma_scope_settings_name_one_target(scope: AuthTokenScope)
    ensures
        !(names_project(scope_settings(scope)) && names_domain(scope_settings(scope))),
        !(names_project(scope_settings(scope)) && scope_settings(scope).system_scope is Some),
        !(names_domain(scope_settings(scope)) && scope_settings(scope).system_scope is Some),
{
}

/// Scoping a profile to the scope that `project_scope` builds sets the project
/// id when one is given and nothing else; without an id it sets the name and
/// the domain's id and name as given.
pub proof fn lemma_profile_takes_project_scope(
    id: Option<String>,
    name: Option<String>,
    domain_id: Option<String>,
    domain_name: Option<String>,
)
    ensures
        ({
            let a = scope_settings(project_scope_of(id, name, domain_id, domain_name));
            &&& a.project_id == opt_view(id)
            &&& id is Some ==> a.project_name is None && a.project_domain_id is None
                && a.project_domain_name is None
            &&& id is None ==> a.project_name == opt_view(name) && a.project_domain_id
                == opt_view(domain_id) && a.project_domain_name == opt_view(domain_name)
            &&& !names_domain(a)
            &&& a.system_scope is None
        }),
{
}

/// Scoping to a domain sets the domain's id and name, each as given and
/// whatever the other is, and no project or system setting.
pub proof fn lemma_domain_scope_settings(d: Domain)
    ensures
        scoped_profile(AuthTokenScope::Domain(d)).auth_cache == Some(false),
        ({
            let a = scope_settings(AuthTokenScope::Domain(d));
            &&& scoped_profile(AuthTokenScope::Domain(d)).auth == Some(a)
            &&& a.domain_id == opt_view(d.id)
            &&& a.domain_name == opt_view(d.name)
            &&& !names_project(a)
            &&& a.system_scope is None
        }),
{
}

} // verus!
