//! The messages that pass between the views, the popups and the cloud
//! worker, and the API requests they carry.

use vstd::prelude::*;
use crate::scope::AuthTokenScope;
use crate::remote_console::ComputeServerCreateRemoteConsole;
use crate::text::clone_text;

verus! {

/// The filter of a project listing.
#[derive(Clone, Debug, Default, PartialEq, Eq)]
pub struct IdentityProjectList {
    pub domain_id: Option<String>,
    pub name: Option<String>,
}

impl IdentityProjectList {
    /// A copy of the filter.
    pub fn copy(&self) -> (r: IdentityProjectList)
        ensures
            r == *self,
    {
        IdentityProjectList { domain_id: clone_text(&self.domain_id), name: clone_text(&self.name) }
    }
}

/// The deletion of a project.
#[derive(Clone, Debug, Default, PartialEq, Eq)]
pub struct IdentityProjectDelete {
    pub id: String,
}

/// A request on projects.
#[derive(Clone, Debug, PartialEq, Eq)]
pub enum IdentityProjectApiRequest {
    List(Box<IdentityProjectList>),
    Delete(Box<IdentityProjectDelete>),
}

/// A request to the identity service.
#[derive(Clone, Debug, PartialEq, Eq)]
pub enum IdentityApiRequest {
    Project(Box<IdentityProjectApiRequest>),
}

/// A request to the compute service.
#[derive(Clone, Debug, PartialEq, Eq)]
pub enum ComputeApiRequest {
    ServerCreateRemoteConsole(Box<ComputeServerCreateRemoteConsole>),
}

/// A request to one of the cloud's services.
#[derive(Clone, Debug, PartialEq, Eq)]
pub enum ApiRequest {
    Identity(IdentityApiRequest),
    Compute(ComputeApiRequest),
}

/// The view the interface shows.
#[derive(Clone, Copy, Debug, PartialEq, Eq)]
pub enum Mode {
    IdentityProjects,
    ComputeServers,
}

/// A message between the parts of the interface and the cloud worker.
#[derive(Debug, PartialEq, Eq)]
pub enum Action {
    Tick,
    SwitchToProject,
    CloudChangeScope(Box<AuthTokenScope>),
    PromptSshUser { host: String },
    RunTerminalCommand { program: String, args: Vec<String> },
    ConnectToCloud(String),
    ListClouds,
    SwitchToRegion(String),
    ListRegions,
    PerformApiRequest(ApiRequest),
    AuthDataRequired { prompt: String, connection_name: Option<String>, is_sensitive: bool },
    Error { msg: String, action: Option<Box<Action>> },
}

/// A failure reported by a part of the interface.
#[derive(Clone, Debug, PartialEq, Eq)]
pub struct TuiError {
    pub message: String,
}

} // verus!
