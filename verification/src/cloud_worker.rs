//! The decisions of the cloud worker: what it does for each message it
//! receives, what it answers when that fails, when it renews its
//! authorization, and how it settles the prompts for credentials. The worker
//! itself, which talks to the cloud, runs these decisions.

use vstd::prelude::*;
use crate::action::{Action, ApiRequest};
use crate::scope::AuthTokenScope;
use crate::text::{concat3, owned};

verus! {

/// The state of the session's authorization.
#[derive(Clone, Copy, Debug, PartialEq, Eq)]
pub enum AuthState {
    Valid,
    Expired,
    AboutToExpire,
    Unset,
}

/// A service of the cloud whose endpoint the worker looks up.
#[derive(Clone, Copy, Debug, PartialEq, Eq)]
pub enum ServiceType {
    Compute,
    BlockStorage,
    Dns,
    Image,
    LoadBalancer,
    Network,
}

/// How many seconds before it expires an authorization counts as about to
/// expire.
pub const REAUTH_MARGIN_SECONDS: i64 = 10;

/// The services whose endpoints are looked up when a session is opened.
pub fn tui_service_types() -> (r: Vec<ServiceType>)
    ensures
        r@ == seq![
            ServiceType::Compute,
            ServiceType::BlockStorage,
            ServiceType::Dns,
            ServiceType::Image,
            ServiceType::LoadBalancer,
            ServiceType::Network,
        ],
{
    let mut r: Vec<ServiceType> = Vec::new();
    r.push(ServiceType::Compute);
    r.push(ServiceType::BlockStorage);
    r.push(ServiceType::Dns);
    r.push(ServiceType::Image);
    r.push(ServiceType::LoadBalancer);
    r.push(ServiceType::Network);
    r
}

/// The services whose endpoints are looked up again after the region
/// changes.
pub fn region_service_types() -> (r: Vec<ServiceType>)
    ensures
        r@ == seq![
            ServiceType::Compute,
            ServiceType::BlockStorage,
            ServiceType::Image,
            ServiceType::Network,
        ],
{
    let mut r: Vec<ServiceType> = Vec::new();
    r.push(ServiceType::Compute);
    r.push(ServiceType::BlockStorage);
    r.push(ServiceType::Image);
    r.push(ServiceType::Network);
    r
}

/// Whether the session must authorize again before a request: when its
/// authorization has expired or is about to.
pub fn needs_reauthorization(state: Option<AuthState>) -> (r: bool)
    ensures
        r == (state == Some(AuthState::Expired) || state == Some(AuthState::AboutToExpire)),
{
    match state {
        Some(AuthState::Expired) => true,
        Some(AuthState::AboutToExpire) => true,
        _ => false,
    }
}

/// Why the worker could not do what it was asked.
#[derive(Clone, Debug, PartialEq, Eq)]
pub enum WorkerError {
    /// A scope change was asked for before any cloud was connected.
    NotConnected,
    /// A scope change was asked for while no cloud is selected.
    NoSelectedCloud,
    /// The named cloud is in none of the configuration files.
    UnknownCloud(String),
    /// The prompts for credentials cannot reach the interface.
    ChannelMissing,
}

/// The text that reports a worker error.
pub open spec fn worker_error_text(e: WorkerError) -> Seq<char> {
    match e {
        WorkerError::NotConnected => "Cannot change scope without being connected first"@,
        WorkerError::NoSelectedCloud => "Cannot change scope without a selected cloud"@,
        WorkerError::UnknownCloud(name) => "Cloud `"@ + name@ + "` is not present in configuration files"@,
        WorkerError::ChannelMissing => "Channel between cloud worker and application is missing"@,
    }
}

impl WorkerError {
    /// The text that reports this error.
    pub fn message(&self) -> (r: String)
        ensures
            r@ == worker_error_text(*self),
    {
        match self {
            WorkerError::NotConnected => owned("Cannot change scope without being connected first"),
            WorkerError::NoSelectedCloud => owned("Cannot change scope without a selected cloud"),
            WorkerError::UnknownCloud(name) => concat3(
                "Cloud `",
                name.as_str(),
                "` is not present in configuration files",
            ),
            WorkerError::ChannelMissing => owned(
                "Channel between cloud worker and application is missing",
            ),
        }
    }
}

/// The profile of the cloud named `cloud`, as the configuration lookup
/// found it, or the error that it is not configured.
pub fn require_cloud_profile<T>(cloud: &str, profile: Option<T>) -> (r: Result<T, WorkerError>)
    ensures
        match profile {
            Some(p) => r == Ok::<T, WorkerError>(p),
            None => r matches Err(WorkerError::UnknownCloud(name)) && name@ == cloud@,
        },
{
    match profile {
        Some(p) => Ok(p),
        None => Err(WorkerError::UnknownCloud(owned(cloud))),
    }
}

/// The cloud whose scope is to change: the selected one, provided a
/// session is open.
pub fn scope_switch_cloud(connected: bool, cloud_name: &Option<String>) -> (r: Result<
    String,
    WorkerError,
>)
    ensures
        !connected ==> r == Err::<String, WorkerError>(WorkerError::NotConnected),
        connected && cloud_name is None ==> r == Err::<String, WorkerError>(
            WorkerError::NoSelectedCloud,
        ),
        connected && cloud_name is Some ==> r == Ok::<String, WorkerError>(cloud_name.unwrap()),
{
    if !connected {
        return Err(WorkerError::NotConnected);
    }
    match cloud_name {
        Some(name) => Ok(name.clone()),
        None => Err(WorkerError::NoSelectedCloud),
    }
}

/// What the worker does for a message.
#[derive(Debug, PartialEq, Eq)]
pub enum WorkerCommand {
    /// Open a session on the named cloud.
    Connect(String),
    /// Answer with the configured clouds.
    ListClouds,
    /// Reopen the session with another scope.
    SwitchScope(AuthTokenScope),
    /// Move the session to another region.
    SwitchRegion(String),
    /// Answer with the session's regions.
    ListRegions,
    /// Send a request to the cloud.
    PerformRequest(ApiRequest),
    /// Answer at once with a message.
    Reply(Action),
    /// Nothing to do.
    Ignore,
}

/// Whether `command` is what the worker does for `action`, given whether a
/// session is open: connecting, listing clouds and changing the scope go
/// ahead in any case; a region change without a session is answered with an
/// error that carries the message; listing regions and API requests need a
/// session and are dropped without one; every other message is ignored.
pub open spec fn is_command_for(command: WorkerCommand, action: Action, connected: bool) -> bool {
    match action {
        Action::ConnectToCloud(cloud) => command == WorkerCommand::Connect(cloud),
        Action::ListClouds => command == WorkerCommand::ListClouds,
        Action::CloudChangeScope(scope) => command == WorkerCommand::SwitchScope(*scope),
        Action::SwitchToRegion(region) => if connected {
            command == WorkerCommand::SwitchRegion(region)
        } else {
            command matches WorkerCommand::Reply(Action::Error { msg, action: origin }) && msg@
                == "Cannot switch region without being connected first"@ && origin == Some(
                Box::new(Action::SwitchToRegion(region)),
            )
        },
        Action::ListRegions => command == if connected {
            WorkerCommand::ListRegions
        } else {
            WorkerCommand::Ignore
        },
        Action::PerformApiRequest(request) => command == if connected {
            WorkerCommand::PerformRequest(request)
        } else {
            WorkerCommand::Ignore
        },
        _ => command == WorkerCommand::Ignore,
    }
}

/// What the worker does for `action`, given whether a session is open.
pub fn worker_command(action: Action, connected: bool) -> (r: WorkerCommand)
    ensures
        is_command_for(r, action, connected),
{
    proof {
        reveal_strlit("Cannot switch region without being connected first");
    }
    match action {
        Action::ConnectToCloud(cloud) => WorkerCommand::Connect(cloud),
        Action::ListClouds => WorkerCommand::ListClouds,
        Action::CloudChangeScope(scope) => WorkerCommand::SwitchScope(*scope),
        Action::SwitchToRegion(region) => {
            if connected {
                WorkerCommand::SwitchRegion(region)
            } else {
                WorkerCommand::Reply(
                    Action::Error {
                        msg: owned("Cannot switch region without being connected first"),
                        action: Some(Box::new(Action::SwitchToRegion(region))),
                    },
                )
            }
        },
        Action::ListRegions => {
            if connected {
                WorkerCommand::ListRegions
            } else {
                WorkerCommand::Ignore
            }
        },
        Action::PerformApiRequest(request) => {
            if connected {
                WorkerCommand::PerformRequest(request)
            } else {
                WorkerCommand::Ignore
            }
        },
        _ => WorkerCommand::Ignore,
    }
}

/// The message a command was made from, for the commands that can fail.
pub open spec fn origin_of(command: WorkerCommand) -> Option<Action> {
    match command {
        WorkerCommand::Connect(cloud) => Some(Action::ConnectToCloud(cloud)),
        WorkerCommand::SwitchScope(scope) => Some(Action::CloudChangeScope(Box::new(scope))),
        WorkerCommand::SwitchRegion(region) => Some(Action::SwitchToRegion(region)),
        WorkerCommand::PerformRequest(request) => Some(Action::PerformApiRequest(request)),
        _ => None,
    }
}

/// The text that opens the report of a failed command.
pub open spec fn failure_prefix(command: WorkerCommand) -> Seq<char> {
    match command {
        WorkerCommand::Connect(_) => "Failed to connect to the cloud: "@,
        WorkerCommand::SwitchScope(_) => "Cannot switch session scope: "@,
        WorkerCommand::SwitchRegion(_) => "Cannot switch region: "@,
        _ => "Error performing API request\n\n"@,
    }
}

/// The answer to a command that failed with the error described by
/// `detail`: an error message that names what failed, followed by the
/// detail, and that carries the message the command was made from, so that
/// it can be retried. Commands that cannot fail have no such answer.
pub fn failure_reply(command: WorkerCommand, detail: &str) -> (r: Option<Action>)
    ensures
        match r {
            Some(Action::Error { msg, action }) => origin_of(command) is Some && msg@
                == failure_prefix(command) + detail@ && action == Some(
                Box::new(origin_of(command).unwrap()),
            ),
            None => origin_of(command) is None,
            _ => false,
        },
{
    let ghost given = command;
    let (prefix, origin): (&str, Action) = match command {
        WorkerCommand::Connect(cloud) => ("Failed to connect to the cloud: ", Action::ConnectToCloud(cloud)),
        WorkerCommand::SwitchScope(scope) => (
            "Cannot switch session scope: ",
            Action::CloudChangeScope(Box::new(scope)),
        ),
        WorkerCommand::SwitchRegion(region) => ("Cannot switch region: ", Action::SwitchToRegion(region)),
        WorkerCommand::PerformRequest(request) => (
            "Error performing API request\n\n",
            Action::PerformApiRequest(request),
        ),
        _ => {
            return None;
        },
    };
    proof {
        reveal_strlit("");
    }
    assert(prefix@ == failure_prefix(given)) by {
        reveal_strlit("Failed to connect to the cloud: ");
        reveal_strlit("Cannot switch session scope: ");
        reveal_strlit("Cannot switch region: ");
        reveal_strlit("Error performing API request\n\n");
    }
    Some(Action::Error { msg: concat3(prefix, detail, ""), action: Some(Box::new(origin)) })
}

/// Every message that a command that can fail was made from is carried, as
/// it was, by the answer to its failure.
pub proof fn lemma_failures_carry_their_message(action: Action, connected: bool, command: WorkerCommand)
    requires
        is_command_for(command, action, connected),
        origin_of(command) is Some,
    ensures
        origin_of(command) == Some(action),
{
}

/// A scope change is always carried out, whether a session is open or not:
/// the worker reopens the session with exactly the scope asked for. The same
/// holds of connecting to a named cloud and of listing the clouds.
pub proof fn lemma_scope_changes_are_carried_out(
    scope: AuthTokenScope,
    cloud: String,
    connected: bool,
    command: WorkerCommand,
)
    ensures
        is_command_for(command, Action::CloudChangeScope(Box::new(scope)), connected) ==> command
            == WorkerCommand::SwitchScope(scope),
        is_command_for(command, Action::ConnectToCloud(cloud), connected) ==> command
            == WorkerCommand::Connect(cloud),
        is_command_for(command, Action::ListClouds, connected) ==> command
            == WorkerCommand::ListClouds,
{
}

/// With a session open, region changes, region listings and API requests
/// are carried out as asked.
pub proof fn lemma_session_requests_are_carried_out(
    region: String,
    request: ApiRequest,
    command: WorkerCommand,
)
    ensures
        is_command_for(command, Action::SwitchToRegion(region), true) ==> command
            == WorkerCommand::SwitchRegion(region),
        is_command_for(command, Action::ListRegions, true) ==> command
            == WorkerCommand::ListRegions,
        is_command_for(command, Action::PerformApiRequest(request), true) ==> command
            == WorkerCommand::PerformRequest(request),
{
}

/// A reply to send back for credentials asked for by the cloud.
#[derive(Debug)]
pub enum AuthAction<S> {
    /// A plain value, such as a user name.
    Data(String),
    /// A secret, such as a password, kept in a form that does not show it.
    Secret(S),
    /// The prompt was cancelled.
    Cancel,
}

/// Why credentials could not be obtained.
#[derive(Clone, Debug, PartialEq, Eq)]
pub enum AuthHelperError {
    Other(String),
}

/// The prompt for credentials that the interface is asked to show, provided
/// the way to the interface is open.
pub fn auth_data_request(
    prompt: String,
    connection_name: Option<String>,
    is_sensitive: bool,
    channel_ready: bool,
) -> (r: Result<Action, WorkerError>)
    ensures
        channel_ready ==> r == Ok::<Action, WorkerError>(
            Action::AuthDataRequired { prompt, connection_name, is_sensitive },
        ),
        !channel_ready ==> r == Err::<Action, WorkerError>(WorkerError::ChannelMissing),
{
    if channel_ready {
        Ok(Action::AuthDataRequired { prompt, connection_name, is_sensitive })
    } else {
        Err(WorkerError::ChannelMissing)
    }
}

/// The text of a failed or cancelled prompt for credentials.
pub open spec fn no_auth_data_text() -> Seq<char> {
    "error receiving the requested data"@
}

/// The plain value that the interface sent back (`None` when no reply came);
/// a secret, a cancellation or no reply is an error.
pub fn received_data<S>(reply: Option<AuthAction<S>>) -> (r: Result<String, AuthHelperError>)
    ensures
        match reply {
            Some(AuthAction::Data(d)) => r == Ok::<String, AuthHelperError>(d),
            _ => r matches Err(AuthHelperError::Other(m)) && m@ == no_auth_data_text(),
        },
{
    match reply {
        Some(AuthAction::Data(d)) => Ok(d),
        _ => Err(AuthHelperError::Other(owned("error receiving the requested data"))),
    }
}

/// The secret that the interface sent back (`None` when no reply came); a
/// plain value, a cancellation or no reply is an error.
pub fn received_secret<S>(reply: Option<AuthAction<S>>) -> (r: Result<S, AuthHelperError>)
    ensures
        match reply {
            Some(AuthAction::Secret(s)) => r == Ok::<S, AuthHelperError>(s),
            _ => r matches Err(AuthHelperError::Other(m)) && m@ == no_auth_data_text(),
        },
{
    match reply {
        Some(AuthAction::Secret(s)) => Ok(s),
        _ => Err(AuthHelperError::Other(owned("error receiving the requested data"))),
    }
}

} // verus!
