//! The request that opens a remote console on a compute server.

use vstd::prelude::*;
use crate::text::{concat3, opt_view};

verus! {

/// Opening a browser console (noVNC) on a server.
#[derive(Clone, Debug, Default, PartialEq, Eq)]
pub struct ComputeServerCreateRemoteConsole {
    pub server_id: String,
    pub name: Option<String>,
}

/// The protocol of a remote console.
#[derive(Clone, Copy, Debug, PartialEq, Eq)]
pub enum ConsoleProtocol {
    Vnc,
}

/// The kind of a remote console.
#[derive(Clone, Copy, Debug, PartialEq, Eq)]
pub enum ConsoleType {
    Novnc,
}

/// What is sent to the compute service to open a remote console.
#[derive(Clone, Debug, PartialEq, Eq)]
pub struct RemoteConsoleRequest {
    pub server_id: String,
    pub protocol: ConsoleProtocol,
    pub console_type: ConsoleType,
}

/// How a console request is shown: the server's name when known, else its
/// id, then the protocol and the console type, separated by commas.
pub open spec fn console_label(server_id: Seq<char>, name: Option<Seq<char>>) -> Seq<char> {
    "name/id: "@ + (match name {
        Some(n) => n,
        None => server_id,
    }) + ",protocol: vnc,type: novnc"@
}

impl ComputeServerCreateRemoteConsole {
    /// The text that stands for this request in lists and confirmations.
    pub fn to_display_string(&self) -> (r: String)
        ensures
            r@ == console_label(self.server_id@, opt_view(self.name)),
    {
        let shown: &str = match &self.name {
            Some(n) => n.as_str(),
            None => self.server_id.as_str(),
        };
        concat3("name/id: ", shown, ",protocol: vnc,type: novnc")
    }

    /// The request to send: a noVNC console over VNC on this server.
    pub fn remote_console_request(&self) -> (r: RemoteConsoleRequest)
        ensures
            r.server_id@ == self.server_id@,
            r.protocol == ConsoleProtocol::Vnc,
            r.console_type == ConsoleType::Novnc,
    {
        RemoteConsoleRequest {
            server_id: self.server_id.clone(),
            protocol: ConsoleProtocol::Vnc,
            console_type: ConsoleType::Novnc,
        }
    }
}

} // verus!
