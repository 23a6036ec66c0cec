//! The VPN manager's decisions: what status the window is told for the client's
//! state, and how the outcomes of connecting and disconnecting are reported. The
//! manager's thread and channels are the application's.

use vstd::prelude::*;
use crate::client::{ConnectionStatus as ClientStatus, SoftEtherClient};
use crate::error::{error_text, Error};
use crate::gui::ConnectionStatus;
use crate::text::{append_str, string_of};

verus! {

/// Whether `s` is what the window is told for a client status and the name of
/// the client's active profile.
pub open spec fn reported_status(s: ConnectionStatus, c: ClientStatus, active_name: Option<Seq<char>>) -> bool {
    let name = match s.profile_name {
        Some(n) => Some(n@),
        None => None,
    };
    match c {
        ClientStatus::Disconnected => !s.connected && name is None && s.status_message@ == "Disconnected"@,
        ClientStatus::Connecting => !s.connected && name == active_name && s.status_message@ == "Connecting..."@,
        ClientStatus::Connected => s.connected && name == active_name && s.status_message@ == "Connected"@,
        ClientStatus::Disconnecting => s.connected && name == active_name && s.status_message@
            == "Disconnecting..."@,
        ClientStatus::Error(m) => !s.connected && name is None && s.status_message@ == "Error: "@ + m@,
    }
}

/// The status the window is told for the client's state.
pub fn ui_status(client: &SoftEtherClient) -> (s: ConnectionStatus)
    ensures
        reported_status(
            s,
            crate::client::status_of(client.state()),
            match client.active() {
                Some(p) => Some(p.name),
                None => None,
            },
        ),
{
    match client.get_status() {
        ClientStatus::Disconnected => ConnectionStatus {
            connected: false,
            profile_name: None,
            status_message: string_of("Disconnected"),
        },
        ClientStatus::Connecting => ConnectionStatus {
            connected: false,
            profile_name: client.get_active_profile_name(),
            status_message: string_of("Connecting..."),
        },
        ClientStatus::Connected => ConnectionStatus {
            connected: true,
            profile_name: client.get_active_profile_name(),
            status_message: string_of("Connected"),
        },
        ClientStatus::Disconnecting => ConnectionStatus {
            connected: true,
            profile_name: client.get_active_profile_name(),
            status_message: string_of("Disconnecting..."),
        },
        ClientStatus::Error(m) => {
            let mut message = string_of("Error: ");
            append_str(&mut message, m.as_str());
            ConnectionStatus { connected: false, profile_name: None, status_message: message }
        },
    }
}

/// `r` with its error text put after `prefix`.
pub open spec fn with_prefix(r: Result<(), String>, prefix: Seq<char>, t: Result<(), String>) -> bool {
    match r {
        Ok(()) => t is Ok,
        Err(m) => t matches Err(n) && n@ == prefix + m@,
    }
}

fn prefix_error(r: Result<(), String>, prefix: &str) -> (t: Result<(), String>)
    ensures
        with_prefix(r, prefix@, t),
{
    match r {
        Ok(()) => Ok(()),
        Err(m) => {
            let mut n = string_of(prefix);
            append_str(&mut n, m.as_str());
            Err(n)
        },
    }
}

fn error_texts(r: Result<(), Error>) -> (t: Result<(), String>)
    ensures
        match r {
            Ok(()) => t is Ok,
            Err(e) => t matches Err(m) && m@ == error_text(e),
        },
{
    match r {
        Ok(()) => Ok(()),
        Err(e) => Err(e.to_string()),
    }
}

/// What the manager's thread replies after connecting: the error's text after
/// "Connection failed: ".
pub fn connect_reply(r: Result<(), Error>) -> (t: Result<(), String>)
    ensures
        match r {
            Ok(()) => t is Ok,
            Err(e) => t matches Err(m) && m@ == "Connection failed: "@ + error_text(e),
        },
{
    prefix_error(error_texts(r), "Connection failed: ")
}

/// What the manager's thread replies after disconnecting: the error's text after
/// "Disconnection failed: ".
pub fn disconnect_reply(r: Result<(), Error>) -> (t: Result<(), String>)
    ensures
        match r {
            Ok(()) => t is Ok,
            Err(e) => t matches Err(m) && m@ == "Disconnection failed: "@ + error_text(e),
        },
{
    prefix_error(error_texts(r), "Disconnection failed: ")
}

/// What the window records of a connection request answered by the manager.
pub fn connection_outcome(r: Result<(), String>) -> (t: Result<(), String>)
    ensures
        with_prefix(r, "Connection failed: "@, t),
{
    prefix_error(r, "Connection failed: ")
}

/// What the window records of a disconnection request answered by the manager.
pub fn disconnection_outcome(r: Result<(), String>) -> (t: Result<(), String>)
    ensures
        with_prefix(r, "Disconnection failed: "@, t),
{
    prefix_error(r, "Disconnection failed: ")
}

} // verus!
