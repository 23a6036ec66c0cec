//! The commands that a front end issues, and the values it gets back: connection
//! status, profile listings and profile changes. The profile commands work on a
//! profile manager whose cache the application has filled from disk; writing and
//! removing profile files is the application's part. The connection commands
//! report on a client after the application has run its connection work.

use vstd::prelude::*;
use crate::profile::{
    contains_id, new_profile_view, profile_views, protocol_variant_name, remove_id, upsert,
    validation_issue, validation_result, ProfileManager, ProfileView, VpnProfile, VpnProtocol,
};
use crate::client::{holds_session, status_of, ConnectionStatus as ClientStatus, SoftEtherClient};
use crate::error::{error_text, Error};
use crate::text::{append_str, append_u64, decimal, string_of};
use crate::VERSION;

verus! {

/// Connection status response.
#[derive(Debug)]
pub struct ConnectionStatus {
    pub connected: bool,
    pub profile_name: Option<String>,
    pub status_message: String,
}

/// Profile list response.
#[derive(Debug)]
pub struct ProfileList {
    pub profiles: Vec<ProfileSummary>,
}

/// Profile summary for listing.
#[derive(Debug)]
pub struct ProfileSummary {
    pub id: String,
    pub name: String,
    pub host: String,
    pub protocol: String,
}

/// A profile summary as plain values.
pub struct SummaryView {
    pub id: Seq<char>,
    pub name: Seq<char>,
    pub host: Seq<char>,
    pub protocol: Seq<char>,
}

impl View for ProfileSummary {
    type V = SummaryView;

    open spec fn view(&self) -> SummaryView {
        SummaryView { id: self.id@, name: self.name@, host: self.host@, protocol: self.protocol@ }
    }
}

/// The summary of a profile: its identifier, name, host and the name of its
/// protocol's variant.
pub open spec fn summary_of(p: ProfileView) -> SummaryView {
    SummaryView { id: p.id, name: p.name, host: p.host, protocol: protocol_variant_name(p.protocol) }
}

/// The status has the given connection flag, profile name and message.
pub open spec fn status_is(s: ConnectionStatus, connected: bool, name: Option<Seq<char>>, message: Seq<char>) -> bool {
    &&& s.connected == connected
    &&& match name {
        Some(n) => s.profile_name matches Some(pn) && pn@ == n,
        None => s.profile_name is None,
    }
    &&& s.status_message@ == message
}

/// The profile that a connect command is for: the cached profile with the
/// identifier, or the lookup error's text.
pub fn connect_target(manager: &ProfileManager, profile_id: &str) -> (r: Result<VpnProfile, String>)
    ensures
        r is Ok <==> contains_id(manager.cached(), profile_id@),
        r matches Ok(p) ==> exists|i: int|
            crate::profile::first_with_id(manager.cached(), profile_id@, i) && p@ == manager.cached()[i],
        r matches Err(m) ==> m@ == "Profile error: "@ + ("Profile '"@ + profile_id@ + "' not found"@),
{
    match manager.get_profile(profile_id) {
        Ok(profile) => Ok(profile),
        Err(e) => Err(e.to_string()),
    }
}

/// The name of the client's active profile, if it has one.
pub open spec fn active_name(client: &SoftEtherClient) -> Option<Seq<char>> {
    match client.active() {
        Some(p) => Some(p.name),
        None => None,
    }
}

/// The connection flag and message that a client status is reported with.
pub open spec fn status_summary(c: ClientStatus) -> (bool, Seq<char>) {
    match c {
        ClientStatus::Disconnected => (false, "Disconnected"@),
        ClientStatus::Connecting => (false, "Connecting..."@),
        ClientStatus::Connected => (true, "Connected"@),
        ClientStatus::Disconnecting => (true, "Disconnecting..."@),
        ClientStatus::Error(m) => (false, "Error: "@ + m@),
    }
}

/// What a connect command answers once the client has tried to connect: on
/// success, whether the client is connected and its active profile's name with
/// "Connected successfully"; on failure, the error's text.
pub fn connect_vpn(client: &SoftEtherClient, outcome: Result<(), Error>) -> (r: Result<ConnectionStatus, String>)
    ensures
        match outcome {
            Ok(()) => r matches Ok(s) && status_is(
                s,
                client.state() is Connected,
                active_name(client),
                "Connected successfully"@,
            ),
            Err(e) => r matches Err(m) && m@ == error_text(e),
        },
{
    match outcome {
        Ok(()) => Ok(
            ConnectionStatus {
                connected: client.is_connected(),
                profile_name: client.get_active_profile_name(),
                status_message: string_of("Connected successfully"),
            },
        ),
        Err(e) => Err(e.to_string()),
    }
}

/// What a disconnect command answers once the client has tried to disconnect:
/// on success, whether the client is still connected and its active profile's
/// name (none once disconnected) with "Disconnected successfully"; on failure,
/// the error's text.
pub fn disconnect_vpn(client: &SoftEtherClient, outcome: Result<(), Error>) -> (r: Result<ConnectionStatus, String>)
    ensures
        match outcome {
            Ok(()) => r matches Ok(s) && status_is(
                s,
                client.state() is Connected,
                active_name(client),
                "Disconnected successfully"@,
            ),
            Err(e) => r matches Err(m) && m@ == error_text(e),
        },
        r matches Ok(s) ==> (s.profile_name is Some <==> holds_session(client.state())),
{
    match outcome {
        Ok(()) => Ok(
            ConnectionStatus {
                connected: client.is_connected(),
                profile_name: client.get_active_profile_name(),
                status_message: string_of("Disconnected successfully"),
            },
        ),
        Err(e) => Err(e.to_string()),
    }
}

/// The client's current connection status: connected while connected or
/// disconnecting, the active profile's name while there is one, and a message
/// for the state.
pub fn get_connection_status(client: &SoftEtherClient) -> (r: Result<ConnectionStatus, String>)
    ensures
        r matches Ok(s) && status_is(
            s,
            status_summary(status_of(client.state())).0,
            active_name(client),
            status_summary(status_of(client.state())).1,
        ),
        r matches Ok(s) ==> (s.profile_name is Some <==> holds_session(client.state())),
{
    let profile_name = client.get_active_profile_name();
    let (connected, status_message) = match client.get_status() {
        ClientStatus::Disconnected => (false, string_of("Disconnected")),
        ClientStatus::Connecting => (false, string_of("Connecting...")),
        ClientStatus::Connected => (true, string_of("Connected")),
        ClientStatus::Disconnecting => (true, string_of("Disconnecting...")),
        ClientStatus::Error(m) => {
            let mut message = string_of("Error: ");
            append_str(&mut message, m.as_str());
            (false, message)
        },
    };
    Ok(ConnectionStatus { connected, profile_name, status_message })
}

/// The summary of one profile.
pub fn summarize(p: &VpnProfile) -> (s: ProfileSummary)
    ensures
        s@ == summary_of(p@),
{
    ProfileSummary {
        id: p.id.clone(),
        name: p.name.clone(),
        host: p.host.clone(),
        protocol: string_of(p.protocol.variant_name()),
    }
}

/// List all cached profiles, summarized, in cache order.
pub fn list_profiles(manager: &ProfileManager) -> (r: Result<ProfileList, String>)
    ensures
        r matches Ok(l) && l.profiles@.map_values(|s: ProfileSummary| s@) == manager.cached().map_values(
            |p: ProfileView| summary_of(p),
        ),
{
    let profiles = manager.load_profiles();
    let mut summaries: Vec<ProfileSummary> = Vec::new();
    let mut i: usize = 0;
    while i < profiles.len()
        invariant
            i <= profiles@.len(),
            profile_views(profiles@) == manager.cached(),
            summaries@.map_values(|s: ProfileSummary| s@) == manager.cached().take(i as int).map_values(
                |p: ProfileView| summary_of(p),
            ),
        decreases profiles@.len() - i,
    {
        let s = summarize(&profiles[i]);
        assert(profile_views(profiles@)[i as int] == profiles@[i as int]@);
        assert(manager.cached().take(i + 1) =~= manager.cached().take(i as int).push(manager.cached()[i as int]));
        let ghost sv = s@;
        let ghost before = summaries@;
        summaries.push(s);
        assert(summaries@.map_values(|s: ProfileSummary| s@) =~= before.map_values(|s: ProfileSummary| s@).push(sv));
        assert(summaries@.map_values(|s: ProfileSummary| s@) =~= manager.cached().take(i + 1).map_values(
            |p: ProfileView| summary_of(p),
        ));
        i = i + 1;
    }
    assert(manager.cached().take(profiles@.len() as int) =~= manager.cached());
    Ok(ProfileList { profiles: summaries })
}

/// What saving gives for a validation outcome: an issue leaves the cache as it
/// was and returns the error's text; no issue stores the profile.
pub open spec fn save_outcome(
    r: Result<(), String>,
    before: Seq<ProfileView>,
    after: Seq<ProfileView>,
    p: ProfileView,
    issue: Option<Seq<char>>,
) -> bool {
    match issue {
        Some(m) => r matches Err(t) && t@ == "Profile error: "@ + m && after == before,
        None => r is Ok && after == upsert(before, p),
    }
}

/// Save a profile: it is validated (certificate and key files are looked up on
/// disk), and stored in the manager's cache only when valid; an invalid profile
/// gives the validation error's text.
pub fn save_profile(manager: &mut ProfileManager, profile: &VpnProfile) -> (r: Result<(), String>)
    ensures
        exists|cert_file_exists: bool, key_file_exists: bool|
            save_outcome(
                r,
                old(manager).cached(),
                final(manager).cached(),
                profile@,
                #[trigger] validation_issue(profile@, cert_file_exists, key_file_exists),
            ),
        final(manager).is_loaded() == old(manager).is_loaded(),
        final(manager).dir() == old(manager).dir(),
{
    let checked = profile.validate();
    let ghost (c, k) = choose|c: bool, k: bool| validation_result(checked, #[trigger] validation_issue(profile@, c, k));
    match checked {
        Ok(()) => {
            manager.save_profile(profile);
            assert(save_outcome(Ok(()), old(manager).cached(), manager.cached(), profile@, validation_issue(profile@, c, k)));
            Ok(())
        },
        Err(e) => {
            let t = e.to_string();
            assert(save_outcome(Err(t), old(manager).cached(), manager.cached(), profile@, validation_issue(profile@, c, k)));
            Err(t)
        },
    }
}

/// Delete a profile from the manager's cache.
pub fn delete_profile(manager: &mut ProfileManager, profile_id: &str) -> (r: Result<(), String>)
    ensures
        r is Ok,
        final(manager).cached() == remove_id(old(manager).cached(), profile_id@),
        final(manager).is_loaded() == old(manager).is_loaded(),
        final(manager).dir() == old(manager).dir(),
{
    manager.delete_profile(profile_id);
    Ok(())
}

/// Create a new SSL-VPN profile with default values.
pub fn create_profile(name: String, host: String, port: u16) -> (r: Result<VpnProfile, String>)
    ensures
        r matches Ok(p) && new_profile_view(p@, name@, host@, port, VpnProtocol::SslVpn),
{
    Ok(VpnProfile::new(name, host, port, VpnProtocol::SslVpn))
}

/// The time a connection test allows, in seconds: the given one, else ten.
pub open spec fn test_timeout(timeout: Option<u32>) -> u32 {
    match timeout {
        Some(t) => t,
        None => 10,
    }
}

/// The notice that a connection test to `host:port` announces.
pub fn connection_test_notice(host: &str, port: u16, timeout: Option<u32>) -> (s: String)
    ensures
        s@ == "Testing connection to "@ + host@ + ":"@ + decimal(port as nat) + " with timeout "@
            + decimal(test_timeout(timeout) as nat) + "s"@,
{
    let t = match timeout {
        Some(t) => t,
        None => 10,
    };
    let mut s = string_of("Testing connection to ");
    append_str(&mut s, host);
    append_str(&mut s, ":");
    append_u64(&mut s, port as u64);
    append_str(&mut s, " with timeout ");
    append_u64(&mut s, t as u64);
    append_str(&mut s, "s");
    s
}

/// The application's version.
pub fn get_version() -> (v: String)
    ensures
        v@ == VERSION@,
{
    string_of(VERSION)
}

} // verus!
