//! The SoftEther client's connection state and the decisions around a
//! connection: which requests are refused in which state, what a finished
//! attempt leaves behind, and the messages that describe failures.
//!
//! The application performs the SoftEther calls and the network checks and
//! hands their outcomes to the functions here.

use vstd::prelude::*;
use crate::cert_prompt::{clear_active_profile, CertificateDecision, CertificatePromptState};
use crate::error::Error;
use crate::profile::{
    AuthMethod, AuthView, ProfileView, VpnProfile, validation_issue,
};
use crate::text::{
    all_white_space, append_str, append_u64, decimal, decode_utf8_lossy, first_line, first_line_of,
    format_hex_upper, hex_upper, is_blank, join_strings, join_with, seq_contains,
    str_contains, string_of, trim, trim_str, utf8_lossy,
};
use crate::bindings::{
    all_zero_u8, CLIENT_AUTHTYPE_ANONYMOUS, CLIENT_AUTHTYPE_PASSWORD, CLIENT_OPTION, PROXY_DIRECT,
    RPC_CLIENT_CONNECT, RPC_CLIENT_GET_CONNECTION_STATUS, UINT,
};
use crate::hub::{trimmed_bytes, zero_padded};
use crate::memory::strings::{account_name_buffer, rust_to_softether_wide, softether_wide_to_rust, until_nul};
use crate::text::utf16_encode;

verus! {

/// Connection status enum.
#[derive(Debug, Clone, PartialEq)]
pub enum ConnectionStatus {
    Disconnected,
    Connecting,
    Connected,
    Disconnecting,
    Error(String),
}

/// Internal connection state for lifecycle management.
#[derive(Debug, Clone, PartialEq)]
pub enum ConnectionState {
    Disconnected,
    Connecting,
    Connected,
    Disconnecting,
    Error(String),
}

/// Detailed connection status information.
#[derive(Debug, Clone, PartialEq, Default)]
pub struct DetailedConnectionStatus {
    /// Account name for this connection
    pub account_name: String,
    /// Whether the account is active
    pub active: bool,
    /// Whether currently connected
    pub connected: bool,
    /// Session status code
    pub session_status: u32,
    /// Server hostname/IP
    pub server_name: String,
    /// Server port
    pub server_port: u16,
    /// Server product name
    pub server_product_name: String,
    /// Server product version
    pub server_product_version: u32,
    /// Server product build number
    pub server_product_build: u32,
}

/// The status that a state is reported as.
pub open spec fn status_of(s: ConnectionState) -> ConnectionStatus {
    match s {
        ConnectionState::Disconnected => ConnectionStatus::Disconnected,
        ConnectionState::Connecting => ConnectionStatus::Connecting,
        ConnectionState::Connected => ConnectionStatus::Connected,
        ConnectionState::Disconnecting => ConnectionStatus::Disconnecting,
        ConnectionState::Error(m) => ConnectionStatus::Error(m),
    }
}

/// Why a connection attempt is refused in a state, if it is.
pub open spec fn connect_refusal(s: ConnectionState) -> Option<Seq<char>> {
    match s {
        ConnectionState::Connected => Some("Client is already connected"@),
        ConnectionState::Connecting => Some("Connection attempt already in progress"@),
        ConnectionState::Disconnecting => Some("Cannot connect while disconnecting"@),
        _ => None,
    }
}

/// Why a disconnection is refused in a state, if it is.
pub open spec fn disconnect_refusal(s: ConnectionState) -> Option<Seq<char>> {
    match s {
        ConnectionState::Connecting => Some("Cannot disconnect while connecting"@),
        ConnectionState::Disconnecting => Some("Disconnect already in progress"@),
        _ => None,
    }
}

/// The account name used for a connection: the profile's account name, or its
/// name when the account name is blank.
pub open spec fn account_alias(p: ProfileView) -> Seq<char> {
    if all_white_space(p.account_name) { p.name } else { p.account_name }
}

/// Whether `r` is what preparing a connection gives when validation finds
/// `issue`: the account name `alias`, or the validation error.
pub open spec fn prepared(r: Result<String, Error>, issue: Option<Seq<char>>, alias: Seq<char>) -> bool {
    match issue {
        None => r matches Ok(a) && a@ == alias,
        Some(m) => r matches Err(e) && (e matches Error::ProfileError { message } && message@ == m),
    }
}

/// Whether `e` is a connection failure with message `m`.
pub open spec fn is_connection_failure(e: Error, m: Seq<char>) -> bool {
    e matches Error::ConnectionFailed { message } && message@ == m
}

/// The outcome of the SoftEther connection work (account creation and connect),
/// as the application observed it.
#[derive(Debug)]
pub enum ConnectOutcome {
    /// The connection is up.
    Connected,
    /// The work failed with this error.
    Failed(Error),
    /// The work did not finish within the profile's timeout.
    TimedOut,
}

/// What a disconnection asks of the application.
#[derive(Debug)]
pub enum DisconnectStep {
    /// The client was already disconnected: nothing to do.
    AlreadyDisconnected,
    /// Ask SoftEther to disconnect this account, then report the outcome.
    Request { account_name: String },
    /// There was no active profile: the client is now disconnected.
    Completed,
}

/// The outcome of a SoftEther disconnect request.
#[derive(Debug)]
pub enum DisconnectOutcome {
    Disconnected,
    Failed(Error),
    TimedOut,
}

/// SoftEther VPN client: the connection state, the profile of the current
/// connection and the fingerprints of the certificates already trusted.
#[derive(Debug)]
pub struct SoftEtherClient {
    state: ConnectionState,
    active_profile: Option<VpnProfile>,
    trusted_certificates: Vec<String>,
}

/// Whether a client in state `s` has a connection's profile: exactly while it
/// is connected, or disconnecting from that connection.
pub open spec fn holds_session(s: ConnectionState) -> bool {
    s is Connected || s is Disconnecting
}

/// The texts of a list of strings.
pub open spec fn texts(v: Seq<String>) -> Seq<Seq<char>> {
    v.map_values(|s: String| s@)
}

impl SoftEtherClient {
    /// The connection state.
    pub closed spec fn state(&self) -> ConnectionState {
        self.state
    }

    /// The profile of the current connection.
    pub closed spec fn active(&self) -> Option<ProfileView> {
        match self.active_profile {
            Some(p) => Some(p@),
            None => None,
        }
    }

    /// The fingerprints of the trusted certificates.
    pub closed spec fn trusted(&self) -> Seq<Seq<char>> {
        texts(self.trusted_certificates@)
    }

    /// Whether the client has an active profile exactly when it holds a
    /// session: true of every client (it is the type's invariant).
    pub open spec fn session_consistent(&self) -> bool {
        self.active() is Some <==> holds_session(self.state())
    }

    /// A client has an active profile exactly when it holds a session.
    #[verifier::type_invariant]
    closed spec fn session_matches_state(&self) -> bool {
        self.active_profile is Some <==> holds_session(self.state)
    }

    /// Put the client in `state` with `active` as its active profile; the
    /// trusted certificates stay.
    fn set_session(&mut self, state: ConnectionState, active: Option<VpnProfile>)
        requires
            active is Some <==> holds_session(state),
        ensures
            final(self).state() == state,
            final(self).active() == (match active {
                Some(p) => Some(p@),
                None => None::<ProfileView>,
            }),
            final(self).trusted() == old(self).trusted(),
    {
        proof {
            use_type_invariant(&*self);
        }
        let mut trusted: Vec<String> = Vec::new();
        std::mem::swap(&mut trusted, &mut self.trusted_certificates);
        *self = SoftEtherClient { state, active_profile: active, trusted_certificates: trusted };
    }

    /// A disconnected client with no trusted certificates.
    pub fn new() -> (c: Self)
        ensures
            c.state() == ConnectionState::Disconnected,
            c.active() is None,
            c.trusted().len() == 0,
            c.session_consistent(),
    {
        let c = SoftEtherClient {
            state: ConnectionState::Disconnected,
            active_profile: None,
            trusted_certificates: Vec::new(),
        };
        assert(c.trusted() =~= Seq::<Seq<char>>::empty());
        c
    }

    /// Get the current connection status.
    pub fn get_status(&self) -> (s: ConnectionStatus)
        ensures
            s == status_of(self.state()),
    {
        match &self.state {
            ConnectionState::Disconnected => ConnectionStatus::Disconnected,
            ConnectionState::Connecting => ConnectionStatus::Connecting,
            ConnectionState::Connected => ConnectionStatus::Connected,
            ConnectionState::Disconnecting => ConnectionStatus::Disconnecting,
            ConnectionState::Error(m) => ConnectionStatus::Error(m.clone()),
        }
    }

    /// Check if the client is currently connected.
    pub fn is_connected(&self) -> (r: bool)
        ensures
            r == (self.state() == ConnectionState::Connected),
            r ==> self.active() is Some,
    {
        proof {
            use_type_invariant(self);
        }
        match self.state {
            ConnectionState::Connected => true,
            _ => false,
        }
    }

    /// Get the active profile if connected. There is one exactly while the
    /// client is connected or disconnecting from that connection.
    pub fn active_profile(&self) -> (r: Option<&VpnProfile>)
        ensures
            match r {
                Some(p) => self.active() == Some(p@),
                None => self.active() is None,
            },
            r is Some <==> holds_session(self.state()),
    {
        proof {
            use_type_invariant(self);
        }
        match &self.active_profile {
            Some(p) => Some(p),
            None => None,
        }
    }

    /// Get the name of the currently active profile.
    pub fn get_active_profile_name(&self) -> (r: Option<String>)
        ensures
            match r {
                Some(n) => self.active() matches Some(p) && p.name == n@,
                None => self.active() is None,
            },
            r is Some <==> holds_session(self.state()),
    {
        proof {
            use_type_invariant(self);
        }
        match &self.active_profile {
            Some(p) => Some(p.name.clone()),
            None => None,
        }
    }

    /// Whether a certificate with this fingerprint has been trusted already.
    pub fn is_trusted(&self, fingerprint: &str) -> (r: bool)
        ensures
            r == self.trusted().contains(fingerprint@),
    {
        let mut i: usize = 0;
        while i < self.trusted_certificates.len()
            invariant
                i <= self.trusted_certificates@.len(),
                forall|k: int| 0 <= k < i ==> self.trusted_certificates@[k]@ != fingerprint@,
            decreases self.trusted_certificates@.len() - i,
        {
            if crate::text::str_eq(self.trusted_certificates[i].as_str(), fingerprint) {
                assert(self.trusted()[i as int] == fingerprint@);
                return true;
            }
            i = i + 1;
        }
        assert(!self.trusted().contains(fingerprint@)) by {
            if self.trusted().contains(fingerprint@) {
                let k = choose|k: int| 0 <= k < self.trusted().len() && self.trusted()[k] == fingerprint@;
                assert(self.trusted_certificates@[k]@ == fingerprint@);
            }
        }
        false
    }

    /// Record that a certificate has been added to the trust store.
    pub fn record_trusted(&mut self, fingerprint: String)
        ensures
            final(self).trusted() == (if old(self).trusted().contains(fingerprint@) {
                old(self).trusted()
            } else {
                old(self).trusted().push(fingerprint@)
            }),
            final(self).state() == old(self).state(),
            final(self).active() == old(self).active(),
            final(self).session_consistent(),
    {
        proof {
            use_type_invariant(&*self);
        }
        if !self.is_trusted(fingerprint.as_str()) {
            let ghost f = fingerprint@;
            proof {
                use_type_invariant(&*self);
            }
            let mut trusted: Vec<String> = Vec::new();
            std::mem::swap(&mut trusted, &mut self.trusted_certificates);
            trusted.push(fingerprint);
            std::mem::swap(&mut trusted, &mut self.trusted_certificates);
            assert(self.trusted() =~= old(self).trusted().push(f));
        }
    }

    /// Check that a connection attempt may start with this profile, and give the
    /// account name to connect under. Refused while connected, connecting or
    /// disconnecting; then the profile must validate (its certificate and key
    /// files are looked up on disk for certificate authentication).
    pub fn prepare_connect(&self, profile: &VpnProfile) -> (r: Result<String, Error>)
        ensures
            connect_refusal(self.state()) matches Some(m) ==> (r matches Err(e) && is_connection_failure(e, m)),
            connect_refusal(self.state()) is None ==> exists|cert_file_exists: bool, key_file_exists: bool|
                prepared(r, #[trigger] validation_issue(profile@, cert_file_exists, key_file_exists), account_alias(profile@)),
            r matches Ok(alias) ==> alias@ == account_alias(profile@),
    {
        match &self.state {
            ConnectionState::Connected => {
                return Err(Error::ConnectionFailed { message: string_of("Client is already connected") });
            },
            ConnectionState::Connecting => {
                return Err(Error::ConnectionFailed {
                    message: string_of("Connection attempt already in progress"),
                });
            },
            ConnectionState::Disconnecting => {
                return Err(Error::ConnectionFailed {
                    message: string_of("Cannot connect while disconnecting"),
                });
            },
            _ => {},
        }
        match profile.validate() {
            Ok(()) => {},
            Err(e) => {
                return Err(e);
            },
        }
        if is_blank(profile.account_name.as_str()) {
            Ok(profile.name.clone())
        } else {
            Ok(profile.account_name.clone())
        }
    }

    /// Enter the connecting state, with no active profile until the connection
    /// is up.
    pub fn start_connecting(&mut self) -> (s: ConnectionStatus)
        ensures
            final(self).state() == ConnectionState::Connecting,
            s == ConnectionStatus::Connecting,
            final(self).active() is None,
            final(self).trusted() == old(self).trusted(),
            final(self).session_consistent(),
    {
        self.set_session(ConnectionState::Connecting, None);
        ConnectionStatus::Connecting
    }

    /// Record how a connection attempt ended. A connection makes the client
    /// connected with the profile (under the account name `alias`) as its active
    /// profile; a failure or a timeout leaves it disconnected with none. Whatever
    /// the outcome, the certificate prompt no longer has a connecting profile.
    pub fn finish_connect(
        &mut self,
        prompts: &mut CertificatePromptState,
        profile: &VpnProfile,
        alias: String,
        outcome: ConnectOutcome,
    ) -> (r: Result<(), Error>)
        ensures
            final(self).trusted() == old(self).trusted(),
            final(prompts).active() is None,
            final(prompts).last() == old(prompts).last(),
            final(self).session_consistent(),
            match outcome {
                ConnectOutcome::Connected => r is Ok && final(self).state() == ConnectionState::Connected
                    && final(self).active() == Some(ProfileView { account_name: alias@, ..profile@ }),
                ConnectOutcome::Failed(e) => r == Err::<(), Error>(e) && final(self).state()
                    == ConnectionState::Disconnected && final(self).active() is None,
                ConnectOutcome::TimedOut => (r matches Err(e) && is_connection_failure(
                    e,
                    "VPN connection timed out after "@ + decimal(profile.timeout as nat) + " seconds"@,
                )) && final(self).state() == ConnectionState::Disconnected && final(self).active() is None,
            },
    {
        clear_active_profile(prompts);
        match outcome {
            ConnectOutcome::Connected => {
                let mut active = profile.clone();
                active.account_name = alias;
                self.set_session(ConnectionState::Connected, Some(active));
                Ok(())
            },
            ConnectOutcome::Failed(e) => {
                self.set_session(ConnectionState::Disconnected, None);
                Err(e)
            },
            ConnectOutcome::TimedOut => {
                self.set_session(ConnectionState::Disconnected, None);
                let mut message = string_of("VPN connection timed out after ");
                append_u64(&mut message, profile.timeout as u64);
                append_str(&mut message, " seconds");
                Err(Error::ConnectionFailed { message })
            },
        }
    }

    /// Start a disconnection. Refused while connecting or disconnecting; nothing to
    /// do when disconnected. Otherwise the client is disconnecting and SoftEther is
    /// asked to disconnect the active account, or, without an active profile, the
    /// client is disconnected at once.
    pub fn begin_disconnect(&mut self) -> (r: Result<DisconnectStep, Error>)
        ensures
            final(self).trusted() == old(self).trusted(),
            final(self).active() == old(self).active(),
            final(self).session_consistent(),
            (r matches Ok(DisconnectStep::AlreadyDisconnected)) ==> final(self).state() == ConnectionState::Disconnected,
            (r matches Ok(DisconnectStep::Completed)) ==> final(self).state() == ConnectionState::Disconnected,
            disconnect_refusal(old(self).state()) matches Some(m) ==> (r matches Err(e) && is_connection_failure(e, m)
                && final(self).state() == old(self).state()),
            old(self).state() == ConnectionState::Disconnected ==> (r matches Ok(DisconnectStep::AlreadyDisconnected)
                && final(self).state() == old(self).state()),
            (old(self).state() is Connected || old(self).state() is Error) ==> match old(self).active() {
                Some(p) => (r matches Ok(DisconnectStep::Request { account_name }) && account_name@ == p.account_name)
                    && final(self).state() == ConnectionState::Disconnecting,
                None => (r matches Ok(DisconnectStep::Completed)) && final(self).state()
                    == ConnectionState::Disconnected,
            },
    {
        proof {
            use_type_invariant(&*self);
        }
        match &self.state {
            ConnectionState::Disconnected => {
                return Ok(DisconnectStep::AlreadyDisconnected);
            },
            ConnectionState::Connecting => {
                return Err(Error::ConnectionFailed {
                    message: string_of("Cannot disconnect while connecting"),
                });
            },
            ConnectionState::Disconnecting => {
                return Err(Error::ConnectionFailed { message: string_of("Disconnect already in progress") });
            },
            _ => {},
        }
        match &self.active_profile {
            Some(p) => {
                let account_name = p.account_name.clone();
                let active = p.clone();
                self.set_session(ConnectionState::Disconnecting, Some(active));
                Ok(DisconnectStep::Request { account_name })
            },
            None => {
                self.set_session(ConnectionState::Disconnected, None);
                Ok(DisconnectStep::Completed)
            },
        }
    }

    /// Record how a SoftEther disconnect request ended. The active profile is gone
    /// in every case; a failure or a timeout leaves the client in an error state.
    pub fn finish_disconnect(&mut self, outcome: DisconnectOutcome) -> (r: Result<(), Error>)
        ensures
            final(self).trusted() == old(self).trusted(),
            final(self).active() is None,
            final(self).session_consistent(),
            match outcome {
                DisconnectOutcome::Disconnected => r is Ok && final(self).state() == ConnectionState::Disconnected,
                DisconnectOutcome::Failed(e) => r == Err::<(), Error>(e) && (final(self).state() matches ConnectionState::Error(m)
                    && m@ == "Disconnect failed"@),
                DisconnectOutcome::TimedOut => (r matches Err(e) && (e matches Error::FfiError { message }
                    && message@ == "VPN disconnect timed out"@)) && (final(self).state() matches ConnectionState::Error(m)
                    && m@ == "Disconnect timeout"@),
            },
    {
        match outcome {
            DisconnectOutcome::Disconnected => {
                self.set_session(ConnectionState::Disconnected, None);
                Ok(())
            },
            DisconnectOutcome::Failed(e) => {
                self.set_session(ConnectionState::Error(string_of("Disconnect failed")), None);
                Err(e)
            },
            DisconnectOutcome::TimedOut => {
                self.set_session(ConnectionState::Error(string_of("Disconnect timeout")), None);
                Err(Error::FfiError { message: string_of("VPN disconnect timed out") })
            },
        }
    }
}

/// The active profile after completed connection work: a client that came from
/// `new` through completed steps (a connection attempt ended by
/// `finish_connect`, a disconnection ended by `finish_disconnect`, or one that
/// `begin_disconnect` finished by itself) is never left disconnecting, so it
/// has an active profile exactly when it is connected.
pub proof fn law_active_profile_when_connected(c: SoftEtherClient)
    requires
        c.session_consistent(),
        !(c.state() is Disconnecting),
    ensures
        c.active() is Some <==> c.state() is Connected,
{
}

/// SoftEther's description of an error code, as the client reports it.
pub open spec fn error_description(code: u32) -> Seq<char> {
    if code == 0 { "No error"@ }
    else if code == 1 { "Connection to the server has failed"@ }
    else if code == 2 { "The destination server is not a VPN server"@ }
    else if code == 3 { "The connection has been interrupted"@ }
    else if code == 4 { "Protocol error"@ }
    else if code == 5 { "Connecting client is not a VPN client"@ }
    else if code == 6 { "User cancel"@ }
    else if code == 7 { "Specified authentication method is not supported"@ }
    else if code == 8 { "The HUB does not exist"@ }
    else if code == 9 { "Authentication failure"@ }
    else if code == 10 { "HUB is stopped"@ }
    else if code == 11 { "Session has been deleted"@ }
    else if code == 12 { "Access denied"@ }
    else if code == 13 { "Session times out"@ }
    else if code == 14 { "Protocol is invalid"@ }
    else if code == 15 { "Too many connections"@ }
    else if code == 16 { "Too many sessions of the HUB"@ }
    else if code == 17 { "Connection to the proxy server fails"@ }
    else if code == 18 { "Proxy Error"@ }
    else if code == 19 { "Failed to authenticate on the proxy server"@ }
    else if code == 30 { "Virtual LAN card with the specified name already exists"@ }
    else if code == 31 { "Specified virtual LAN card cannot be created"@ }
    else if code == 32 { "Specified name of the virtual LAN card is invalid"@ }
    else if code == 33 { "Unsupported"@ }
    else if code == 34 { "Account already exists"@ }
    else if code == 35 { "Account is operating"@ }
    else if code == 36 { "Specified account doesn't exist"@ }
    else if code == 37 { "Account is offline"@ }
    else if code == 38 { "Parameter is invalid"@ }
    else if code == 39 { "Error has occurred in the operation of the secure device"@ }
    else { "Unknown error"@ }
}

/// How a profile authenticates, in words.
pub open spec fn auth_description(a: AuthView) -> Seq<char> {
    match a {
        AuthView::Password { .. } => "using password authentication"@,
        AuthView::NtDomain { .. } => "using NT domain authentication"@,
        AuthView::Radius => "using RADIUS authentication"@,
        AuthView::Certificate { .. } => "using certificate authentication"@,
    }
}

/// What a connection failure reports about a profile, given the result of the
/// network check.
pub open spec fn error_details_text(p: ProfileView, connectivity: Seq<char>) -> Seq<char> {
    "Failed to connect to VPN server '"@ + p.host + "' on "@ + p.host + ":"@ + decimal(p.port as nat) + " "@
        + auth_description(p.auth) + ". "@ + connectivity
        + ". Possible causes: server unreachable, invalid credentials, authentication method not supported by server, or server configuration issues."@
}

/// What resolving the server's host name gave.
#[derive(Debug)]
pub enum HostLookup {
    /// At least one address.
    Resolved,
    /// The name resolved to no address.
    NoAddresses,
    /// Resolution failed with this error text.
    Failed(String),
}

/// The sentence that describes a host-name lookup.
pub open spec fn connectivity_text(p: ProfileView, lookup: HostLookup) -> Seq<char> {
    match lookup {
        HostLookup::Resolved => "Server hostname resolves successfully"@,
        HostLookup::NoAddresses => "Server hostname '"@ + p.host + "' resolves but no addresses found for port "@
            + decimal(p.port as nat),
        HostLookup::Failed(e) => "Cannot resolve server hostname '"@ + p.host + "': "@ + e@,
    }
}

/// Whether a connection parameter problem is reported for a profile, and which.
pub open spec fn connection_parameter_issue(p: ProfileView) -> Option<Seq<char>> {
    if all_white_space(p.host) {
        Some("Server hostname/IP address is empty"@)
    } else if p.port == 0 {
        Some("Invalid port number (must be > 0)"@)
    } else {
        match p.auth {
            AuthView::Password { username, password } => if all_white_space(username) {
                Some("Username is required for password authentication"@)
            } else if password.len() == 0 {
                Some("Password is required for password authentication"@)
            } else {
                None
            },
            AuthView::NtDomain { username, password, .. } => if all_white_space(username) {
                Some("Username is required for NT domain authentication"@)
            } else if password.len() == 0 {
                Some("Password is required for NT domain authentication"@)
            } else {
                None
            },
            AuthView::Radius => None,
            AuthView::Certificate { .. } => Some("Certificate authentication is not yet supported"@),
        }
    }
}

/// A connection is refused without a user name to send: for password and NT
/// domain authentication a blank (all-whitespace) user name always makes the
/// connection-parameter check fail, whatever the password and domain; with the
/// server's host and port in order it is the missing user name that is reported.
pub proof fn law_credentials_need_username(p: ProfileView, username: Seq<char>, password: Seq<char>, domain: Seq<char>)
    requires
        all_white_space(username),
    ensures
        p.auth == (AuthView::NtDomain { username, password, domain }) ==> connection_parameter_issue(p) is Some,
        p.auth == (AuthView::NtDomain { username, password, domain }) && !all_white_space(p.host) && p.port != 0
            ==> connection_parameter_issue(p) == Some("Username is required for NT domain authentication"@),
        p.auth == (AuthView::Password { username, password }) ==> connection_parameter_issue(p) is Some,
        p.auth == (AuthView::Password { username, password }) && !all_white_space(p.host) && p.port != 0
            ==> connection_parameter_issue(p) == Some("Username is required for password authentication"@),
{
}

/// What a profile that passes the connection-parameter check has: a server host
/// that is not blank, a port, no certificate authentication, and, where it sends
/// credentials, a user name that is not blank and a password that is not empty.
pub proof fn law_checked_parameters(p: ProfileView)
    requires
        connection_parameter_issue(p) is None,
    ensures
        !all_white_space(p.host),
        p.port != 0,
        !(p.auth is Certificate),
        p.auth matches AuthView::Password { username, password } ==> !all_white_space(username) && password.len() > 0,
        p.auth matches AuthView::NtDomain { username, password, .. } ==> !all_white_space(username) && password.len() > 0,
{
}

fn connection_failure(message: &str) -> (e: Error)
    ensures
        is_connection_failure(e, message@),
{
    Error::ConnectionFailed { message: string_of(message) }
}

impl SoftEtherClient {
    /// Get the human-readable description of a SoftEther error code.
    pub fn get_error_description(&self, error_code: u32) -> (d: &'static str)
        ensures
            d@ == error_description(error_code),
    {
        match error_code {
            0 => "No error",
            1 => "Connection to the server has failed",
            2 => "The destination server is not a VPN server",
            3 => "The connection has been interrupted",
            4 => "Protocol error",
            5 => "Connecting client is not a VPN client",
            6 => "User cancel",
            7 => "Specified authentication method is not supported",
            8 => "The HUB does not exist",
            9 => "Authentication failure",
            10 => "HUB is stopped",
            11 => "Session has been deleted",
            12 => "Access denied",
            13 => "Session times out",
            14 => "Protocol is invalid",
            15 => "Too many connections",
            16 => "Too many sessions of the HUB",
            17 => "Connection to the proxy server fails",
            18 => "Proxy Error",
            19 => "Failed to authenticate on the proxy server",
            30 => "Virtual LAN card with the specified name already exists",
            31 => "Specified virtual LAN card cannot be created",
            32 => "Specified name of the virtual LAN card is invalid",
            33 => "Unsupported",
            34 => "Account already exists",
            35 => "Account is operating",
            36 => "Specified account doesn't exist",
            37 => "Account is offline",
            38 => "Parameter is invalid",
            39 => "Error has occurred in the operation of the secure device",
            _ => "Unknown error",
        }
    }

    /// Validate connection parameters before attempting a connection.
    pub fn validate_connection_parameters(&self, profile: &VpnProfile) -> (r: Result<(), Error>)
        ensures
            match connection_parameter_issue(profile@) {
                None => r is Ok,
                Some(m) => r matches Err(e) && is_connection_failure(e, m),
            },
    {
        if is_blank(profile.host.as_str()) {
            return Err(connection_failure("Server hostname/IP address is empty"));
        }
        if profile.port == 0 {
            return Err(connection_failure("Invalid port number (must be > 0)"));
        }
        match &profile.auth {
            AuthMethod::Password { username, password } => {
                if is_blank(username.as_str()) {
                    return Err(connection_failure("Username is required for password authentication"));
                }
                if password.as_str().is_empty() {
                    return Err(connection_failure("Password is required for password authentication"));
                }
            },
            AuthMethod::NtDomain { username, password, .. } => {
                if is_blank(username.as_str()) {
                    return Err(connection_failure("Username is required for NT domain authentication"));
                }
                if password.as_str().is_empty() {
                    return Err(connection_failure("Password is required for NT domain authentication"));
                }
            },
            AuthMethod::Radius => {},
            AuthMethod::Certificate { .. } => {
                return Err(connection_failure("Certificate authentication is not yet supported"));
            },
        }
        Ok(())
    }

    /// The sentence that describes the result of resolving the profile's host.
    pub fn connectivity_message(&self, profile: &VpnProfile, lookup: HostLookup) -> (m: String)
        ensures
            m@ == connectivity_text(profile@, lookup),
    {
        match lookup {
            HostLookup::Resolved => string_of("Server hostname resolves successfully"),
            HostLookup::NoAddresses => {
                let mut m = string_of("Server hostname '");
                append_str(&mut m, profile.host.as_str());
                append_str(&mut m, "' resolves but no addresses found for port ");
                append_u64(&mut m, profile.port as u64);
                m
            },
            HostLookup::Failed(e) => {
                let mut m = string_of("Cannot resolve server hostname '");
                append_str(&mut m, profile.host.as_str());
                append_str(&mut m, "': ");
                append_str(&mut m, e.as_str());
                m
            },
        }
    }

    /// Detailed error information after a connection failure, given the sentence
    /// that describes the network check.
    pub fn get_connection_error_details(&self, profile: &VpnProfile, connectivity: &str) -> (m: String)
        ensures
            m@ == error_details_text(profile@, connectivity@),
    {
        let auth_info = match &profile.auth {
            AuthMethod::Password { .. } => "using password authentication",
            AuthMethod::NtDomain { .. } => "using NT domain authentication",
            AuthMethod::Radius => "using RADIUS authentication",
            AuthMethod::Certificate { .. } => "using certificate authentication",
        };
        let mut m = string_of("Failed to connect to VPN server '");
        append_str(&mut m, profile.host.as_str());
        append_str(&mut m, "' on ");
        append_str(&mut m, profile.host.as_str());
        append_str(&mut m, ":");
        append_u64(&mut m, profile.port as u64);
        append_str(&mut m, " ");
        append_str(&mut m, auth_info);
        append_str(&mut m, ". ");
        append_str(&mut m, connectivity);
        append_str(
            &mut m,
            ". Possible causes: server unreachable, invalid credentials, authentication method not supported by server, or server configuration issues.",
        );
        m
    }

    /// The error for a failed account creation.
    pub fn account_creation_error(&self, error_code: u32, account_name: &str) -> (e: Error)
        ensures
            is_connection_failure(
                e,
                "SoftEther Error "@ + decimal(error_code as nat) + " ("@ + error_description(error_code)
                    + ") while creating account '"@ + account_name@ + "'"@,
            ),
    {
        let mut m = string_of("SoftEther Error ");
        append_u64(&mut m, error_code as u64);
        append_str(&mut m, " (");
        append_str(&mut m, self.get_error_description(error_code));
        append_str(&mut m, ") while creating account '");
        append_str(&mut m, account_name);
        append_str(&mut m, "'");
        Error::ConnectionFailed { message: m }
    }

    /// The error for a failed connect request: a rejection of the server
    /// certificate by the user, or SoftEther's error code with the details.
    pub fn connect_failure_error(
        &self,
        decision: Option<CertificateDecision>,
        error_code: u32,
        details: &str,
    ) -> (e: Error)
        ensures
            decision == Some(CertificateDecision::Reject) ==> is_connection_failure(
                e,
                "Server certificate was rejected by the user"@,
            ),
            decision != Some(CertificateDecision::Reject) ==> is_connection_failure(
                e,
                "SoftEther Error "@ + decimal(error_code as nat) + " ("@ + error_description(error_code)
                    + "). "@ + details@,
            ),
    {
        match decision {
            Some(CertificateDecision::Reject) => connection_failure("Server certificate was rejected by the user"),
            _ => {
                let mut m = string_of("SoftEther Error ");
                append_u64(&mut m, error_code as u64);
                append_str(&mut m, " (");
                append_str(&mut m, self.get_error_description(error_code));
                append_str(&mut m, "). ");
                append_str(&mut m, details);
                Error::ConnectionFailed { message: m }
            },
        }
    }
}

/// Hexadecimal fingerprint of a certificate digest: two upper-case digits per byte.
pub fn certificate_fingerprint(digest: &[u8]) -> (f: String)
    ensures
        f@ == hex_upper(digest@),
{
    format_hex_upper(digest)
}

/// The text of a NUL-terminated wide string, or `None` when it is empty.
pub fn wide_text(units: &[u16]) -> (r: Option<String>)
    ensures
        until_nul(units@).len() == 0 ==> r is None,
        until_nul(units@).len() > 0 ==> (r matches Some(t) && t@ == crate::text::utf16_decode(until_nul(units@))),
{
    if units.len() == 0 || units[0] == 0 {
        None
    } else {
        Some(softether_wide_to_rust(units))
    }
}

/// The parts of a certificate's subject or issuer name that could be read.
#[derive(Debug)]
pub struct CertificateName {
    pub common_name: Option<String>,
    pub organization: Option<String>,
    pub unit: Option<String>,
    pub state: Option<String>,
    pub local: Option<String>,
    pub country: Option<String>,
}

/// One `KEY=value` part, when the value is present.
pub open spec fn name_part(key: Seq<char>, v: Option<String>) -> Seq<Seq<char>> {
    match v {
        Some(s) => seq![key + s@],
        None => Seq::empty(),
    }
}

/// The `KEY=value` parts of a certificate name, in the order CN, O, OU, ST, L, C.
pub open spec fn cert_name_parts(n: CertificateName) -> Seq<Seq<char>> {
    name_part("CN="@, n.common_name) + name_part("O="@, n.organization) + name_part("OU="@, n.unit)
        + name_part("ST="@, n.state) + name_part("L="@, n.local) + name_part("C="@, n.country)
}

fn push_part(parts: &mut Vec<String>, key: &str, v: &Option<String>)
    ensures
        final(parts)@.map_values(|s: String| s@) == old(parts)@.map_values(|s: String| s@) + name_part(key@, *v),
{
    match v {
        Some(value) => {
            let mut p = string_of(key);
            append_str(&mut p, value.as_str());
            let ghost before = parts@;
            parts.push(p);
            assert(parts@.map_values(|s: String| s@) =~= before.map_values(|s: String| s@) + name_part(key@, *v));
        },
        None => {
            assert(old(parts)@.map_values(|s: String| s@) + name_part(key@, *v) =~= old(parts)@.map_values(
                |s: String| s@,
            ));
        },
    }
}

/// A certificate name as text: its present parts joined with ", ", or `None`
/// when no part is present.
pub fn format_cert_name(name: &CertificateName) -> (r: Option<String>)
    ensures
        cert_name_parts(*name).len() == 0 ==> r is None,
        cert_name_parts(*name).len() > 0 ==> (r matches Some(t) && t@ == join_with(cert_name_parts(*name), ", "@)),
{
    let mut parts: Vec<String> = Vec::new();
    assert(parts@.map_values(|s: String| s@) =~= Seq::<Seq<char>>::empty());
    push_part(&mut parts, "CN=", &name.common_name);
    push_part(&mut parts, "O=", &name.organization);
    push_part(&mut parts, "OU=", &name.unit);
    push_part(&mut parts, "ST=", &name.state);
    push_part(&mut parts, "L=", &name.local);
    push_part(&mut parts, "C=", &name.country);
    assert(parts@.map_values(|s: String| s@) =~= cert_name_parts(*name));
    if parts.len() == 0 {
        None
    } else {
        Some(join_strings(&parts, ", "))
    }
}

/// The user name sent for NT domain authentication: `domain\\username` with the
/// domain trimmed, or the user name alone when the domain is blank.
pub open spec fn nt_domain_user(username: Seq<char>, domain: Seq<char>) -> Seq<char> {
    if all_white_space(domain) { username } else { trim(domain) + "\\"@ + username }
}

/// How the client authenticates to the server.
#[derive(Debug)]
pub struct ClientAuthSettings {
    /// SoftEther's authentication type.
    pub auth_type: u32,
    /// The user name field: the trimmed user name, NUL-terminated and
    /// zero-padded (all zeros without password authentication).
    pub username: [u8; 256],
    /// The password field, filled in the same way.
    pub password: [u8; 256],
}

/// Whether a text's trimmed UTF-8 bytes fit a 256-byte SoftEther field with
/// room for the terminating NUL.
pub open spec fn fits_field(value: Seq<char>) -> bool {
    trimmed_bytes(value).len() < 256
}

/// The user name and password sent for an authentication method that sends
/// them: password and NT domain authentication.
pub open spec fn credentials(a: AuthView) -> Option<(Seq<char>, Seq<char>)> {
    match a {
        AuthView::Password { username, password } => Some((username, password)),
        AuthView::NtDomain { username, password, domain } => Some((nt_domain_user(username, domain), password)),
        _ => None,
    }
}

/// Whether the authentication settings can be built for a method: RADIUS, or
/// credentials whose trimmed user name and password both fit their fields.
pub open spec fn auth_fits(a: AuthView) -> bool {
    match credentials(a) {
        Some((user, pass)) => fits_field(user) && fits_field(pass),
        None => a is Radius,
    }
}

/// Whether `s` holds the authentication settings for a method that fits.
pub open spec fn client_auth_fields(s: ClientAuthSettings, a: AuthView) -> bool {
    match credentials(a) {
        Some((user, pass)) => s.auth_type == CLIENT_AUTHTYPE_PASSWORD && s.username@ == zero_padded(
            trimmed_bytes(user),
            256,
        ) && s.password@ == zero_padded(trimmed_bytes(pass), 256),
        None => s.auth_type == CLIENT_AUTHTYPE_ANONYMOUS && all_zero_u8(s.username@) && all_zero_u8(s.password@),
    }
}

/// Whether `e` is the error that building the authentication settings gives for
/// a method that does not fit: the user name's field error, else the password's,
/// or the refusal of certificate authentication.
pub open spec fn auth_failure(a: AuthView, e: Error) -> bool {
    match credentials(a) {
        Some((user, pass)) => if !fits_field(user) {
            field_error(e, user, 256)
        } else {
            field_error(e, pass, 256)
        },
        None => is_connection_failure(e, "Certificate authentication is not yet supported"@),
    }
}

fn password_settings(user: &str, pass: &str) -> (r: Result<ClientAuthSettings, Error>)
    ensures
        !fits_field(user@) ==> (r matches Err(e) && field_error(e, user@, 256)),
        fits_field(user@) && !fits_field(pass@) ==> (r matches Err(e) && field_error(e, pass@, 256)),
        fits_field(user@) && fits_field(pass@) ==> (r matches Ok(s) && s.auth_type == CLIENT_AUTHTYPE_PASSWORD
            && s.username@ == zero_padded(trimmed_bytes(user@), 256) && s.password@ == zero_padded(
            trimmed_bytes(pass@),
            256,
        )),
{
    let mut username = [0u8; 256];
    match copy_to_c_buffer(&mut username, user) {
        Ok(()) => {},
        Err(e) => {
            return Err(e);
        },
    }
    let mut password = [0u8; 256];
    match copy_to_c_buffer(&mut password, pass) {
        Ok(()) => {},
        Err(e) => {
            return Err(e);
        },
    }
    Ok(ClientAuthSettings { auth_type: CLIENT_AUTHTYPE_PASSWORD, username, password })
}

impl SoftEtherClient {
    /// The authentication settings for a profile: password authentication for
    /// password and NT domain profiles (the latter with the domain in the user
    /// name), with the trimmed user name and password copied into SoftEther's
    /// fields; anonymous for RADIUS. Fails when the user name, then the password,
    /// does not fit its field; certificate authentication is refused.
    pub fn build_client_auth(&self, profile: &VpnProfile) -> (r: Result<ClientAuthSettings, Error>)
        ensures
            auth_fits(profile@.auth) ==> (r matches Ok(s) && client_auth_fields(s, profile@.auth)),
            !auth_fits(profile@.auth) ==> (r matches Err(e) && auth_failure(profile@.auth, e)),
    {
        match &profile.auth {
            AuthMethod::Password { username, password } => password_settings(username.as_str(), password.as_str()),
            AuthMethod::NtDomain { username, password, domain } => {
                let combined = if is_blank(domain.as_str()) {
                    username.clone()
                } else {
                    let mut c = trim_str(domain.as_str());
                    append_str(&mut c, "\\");
                    append_str(&mut c, username.as_str());
                    c
                };
                password_settings(combined.as_str(), password.as_str())
            },
            AuthMethod::Radius => {
                let s = ClientAuthSettings {
                    auth_type: CLIENT_AUTHTYPE_ANONYMOUS,
                    username: [0u8; 256],
                    password: [0u8; 256],
                };
                assert(all_zero_u8(s.username@) && all_zero_u8(s.password@));
                Ok(s)
            },
            AuthMethod::Certificate { .. } => Err(connection_failure(
                "Certificate authentication is not yet supported",
            )),
        }
    }
}

/// The trimmed value of an option when it is set and not blank.
pub open spec fn nonblank_option(p: ProfileView, key: Seq<char>) -> Option<Seq<char>> {
    if p.options.contains_key(key) && !all_white_space(p.options[key]) {
        Some(trim(p.options[key]))
    } else {
        None
    }
}

/// The certificates a profile asks to trust before connecting.
#[derive(Debug)]
pub struct CertificateSources {
    /// A server certificate in PEM form (option `server_cert`).
    pub server_cert_pem: Option<String>,
    /// A CA certificate file (option `certificate_path`).
    pub certificate_path: Option<String>,
}

fn trimmed_option(profile: &VpnProfile, key: &str) -> (r: Option<String>)
    ensures
        match nonblank_option(profile@, key@) {
            Some(v) => r matches Some(t) && t@ == v,
            None => r is None,
        },
{
    match profile.options.get(key) {
        Some(v) => {
            if is_blank(v.as_str()) {
                None
            } else {
                Some(trim_str(v.as_str()))
            }
        },
        None => None,
    }
}

impl SoftEtherClient {
    /// The certificates to load for a profile: the trimmed `server_cert` and
    /// `certificate_path` options, where they are set and not blank.
    pub fn load_profile_certificate(&self, profile: &VpnProfile) -> (r: CertificateSources)
        ensures
            match nonblank_option(profile@, "server_cert"@) {
                Some(v) => r.server_cert_pem matches Some(t) && t@ == v,
                None => r.server_cert_pem is None,
            },
            match nonblank_option(profile@, "certificate_path"@) {
                Some(v) => r.certificate_path matches Some(t) && t@ == v,
                None => r.certificate_path is None,
            },
    {
        CertificateSources {
            server_cert_pem: trimmed_option(profile, "server_cert"),
            certificate_path: trimmed_option(profile, "certificate_path"),
        }
    }
}

/// Copies the trimmed value's UTF-8 bytes into a NUL-terminated SoftEther field,
/// zeroing the rest; fails, leaving the field as it was, when the bytes and the
/// terminating NUL do not fit.
pub fn copy_to_c_buffer(buffer: &mut [u8], value: &str) -> (r: Result<(), Error>)
    ensures
        ({
            let bytes = vstd::utf8::encode_utf8(trim(value@));
            &&& bytes.len() >= old(buffer)@.len() ==> (r matches Err(e) && is_connection_failure(
                e,
                "Value '"@ + trim(value@) + "' is too long for a SoftEther field ("@ + decimal(
                    old(buffer)@.len() as nat,
                ) + " bytes)"@,
            )) && final(buffer)@ == old(buffer)@
            &&& bytes.len() < old(buffer)@.len() ==> r is Ok && final(buffer)@ == bytes + Seq::new(
                (old(buffer)@.len() - bytes.len()) as nat,
                |i: int| 0u8,
            )
        }),
{
    let trimmed = trim_str(value);
    let bytes = trimmed.as_str().as_bytes();
    let n = buffer.len();
    if bytes.len() >= n {
        let mut m = string_of("Value '");
        append_str(&mut m, trimmed.as_str());
        append_str(&mut m, "' is too long for a SoftEther field (");
        append_u64(&mut m, n as u64);
        append_str(&mut m, " bytes)");
        return Err(Error::ConnectionFailed { message: m });
    }
    let mut i: usize = 0;
    while i < n
        invariant
            i <= n,
            buffer@.len() == n,
            bytes@.len() < n,
            forall|k: int| 0 <= k < i ==> buffer@[k] == (if k < bytes@.len() { bytes@[k] } else { 0u8 }),
        decreases n - i,
    {
        if i < bytes.len() {
            buffer[i] = bytes[i];
        } else {
            buffer[i] = 0;
        }
        i = i + 1;
    }
    assert(buffer@ =~= bytes@ + Seq::new((n - bytes@.len()) as nat, |i: int| 0u8));
    Ok(())
}

/// What probing the server with an HTTP request gave.
#[derive(Debug)]
pub enum HttpProbe {
    /// The server could not be reached for the probe.
    Unreachable,
    /// The request could not be sent.
    WriteFailed,
    /// No answer came (or reading failed).
    NoResponse,
    /// These bytes came back (at least one).
    Response(Vec<u8>),
}

/// The first `n` bytes, or all of them when there are fewer.
pub open spec fn prefix_upto(b: Seq<u8>, n: int) -> Seq<u8> {
    if b.len() <= n { b } else { b.take(n) }
}

/// The diagnostic lines about the HTTP probe.
pub open spec fn probe_lines(probe: HttpProbe) -> Seq<Seq<char>> {
    match probe {
        HttpProbe::Unreachable => seq!["✓ Could not test HTTP response"@],
        HttpProbe::WriteFailed => Seq::empty(),
        HttpProbe::NoResponse => seq!["✓ No HTTP response (expected for VPN server)"@],
        HttpProbe::Response(b) => if b@.len() == 0 {
            seq!["✓ No HTTP response (expected for VPN server)"@]
        } else {
            let text = utf8_lossy(prefix_upto(b@, 200));
            if seq_contains(text, "HTTP/"@) {
                seq![
                    "⚠️  Server responds to HTTP: "@ + first_line(text),
                    "   This might be a web server, not a VPN server!"@,
                ]
            } else {
                seq!["✓ Server doesn't respond like HTTP (good for VPN)"@]
            }
        },
    }
}

/// The diagnostic lines for a profile, given the outcome of the TCP connection
/// test and of the HTTP probe.
pub open spec fn diagnostic_lines(p: ProfileView, tcp: Result<(), String>, probe: HttpProbe) -> Seq<Seq<char>> {
    let first = "Testing TCP connection to "@ + p.host + ":"@ + decimal(p.port as nat) + "..."@;
    match tcp {
        Err(e) => seq![first, "✗ TCP connection failed: "@ + e@],
        Ok(_) => seq![first, "✓ TCP connection successful"@, "Testing if server responds to HTTP..."@]
            + probe_lines(probe),
    }
}

fn push_line(lines: &mut Vec<String>, line: String)
    ensures
        final(lines)@.map_values(|s: String| s@) == old(lines)@.map_values(|s: String| s@).push(line@),
{
    let ghost before = lines@;
    let ghost l = line@;
    lines.push(line);
    assert(lines@.map_values(|s: String| s@) =~= before.map_values(|s: String| s@).push(l));
}

impl SoftEtherClient {
    /// Connection diagnostics for a profile, one line per finding, given the
    /// outcome of the TCP connection test and of the HTTP probe.
    pub fn get_connection_diagnostics(&self, profile: &VpnProfile, tcp: Result<(), String>, probe: HttpProbe) -> (r: String)
        ensures
            r@ == join_with(diagnostic_lines(profile@, tcp, probe), "\n"@),
    {
        let ghost expected = diagnostic_lines(profile@, tcp, probe);
        let mut lines: Vec<String> = Vec::new();
        let mut first = string_of("Testing TCP connection to ");
        append_str(&mut first, profile.host.as_str());
        append_str(&mut first, ":");
        append_u64(&mut first, profile.port as u64);
        append_str(&mut first, "...");
        push_line(&mut lines, first);
        match tcp {
            Err(e) => {
                let mut l = string_of("✗ TCP connection failed: ");
                append_str(&mut l, e.as_str());
                push_line(&mut lines, l);
            },
            Ok(()) => {
                push_line(&mut lines, string_of("✓ TCP connection successful"));
                push_line(&mut lines, string_of("Testing if server responds to HTTP..."));
                match probe {
                    HttpProbe::Unreachable => push_line(&mut lines, string_of("✓ Could not test HTTP response")),
                    HttpProbe::WriteFailed => {},
                    HttpProbe::NoResponse => push_line(
                        &mut lines,
                        string_of("✓ No HTTP response (expected for VPN server)"),
                    ),
                    HttpProbe::Response(b) => {
                        if b.len() == 0 {
                            push_line(&mut lines, string_of("✓ No HTTP response (expected for VPN server)"));
                        } else {
                            let n = if b.len() <= 200 { b.len() } else { 200 };
                            let text = decode_utf8_lossy(b.as_slice().split_at(n).0);
                            assert(b@.subrange(0, n as int) =~= prefix_upto(b@, 200));
                            if str_contains(text.as_str(), "HTTP/") {
                                proof {
                                    reveal_strlit("HTTP/");
                                }
                                let mut l = string_of("⚠️  Server responds to HTTP: ");
                                let line = first_line_of(text.as_str());
                                append_str(&mut l, line.as_str());
                                push_line(&mut lines, l);
                                push_line(&mut lines, string_of("   This might be a web server, not a VPN server!"));
                            } else {
                                push_line(
                                    &mut lines,
                                    string_of("✓ Server doesn't respond like HTTP (good for VPN)"),
                                );
                            }
                        }
                    },
                }
            },
        }
        assert(lines@.map_values(|s: String| s@) =~= expected);
        join_strings(&lines, "\n")
    }
}


/// Law: a connection may start only from the disconnected or the error state; a
/// disconnection is refused only while connecting or disconnecting; and the
/// client counts as connected exactly when its status is `Connected`.
pub proof fn law_connection_lifecycle(s: ConnectionState)
    ensures
        connect_refusal(s) is None <==> (s is Disconnected || s is Error),
        disconnect_refusal(s) is None <==> !(s is Connecting || s is Disconnecting),
        (s == ConnectionState::Connected) == (status_of(s) == ConnectionStatus::Connected),
{
}


// ---------------------------------------------------------------------------
// Requests to SoftEther
// ---------------------------------------------------------------------------

/// The error that converting an over-long account name gives.
pub open spec fn account_name_error(e: Error) -> bool {
    e matches Error::EncodingError { message } && message@ == "String conversion failed: "@
        + "String too long for buffer"@
}

/// The error that copying an over-long value into a field of `len` bytes gives.
pub open spec fn field_error(e: Error, value: Seq<char>, len: nat) -> bool {
    is_connection_failure(
        e,
        "Value '"@ + trim(value) + "' is too long for a SoftEther field ("@ + decimal(len) + " bytes)"@,
    )
}

/// The device name the client's virtual network adapter is registered under.
pub open spec fn device_name() -> Seq<char> {
    "GEISTVPN"@
}

/// Whether `o` holds the connection options for a profile, under an account name
/// and a Virtual Hub.
pub open spec fn client_option_fields(o: CLIENT_OPTION, p: ProfileView, account: Seq<char>, hub: Seq<char>) -> bool {
    &&& o.AccountName@ == account_name_buffer(account)
    &&& o.Hostname@ == zero_padded(trimmed_bytes(p.host), 256)
    &&& o.HubName@ == zero_padded(trimmed_bytes(hub), 256)
    &&& o.DeviceName@ == zero_padded(trimmed_bytes(device_name()), 32)
    &&& o.Port == p.port as u32
    &&& o.PortUDP == 0 && o.ProxyType == PROXY_DIRECT && o.ProxyPort == 0
    &&& o.NumRetry == 1 && o.RetryInterval == 1 && o.MaxConnection == 1
    &&& o.UseEncrypt && o.UseCompress && !o.HalfConnection && o.NoRoutingTracking
    &&& o.AdditionalConnectionInterval == 1 && o.ConnectionDisconnectSpan == 0
    &&& o.HideStatusWindow && o.HideNicInfoWindow
    &&& !o.RequireMonitorMode && !o.RequireBridgeRoutingMode && !o.DisableQoS && !o.FromAdminPack
    &&& !o.NoUdpAcceleration
    &&& all_zero_u8(o.ProxyName@) && all_zero_u8(o.ProxyUsername@) && all_zero_u8(o.ProxyPassword@)
    &&& all_zero_u8(o.HostUniqueKey@) && all_zero_u8(o.CustomHttpHeader@) && all_zero_u8(o.HintStr@)
    &&& all_zero_u8(o.BindLocalIP.address@) && o.BindLocalIP.ipv6_scope_id == 0
    &&& o.BindLocalPort == 0
}

proof fn lemma_device_name_fits()
    ensures
        trimmed_bytes(device_name()).len() < 32,
{
    reveal_strlit("GEISTVPN");
    let s = device_name();
    assert(s.len() == 8);
    crate::text::lemma_trim_fixed(s);
    assert(vstd::utf8::is_ascii_chars(s));
    vstd::utf8::is_ascii_chars_encode_utf8(s);
}

impl SoftEtherClient {
    /// The connection options for an account that connects to `profile`'s server
    /// and the Virtual Hub `hub_name`. Fails when the account name does not fit
    /// SoftEther's account-name buffer, or the trimmed host or hub name does not
    /// fit its field (with room for the terminating NUL), checked in that order.
    pub fn build_client_option(&self, profile: &VpnProfile, account_name: &str, hub_name: &str) -> (r: Result<CLIENT_OPTION, Error>)
        ensures
            utf16_encode(account_name@).len() >= 128 ==> (r matches Err(e) && account_name_error(e)),
            utf16_encode(account_name@).len() < 128 && trimmed_bytes(profile@.host).len() >= 256 ==> (r matches Err(e)
                && field_error(e, profile@.host, 256)),
            utf16_encode(account_name@).len() < 128 && trimmed_bytes(profile@.host).len() < 256 && trimmed_bytes(
                hub_name@,
            ).len() >= 256 ==> (r matches Err(e) && field_error(e, hub_name@, 256)),
            utf16_encode(account_name@).len() < 128 && trimmed_bytes(profile@.host).len() < 256 && trimmed_bytes(
                hub_name@,
            ).len() < 256 ==> (r matches Ok(o) && client_option_fields(o, profile@, account_name@, hub_name@)),
    {
        let mut option = CLIENT_OPTION::default();
        match rust_to_softether_wide(account_name) {
            Ok(w) => {
                option.AccountName = w;
            },
            Err(e) => {
                return Err(e);
            },
        }
        match copy_to_c_buffer(&mut option.Hostname, profile.host.as_str()) {
            Ok(()) => {},
            Err(e) => {
                return Err(e);
            },
        }
        option.Port = profile.port as UINT;
        option.PortUDP = 0;
        option.ProxyType = PROXY_DIRECT;
        option.ProxyPort = 0;
        option.NumRetry = 1;
        option.RetryInterval = 1;
        match copy_to_c_buffer(&mut option.HubName, hub_name) {
            Ok(()) => {},
            Err(e) => {
                return Err(e);
            },
        }
        option.MaxConnection = 1;
        option.UseEncrypt = true;
        option.UseCompress = true;
        proof {
            lemma_device_name_fits();
            reveal_strlit("GEISTVPN");
        }
        match copy_to_c_buffer(&mut option.DeviceName, "GEISTVPN") {
            Ok(()) => {},
            Err(e) => {
                return Err(e);
            },
        }
        option.AdditionalConnectionInterval = 1;
        option.ConnectionDisconnectSpan = 0;
        option.HideStatusWindow = true;
        option.HideNicInfoWindow = true;
        option.NoRoutingTracking = true;
        option.NoUdpAcceleration = false;
        option.RequireMonitorMode = false;
        option.RequireBridgeRoutingMode = false;
        option.DisableQoS = false;
        option.FromAdminPack = false;
        option.BindLocalPort = 0;
        Ok(option)
    }

    /// The request that connects (or disconnects) an account.
    pub fn create_connect_request(&self, account_name: &str) -> (r: Result<RPC_CLIENT_CONNECT, Error>)
        ensures
            r is Ok <==> utf16_encode(account_name@).len() < 128,
            r matches Ok(q) ==> q.AccountName@ == account_name_buffer(account_name@),
            r matches Err(e) ==> account_name_error(e),
    {
        match rust_to_softether_wide(account_name) {
            Ok(w) => Ok(RPC_CLIENT_CONNECT { AccountName: w }),
            Err(e) => Err(e),
        }
    }
}

/// A request to create an account: its connection options and authentication,
/// and how SoftEther should treat the server's certificate.
#[derive(Debug)]
pub struct AccountRequest {
    pub client_option: CLIENT_OPTION,
    pub client_auth: ClientAuthSettings,
    pub startup_account: bool,
    pub check_server_cert: bool,
    pub retry_on_server_cert: bool,
    pub add_default_ca: bool,
}

impl SoftEtherClient {
    /// The request that creates the account for a profile: its connection
    /// options and authentication settings, not started at startup, with the
    /// server certificate checked (through the certificate callback) and no
    /// default CA added. Fails as `build_client_option`, then as
    /// `build_client_auth`, does.
    pub fn build_account_request(&self, profile: &VpnProfile, account_name: &str, hub_name: &str) -> (r: Result<AccountRequest, Error>)
        ensures
            r matches Ok(q) ==> client_option_fields(q.client_option, profile@, account_name@, hub_name@)
                && !q.startup_account && q.check_server_cert && !q.retry_on_server_cert && !q.add_default_ca,
            r matches Ok(q) ==> client_auth_fields(q.client_auth, profile@.auth),
            r is Ok <==> utf16_encode(account_name@).len() < 128 && trimmed_bytes(profile@.host).len() < 256
                && trimmed_bytes(hub_name@).len() < 256 && auth_fits(profile@.auth),
            utf16_encode(account_name@).len() >= 128 ==> (r matches Err(e) && account_name_error(e)),
            utf16_encode(account_name@).len() < 128 && trimmed_bytes(profile@.host).len() < 256 && trimmed_bytes(
                hub_name@,
            ).len() < 256 && !auth_fits(profile@.auth) ==> (r matches Err(e) && auth_failure(profile@.auth, e)),
    {
        let option = match self.build_client_option(profile, account_name, hub_name) {
            Ok(o) => o,
            Err(e) => {
                return Err(e);
            },
        };
        let auth = match self.build_client_auth(profile) {
            Ok(a) => a,
            Err(e) => {
                return Err(e);
            },
        };
        Ok(AccountRequest {
            client_option: option,
            client_auth: auth,
            startup_account: false,
            check_server_cert: true,
            retry_on_server_cert: false,
            add_default_ca: false,
        })
    }
}

/// The bytes before the first NUL (all of them when there is none).
pub open spec fn until_nul_u8(b: Seq<u8>) -> Seq<u8>
    decreases b.len(),
{
    if b.len() == 0 || b[0] == 0 {
        Seq::empty()
    } else {
        seq![b[0]] + until_nul_u8(b.drop_first())
    }
}

/// The text of a NUL-terminated byte string: the bytes before the first NUL,
/// decoded as UTF-8 with U+FFFD for invalid sequences.
pub fn c_string_lossy(bytes: &[u8]) -> (s: String)
    ensures
        s@ == utf8_lossy(until_nul_u8(bytes@)),
{
    let n = bytes.len();
    let mut end: usize = 0;
    assert(bytes@.skip(0) =~= bytes@);
    while end < n && bytes[end] != 0
        invariant
            end <= n,
            n == bytes@.len(),
            until_nul_u8(bytes@) == bytes@.take(end as int) + until_nul_u8(bytes@.skip(end as int)),
        decreases n - end,
    {
        proof {
            let rest = bytes@.skip(end as int);
            assert(rest.drop_first() =~= bytes@.skip(end + 1));
            assert(bytes@.take(end + 1) =~= bytes@.take(end as int) + seq![rest[0]]);
        }
        end = end + 1;
    }
    assert(until_nul_u8(bytes@.skip(end as int)) =~= Seq::<u8>::empty());
    assert(until_nul_u8(bytes@) =~= bytes@.take(end as int));
    let prefix = bytes.split_at(end).0;
    assert(prefix@ =~= bytes@.take(end as int));
    decode_utf8_lossy(prefix)
}

/// What the client learned when it asked SoftEther for an account's status.
#[derive(Debug)]
pub enum StatusReply {
    /// There is no SoftEther client to ask.
    NoClient,
    /// SoftEther refused the request.
    Failed,
    /// SoftEther's answer.
    Status(RPC_CLIENT_GET_CONNECTION_STATUS),
}

/// Whether `d` holds what SoftEther's status record `s` says.
pub open spec fn detailed_from_record(d: DetailedConnectionStatus, s: RPC_CLIENT_GET_CONNECTION_STATUS) -> bool {
    &&& d.account_name@ == crate::text::utf16_decode(until_nul(s.AccountName@))
    &&& d.active == s.Active
    &&& d.connected == s.Connected
    &&& d.session_status == s.SessionStatus
    &&& d.server_name@ == utf8_lossy(until_nul_u8(s.ServerName@))
    &&& d.server_port == s.ServerPort as u16
    &&& d.server_product_name@ == utf8_lossy(until_nul_u8(s.ServerProductName@))
    &&& d.server_product_version == s.ServerProductVer
    &&& d.server_product_build == s.ServerProductBuild
}

impl SoftEtherClient {
    /// The detailed status of the connection, from SoftEther's answer: all empty
    /// without a client, an FFI error when SoftEther refused, else its record
    /// (the server port truncated to 16 bits).
    pub fn get_detailed_status(&self, reply: StatusReply) -> (r: Result<DetailedConnectionStatus, Error>)
        ensures
            match reply {
                StatusReply::NoClient => r matches Ok(d) && d.account_name@.len() == 0 && !d.active && !d.connected
                    && d.session_status == 0 && d.server_name@.len() == 0 && d.server_port == 0
                    && d.server_product_name@.len() == 0 && d.server_product_version == 0
                    && d.server_product_build == 0,
                StatusReply::Failed => r matches Err(e) && (e matches Error::FfiError { message } && message@
                    == "Failed to get connection status"@),
                StatusReply::Status(s) => r matches Ok(d) && detailed_from_record(d, s),
            },
    {
        match reply {
            StatusReply::NoClient => Ok(DetailedConnectionStatus {
                account_name: String::new(),
                active: false,
                connected: false,
                session_status: 0,
                server_name: String::new(),
                server_port: 0,
                server_product_name: String::new(),
                server_product_version: 0,
                server_product_build: 0,
            }),
            StatusReply::Failed => Err(Error::FfiError { message: string_of("Failed to get connection status") }),
            StatusReply::Status(s) => Ok(DetailedConnectionStatus {
                account_name: softether_wide_to_rust(&s.AccountName),
                active: s.Active,
                connected: s.Connected,
                session_status: s.SessionStatus,
                server_name: c_string_lossy(&s.ServerName),
                server_port: s.ServerPort as u16,
                server_product_name: c_string_lossy(&s.ServerProductName),
                server_product_version: s.ServerProductVer,
                server_product_build: s.ServerProductBuild,
            }),
        }
    }
}

} // verus!
