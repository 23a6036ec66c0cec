//! The profile form: its fields as the user typed them, and the conversions
//! between the form and a profile.

use vstd::prelude::*;
use crate::profile::{
    new_profile_view, AuthMethod, AuthView, ProfileView, VpnProfile, VpnProtocol,
};
use crate::text::{decimal, format_u64, parse_unsigned, parse_unsigned_str, string_of};

verus! {

/// The kinds of authentication the form offers.
#[derive(Debug, Clone, Copy, PartialEq, Eq, Structural)]
pub enum AuthMethodType {
    Password,
    Radius,
    NtDomain,
}

/// The label under which the form lists an authentication kind.
pub open spec fn auth_type_label(t: AuthMethodType) -> Seq<char> {
    match t {
        AuthMethodType::Password => "Username/Password"@,
        AuthMethodType::Radius => "RADIUS"@,
        AuthMethodType::NtDomain => "NT Domain"@,
    }
}

impl AuthMethodType {
    /// The label under which the form lists this authentication kind.
    pub fn label(&self) -> (s: &'static str)
        ensures
            s@ == auth_type_label(*self),
    {
        match self {
            AuthMethodType::Password => "Username/Password",
            AuthMethodType::Radius => "RADIUS",
            AuthMethodType::NtDomain => "NT Domain",
        }
    }
}

/// The state of the profile form.
#[derive(Debug)]
pub struct ProfileModalState {
    pub name: String,
    pub host: String,
    pub port: String,
    pub protocol: VpnProtocol,
    pub hub_name: String,
    pub available_hubs: Vec<String>,
    pub hub_fetch_error: Option<String>,
    pub fetching_hubs: bool,
    pub account_name: String,
    pub timeout: String,
    pub auth_method_type: AuthMethodType,
    pub username: String,
    pub password: String,
    pub certificate_path: String,
    pub editing: bool,
}

/// The profile form as plain values.
pub struct ModalView {
    pub name: Seq<char>,
    pub host: Seq<char>,
    pub port: Seq<char>,
    pub protocol: VpnProtocol,
    pub hub_name: Seq<char>,
    pub available_hubs: Seq<Seq<char>>,
    pub hub_fetch_error: Option<Seq<char>>,
    pub fetching_hubs: bool,
    pub account_name: Seq<char>,
    pub timeout: Seq<char>,
    pub auth_method_type: AuthMethodType,
    pub username: Seq<char>,
    pub password: Seq<char>,
    pub certificate_path: Seq<char>,
    pub editing: bool,
}

/// The text of an optional string.
pub open spec fn opt_text(s: Option<String>) -> Option<Seq<char>> {
    match s {
        Some(t) => Some(t@),
        None => None,
    }
}

impl View for ProfileModalState {
    type V = ModalView;

    open spec fn view(&self) -> ModalView {
        ModalView {
            name: self.name@,
            host: self.host@,
            port: self.port@,
            protocol: self.protocol,
            hub_name: self.hub_name@,
            available_hubs: self.available_hubs@.map_values(|s: String| s@),
            hub_fetch_error: opt_text(self.hub_fetch_error),
            fetching_hubs: self.fetching_hubs,
            account_name: self.account_name@,
            timeout: self.timeout@,
            auth_method_type: self.auth_method_type,
            username: self.username@,
            password: self.password@,
            certificate_path: self.certificate_path@,
            editing: self.editing,
        }
    }
}

/// The empty form for a new profile: port 443, SSL-VPN, a 30-second timeout and
/// password authentication.
pub open spec fn blank_form() -> ModalView {
    ModalView {
        name: Seq::empty(),
        host: Seq::empty(),
        port: "443"@,
        protocol: VpnProtocol::SslVpn,
        hub_name: Seq::empty(),
        available_hubs: Seq::empty(),
        hub_fetch_error: None,
        fetching_hubs: false,
        account_name: Seq::empty(),
        timeout: "30"@,
        auth_method_type: AuthMethodType::Password,
        username: Seq::empty(),
        password: Seq::empty(),
        certificate_path: Seq::empty(),
        editing: false,
    }
}

impl Default for ProfileModalState {
    fn default() -> (s: Self)
        ensures
            s@ == blank_form(),
    {
        let s = ProfileModalState {
            name: String::new(),
            host: String::new(),
            port: string_of("443"),
            protocol: VpnProtocol::SslVpn,
            hub_name: String::new(),
            available_hubs: Vec::new(),
            hub_fetch_error: None,
            fetching_hubs: false,
            account_name: String::new(),
            timeout: string_of("30"),
            auth_method_type: AuthMethodType::Password,
            username: String::new(),
            password: String::new(),
            certificate_path: String::new(),
            editing: false,
        };
        assert(s@.available_hubs =~= Seq::<Seq<char>>::empty());
        s
    }
}

/// The authentication kind and credentials that the form shows for a profile's
/// authentication: certificate authentication shows as an empty password form.
pub open spec fn form_auth(a: AuthView) -> (AuthMethodType, Seq<char>, Seq<char>) {
    match a {
        AuthView::Password { username, password } => (AuthMethodType::Password, username, password),
        AuthView::Radius => (AuthMethodType::Radius, Seq::empty(), Seq::empty()),
        AuthView::NtDomain { username, password, .. } => (AuthMethodType::NtDomain, username, password),
        AuthView::Certificate { .. } => (AuthMethodType::Password, Seq::empty(), Seq::empty()),
    }
}

/// The form that editing a profile opens with.
pub open spec fn form_of(p: ProfileView) -> ModalView {
    ModalView {
        name: p.name,
        host: p.host,
        port: decimal(p.port as nat),
        protocol: p.protocol,
        account_name: p.account_name,
        timeout: decimal(p.timeout as nat),
        auth_method_type: form_auth(p.auth).0,
        username: form_auth(p.auth).1,
        password: form_auth(p.auth).2,
        editing: true,
        ..blank_form()
    }
}

/// What `to_profile` finds wrong with a form, if anything.
pub open spec fn form_issue(f: ModalView) -> Option<Seq<char>> {
    if parse_unsigned(f.port, u16::MAX as nat) is None {
        Some("Invalid port number"@)
    } else if parse_unsigned(f.timeout, u32::MAX as nat) is None {
        Some("Invalid timeout value"@)
    } else if f.auth_method_type != AuthMethodType::Radius && f.username.len() == 0 {
        Some("Username cannot be empty"@)
    } else if f.auth_method_type != AuthMethodType::Radius && f.password.len() == 0 {
        Some("Password cannot be empty"@)
    } else {
        None
    }
}

/// The authentication a valid form describes; NT Domain authentication uses the
/// domain `WORKGROUP`.
pub open spec fn auth_of_form(f: ModalView) -> AuthView {
    match f.auth_method_type {
        AuthMethodType::Password => AuthView::Password { username: f.username, password: f.password },
        AuthMethodType::Radius => AuthView::Radius,
        AuthMethodType::NtDomain => AuthView::NtDomain {
            username: f.username,
            password: f.password,
            domain: "WORKGROUP"@,
        },
    }
}

/// Whether `p` is the profile that a valid form `f` describes, with identifier
/// `id` when one is given: a new profile from the form's name, host, port and
/// protocol, with the form's authentication, account name and timeout.
pub open spec fn profile_from_form(p: ProfileView, f: ModalView, id: Option<Seq<char>>) -> bool {
    let port = parse_unsigned(f.port, u16::MAX as nat).unwrap();
    let timeout = parse_unsigned(f.timeout, u32::MAX as nat).unwrap();
    exists|base: ProfileView|
        #[trigger] new_profile_view(base, f.name, f.host, port as u16, f.protocol) && p == ProfileView {
            id: match id {
                Some(i) => i,
                None => base.id,
            },
            auth: auth_of_form(f),
            account_name: f.account_name,
            timeout: timeout as u32,
            ..base
        }
}

/// Whether the form is filled in enough to save: name, host and port are given,
/// and so are a username and password unless the authentication is RADIUS.
pub open spec fn form_complete(f: ModalView) -> bool {
    &&& f.name.len() > 0 && f.host.len() > 0 && f.port.len() > 0
    &&& f.auth_method_type != AuthMethodType::Radius ==> f.username.len() > 0 && f.password.len() > 0
}

impl ProfileModalState {
    /// The form's title: editing an existing profile or adding a new one.
    pub fn title(&self) -> (s: &'static str)
        ensures
            s@ == (if self.editing { "Edit VPN Profile"@ } else { "Add VPN Profile"@ }),
    {
        if self.editing { "Edit VPN Profile" } else { "Add VPN Profile" }
    }

    /// The form that editing a profile opens with.
    pub fn from_profile(profile: &VpnProfile) -> (s: Self)
        ensures
            s@ == form_of(profile@),
    {
        let (auth_method_type, username, password) = match &profile.auth {
            AuthMethod::Password { username, password } => (
                AuthMethodType::Password,
                username.clone(),
                password.clone(),
            ),
            AuthMethod::Radius => (AuthMethodType::Radius, String::new(), String::new()),
            AuthMethod::NtDomain { username, password, .. } => (
                AuthMethodType::NtDomain,
                username.clone(),
                password.clone(),
            ),
            _ => (AuthMethodType::Password, String::new(), String::new()),
        };
        let s = ProfileModalState {
            name: profile.name.clone(),
            host: profile.host.clone(),
            port: format_u64(profile.port as u64),
            protocol: profile.protocol,
            hub_name: String::new(),
            available_hubs: Vec::new(),
            hub_fetch_error: None,
            fetching_hubs: false,
            account_name: profile.account_name.clone(),
            timeout: format_u64(profile.timeout as u64),
            auth_method_type,
            username,
            password,
            certificate_path: String::new(),
            editing: true,
        };
        assert(s@.available_hubs =~= Seq::<Seq<char>>::empty());
        s
    }

    /// The profile the form describes, keeping the identifier `id` when editing.
    /// Fails with the first problem found: a port or timeout that is not a number
    /// of the right size, or missing credentials.
    pub fn to_profile(&self, id: Option<String>) -> (r: Result<VpnProfile, String>)
        ensures
            match form_issue(self@) {
                Some(m) => r matches Err(e) && e@ == m,
                None => r matches Ok(p) && profile_from_form(p@, self@, opt_text(id)),
            },
    {
        let port = match parse_unsigned_str(self.port.as_str(), 65535) {
            Some(p) => p as u16,
            None => {
                return Err(string_of("Invalid port number"));
            },
        };
        let timeout = match parse_unsigned_str(self.timeout.as_str(), 4294967295) {
            Some(t) => t as u32,
            None => {
                return Err(string_of("Invalid timeout value"));
            },
        };
        let auth = match self.auth_method_type {
            AuthMethodType::Password => {
                if self.username.as_str().is_empty() {
                    return Err(string_of("Username cannot be empty"));
                }
                if self.password.as_str().is_empty() {
                    return Err(string_of("Password cannot be empty"));
                }
                AuthMethod::Password { username: self.username.clone(), password: self.password.clone() }
            },
            AuthMethodType::Radius => AuthMethod::Radius,
            AuthMethodType::NtDomain => {
                if self.username.as_str().is_empty() {
                    return Err(string_of("Username cannot be empty"));
                }
                if self.password.as_str().is_empty() {
                    return Err(string_of("Password cannot be empty"));
                }
                AuthMethod::NtDomain {
                    username: self.username.clone(),
                    password: self.password.clone(),
                    domain: string_of("WORKGROUP"),
                }
            },
        };
        let mut profile = VpnProfile::new(self.name.clone(), self.host.clone(), port, self.protocol);
        let ghost base = profile@;
        profile.auth = auth;
        profile.account_name = self.account_name.clone();
        profile.timeout = timeout;
        match id {
            Some(existing_id) => {
                profile.id = existing_id;
            },
            None => {},
        }
        assert(new_profile_view(base, self@.name, self@.host, port, self@.protocol));
        Ok(profile)
    }

    /// Whether the form is filled in enough to save.
    pub fn is_valid(&self) -> (r: bool)
        ensures
            r == form_complete(self@),
    {
        let basic_valid = !self.name.as_str().is_empty() && !self.host.as_str().is_empty()
            && !self.port.as_str().is_empty();
        if !basic_valid {
            return false;
        }
        match self.auth_method_type {
            AuthMethodType::Password => !self.username.as_str().is_empty() && !self.password.as_str().is_empty(),
            AuthMethodType::Radius => true,
            AuthMethodType::NtDomain => !self.username.as_str().is_empty()
                && !self.password.as_str().is_empty(),
        }
    }
}


/// Whether the form can show an authentication without losing any of it:
/// RADIUS, or credentials that are both given (with the `WORKGROUP` domain for NT
/// Domain authentication).
pub open spec fn form_shows_auth(a: AuthView) -> bool {
    match a {
        AuthView::Radius => true,
        AuthView::Password { username, password } => username.len() > 0 && password.len() > 0,
        AuthView::NtDomain { username, password, domain } => username.len() > 0 && password.len() > 0
            && domain == "WORKGROUP"@,
        AuthView::Certificate { .. } => false,
    }
}

/// Law: saving, unchanged, the form that editing a profile opens with describes
/// that profile again: the same identifier, name, host, port, protocol,
/// authentication, account name and timeout. This holds for every profile whose
/// authentication the form can show.
pub proof fn law_edit_round_trip(p: ProfileView, q: ProfileView)
    requires
        form_shows_auth(p.auth),
    ensures
        form_issue(form_of(p)) is None,
        form_complete(form_of(p)) == (p.name.len() > 0 && p.host.len() > 0),
        profile_from_form(q, form_of(p), Some(p.id)) ==> q.id == p.id && q.name == p.name && q.host == p.host
            && q.port == p.port && q.protocol == p.protocol && q.auth == p.auth && q.account_name
            == p.account_name && q.timeout == p.timeout,
{
    crate::text::lemma_parse_decimal(p.port as nat, u16::MAX as nat);
    crate::text::lemma_parse_decimal(p.timeout as nat, u32::MAX as nat);
    crate::text::lemma_decimal_digits(p.port as nat);
}

} // verus!
