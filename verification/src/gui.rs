//! The state of the Geist VPN window and how each message changes it. Work that
//! leaves the window (VPN connections, profile files, server queries, answers to
//! certificate prompts) is returned as an effect for the application to carry
//! out; its outcome comes back as a further message.

use vstd::prelude::*;
use crate::cert_prompt::{same_prompt, CertificateDecision, CertificatePrompt};
use crate::profile::{
    contains_id, find_profile, first_with_id, lemma_first_with_id_unique, profile_views, MetadataView,
    ProfileView, VpnProfile, VpnProtocol,
};
use crate::text::{append_str, is_blank, parse_unsigned, parse_unsigned_str, str_eq, string_of, trim};
use crate::ui::modal::{blank_form, form_complete, form_issue, form_of, profile_from_form, opt_text, AuthMethodType, ProfileModalState};

verus! {

/// Which profiles the profile panel lists.
#[derive(Debug, Clone, Copy, PartialEq, Eq, Structural)]
pub enum ViewMode {
    All,
    Favorites,
    Recent,
}

/// The connection status that the window shows.
#[derive(Debug)]
pub struct ConnectionStatus {
    pub connected: bool,
    pub profile_name: Option<String>,
    pub status_message: String,
}

impl Clone for ConnectionStatus {
    fn clone(&self) -> (r: Self)
        ensures
            r == *self,
    {
        ConnectionStatus {
            connected: self.connected,
            profile_name: match &self.profile_name {
                Some(n) => Some(n.clone()),
                None => None,
            },
            status_message: self.status_message.clone(),
        }
    }
}

impl Default for ConnectionStatus {
    /// Disconnected, with no profile.
    fn default() -> (s: Self)
        ensures
            !s.connected,
            s.profile_name is None,
            s.status_message@ == "Disconnected"@,
    {
        ConnectionStatus { connected: false, profile_name: None, status_message: string_of("Disconnected") }
    }
}


/// What happens in the window, and the outcomes of the work it asked for.
#[derive(Debug)]
pub enum Message {
    /// Connect the profile with this identifier.
    Connect(String),
    /// Disconnect the current connection.
    Disconnect,
    /// A connection or disconnection ended.
    ConnectionResult(Result<(), String>),
    /// Time to ask the VPN manager for the status.
    PollStatus,
    /// The VPN manager answered a status query.
    StatusPolled(Result<ConnectionStatus, String>),
    /// Load the profiles.
    LoadProfiles,
    /// The profiles were loaded.
    ProfilesLoaded(Result<Vec<VpnProfile>, String>),
    /// Open the form for a new profile.
    CreateProfile,
    /// Open the form for the profile with this identifier.
    EditProfile(String),
    /// Delete the profile with this identifier.
    DeleteProfile(String),
    /// Toggle the favorite mark of the profile with this identifier.
    ToggleFavorite(String),
    /// Save this profile.
    SaveProfile(VpnProfile),
    /// A profile was saved, or not.
    ProfileSaved(Result<(), String>),
    ProfileModalUpdateName(String),
    ProfileModalUpdateHost(String),
    ProfileModalUpdatePort(String),
    ProfileModalUpdateProtocol(VpnProtocol),
    ProfileModalUpdateHubName(String),
    ProfileModalUpdateAccount(String),
    ProfileModalUpdateTimeout(String),
    ProfileModalUpdateAuthMethodType(AuthMethodType),
    ProfileModalUpdateUsername(String),
    ProfileModalUpdatePassword(String),
    ProfileModalUpdateCertificatePath(String),
    /// Ask the server in the form for its Virtual Hubs.
    ProfileModalFetchHubs,
    /// The server's Virtual Hubs, or why they could not be had.
    ProfileModalHubListFetched(Result<Vec<String>, String>),
    ProfileModalHubSelected(String),
    /// Save the profile the form describes.
    ProfileModalSave,
    /// The profile with this identifier was chosen for quick connect.
    ProfileSelected(String),
    ViewChanged(ViewMode),
    ModalClosed,
    StatusUpdated(ConnectionStatus),
    CertificatePromptReceived(CertificatePrompt),
    CertificatePromptDecision(CertificateDecision),
    /// A server certificate was stored with a profile, so that it is trusted
    /// from now on.
    CertificateTrusted { profile_id: String, pem: String },
}

fn clone_profiles(v: &Vec<VpnProfile>) -> (r: Vec<VpnProfile>)
    ensures
        profile_views(r@) == profile_views(v@),
{
    let mut r: Vec<VpnProfile> = Vec::new();
    let mut i: usize = 0;
    while i < v.len()
        invariant
            i <= v@.len(),
            profile_views(r@) == profile_views(v@).take(i as int),
        decreases v@.len() - i,
    {
        let c = v[i].clone();
        let ghost before = r@;
        r.push(c);
        assert(profile_views(r@) =~= profile_views(before).push(v@[i as int]@));
        assert(profile_views(v@).take(i + 1) =~= profile_views(v@).take(i as int).push(v@[i as int]@));
        i = i + 1;
    }
    assert(profile_views(v@).take(v@.len() as int) =~= profile_views(v@));
    r
}

fn clone_text_result(r: &Result<(), String>) -> (c: Result<(), String>)
    ensures
        c == *r,
{
    match r {
        Ok(u) => Ok(*u),
        Err(e) => {
            let t = e.clone();
            Err(t)
        },
    }
}

/// Whether two messages say the same: the same variant with the same contents,
/// profiles and lists compared by their views and certificate prompts by
/// `same_prompt` (their reply channels aside).
pub open spec fn same_message(a: Message, b: Message) -> bool {
    match a {
        Message::ProfilesLoaded(x) => b matches Message::ProfilesLoaded(y) && match x {
            Ok(v) => y matches Ok(w) && profile_views(v@) == profile_views(w@),
            Err(e) => y == Err::<Vec<VpnProfile>, String>(e),
        },
        Message::SaveProfile(p) => b matches Message::SaveProfile(q) && p@ == q@,
        Message::ProfileModalHubListFetched(x) => b matches Message::ProfileModalHubListFetched(y) && match x {
            Ok(v) => y matches Ok(w) && v@ == w@,
            Err(e) => y == Err::<Vec<String>, String>(e),
        },
        Message::CertificatePromptReceived(p) => b matches Message::CertificatePromptReceived(q) && same_prompt(p, q),
        _ => a == b,
    }
}

impl Clone for Message {
    /// A message that says the same as this one.
    fn clone(&self) -> (m: Self)
        ensures
            same_message(m, *self),
    {
        match self {
            Message::Connect(id) => Message::Connect(id.clone()),
            Message::Disconnect => Message::Disconnect,
            Message::ConnectionResult(r) => Message::ConnectionResult(clone_text_result(r)),
            Message::PollStatus => Message::PollStatus,
            Message::StatusPolled(r) => Message::StatusPolled(
                match r {
                    Ok(s) => Ok(s.clone()),
                    Err(e) => Err(e.clone()),
                },
            ),
            Message::LoadProfiles => Message::LoadProfiles,
            Message::ProfilesLoaded(r) => Message::ProfilesLoaded(
                match r {
                    Ok(v) => Ok(clone_profiles(v)),
                    Err(e) => Err(e.clone()),
                },
            ),
            Message::CreateProfile => Message::CreateProfile,
            Message::EditProfile(id) => Message::EditProfile(id.clone()),
            Message::DeleteProfile(id) => Message::DeleteProfile(id.clone()),
            Message::ToggleFavorite(id) => Message::ToggleFavorite(id.clone()),
            Message::SaveProfile(p) => Message::SaveProfile(p.clone()),
            Message::ProfileSaved(r) => Message::ProfileSaved(clone_text_result(r)),
            Message::ProfileModalUpdateName(v) => Message::ProfileModalUpdateName(v.clone()),
            Message::ProfileModalUpdateHost(v) => Message::ProfileModalUpdateHost(v.clone()),
            Message::ProfileModalUpdatePort(v) => Message::ProfileModalUpdatePort(v.clone()),
            Message::ProfileModalUpdateProtocol(v) => Message::ProfileModalUpdateProtocol(*v),
            Message::ProfileModalUpdateHubName(v) => Message::ProfileModalUpdateHubName(v.clone()),
            Message::ProfileModalUpdateAccount(v) => Message::ProfileModalUpdateAccount(v.clone()),
            Message::ProfileModalUpdateTimeout(v) => Message::ProfileModalUpdateTimeout(v.clone()),
            Message::ProfileModalUpdateAuthMethodType(v) => Message::ProfileModalUpdateAuthMethodType(*v),
            Message::ProfileModalUpdateUsername(v) => Message::ProfileModalUpdateUsername(v.clone()),
            Message::ProfileModalUpdatePassword(v) => Message::ProfileModalUpdatePassword(v.clone()),
            Message::ProfileModalUpdateCertificatePath(v) => Message::ProfileModalUpdateCertificatePath(v.clone()),
            Message::ProfileModalFetchHubs => Message::ProfileModalFetchHubs,
            Message::ProfileModalHubListFetched(r) => Message::ProfileModalHubListFetched(
                match r {
                    Ok(v) => Ok(crate::profile::clone_strings(v)),
                    Err(e) => Err(e.clone()),
                },
            ),
            Message::ProfileModalHubSelected(v) => Message::ProfileModalHubSelected(v.clone()),
            Message::ProfileModalSave => Message::ProfileModalSave,
            Message::ProfileSelected(v) => Message::ProfileSelected(v.clone()),
            Message::ViewChanged(v) => Message::ViewChanged(*v),
            Message::ModalClosed => Message::ModalClosed,
            Message::StatusUpdated(s) => Message::StatusUpdated(s.clone()),
            Message::CertificatePromptReceived(p) => Message::CertificatePromptReceived(p.clone()),
            Message::CertificatePromptDecision(d) => Message::CertificatePromptDecision(*d),
            Message::CertificateTrusted { profile_id, pem } => Message::CertificateTrusted {
                profile_id: profile_id.clone(),
                pem: pem.clone(),
            },
        }
    }
}

/// Work that the window asks the application for.
#[derive(Debug)]
pub enum Effect {
    /// Nothing.
    Nothing,
    /// Handle this message next.
    Send(Message),
    /// Ask the VPN manager to connect this profile; its reply comes back as
    /// `ConnectionResult`.
    Connect(VpnProfile),
    /// Ask the VPN manager to disconnect; its reply comes back as
    /// `ConnectionResult`.
    Disconnect,
    /// Ask the VPN manager for the status; the answer comes back as
    /// `StatusPolled`.
    QueryStatus,
    /// Load the profiles; they come back as `ProfilesLoaded`.
    LoadProfiles,
    /// Delete the profile's file and cache entry, then send `LoadProfiles`.
    DeleteProfile(String),
    /// Write the profile; a failure is only logged.
    PersistProfile(VpnProfile),
    /// Save the profile; the outcome comes back as `ProfileSaved`.
    SaveProfile(VpnProfile),
    /// Ask the server for its Virtual Hubs; they come back as
    /// `ProfileModalHubListFetched`.
    FetchHubs { host: String, port: u16 },
    /// Send the decision to the prompt's callback. With `trust`, store the
    /// certificate with the prompt's profile, then send `CertificateTrusted`.
    AnswerCertificate { prompt: CertificatePrompt, decision: CertificateDecision, trust: bool },
}

/// The state of the window.
#[derive(Debug)]
pub struct GeistApp {
    pub connection_status: ConnectionStatus,
    pub selected_profile: Option<String>,
    pub profiles: Vec<VpnProfile>,
    pub current_view: ViewMode,
    pub has_profile_manager: bool,
    pub has_vpn_manager: bool,
    pub loading_profiles: bool,
    pub connecting: bool,
    pub show_profile_modal: bool,
    pub profile_modal_state: ProfileModalState,
    pub pending_certificate_prompt: Option<CertificatePrompt>,
}

/// The position of the first profile with identifier `id`, if any.
pub open spec fn index_of_id(s: Seq<ProfileView>, id: Seq<char>) -> Option<int> {
    if contains_id(s, id) {
        Some(choose|i: int| first_with_id(s, id, i))
    } else {
        None
    }
}

/// Whether `i` is the first position in `s` of a profile named `name`.
pub open spec fn first_with_name(s: Seq<ProfileView>, name: Seq<char>, i: int) -> bool {
    &&& 0 <= i < s.len()
    &&& s[i].name == name
    &&& forall|j: int| 0 <= j < i ==> s[j].name != name
}

/// The position of the first profile named `name`, if any.
pub open spec fn index_of_name(s: Seq<ProfileView>, name: Seq<char>) -> Option<int> {
    if exists|i: int| 0 <= i < s.len() && s[i].name == name {
        Some(choose|i: int| first_with_name(s, name, i))
    } else {
        None
    }
}

/// The status shown after something failed.
pub open spec fn failed_status(s: ConnectionStatus, message: Seq<char>) -> bool {
    !s.connected && s.profile_name is None && s.status_message@ == message
}

/// `q` is `p` with its favorite mark flipped (and a new update time).
pub open spec fn favorite_toggled(p: ProfileView, q: ProfileView) -> bool {
    q == ProfileView {
        metadata: MetadataView { favorite: !p.metadata.favorite, updated_at: q.metadata.updated_at, ..p.metadata },
        ..p
    }
}

/// `t` is `s` with only the element at `i` replaced, by `q`.
pub open spec fn replaced_at(s: Seq<VpnProfile>, t: Seq<VpnProfile>, i: int, pred: spec_fn(VpnProfile) -> bool) -> bool {
    &&& t.len() == s.len()
    &&& forall|j: int| 0 <= j < s.len() && j != i ==> t[j] == s[j]
    &&& pred(t[i])
}

/// The number a valid server port in the form stands for.
pub open spec fn form_port(f: Seq<char>) -> Option<nat> {
    match parse_unsigned(f, 65535) {
        Some(p) => if p > 0 { Some(p) } else { None },
        None => None,
    }
}

/// Whether `b` and `e` are the window and the effect after `a` handles `m`.
#[verifier::opaque]
pub open spec fn step(a: GeistApp, m: Message, b: GeistApp, e: Effect) -> bool {
    let views = profile_views(a.profiles@);
    match m {
        Message::Connect(id) => match index_of_id(views, id@) {
            None => b == GeistApp { connecting: false, ..a } && (e matches Effect::Send(
                Message::ConnectionResult(Err(t)),
            ) && t@ == "Profile not found"@),
            Some(i) => b == GeistApp { connecting: true, ..a } && if a.has_vpn_manager {
                e matches Effect::Connect(p) && p@ == views[i]
            } else {
                e matches Effect::Send(Message::ConnectionResult(Err(t))) && t@ == "VPN manager not initialized"@
            },
        },
        Message::Disconnect => b == GeistApp { connecting: true, ..a } && if a.has_vpn_manager {
            e is Disconnect
        } else {
            e matches Effect::Send(Message::ConnectionResult(Err(t))) && t@ == "VPN manager not initialized"@
        },
        Message::ConnectionResult(r) => e is Nothing && match r {
            Ok(()) => b == GeistApp { connecting: false, ..a },
            Err(t) => b == GeistApp { connecting: false, connection_status: b.connection_status, ..a }
                && failed_status(b.connection_status, "Operation failed: "@ + t@),
        },
        Message::PollStatus => if a.has_vpn_manager {
            b == a && e is QueryStatus
        } else {
            e is Nothing && b == GeistApp { connection_status: b.connection_status, ..a } && failed_status(
                b.connection_status,
                "VPN manager not available"@,
            )
        },
        Message::StatusPolled(r) => e is Nothing && match r {
            Ok(s) => b == GeistApp { connection_status: s, ..a },
            Err(t) => b == GeistApp { connection_status: b.connection_status, ..a } && failed_status(
                b.connection_status,
                "Status check failed: "@ + t@,
            ),
        },
        Message::LoadProfiles => b == GeistApp { loading_profiles: true, ..a } && if a.has_profile_manager {
            e is LoadProfiles
        } else {
            e matches Effect::Send(Message::ProfilesLoaded(Err(t))) && t@ == "Profile manager not initialized"@
        },
        Message::ProfilesLoaded(r) => e is Nothing && match r {
            Ok(ps) => b == GeistApp { loading_profiles: false, profiles: ps, ..a },
            Err(_) => b == GeistApp { loading_profiles: false, ..a },
        },
        Message::CreateProfile => e is Nothing && b == GeistApp {
            show_profile_modal: true,
            profile_modal_state: b.profile_modal_state,
            ..a
        } && b.profile_modal_state@ == blank_form(),
        Message::EditProfile(id) => e is Nothing && match index_of_id(views, id@) {
            None => b == a,
            Some(i) => b == GeistApp { show_profile_modal: true, profile_modal_state: b.profile_modal_state, ..a }
                && b.profile_modal_state@ == form_of(views[i]),
        },
        Message::DeleteProfile(id) => b == a && if a.has_profile_manager {
            e matches Effect::DeleteProfile(d) && d@ == id@
        } else {
            e matches Effect::Send(Message::LoadProfiles)
        },
        Message::ToggleFavorite(id) => match index_of_id(views, id@) {
            Some(i) => if a.has_profile_manager {
                b == GeistApp { profiles: b.profiles, ..a } && replaced_at(
                    a.profiles@,
                    b.profiles@,
                    i,
                    |q: VpnProfile| favorite_toggled(views[i], q@),
                ) && (e matches Effect::PersistProfile(p) && p@ == b.profiles@[i]@)
            } else {
                b == a && e is Nothing
            },
            None => b == a && e is Nothing,
        },
        Message::SaveProfile(p) => b == a && if a.has_profile_manager {
            e matches Effect::SaveProfile(q) && q == p
        } else {
            e matches Effect::Send(Message::ProfileSaved(Err(t))) && t@ == "Profile manager not initialized"@
        },
        Message::ProfileSaved(r) => (e matches Effect::Send(Message::LoadProfiles)) && match r {
            Ok(()) => b == GeistApp { show_profile_modal: false, ..a },
            Err(_) => b == a,
        },
        Message::ProfileModalUpdateName(v) => e is Nothing && b == GeistApp {
            profile_modal_state: ProfileModalState { name: v, ..a.profile_modal_state },
            ..a
        },
        Message::ProfileModalUpdateHost(v) => e is Nothing && b == GeistApp {
            profile_modal_state: ProfileModalState {
                host: v,
                available_hubs: b.profile_modal_state.available_hubs,
                hub_fetch_error: None,
                ..a.profile_modal_state
            },
            ..a
        } && b.profile_modal_state.available_hubs@.len() == 0,
        Message::ProfileModalUpdatePort(v) => e is Nothing && b == GeistApp {
            profile_modal_state: ProfileModalState {
                port: v,
                available_hubs: b.profile_modal_state.available_hubs,
                hub_fetch_error: None,
                ..a.profile_modal_state
            },
            ..a
        } && b.profile_modal_state.available_hubs@.len() == 0,
        Message::ProfileModalUpdateProtocol(v) => e is Nothing && b == GeistApp {
            profile_modal_state: ProfileModalState { protocol: v, ..a.profile_modal_state },
            ..a
        },
        Message::ProfileModalUpdateHubName(v) => e is Nothing && b == GeistApp {
            profile_modal_state: ProfileModalState { hub_name: v, ..a.profile_modal_state },
            ..a
        },
        Message::ProfileModalUpdateAccount(v) => e is Nothing && b == GeistApp {
            profile_modal_state: ProfileModalState { account_name: v, ..a.profile_modal_state },
            ..a
        },
        Message::ProfileModalUpdateTimeout(v) => e is Nothing && b == GeistApp {
            profile_modal_state: ProfileModalState { timeout: v, ..a.profile_modal_state },
            ..a
        },
        Message::ProfileModalUpdateAuthMethodType(v) => e is Nothing && b == GeistApp {
            profile_modal_state: ProfileModalState { auth_method_type: v, ..a.profile_modal_state },
            ..a
        },
        Message::ProfileModalUpdateUsername(v) => e is Nothing && b == GeistApp {
            profile_modal_state: ProfileModalState { username: v, ..a.profile_modal_state },
            ..a
        },
        Message::ProfileModalUpdatePassword(v) => e is Nothing && b == GeistApp {
            profile_modal_state: ProfileModalState { password: v, ..a.profile_modal_state },
            ..a
        },
        Message::ProfileModalUpdateCertificatePath(v) => e is Nothing && b == GeistApp {
            profile_modal_state: ProfileModalState { certificate_path: v, ..a.profile_modal_state },
            ..a
        },
        Message::ProfileModalFetchHubs => {
            let f = a.profile_modal_state;
            if f.fetching_hubs {
                b == a && e is Nothing
            } else if trim(f.host@).len() == 0 {
                e is Nothing && b == GeistApp {
                    profile_modal_state: ProfileModalState { hub_fetch_error: b.profile_modal_state.hub_fetch_error, ..f },
                    ..a
                } && opt_text(b.profile_modal_state.hub_fetch_error) == Some(
                    "Server host is required before fetching Virtual Hubs"@,
                )
            } else {
                match form_port(f.port@) {
                    None => e is Nothing && b == GeistApp {
                        profile_modal_state: ProfileModalState { hub_fetch_error: b.profile_modal_state.hub_fetch_error, ..f },
                        ..a
                    } && opt_text(b.profile_modal_state.hub_fetch_error) == Some(
                        "Enter a valid server port before fetching Virtual Hubs"@,
                    ),
                    Some(port) => b == GeistApp {
                        profile_modal_state: ProfileModalState { fetching_hubs: true, hub_fetch_error: None, ..f },
                        ..a
                    } && (e matches Effect::FetchHubs { host, port: p } && host@ == f.host@ && p == port),
                }
            }
        },
        Message::ProfileModalHubListFetched(r) => {
            let f = a.profile_modal_state;
            let g = b.profile_modal_state;
            e is Nothing && b == GeistApp { profile_modal_state: g, ..a } && match r {
                Ok(hubs) => if hubs@.len() == 0 {
                    g == ProfileModalState { fetching_hubs: false, available_hubs: hubs, hub_fetch_error: g.hub_fetch_error, ..f }
                        && opt_text(g.hub_fetch_error) == Some("Server returned no Virtual Hubs."@)
                } else {
                    g == ProfileModalState {
                        fetching_hubs: false,
                        available_hubs: hubs,
                        hub_fetch_error: None,
                        hub_name: g.hub_name,
                        ..f
                    } && g.hub_name@ == (if f.hub_name@.len() == 0 { hubs@[0]@ } else { f.hub_name@ })
                },
                Err(t) => g == ProfileModalState {
                    fetching_hubs: false,
                    available_hubs: g.available_hubs,
                    hub_fetch_error: Some(t),
                    ..f
                } && g.available_hubs@.len() == 0,
            }
        },
        Message::ProfileModalHubSelected(v) => e is Nothing && b == GeistApp {
            profile_modal_state: ProfileModalState { hub_name: v, ..a.profile_modal_state },
            ..a
        },
        Message::ProfileModalSave => b == a && {
            let f = a.profile_modal_state@;
            let id = if f.editing {
                match index_of_name(views, f.name) {
                    Some(i) => Some(views[i].id),
                    None => None,
                }
            } else {
                None
            };
            if form_complete(f) && form_issue(f) is None {
                e matches Effect::Send(Message::SaveProfile(p)) && profile_from_form(p@, f, id)
            } else {
                e is Nothing
            }
        },
        Message::ProfileSelected(id) => e is Nothing && b == GeistApp { selected_profile: Some(id), ..a },
        Message::ViewChanged(v) => e is Nothing && b == GeistApp { current_view: v, ..a },
        Message::ModalClosed => e is Nothing && b == GeistApp {
            show_profile_modal: false,
            profile_modal_state: b.profile_modal_state,
            ..a
        } && b.profile_modal_state@ == blank_form(),
        Message::StatusUpdated(s) => e is Nothing && b == GeistApp { connection_status: s, ..a },
        Message::CertificatePromptReceived(p) => e is Nothing && b == GeistApp {
            pending_certificate_prompt: Some(p),
            ..a
        },
        Message::CertificatePromptDecision(d) => match a.pending_certificate_prompt {
            Some(prompt) => b == GeistApp { pending_certificate_prompt: None, ..a } && e == Effect::AnswerCertificate {
                prompt,
                decision: d,
                trust: d == CertificateDecision::TrustPermanently && prompt.profile_id is Some && a.has_profile_manager,
            },
            None => b == a && e is Nothing,
        },
        Message::CertificateTrusted { profile_id, pem } => e is Nothing && match index_of_id(views, profile_id@) {
            Some(i) => b == GeistApp { profiles: b.profiles, ..a } && replaced_at(
                a.profiles@,
                b.profiles@,
                i,
                |q: VpnProfile| q@ == ProfileView { options: views[i].options.insert("server_cert"@, pem@), ..views[i] },
            ),
            None => b == a,
        },
    }
}


proof fn lemma_index_of_id(s: Seq<ProfileView>, id: Seq<char>, i: int)
    requires
        first_with_id(s, id, i),
    ensures
        index_of_id(s, id) == Some(i),
{
    let k = choose|k: int| first_with_id(s, id, k);
    lemma_first_with_id_unique(s, id, i, k);
}

proof fn lemma_index_of_name(s: Seq<ProfileView>, name: Seq<char>, i: int)
    requires
        first_with_name(s, name, i),
    ensures
        index_of_name(s, name) == Some(i),
{
    let k = choose|k: int| first_with_name(s, name, k);
    assert(first_with_name(s, name, k));
    if k < i {
        assert(s[k].name != name);
    }
    if i < k {
        assert(s[i].name != name);
    }
}

/// The position of the first profile with identifier `id`, if any.
fn locate(profiles: &Vec<VpnProfile>, id: &str) -> (r: Option<usize>)
    ensures
        match r {
            Some(i) => i < profiles@.len() && index_of_id(profile_views(profiles@), id@) == Some(i as int),
            None => index_of_id(profile_views(profiles@), id@) is None,
        },
{
    match find_profile(profiles, id) {
        Some(i) => {
            proof {
                lemma_index_of_id(profile_views(profiles@), id@, i as int);
            }
            Some(i)
        },
        None => None,
    }
}

/// The position of the first profile named `name`, if any.
fn locate_named(profiles: &Vec<VpnProfile>, name: &str) -> (r: Option<usize>)
    ensures
        match r {
            Some(i) => i < profiles@.len() && index_of_name(profile_views(profiles@), name@) == Some(i as int),
            None => index_of_name(profile_views(profiles@), name@) is None,
        },
{
    let ghost s = profile_views(profiles@);
    let mut i: usize = 0;
    while i < profiles.len()
        invariant
            i <= profiles@.len(),
            s == profile_views(profiles@),
            forall|j: int| 0 <= j < i ==> s[j].name != name@,
        decreases profiles@.len() - i,
    {
        if str_eq(profiles[i].name.as_str(), name) {
            proof {
                lemma_index_of_name(s, name@, i as int);
            }
            return Some(i);
        }
        i = i + 1;
    }
    None
}

fn failure(message: String) -> (s: ConnectionStatus)
    ensures
        failed_status(s, message@),
{
    ConnectionStatus { connected: false, profile_name: None, status_message: message }
}

fn prefixed(prefix: &str, detail: &str) -> (s: String)
    ensures
        s@ == prefix@ + detail@,
{
    let mut s = string_of(prefix);
    append_str(&mut s, detail);
    s
}

impl GeistApp {
    /// The window at start: disconnected, no profiles yet, all profiles in view,
    /// with or without the profile and VPN managers.
    pub fn new(has_profile_manager: bool, has_vpn_manager: bool) -> (app: Self)
        ensures
            !app.connection_status.connected,
            app.connection_status.profile_name is None,
            app.connection_status.status_message@ == "Disconnected"@,
            app.selected_profile is None,
            app.profiles@.len() == 0,
            app.current_view == ViewMode::All,
            app.has_profile_manager == has_profile_manager,
            app.has_vpn_manager == has_vpn_manager,
            !app.loading_profiles && !app.connecting && !app.show_profile_modal,
            app.profile_modal_state@ == blank_form(),
            app.pending_certificate_prompt is None,
    {
        GeistApp {
            connection_status: ConnectionStatus::default(),
            selected_profile: None,
            profiles: Vec::new(),
            current_view: ViewMode::All,
            has_profile_manager,
            has_vpn_manager,
            loading_profiles: false,
            connecting: false,
            show_profile_modal: false,
            profile_modal_state: ProfileModalState::default(),
            pending_certificate_prompt: None,
        }
    }

    fn on_connect(&mut self, id: String) -> (e: Effect)
        ensures
            step(*old(self), Message::Connect(id), *final(self), e),
    {
        proof {
            reveal(step);
        }
        match locate(&self.profiles, id.as_str()) {
            None => {
                self.connecting = false;
                Effect::Send(Message::ConnectionResult(Err(string_of("Profile not found"))))
            },
            Some(i) => {
                self.connecting = true;
                if self.has_vpn_manager {
                    Effect::Connect(self.profiles[i].clone())
                } else {
                    Effect::Send(Message::ConnectionResult(Err(string_of("VPN manager not initialized"))))
                }
            },
        }
    }

    fn on_toggle_favorite(&mut self, id: String) -> (e: Effect)
        ensures
            step(*old(self), Message::ToggleFavorite(id), *final(self), e),
    {
        proof {
            reveal(step);
        }
        if !self.has_profile_manager {
            return Effect::Nothing;
        }
        match locate(&self.profiles, id.as_str()) {
            None => Effect::Nothing,
            Some(i) => {
                let ghost views = profile_views(self.profiles@);
                let mut p = self.profiles.remove(i);
                p.toggle_favorite();
                let copy = p.clone();
                self.profiles.insert(i, p);
                assert(replaced_at(
                    old(self).profiles@,
                    self.profiles@,
                    i as int,
                    |q: VpnProfile| favorite_toggled(views[i as int], q@),
                ));
                Effect::PersistProfile(copy)
            },
        }
    }

    fn on_fetch_hubs(&mut self) -> (e: Effect)
        ensures
            step(*old(self), Message::ProfileModalFetchHubs, *final(self), e),
    {
        proof {
            reveal(step);
        }
        if self.profile_modal_state.fetching_hubs {
            return Effect::Nothing;
        }
        if is_blank(self.profile_modal_state.host.as_str()) {
            self.profile_modal_state.hub_fetch_error = Some(
                string_of("Server host is required before fetching Virtual Hubs"),
            );
            return Effect::Nothing;
        }
        let port = match parse_unsigned_str(self.profile_modal_state.port.as_str(), 65535) {
            Some(p) => if p > 0 { p as u16 } else {
                self.profile_modal_state.hub_fetch_error = Some(
                    string_of("Enter a valid server port before fetching Virtual Hubs"),
                );
                return Effect::Nothing;
            },
            None => {
                self.profile_modal_state.hub_fetch_error = Some(
                    string_of("Enter a valid server port before fetching Virtual Hubs"),
                );
                return Effect::Nothing;
            },
        };
        let host = self.profile_modal_state.host.clone();
        self.profile_modal_state.fetching_hubs = true;
        self.profile_modal_state.hub_fetch_error = None;
        Effect::FetchHubs { host, port }
    }

    fn on_hub_list(&mut self, r: Result<Vec<String>, String>) -> (e: Effect)
        ensures
            step(*old(self), Message::ProfileModalHubListFetched(r), *final(self), e),
    {
        proof {
            reveal(step);
        }
        self.profile_modal_state.fetching_hubs = false;
        match r {
            Ok(hubs) => {
                self.profile_modal_state.available_hubs = hubs;
                if self.profile_modal_state.available_hubs.len() == 0 {
                    self.profile_modal_state.hub_fetch_error = Some(string_of("Server returned no Virtual Hubs."));
                } else {
                    if self.profile_modal_state.hub_name.as_str().is_empty() {
                        self.profile_modal_state.hub_name = self.profile_modal_state.available_hubs[0].clone();
                    }
                    self.profile_modal_state.hub_fetch_error = None;
                }
            },
            Err(t) => {
                self.profile_modal_state.hub_fetch_error = Some(t);
                self.profile_modal_state.available_hubs = Vec::new();
            },
        }
        Effect::Nothing
    }

    fn on_modal_save(&mut self) -> (e: Effect)
        ensures
            step(*old(self), Message::ProfileModalSave, *final(self), e),
    {
        proof {
            reveal(step);
        }
        if !self.profile_modal_state.is_valid() {
            return Effect::Nothing;
        }
        let id = if self.profile_modal_state.editing {
            match locate_named(&self.profiles, self.profile_modal_state.name.as_str()) {
                Some(i) => Some(self.profiles[i].id.clone()),
                None => None,
            }
        } else {
            None
        };
        match self.profile_modal_state.to_profile(id) {
            Ok(p) => Effect::Send(Message::SaveProfile(p)),
            Err(_) => Effect::Nothing,
        }
    }

    fn on_certificate_decision(&mut self, d: CertificateDecision) -> (e: Effect)
        ensures
            step(*old(self), Message::CertificatePromptDecision(d), *final(self), e),
    {
        proof {
            reveal(step);
        }
        match self.pending_certificate_prompt.take() {
            Some(prompt) => {
                let trust = d == CertificateDecision::TrustPermanently && prompt.profile_id.is_some()
                    && self.has_profile_manager;
                Effect::AnswerCertificate { prompt, decision: d, trust }
            },
            None => Effect::Nothing,
        }
    }

    fn on_certificate_trusted(&mut self, profile_id: String, pem: String) -> (e: Effect)
        ensures
            step(*old(self), (Message::CertificateTrusted { profile_id, pem }), *final(self), e),
    {
        proof {
            reveal(step);
        }
        match locate(&self.profiles, profile_id.as_str()) {
            None => Effect::Nothing,
            Some(i) => {
                let ghost views = profile_views(self.profiles@);
                let mut p = self.profiles.remove(i);
                let _ = p.options.insert(string_of("server_cert"), pem);
                self.profiles.insert(i, p);
                assert(replaced_at(
                    old(self).profiles@,
                    self.profiles@,
                    i as int,
                    |q: VpnProfile| q@ == ProfileView { options: views[i as int].options.insert("server_cert"@, pem@), ..views[i as int] },
                ));
                Effect::Nothing
            },
        }
    }
}


impl GeistApp {
    /// Handle a message about connecting, disconnecting and the connection status.
    fn handle_connection(&mut self, message: Message) -> (e: Effect)
        requires
            message is Connect || message is Disconnect || message is ConnectionResult || message is PollStatus || message is StatusPolled || message is StatusUpdated,
        ensures
            step(*old(self), message, *final(self), e),
    {
        proof {
            reveal(step);
        }
        match message {
            Message::Connect(id) => self.on_connect(id),
            Message::Disconnect => {
                self.connecting = true;
                if self.has_vpn_manager {
                    Effect::Disconnect
                } else {
                    Effect::Send(Message::ConnectionResult(Err(string_of("VPN manager not initialized"))))
                }
            },
            Message::ConnectionResult(r) => {
                self.connecting = false;
                match r {
                    Ok(()) => {},
                    Err(t) => {
                        self.connection_status = failure(prefixed("Operation failed: ", t.as_str()));
                    },
                }
                Effect::Nothing
            },
            Message::PollStatus => {
                if self.has_vpn_manager {
                    Effect::QueryStatus
                } else {
                    self.connection_status = failure(string_of("VPN manager not available"));
                    Effect::Nothing
                }
            },
            Message::StatusPolled(r) => {
                match r {
                    Ok(status) => {
                        self.connection_status = status;
                    },
                    Err(t) => {
                        self.connection_status = failure(prefixed("Status check failed: ", t.as_str()));
                    },
                }
                Effect::Nothing
            },
            Message::StatusUpdated(status) => {
                self.connection_status = status;
                Effect::Nothing
            },
            _ => Effect::Nothing,
        }
    }

    /// Handle a message about the profile list, its views and the profile form opening and closing.
    fn handle_profiles(&mut self, message: Message) -> (e: Effect)
        requires
            message is LoadProfiles || message is ProfilesLoaded || message is CreateProfile || message is EditProfile || message is DeleteProfile || message is ToggleFavorite || message is SaveProfile || message is ProfileSaved || message is ProfileSelected || message is ViewChanged || message is ModalClosed,
        ensures
            step(*old(self), message, *final(self), e),
    {
        proof {
            reveal(step);
        }
        match message {
            Message::LoadProfiles => {
                self.loading_profiles = true;
                if self.has_profile_manager {
                    Effect::LoadProfiles
                } else {
                    Effect::Send(Message::ProfilesLoaded(Err(string_of("Profile manager not initialized"))))
                }
            },
            Message::ProfilesLoaded(r) => {
                self.loading_profiles = false;
                match r {
                    Ok(profiles) => {
                        self.profiles = profiles;
                    },
                    Err(_) => {},
                }
                Effect::Nothing
            },
            Message::CreateProfile => {
                self.show_profile_modal = true;
                self.profile_modal_state = ProfileModalState::default();
                Effect::Nothing
            },
            Message::EditProfile(id) => {
                match locate(&self.profiles, id.as_str()) {
                    Some(i) => {
                        self.show_profile_modal = true;
                        self.profile_modal_state = ProfileModalState::from_profile(&self.profiles[i]);
                    },
                    None => {},
                }
                Effect::Nothing
            },
            Message::DeleteProfile(id) => {
                if self.has_profile_manager {
                    Effect::DeleteProfile(id)
                } else {
                    Effect::Send(Message::LoadProfiles)
                }
            },
            Message::ToggleFavorite(id) => self.on_toggle_favorite(id),
            Message::SaveProfile(p) => {
                if self.has_profile_manager {
                    Effect::SaveProfile(p)
                } else {
                    Effect::Send(Message::ProfileSaved(Err(string_of("Profile manager not initialized"))))
                }
            },
            Message::ProfileSaved(r) => {
                match r {
                    Ok(()) => {
                        self.show_profile_modal = false;
                    },
                    Err(_) => {},
                }
                Effect::Send(Message::LoadProfiles)
            },
            Message::ProfileSelected(id) => {
                self.selected_profile = Some(id);
                Effect::Nothing
            },
            Message::ViewChanged(v) => {
                self.current_view = v;
                Effect::Nothing
            },
            Message::ModalClosed => {
                self.show_profile_modal = false;
                self.profile_modal_state = ProfileModalState::default();
                Effect::Nothing
            },
            _ => Effect::Nothing,
        }
    }

    /// Handle a message about the fields of the profile form, its hub list and saving it.
    fn handle_form(&mut self, message: Message) -> (e: Effect)
        requires
            message is ProfileModalUpdateName || message is ProfileModalUpdateHost || message is ProfileModalUpdatePort || message is ProfileModalUpdateProtocol || message is ProfileModalUpdateHubName || message is ProfileModalUpdateAccount || message is ProfileModalUpdateTimeout || message is ProfileModalUpdateAuthMethodType || message is ProfileModalUpdateUsername || message is ProfileModalUpdatePassword || message is ProfileModalUpdateCertificatePath || message is ProfileModalFetchHubs || message is ProfileModalHubListFetched || message is ProfileModalHubSelected || message is ProfileModalSave,
        ensures
            step(*old(self), message, *final(self), e),
    {
        proof {
            reveal(step);
        }
        match message {
            Message::ProfileModalUpdateName(v) => {
                self.profile_modal_state.name = v;
                Effect::Nothing
            },
            Message::ProfileModalUpdateHost(v) => {
                self.profile_modal_state.host = v;
                self.profile_modal_state.available_hubs = Vec::new();
                self.profile_modal_state.hub_fetch_error = None;
                Effect::Nothing
            },
            Message::ProfileModalUpdatePort(v) => {
                self.profile_modal_state.port = v;
                self.profile_modal_state.available_hubs = Vec::new();
                self.profile_modal_state.hub_fetch_error = None;
                Effect::Nothing
            },
            Message::ProfileModalUpdateProtocol(v) => {
                self.profile_modal_state.protocol = v;
                Effect::Nothing
            },
            Message::ProfileModalUpdateHubName(v) => {
                self.profile_modal_state.hub_name = v;
                Effect::Nothing
            },
            Message::ProfileModalUpdateAccount(v) => {
                self.profile_modal_state.account_name = v;
                Effect::Nothing
            },
            Message::ProfileModalUpdateTimeout(v) => {
                self.profile_modal_state.timeout = v;
                Effect::Nothing
            },
            Message::ProfileModalUpdateAuthMethodType(v) => {
                self.profile_modal_state.auth_method_type = v;
                Effect::Nothing
            },
            Message::ProfileModalUpdateUsername(v) => {
                self.profile_modal_state.username = v;
                Effect::Nothing
            },
            Message::ProfileModalUpdatePassword(v) => {
                self.profile_modal_state.password = v;
                Effect::Nothing
            },
            Message::ProfileModalUpdateCertificatePath(v) => {
                self.profile_modal_state.certificate_path = v;
                Effect::Nothing
            },
            Message::ProfileModalFetchHubs => self.on_fetch_hubs(),
            Message::ProfileModalHubListFetched(r) => self.on_hub_list(r),
            Message::ProfileModalHubSelected(v) => {
                self.profile_modal_state.hub_name = v;
                Effect::Nothing
            },
            Message::ProfileModalSave => self.on_modal_save(),
            _ => Effect::Nothing,
        }
    }

    /// Handle a message about certificate prompts.
    fn handle_certificate(&mut self, message: Message) -> (e: Effect)
        requires
            message is CertificatePromptReceived || message is CertificatePromptDecision || message is CertificateTrusted,
        ensures
            step(*old(self), message, *final(self), e),
    {
        proof {
            reveal(step);
        }
        match message {
            Message::CertificatePromptReceived(prompt) => {
                self.pending_certificate_prompt = Some(prompt);
                Effect::Nothing
            },
            Message::CertificatePromptDecision(d) => self.on_certificate_decision(d),
            Message::CertificateTrusted { profile_id, pem } => self.on_certificate_trusted(profile_id, pem),
            _ => Effect::Nothing,
        }
    }

    /// Handle a message: the window changes as `step` describes, and the work it
    /// asks of the application is returned.
    pub fn update(&mut self, message: Message) -> (e: Effect)
        ensures
            step(*old(self), message, *final(self), e),
    {
        match &message {
            Message::Connect(_)
            | Message::Disconnect
            | Message::ConnectionResult(_)
            | Message::PollStatus
            | Message::StatusPolled(_)
            | Message::StatusUpdated(_) => self.handle_connection(message),
            Message::LoadProfiles
            | Message::ProfilesLoaded(_)
            | Message::CreateProfile
            | Message::EditProfile(_)
            | Message::DeleteProfile(_)
            | Message::ToggleFavorite(_)
            | Message::SaveProfile(_)
            | Message::ProfileSaved(_)
            | Message::ProfileSelected(_)
            | Message::ViewChanged(_)
            | Message::ModalClosed => self.handle_profiles(message),
            Message::CertificatePromptReceived(_)
            | Message::CertificatePromptDecision(_)
            | Message::CertificateTrusted { .. } => self.handle_certificate(message),
            _ => self.handle_form(message),
        }
    }
}


/// With a VPN manager, handling Disconnect asks it to disconnect: the effect is
/// the disconnection request (whose answer comes back as `ConnectionResult`) and
/// the window is busy until then; without one, the window is told at once that
/// there is no manager.
pub proof fn law_disconnect_asks_manager(a: GeistApp, b: GeistApp, e: Effect)
    requires
        step(a, Message::Disconnect, b, e),
    ensures
        a.has_vpn_manager ==> e is Disconnect,
        !a.has_vpn_manager ==> e matches Effect::Send(Message::ConnectionResult(Err(_))),
        b.connecting,
        b.profiles == a.profiles,
{
    reveal(step);
}

/// Law: a certificate prompt is answered once. After a decision, the prompt is
/// no longer pending, and a further decision changes nothing and asks for
/// nothing.
pub proof fn law_prompt_answered_once(
    a: GeistApp,
    d1: CertificateDecision,
    b: GeistApp,
    e1: Effect,
    d2: CertificateDecision,
    c: GeistApp,
    e2: Effect,
)
    requires
        step(a, Message::CertificatePromptDecision(d1), b, e1),
        step(b, Message::CertificatePromptDecision(d2), c, e2),
    ensures
        b.pending_certificate_prompt is None,
        c == b,
        e2 is Nothing,
        a.pending_certificate_prompt matches Some(prompt) ==> e1 == (Effect::AnswerCertificate {
            prompt,
            decision: d1,
            trust: d1 == CertificateDecision::TrustPermanently && prompt.profile_id is Some
                && a.has_profile_manager,
        }),
{
    reveal(step);
}

/// Law: once a connection or disconnection request has been answered, the window
/// is no longer connecting; a failure is shown as the status, and success leaves
/// the status to the next poll.
pub proof fn law_request_settles(a: GeistApp, r: Result<(), String>, b: GeistApp, e: Effect)
    requires
        step(a, Message::ConnectionResult(r), b, e),
    ensures
        !b.connecting,
        e is Nothing,
        r is Ok ==> b.connection_status == a.connection_status,
        r matches Err(t) ==> failed_status(b.connection_status, "Operation failed: "@ + t@),
{
    reveal(step);
}

/// Law: the window's list of profiles changes only when profiles are loaded, a
/// favorite mark is toggled or a server certificate is stored with a profile.
pub proof fn law_profiles_change_only_when_loaded_or_marked(a: GeistApp, m: Message, b: GeistApp, e: Effect)
    requires
        step(a, m, b, e),
        !(m is ProfilesLoaded),
        !(m is ToggleFavorite),
        !(m is CertificateTrusted),
    ensures
        b.profiles == a.profiles,
{
    reveal(step);
}

/// Law: closing the form hides it and empties it, whatever was typed.
pub proof fn law_close_resets_form(a: GeistApp, b: GeistApp, e: Effect)
    requires
        step(a, Message::ModalClosed, b, e),
    ensures
        !b.show_profile_modal,
        b.profile_modal_state@ == blank_form(),
{
    reveal(step);
}

/// Law: the profile that connecting asks the VPN manager for is the first listed
/// profile with the requested identifier; no connection is asked for an unknown
/// identifier, and such a request does not leave the window connecting.
pub proof fn law_connect_targets_listed_profile(a: GeistApp, id: String, b: GeistApp, e: Effect)
    requires
        step(a, Message::Connect(id), b, e),
    ensures
        e matches Effect::Connect(p) ==> exists|i: int|
            first_with_id(profile_views(a.profiles@), id@, i) && p@ == #[trigger] profile_views(a.profiles@)[i],
        !contains_id(profile_views(a.profiles@), id@) ==> !(e is Connect) && !b.connecting,
{
    reveal(step);
    let views = profile_views(a.profiles@);
    if contains_id(views, id@) {
        let i = choose|i: int| first_with_id(views, id@, i);
        assert(first_with_id(views, id@, i)) by {
            let w = choose|w: int| 0 <= w < views.len() && views[w].id == id@;
            crate::profile::lemma_first_position(views, id@, w);
        }
    }
}

} // verus!
