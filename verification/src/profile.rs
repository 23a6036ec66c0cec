//! VPN profiles and the profile cache.
//!
//! A profile's timestamps are microseconds since the Unix epoch, UTC.

use vstd::prelude::*;
use crate::error::Error;
use crate::platform::{data_dir, join_path, now_micros, path_exists, pushed_path};
use crate::text::{
    append_str, append_u64, chars_less, chars_of, copy_string, decimal,
    lemma_lex_total, lemma_lex_transitive, lex_lt, lowercase, push_char, seq_contains, str_contains,
    str_eq, string_of, to_lowercase,
};

verus! {

/// Supported VPN protocols.
#[derive(Debug, Clone, Copy, PartialEq, Eq, Structural)]
pub enum VpnProtocol {
    /// SSL-VPN (SoftEther's primary protocol)
    SslVpn,
    /// L2TP/IPsec
    L2tpIpsec,
    /// OpenVPN
    OpenVpn,
    /// SSTP
    Sstp,
    /// WireGuard (if supported)
    WireGuard,
}

/// The name under which a protocol is shown to users.
pub open spec fn protocol_display(p: VpnProtocol) -> Seq<char> {
    match p {
        VpnProtocol::SslVpn => "SSL VPN"@,
        VpnProtocol::L2tpIpsec => "L2TP/IPsec"@,
        VpnProtocol::OpenVpn => "OpenVPN"@,
        VpnProtocol::Sstp => "SSTP"@,
        VpnProtocol::WireGuard => "WireGuard"@,
    }
}

/// The name of a protocol's variant, as its `Debug` form prints it.
pub open spec fn protocol_variant_name(p: VpnProtocol) -> Seq<char> {
    match p {
        VpnProtocol::SslVpn => "SslVpn"@,
        VpnProtocol::L2tpIpsec => "L2tpIpsec"@,
        VpnProtocol::OpenVpn => "OpenVpn"@,
        VpnProtocol::Sstp => "Sstp"@,
        VpnProtocol::WireGuard => "WireGuard"@,
    }
}

impl VpnProtocol {
    /// The name under which the protocol is shown to users.
    pub fn display_name(&self) -> (s: &'static str)
        ensures
            s@ == protocol_display(*self),
    {
        match self {
            VpnProtocol::SslVpn => "SSL VPN",
            VpnProtocol::L2tpIpsec => "L2TP/IPsec",
            VpnProtocol::OpenVpn => "OpenVPN",
            VpnProtocol::Sstp => "SSTP",
            VpnProtocol::WireGuard => "WireGuard",
        }
    }

    /// The name of the protocol's variant.
    pub fn variant_name(&self) -> (s: &'static str)
        ensures
            s@ == protocol_variant_name(*self),
    {
        match self {
            VpnProtocol::SslVpn => "SslVpn",
            VpnProtocol::L2tpIpsec => "L2tpIpsec",
            VpnProtocol::OpenVpn => "OpenVpn",
            VpnProtocol::Sstp => "Sstp",
            VpnProtocol::WireGuard => "WireGuard",
        }
    }
}

/// Authentication methods.
#[derive(Debug)]
pub enum AuthMethod {
    /// Username and password
    Password { username: String, password: String },
    /// Client certificate
    Certificate { cert_path: String, key_path: String },
    /// RADIUS authentication
    Radius,
    /// NT Domain authentication
    NtDomain { username: String, password: String, domain: String },
}

impl Clone for AuthMethod {
    fn clone(&self) -> (r: Self)
        ensures
            r == *self,
    {
        match self {
            AuthMethod::Password { username, password } => AuthMethod::Password {
                username: username.clone(),
                password: password.clone(),
            },
            AuthMethod::Certificate { cert_path, key_path } => AuthMethod::Certificate {
                cert_path: cert_path.clone(),
                key_path: key_path.clone(),
            },
            AuthMethod::Radius => AuthMethod::Radius,
            AuthMethod::NtDomain { username, password, domain } => AuthMethod::NtDomain {
                username: username.clone(),
                password: password.clone(),
                domain: domain.clone(),
            },
        }
    }
}

/// Copies a list of strings.
pub fn clone_strings(v: &Vec<String>) -> (r: Vec<String>)
    ensures
        r@ == v@,
{
    let mut r: Vec<String> = Vec::new();
    let mut i: usize = 0;
    while i < v.len()
        invariant
            i <= v@.len(),
            r@ == v@.take(i as int),
        decreases v@.len() - i,
    {
        r.push(v[i].clone());
        assert(v@.take(i + 1) =~= v@.take(i as int).push(v@[i as int]));
        i = i + 1;
    }
    assert(v@.take(v@.len() as int) =~= v@);
    r
}

/// Additional connection options: a map from option names to values, keeping
/// the order in which names were first inserted.
#[derive(Debug)]
pub struct ProfileOptions {
    entries: Vec<(String, String)>,
}

/// Whether the names of `entries` are pairwise distinct.
pub open spec fn distinct_names(entries: Seq<(String, String)>) -> bool {
    forall|i: int, j: int|
        0 <= i < entries.len() && 0 <= j < entries.len() && i != j ==> #[trigger] entries[i].0@
            != #[trigger] entries[j].0@
}

/// The map that a list of (name, value) entries with distinct names stands for.
pub open spec fn entries_map(entries: Seq<(String, String)>) -> Map<Seq<char>, Seq<char>>
    decreases entries.len(),
{
    if entries.len() == 0 {
        Map::empty()
    } else {
        entries_map(entries.drop_last()).insert(entries.last().0@, entries.last().1@)
    }
}

proof fn lemma_entries_map(entries: Seq<(String, String)>)
    requires
        distinct_names(entries),
    ensures
        forall|k: Seq<char>|
            entries_map(entries).contains_key(k) <==> exists|i: int|
                0 <= i < entries.len() && #[trigger] entries[i].0@ == k,
        forall|i: int|
            0 <= i < entries.len() ==> #[trigger] entries_map(entries)[entries[i].0@] == entries[i].1@,
    decreases entries.len(),
{
    if entries.len() > 0 {
        let e = entries.drop_last();
        assert forall|i: int, j: int|
            0 <= i < e.len() && 0 <= j < e.len() && i != j implies #[trigger] e[i].0@
            != #[trigger] e[j].0@ by {
            assert(e[i] == entries[i] && e[j] == entries[j]);
        }
        lemma_entries_map(e);
        let n = entries.len() - 1;
        assert(entries.last() == entries[n]);
        assert(entries_map(entries) == entries_map(e).insert(entries[n].0@, entries[n].1@));
        assert forall|k: Seq<char>|
            entries_map(entries).contains_key(k) implies exists|i: int|
                0 <= i < entries.len() && #[trigger] entries[i].0@ == k by {
            if k != entries[n].0@ {
                assert(entries_map(e).contains_key(k));
                let i = choose|i: int| 0 <= i < e.len() && #[trigger] e[i].0@ == k;
                assert(entries[i] == e[i]);
            }
        }
        assert forall|k: Seq<char>|
            (exists|i: int| 0 <= i < entries.len() && #[trigger] entries[i].0@ == k) implies
            entries_map(entries).contains_key(k) by {
            let i = choose|i: int| 0 <= i < entries.len() && #[trigger] entries[i].0@ == k;
            if i < n {
                assert(e[i] == entries[i]);
            }
        }
        assert forall|i: int| 0 <= i < entries.len() implies #[trigger] entries_map(
            entries,
        )[entries[i].0@] == entries[i].1@ by {
            if i < n {
                assert(e[i] == entries[i]);
                assert(entries[i].0@ != entries[n].0@);
            }
        }
    }
}

impl ProfileOptions {
    #[verifier::type_invariant]
    spec fn names_distinct(self) -> bool {
        distinct_names(self.entries@)
    }

    /// The entries, in insertion order.
    pub closed spec fn entry_seq(self) -> Seq<(String, String)> {
        self.entries@
    }

    /// No options.
    pub fn new() -> (o: Self)
        ensures
            o@ == Map::<Seq<char>, Seq<char>>::empty(),
            o.entry_seq().len() == 0,
    {
        ProfileOptions { entries: Vec::new() }
    }

    /// The number of options.
    pub fn len(&self) -> (n: usize)
        ensures
            n == self.entry_seq().len(),
            n == self@.len(),
    {
        proof {
            use_type_invariant(self);
            lemma_entries_map(self.entries@);
            lemma_entries_map_len(self.entries@);
        }
        self.entries.len()
    }

    /// The entries, in insertion order.
    pub fn entries(&self) -> (e: &Vec<(String, String)>)
        ensures
            e@ == self.entry_seq(),
            distinct_names(e@),
            entries_map(e@) == self@,
    {
        proof {
            use_type_invariant(self);
        }
        &self.entries
    }

    fn position(&self, name: &str) -> (r: Option<usize>)
        ensures
            match r {
                Some(i) => i < self.entries@.len() && self.entries@[i as int].0@ == name@,
                None => forall|i: int| 0 <= i < self.entries@.len() ==> self.entries@[i].0@ != name@,
            },
    {
        let mut i: usize = 0;
        while i < self.entries.len()
            invariant
                i <= self.entries@.len(),
                forall|k: int| 0 <= k < i ==> self.entries@[k].0@ != name@,
            decreases self.entries@.len() - i,
        {
            if crate::text::str_eq(self.entries[i].0.as_str(), name) {
                return Some(i);
            }
            i = i + 1;
        }
        None
    }

    /// The value of an option, if it is set.
    pub fn get(&self, name: &str) -> (r: Option<&String>)
        ensures
            r is Some <==> self@.contains_key(name@),
            r matches Some(v) ==> v@ == self@[name@],
    {
        proof {
            use_type_invariant(self);
            lemma_entries_map(self.entries@);
        }
        match self.position(name) {
            Some(i) => Some(&self.entries[i].1),
            None => None,
        }
    }

    /// Sets an option, replacing any value it had; returns the value it had.
    pub fn insert(&mut self, name: String, value: String) -> (r: Option<String>)
        ensures
            final(self)@ == old(self)@.insert(name@, value@),
            r is Some <==> old(self)@.contains_key(name@),
            r matches Some(v) ==> v@ == old(self)@[name@],
    {
        proof {
            use_type_invariant(&*self);
            lemma_entries_map(self.entries@);
        }
        let ghost old_entries = self.entries@;
        let ghost k = name@;
        let ghost v = value@;
        match self.position(name.as_str()) {
            Some(i) => {
                let mut entries: Vec<(String, String)> = Vec::new();
                std::mem::swap(&mut entries, &mut self.entries);
                let (old_name, previous) = entries.remove(i);
                entries.insert(i, (old_name, value));
                proof {
                    let e = entries@;
                    assert(e =~= old_entries.update(i as int, (old_entries[i as int].0, value)));
                    assert forall|a: int, b: int|
                        0 <= a < e.len() && 0 <= b < e.len() && a != b implies #[trigger] e[a].0@
                        != #[trigger] e[b].0@ by {
                        assert(e[a].0 == old_entries[a].0 && e[b].0 == old_entries[b].0);
                    }
                    lemma_entries_map(e);
                    assert forall|x: Seq<char>| #[trigger]
                        entries_map(e).contains_key(x) == old(self)@.insert(k, v).contains_key(x) by {
                        if entries_map(e).contains_key(x) {
                            let j = choose|j: int| 0 <= j < e.len() && #[trigger] e[j].0@ == x;
                            assert(old_entries[j].0@ == x);
                        }
                        if old(self)@.contains_key(x) {
                            let j = choose|j: int| 0 <= j < old_entries.len() && #[trigger] old_entries[j].0@ == x;
                            assert(e[j].0@ == x);
                        }
                    }
                    assert forall|x: Seq<char>| #[trigger] entries_map(e).contains_key(x) implies
                        entries_map(e)[x] == old(self)@.insert(k, v)[x] by {
                        let j = choose|j: int| 0 <= j < e.len() && #[trigger] e[j].0@ == x;
                        if j != i {
                            assert(e[j] == old_entries[j]);
                        }
                    }
                    assert(entries_map(e) =~= old(self)@.insert(k, v));
                }
                self.entries = entries;
                Some(previous)
            },
            None => {
                let mut entries: Vec<(String, String)> = Vec::new();
                std::mem::swap(&mut entries, &mut self.entries);
                entries.push((name, value));
                proof {
                    let e = entries@;
                    assert(e.drop_last() =~= old_entries);
                    assert forall|a: int, b: int|
                        0 <= a < e.len() && 0 <= b < e.len() && a != b implies #[trigger] e[a].0@
                        != #[trigger] e[b].0@ by {
                        if a < old_entries.len() {
                            assert(e[a] == old_entries[a]);
                        }
                        if b < old_entries.len() {
                            assert(e[b] == old_entries[b]);
                        }
                    }
                }
                self.entries = entries;
                None
            },
        }
    }
}

proof fn lemma_entries_map_len(entries: Seq<(String, String)>)
    requires
        distinct_names(entries),
    ensures
        entries_map(entries).len() == entries.len(),
        entries_map(entries).dom().finite(),
    decreases entries.len(),
{
    if entries.len() > 0 {
        let e = entries.drop_last();
        assert forall|i: int, j: int|
            0 <= i < e.len() && 0 <= j < e.len() && i != j implies #[trigger] e[i].0@
            != #[trigger] e[j].0@ by {
            assert(e[i] == entries[i] && e[j] == entries[j]);
        }
        lemma_entries_map_len(e);
        lemma_entries_map(e);
        let n = entries.len() - 1;
        assert(!entries_map(e).contains_key(entries[n].0@)) by {
            if entries_map(e).contains_key(entries[n].0@) {
                let i = choose|i: int| 0 <= i < e.len() && #[trigger] e[i].0@ == entries[n].0@;
                assert(e[i] == entries[i]);
            }
        }
    }
}

impl View for ProfileOptions {
    type V = Map<Seq<char>, Seq<char>>;

    closed spec fn view(&self) -> Map<Seq<char>, Seq<char>> {
        entries_map(self.entries@)
    }
}

impl Clone for ProfileOptions {
    fn clone(&self) -> (r: Self)
        ensures
            r@ == self@,
    {
        proof {
            use_type_invariant(self);
        }
        let mut entries: Vec<(String, String)> = Vec::new();
        let mut i: usize = 0;
        while i < self.entries.len()
            invariant
                i <= self.entries@.len(),
                entries@.len() == i,
                forall|k: int| 0 <= k < i ==> #[trigger] entries@[k] == self.entries@[k],
            decreases self.entries@.len() - i,
        {
            let (k, v) = (&self.entries[i].0, &self.entries[i].1);
            entries.push((k.clone(), v.clone()));
            i = i + 1;
        }
        assert(entries@ =~= self.entries@);
        ProfileOptions { entries }
    }
}

/// An authentication method as plain values.
pub enum AuthView {
    Password { username: Seq<char>, password: Seq<char> },
    Certificate { cert_path: Seq<char>, key_path: Seq<char> },
    Radius,
    NtDomain { username: Seq<char>, password: Seq<char>, domain: Seq<char> },
}

impl View for AuthMethod {
    type V = AuthView;

    open spec fn view(&self) -> AuthView {
        match self {
            AuthMethod::Password { username, password } => AuthView::Password {
                username: username@,
                password: password@,
            },
            AuthMethod::Certificate { cert_path, key_path } => AuthView::Certificate {
                cert_path: cert_path@,
                key_path: key_path@,
            },
            AuthMethod::Radius => AuthView::Radius,
            AuthMethod::NtDomain { username, password, domain } => AuthView::NtDomain {
                username: username@,
                password: password@,
                domain: domain@,
            },
        }
    }
}

/// Profile metadata for tracking usage and management.
#[derive(Debug)]
pub struct ProfileMetadata {
    /// When the profile was created
    pub created_at: i64,
    /// When the profile was last modified
    pub updated_at: i64,
    /// When the profile was last used for a connection
    pub last_used_at: Option<i64>,
    /// Number of times this profile has been used
    pub usage_count: u32,
    /// Whether this profile is marked as favorite
    pub favorite: bool,
    /// Tags for organizing profiles
    pub tags: Vec<String>,
    /// Profile version for migration purposes
    pub version: u32,
}

/// Profile metadata as plain values.
pub struct MetadataView {
    pub created_at: i64,
    pub updated_at: i64,
    pub last_used_at: Option<i64>,
    pub usage_count: u32,
    pub favorite: bool,
    pub tags: Seq<Seq<char>>,
    pub version: u32,
}

/// The texts of a list of strings.
pub open spec fn string_views(v: Seq<String>) -> Seq<Seq<char>> {
    v.map_values(|s: String| s@)
}

impl View for ProfileMetadata {
    type V = MetadataView;

    open spec fn view(&self) -> MetadataView {
        MetadataView {
            created_at: self.created_at,
            updated_at: self.updated_at,
            last_used_at: self.last_used_at,
            usage_count: self.usage_count,
            favorite: self.favorite,
            tags: string_views(self.tags@),
            version: self.version,
        }
    }
}

impl Clone for ProfileMetadata {
    fn clone(&self) -> (r: Self)
        ensures
            r@ == self@,
    {
        let tags = clone_strings(&self.tags);
        assert(string_views(tags@) =~= string_views(self.tags@));
        ProfileMetadata {
            created_at: self.created_at,
            updated_at: self.updated_at,
            last_used_at: self.last_used_at,
            usage_count: self.usage_count,
            favorite: self.favorite,
            tags,
            version: self.version,
        }
    }
}

/// Metadata of a profile just made: created and updated at one time, never
/// used, no favourite, no tags, version 1.
pub open spec fn fresh_metadata(m: MetadataView) -> bool {
    &&& m.created_at == m.updated_at
    &&& m.last_used_at is None
    &&& m.usage_count == 0
    &&& !m.favorite
    &&& m.tags.len() == 0
    &&& m.version == 1
}

/// The current time in microseconds since the Unix epoch; the epoch itself (0)
/// when the system clock reads further from the epoch than an `i64` reaches.
fn clock_micros() -> (t: i64) {
    match now_micros() {
        Some(t) => t,
        None => 0,
    }
}

impl Default for ProfileMetadata {
    /// Fresh metadata, created and updated now.
    fn default() -> (m: Self)
        ensures
            fresh_metadata(m@),
    {
        let now = clock_micros();
        let m = ProfileMetadata {
            created_at: now,
            updated_at: now,
            last_used_at: None,
            usage_count: 0,
            favorite: false,
            tags: Vec::new(),
            version: 1,
        };
        assert(string_views(m.tags@) =~= Seq::<Seq<char>>::empty());
        m
    }
}

/// VPN connection profile.
#[derive(Debug)]
pub struct VpnProfile {
    /// Unique identifier for the profile
    pub id: String,
    /// Display name for the profile
    pub name: String,
    /// Description of the profile
    pub description: String,
    /// VPN server hostname or IP address
    pub host: String,
    /// VPN server port (default: 443 for SSL-VPN, 500/4500 for L2TP/IPsec)
    pub port: u16,
    /// VPN protocol to use
    pub protocol: VpnProtocol,
    /// Authentication method
    pub auth: AuthMethod,
    /// Account name (used for connection identification)
    pub account_name: String,
    /// Connection timeout in seconds
    pub timeout: u32,
    /// Additional connection options
    pub options: ProfileOptions,
    /// Profile metadata
    pub metadata: ProfileMetadata,
}

/// A profile as plain values.
pub struct ProfileView {
    pub id: Seq<char>,
    pub name: Seq<char>,
    pub description: Seq<char>,
    pub host: Seq<char>,
    pub port: u16,
    pub protocol: VpnProtocol,
    pub auth: AuthView,
    pub account_name: Seq<char>,
    pub timeout: u32,
    pub options: Map<Seq<char>, Seq<char>>,
    pub metadata: MetadataView,
}

impl View for VpnProfile {
    type V = ProfileView;

    open spec fn view(&self) -> ProfileView {
        ProfileView {
            id: self.id@,
            name: self.name@,
            description: self.description@,
            host: self.host@,
            port: self.port,
            protocol: self.protocol,
            auth: self.auth@,
            account_name: self.account_name@,
            timeout: self.timeout,
            options: self.options@,
            metadata: self.metadata@,
        }
    }
}

impl Clone for VpnProfile {
    fn clone(&self) -> (r: Self)
        ensures
            r@ == self@,
    {
        VpnProfile {
            id: self.id.clone(),
            name: self.name.clone(),
            description: self.description.clone(),
            host: self.host.clone(),
            port: self.port,
            protocol: self.protocol,
            auth: self.auth.clone(),
            account_name: self.account_name.clone(),
            timeout: self.timeout,
            options: self.options.clone(),
            metadata: self.metadata.clone(),
        }
    }
}

/// The profiles' plain values, in order.
pub open spec fn profile_views(s: Seq<VpnProfile>) -> Seq<ProfileView> {
    s.map_values(|p: VpnProfile| p@)
}

/// `s` with every space replaced by an underscore.
pub open spec fn underscore_spaces(s: Seq<char>) -> Seq<char> {
    s.map_values(|c: char| if c == ' ' { '_' } else { c })
}

/// The identifier of a new profile: the lower-cased name with spaces replaced by
/// underscores, the host and the port, joined by underscores.
pub open spec fn profile_id(name: Seq<char>, host: Seq<char>, port: u16) -> Seq<char> {
    underscore_spaces(lowercase(name)) + "_"@ + host + "_"@ + decimal(port as nat)
}

/// The profile that `VpnProfile::new` makes, apart from its timestamps.
pub open spec fn new_profile_view(
    p: ProfileView,
    name: Seq<char>,
    host: Seq<char>,
    port: u16,
    protocol: VpnProtocol,
) -> bool {
    &&& p.id == profile_id(name, host, port)
    &&& p.name == name
    &&& p.description == Seq::<char>::empty()
    &&& p.host == host
    &&& p.port == port
    &&& p.protocol == protocol
    &&& p.auth == AuthView::Radius
    &&& p.account_name == Seq::<char>::empty()
    &&& p.timeout == 30
    &&& p.options == Map::<Seq<char>, Seq<char>>::empty()
    &&& fresh_metadata(p.metadata)
}

/// `b` is `a` with only the metadata's update time possibly changed.
pub open spec fn same_but_update_time(a: ProfileView, b: ProfileView) -> bool {
    b == ProfileView { metadata: MetadataView { updated_at: b.metadata.updated_at, ..a.metadata }, ..a }
}

/// Whether the tag texts contain `tag`.
pub open spec fn has_tag(tags: Seq<Seq<char>>, tag: Seq<char>) -> bool {
    tags.contains(tag)
}

/// What `validate` finds wrong with a profile, given whether its certificate and
/// key files exist: `None` when nothing is wrong, else the message.
pub open spec fn validation_issue(p: ProfileView, cert_file_exists: bool, key_file_exists: bool) -> Option<Seq<char>> {
    if p.name.len() == 0 {
        Some("Profile name cannot be empty"@)
    } else if p.host.len() == 0 {
        Some("Host cannot be empty"@)
    } else if p.port == 0 {
        Some("Invalid port number"@)
    } else {
        match p.auth {
            AuthView::Password { username, password } => if username.len() == 0 {
                Some("Username cannot be empty"@)
            } else if password.len() == 0 {
                Some("Password cannot be empty"@)
            } else {
                None
            },
            AuthView::Certificate { cert_path, key_path } => if !cert_file_exists {
                Some("Certificate file not found: "@ + cert_path)
            } else if !key_file_exists {
                Some("Key file not found: "@ + key_path)
            } else {
                None
            },
            _ => None,
        }
    }
}

/// Whether `r` is what validation gives for `issue`.
pub open spec fn validation_result(r: Result<(), Error>, issue: Option<Seq<char>>) -> bool {
    match issue {
        None => r is Ok,
        Some(m) => r matches Err(Error::ProfileError { message }) && message@ == m,
    }
}

fn profile_error(message: &str) -> (r: Result<(), Error>)
    ensures
        r matches Err(Error::ProfileError { message: m }) && m@ == message@,
{
    Err(Error::ProfileError { message: string_of(message) })
}

fn profile_error_with(prefix: &str, detail: &String) -> (r: Result<(), Error>)
    ensures
        r matches Err(Error::ProfileError { message: m }) && m@ == prefix@ + detail@,
{
    let mut message = string_of(prefix);
    append_str(&mut message, detail.as_str());
    Err(Error::ProfileError { message })
}

impl VpnProfile {
    /// Create a new VPN profile. It authenticates by RADIUS until credentials
    /// are given, so a new profile with a name, a host and a port passes
    /// validation.
    pub fn new(name: String, host: String, port: u16, protocol: VpnProtocol) -> (p: Self)
        ensures
            new_profile_view(p@, name@, host@, port, protocol),
    {
        let lower = to_lowercase(name.as_str());
        let lower_chars = crate::text::chars_of(lower.as_str());
        let mut id = String::new();
        let mut i: usize = 0;
        while i < lower_chars.len()
            invariant
                i <= lower_chars@.len(),
                lower_chars@ == lowercase(name@),
                id@ == underscore_spaces(lower_chars@.take(i as int)),
            decreases lower_chars@.len() - i,
        {
            let c = lower_chars[i];
            push_char(&mut id, if c == ' ' { '_' } else { c });
            assert(underscore_spaces(lower_chars@.take(i + 1)) =~= underscore_spaces(
                lower_chars@.take(i as int),
            ).push(if c == ' ' { '_' } else { c }));
            i = i + 1;
        }
        assert(lower_chars@.take(lower_chars@.len() as int) =~= lower_chars@);
        append_str(&mut id, "_");
        append_str(&mut id, host.as_str());
        append_str(&mut id, "_");
        append_u64(&mut id, port as u64);
        assert(id@ =~= profile_id(name@, host@, port));
        let p = VpnProfile {
            id,
            name,
            description: String::new(),
            host,
            port,
            protocol,
            auth: AuthMethod::Radius,
            account_name: String::new(),
            timeout: 30,
            options: ProfileOptions::new(),
            metadata: ProfileMetadata::default(),
        };
        p
    }

    /// The profile with its metadata's update time set to now.
    pub fn with_updated_metadata(self) -> (p: Self)
        ensures
            same_but_update_time(self@, p@),
    {
        let mut p = self;
        p.metadata.updated_at = clock_micros();
        p
    }

    /// Mark the profile as used: records the time of use and counts one more use.
    pub fn mark_as_used(&mut self)
        requires
            old(self).metadata.usage_count < u32::MAX,
        ensures
            final(self).metadata.last_used_at is Some,
            final(self)@ == (ProfileView {
                metadata: MetadataView {
                    last_used_at: final(self).metadata.last_used_at,
                    usage_count: (old(self).metadata.usage_count + 1) as u32,
                    updated_at: final(self).metadata.updated_at,
                    ..old(self)@.metadata
                },
                ..old(self)@
            }),
    {
        self.metadata.last_used_at = Some(clock_micros());
        self.metadata.usage_count = self.metadata.usage_count + 1;
        self.metadata.updated_at = clock_micros();
    }

    /// Add a tag to the profile, unless it already has it.
    pub fn add_tag(&mut self, tag: String)
        ensures
            has_tag(old(self)@.metadata.tags, tag@) ==> final(self)@ == old(self)@,
            !has_tag(old(self)@.metadata.tags, tag@) ==> final(self)@ == (ProfileView {
                metadata: MetadataView {
                    tags: old(self)@.metadata.tags.push(tag@),
                    updated_at: final(self).metadata.updated_at,
                    ..old(self)@.metadata
                },
                ..old(self)@
            }),
    {
        let mut i: usize = 0;
        while i < self.metadata.tags.len()
            invariant
                i <= self.metadata.tags@.len(),
                forall|k: int| 0 <= k < i ==> self.metadata.tags@[k]@ != tag@,
            decreases self.metadata.tags@.len() - i,
        {
            if self.metadata.tags[i] == tag {
                assert(string_views(self.metadata.tags@)[i as int] == tag@);
                return;
            }
            i = i + 1;
        }
        assert(!has_tag(string_views(self.metadata.tags@), tag@)) by {
            if string_views(self.metadata.tags@).contains(tag@) {
                let k = choose|k: int| 0 <= k < string_views(self.metadata.tags@).len()
                    && string_views(self.metadata.tags@)[k] == tag@;
                assert(self.metadata.tags@[k]@ == tag@);
            }
        }
        let ghost t = tag@;
        self.metadata.tags.push(tag);
        assert(string_views(self.metadata.tags@) =~= string_views(old(self).metadata.tags@).push(t));
        self.metadata.updated_at = clock_micros();
    }

    /// Remove a tag from the profile.
    pub fn remove_tag(&mut self, tag: &str)
        ensures
            final(self)@ == (ProfileView {
                metadata: MetadataView {
                    tags: old(self)@.metadata.tags.filter(|t: Seq<char>| t != tag@),
                    updated_at: final(self).metadata.updated_at,
                    ..old(self)@.metadata
                },
                ..old(self)@
            }),
    {
        let ghost before = string_views(self.metadata.tags@);
        let ghost pred = |t: Seq<char>| t != tag@;
        let mut kept: Vec<String> = Vec::new();
        let mut i: usize = 0;
        while i < self.metadata.tags.len()
            invariant
                i <= self.metadata.tags@.len(),
                before == string_views(self.metadata.tags@),
                pred == (|t: Seq<char>| t != tag@),
                string_views(kept@) == before.take(i as int).filter(pred),
            decreases self.metadata.tags@.len() - i,
        {
            proof {
                reveal_with_fuel(Seq::<_>::filter, 1);
                assert(before.take(i + 1).drop_last() =~= before.take(i as int));
            }
            if !crate::text::str_eq(self.metadata.tags[i].as_str(), tag) {
                kept.push(copy_string(&self.metadata.tags[i]));
                assert(string_views(kept@) =~= before.take(i as int).filter(pred).push(before[i as int]));
            }
            i = i + 1;
        }
        assert(before.take(before.len() as int) =~= before);
        self.metadata.tags = kept;
        self.metadata.updated_at = clock_micros();
    }

    /// Toggle favorite status.
    pub fn toggle_favorite(&mut self)
        ensures
            final(self)@ == (ProfileView {
                metadata: MetadataView {
                    favorite: !old(self).metadata.favorite,
                    updated_at: final(self).metadata.updated_at,
                    ..old(self)@.metadata
                },
                ..old(self)@
            }),
    {
        self.metadata.favorite = !self.metadata.favorite;
        self.metadata.updated_at = clock_micros();
    }

    /// Validate the profile, given whether its certificate and key files exist
    /// (which matters only for certificate authentication).
    pub fn validate_with(&self, cert_file_exists: bool, key_file_exists: bool) -> (r: Result<(), Error>)
        ensures
            validation_result(r, validation_issue(self@, cert_file_exists, key_file_exists)),
    {
        if self.name.as_str().is_empty() {
            return profile_error("Profile name cannot be empty");
        }
        if self.host.as_str().is_empty() {
            return profile_error("Host cannot be empty");
        }
        if self.port == 0 {
            return profile_error("Invalid port number");
        }
        match &self.auth {
            AuthMethod::Password { username, password } => {
                if username.as_str().is_empty() {
                    return profile_error("Username cannot be empty");
                }
                if password.as_str().is_empty() {
                    return profile_error("Password cannot be empty");
                }
            },
            AuthMethod::Certificate { cert_path, key_path } => {
                if !cert_file_exists {
                    return profile_error_with("Certificate file not found: ", cert_path);
                }
                if !key_file_exists {
                    return profile_error_with("Key file not found: ", key_path);
                }
            },
            _ => {},
        }
        Ok(())
    }

    /// Validate the profile configuration. For certificate authentication the
    /// certificate and key files are looked up on disk.
    pub fn validate(&self) -> (r: Result<(), Error>)
        ensures
            exists|cert_file_exists: bool, key_file_exists: bool|
                validation_result(r, #[trigger] validation_issue(self@, cert_file_exists, key_file_exists)),
    {
        let (cert_exists, key_exists) = match &self.auth {
            AuthMethod::Certificate { cert_path, key_path } => {
                let c = path_exists(cert_path.as_str());
                let k = if c { path_exists(key_path.as_str()) } else { false };
                (c, k)
            },
            _ => (true, true),
        };
        self.validate_with(cert_exists, key_exists)
    }
}

impl Default for VpnProfile {
    /// The default profile: "Default Profile" at vpn.example.com:443 over SSL-VPN.
    fn default() -> (p: Self)
        ensures
            new_profile_view(p@, "Default Profile"@, "vpn.example.com"@, 443, VpnProtocol::SslVpn),
    {
        VpnProfile::new(
            string_of("Default Profile"),
            string_of("vpn.example.com"),
            443,
            VpnProtocol::SslVpn,
        )
    }
}

// ---------------------------------------------------------------------------
// The profile cache
// ---------------------------------------------------------------------------

/// Whether `i` is the first position in `s` of a profile with identifier `id`.
pub open spec fn first_with_id(s: Seq<ProfileView>, id: Seq<char>, i: int) -> bool {
    &&& 0 <= i < s.len()
    &&& s[i].id == id
    &&& forall|j: int| 0 <= j < i ==> s[j].id != id
}

/// Whether `s` holds a profile with identifier `id`.
pub open spec fn contains_id(s: Seq<ProfileView>, id: Seq<char>) -> bool {
    exists|i: int| 0 <= i < s.len() && s[i].id == id
}

/// Whether the identifiers in `s` are pairwise distinct.
pub open spec fn distinct_ids(s: Seq<ProfileView>) -> bool {
    forall|i: int, j: int| 0 <= i < s.len() && 0 <= j < s.len() && i != j ==> s[i].id != s[j].id
}

/// `s` after storing `p` under its identifier: it replaces the profile with that
/// identifier, in place, or is appended when there is none.
pub open spec fn upsert(s: Seq<ProfileView>, p: ProfileView) -> Seq<ProfileView> {
    if contains_id(s, p.id) {
        s.update(choose|i: int| first_with_id(s, p.id, i), p)
    } else {
        s.push(p)
    }
}

/// `s` after storing each profile of `ps` in turn.
pub open spec fn upsert_all(s: Seq<ProfileView>, ps: Seq<ProfileView>) -> Seq<ProfileView>
    decreases ps.len(),
{
    if ps.len() == 0 {
        s
    } else {
        upsert(upsert_all(s, ps.drop_last()), ps.last())
    }
}

/// `s` without the profiles whose identifier is `id`.
pub open spec fn remove_id(s: Seq<ProfileView>, id: Seq<char>) -> Seq<ProfileView> {
    s.filter(|p: ProfileView| p.id != id)
}

/// The position of the first profile with identifier `id`, if any.
pub fn find_profile(profiles: &Vec<VpnProfile>, id: &str) -> (r: Option<usize>)
    ensures
        match r {
            Some(i) => first_with_id(profile_views(profiles@), id@, i as int),
            None => !contains_id(profile_views(profiles@), id@),
        },
{
    let mut i: usize = 0;
    while i < profiles.len()
        invariant
            i <= profiles@.len(),
            forall|j: int| 0 <= j < i ==> profile_views(profiles@)[j].id != id@,
        decreases profiles@.len() - i,
    {
        if str_eq(profiles[i].id.as_str(), id) {
            return Some(i);
        }
        i = i + 1;
    }
    None
}

/// The first position of an identifier is unique.
pub proof fn lemma_first_with_id_unique(s: Seq<ProfileView>, id: Seq<char>, i: int, k: int)
    requires
        first_with_id(s, id, i),
        first_with_id(s, id, k),
    ensures
        i == k,
{
}

/// Filtering one more element.
pub proof fn lemma_filter_take_step<A>(s: Seq<A>, pred: spec_fn(A) -> bool, i: int)
    requires
        0 <= i < s.len(),
    ensures
        s.take(i + 1).filter(pred) == (if pred(s[i]) {
            s.take(i).filter(pred).push(s[i])
        } else {
            s.take(i).filter(pred)
        }),
{
    reveal_with_fuel(Seq::<_>::filter, 1);
    assert(s.take(i + 1).drop_last() =~= s.take(i));
}

/// Whether a profile matches a lower-cased search query: its name, description,
/// host or one of its tags, lower-cased, contains the query.
pub open spec fn matches_query(p: ProfileView, query_lower: Seq<char>) -> bool {
    ||| seq_contains(lowercase(p.name), query_lower)
    ||| seq_contains(lowercase(p.description), query_lower)
    ||| seq_contains(lowercase(p.host), query_lower)
    ||| exists|k: int|
        0 <= k < p.metadata.tags.len() && seq_contains(lowercase(#[trigger] p.metadata.tags[k]), query_lower)
}

/// The time of a profile's last use (for profiles that have one).
pub open spec fn last_used(p: ProfileView) -> i64 {
    p.metadata.last_used_at->0
}

/// Whether the profile at position `a` of `f` comes before the one at `b` when
/// ordering by most recent use, keeping the given order among equal times.
pub open spec fn ranks_before(f: Seq<ProfileView>, a: int, b: int) -> bool {
    last_used(f[a]) > last_used(f[b]) || (last_used(f[a]) == last_used(f[b]) && a < b)
}

/// Whether `perm` lists the positions of `f` from most to least recently used,
/// keeping the given order among equal times (the order that a stable sort by
/// descending last-use time gives).
pub open spec fn is_recency_order(f: Seq<ProfileView>, perm: Seq<int>) -> bool {
    &&& perm.len() == f.len()
    &&& forall|i: int| 0 <= i < perm.len() ==> 0 <= #[trigger] perm[i] < f.len()
    &&& forall|i: int, j: int|
        0 <= i < j < perm.len() ==> ranks_before(f, #[trigger] perm[i], #[trigger] perm[j])
}

/// The profiles that have been used.
pub open spec fn used_profiles(s: Seq<ProfileView>) -> Seq<ProfileView> {
    s.filter(|p: ProfileView| p.metadata.last_used_at is Some)
}

/// At most `limit` profiles of `f`, in the order `perm`.
pub open spec fn first_in_order(f: Seq<ProfileView>, perm: Seq<int>, limit: nat) -> Seq<ProfileView> {
    let n = if limit < f.len() { limit as int } else { f.len() as int };
    perm.map_values(|k: int| f[k]).take(n)
}

/// Whether `t` is a tag of some profile in `s`.
pub open spec fn tag_in(s: Seq<ProfileView>, t: Seq<char>) -> bool {
    exists|i: int, j: int|
        0 <= i < s.len() && 0 <= j < s[i].metadata.tags.len() && #[trigger] s[i].metadata.tags[j] == t
}

/// Whether the texts are in strictly increasing lexicographic order.
pub open spec fn strictly_sorted(v: Seq<Seq<char>>) -> bool {
    forall|a: int, b: int| 0 <= a < b < v.len() ==> lex_lt(#[trigger] v[a], #[trigger] v[b])
}

/// The file name under which a profile is stored: its identifier with `.yaml`.
pub open spec fn profile_file_name_of(id: Seq<char>) -> Seq<char> {
    id + ".yaml"@
}

/// Whether a file name has the extension `yaml`: it ends in `.yaml` and the dot is
/// not the name's first character (`Path::extension`).
pub open spec fn has_yaml_extension(name: Seq<char>) -> bool {
    name.len() > 5 && name.subrange(name.len() - 5, name.len() as int) == ".yaml"@
}

/// The profiles directory under the data directory `data`.
pub open spec fn profiles_path(data: Seq<char>) -> Seq<char> {
    pushed_path(pushed_path(data, "geist-vpn"@), "profiles"@)
}

/// Profile manager: the profiles directory and the cache of loaded profiles.
///
/// Reading and writing the profile files is the application's part; the manager
/// keeps the cache that those reads and writes fill, and answers queries from it.
pub struct ProfileManager {
    profiles_dir: String,
    cache: Vec<VpnProfile>,
    cache_loaded: bool,
}

impl ProfileManager {
    /// The cached profiles, in cache order.
    pub closed spec fn cached(&self) -> Seq<ProfileView> {
        profile_views(self.cache@)
    }

    /// Whether the cache holds what was loaded from disk.
    pub closed spec fn is_loaded(&self) -> bool {
        self.cache_loaded
    }

    /// The profiles directory.
    pub closed spec fn dir(&self) -> Seq<char> {
        self.profiles_dir@
    }

    /// Create a profile manager over a profiles directory, with an empty cache
    /// that is not loaded yet.
    pub fn new(profiles_dir: String) -> (m: Self)
        ensures
            m.dir() == profiles_dir@,
            m.cached().len() == 0,
            !m.is_loaded(),
    {
        let m = ProfileManager { profiles_dir, cache: Vec::new(), cache_loaded: false };
        assert(m.cached() =~= Seq::<ProfileView>::empty());
        m
    }

    /// The profiles directory.
    pub fn profiles_dir(&self) -> (d: &String)
        ensures
            d@ == self.dir(),
    {
        &self.profiles_dir
    }

    /// The profiles directory under the user's data directory:
    /// `<data dir>/geist-vpn/profiles`. Which data directory that is, and whether
    /// there is one, depends on the platform and the environment.
    pub fn get_profiles_dir() -> (r: Result<String, Error>)
        ensures
            r matches Ok(d) ==> exists|data: Seq<char>| d@ == #[trigger] profiles_path(data),
            r matches Err(e) ==> (e matches Error::Other(m) && m@ == "Could not determine data directory"@),
    {
        match data_dir() {
            Some(dir) => {
                let d = ProfileManager::profiles_dir_in(dir.as_str());
                assert(d@ == profiles_path(dir@));
                Ok(d)
            },
            None => Err(Error::Other(string_of("Could not determine data directory"))),
        }
    }

    /// The profiles directory under a data directory: `<data dir>/geist-vpn/profiles`.
    pub fn profiles_dir_in(data_dir: &str) -> (d: String)
        ensures
            d@ == profiles_path(data_dir@),
    {
        let app = join_path(data_dir, "geist-vpn");
        join_path(app.as_str(), "profiles")
    }

    /// The file name under which a profile is stored.
    pub fn profile_file_name(profile_id: &str) -> (f: String)
        ensures
            f@ == profile_file_name_of(profile_id@),
    {
        let mut f = string_of(profile_id);
        append_str(&mut f, ".yaml");
        f
    }

    /// Whether a directory entry is a profile file (its extension is `yaml`).
    pub fn is_profile_file(file_name: &str) -> (r: bool)
        ensures
            r == has_yaml_extension(file_name@),
    {
        let cs = chars_of(file_name);
        let n = cs.len();
        if n <= 5 {
            return false;
        }
        let tail = crate::text::string_from_chars(cs.as_slice().split_at(n - 5).1);
        assert(cs@.subrange(n - 5, n as int) =~= cs@.skip(n - 5));
        str_eq(tail.as_str(), ".yaml")
    }

    /// Whether the cache must be filled from disk before it is read.
    pub fn needs_reload(&self) -> (r: bool)
        ensures
            r == !self.is_loaded(),
    {
        !self.cache_loaded
    }

    /// Invalidate the cache (force reload on next access).
    pub fn invalidate_cache(&mut self)
        ensures
            !final(self).is_loaded(),
            final(self).cached() == old(self).cached(),
            final(self).dir() == old(self).dir(),
    {
        self.cache_loaded = false;
    }

    fn position_of(&self, profile_id: &str) -> (r: Option<usize>)
        ensures
            match r {
                Some(i) => first_with_id(self.cached(), profile_id@, i as int),
                None => !contains_id(self.cached(), profile_id@),
            },
    {
        find_profile(&self.cache, profile_id)
    }

    fn store(&mut self, profile: VpnProfile)
        ensures
            final(self).cached() == upsert(old(self).cached(), profile@),
            final(self).is_loaded() == old(self).is_loaded(),
            final(self).dir() == old(self).dir(),
    {
        let ghost v = profile@;
        match self.position_of(profile.id.as_str()) {
            Some(i) => {
                proof {
                    let k = choose|k: int| first_with_id(old(self).cached(), v.id, k);
                    lemma_first_with_id_unique(old(self).cached(), v.id, i as int, k);
                }
                self.cache.set(i, profile);
                assert(self.cached() =~= old(self).cached().update(i as int, v));
            },
            None => {
                self.cache.push(profile);
                assert(self.cached() =~= old(self).cached().push(v));
            },
        }
    }

    /// Fill the cache with profiles read from disk: the cache is cleared, then each
    /// profile is stored under its identifier in turn; the cache counts as loaded.
    pub fn fill_cache(&mut self, profiles: Vec<VpnProfile>)
        ensures
            final(self).cached() == upsert_all(Seq::empty(), profile_views(profiles@)),
            final(self).is_loaded(),
            final(self).dir() == old(self).dir(),
    {
        self.cache = Vec::new();
        let mut rest = profiles;
        let ghost all = profile_views(rest@);
        let mut taken: Vec<VpnProfile> = Vec::new();
        let mut i: usize = 0;
        let n = rest.len();
        // Profiles are moved out from the back, so store them reversed first.
        while rest.len() > 0
            invariant
                all.len() == n,
                taken@.len() + rest@.len() == n,
                profile_views(rest@) == all.take(rest@.len() as int),
                forall|k: int| 0 <= k < taken@.len() ==> #[trigger] taken@[k]@ == all[n - 1 - k],
            decreases rest@.len(),
        {
            let ghost before_pop = rest@;
            let p = rest.pop().unwrap();
            proof {
                assert(profile_views(rest@) =~= all.take(rest@.len() as int));
                assert(p == before_pop.last());
                assert(profile_views(before_pop)[rest@.len() as int] == p@);
                assert(all.take(before_pop.len() as int)[rest@.len() as int] == all[rest@.len() as int]);
            }
            taken.push(p);
        }
        assert(self.cached() =~= upsert_all(Seq::empty(), all.take(0)));
        while taken.len() > 0
            invariant
                i + taken@.len() == n,
                all.len() == n,
                forall|k: int| 0 <= k < taken@.len() ==> #[trigger] taken@[k]@ == all[n - 1 - k],
                self.cached() == upsert_all(Seq::empty(), all.take(i as int)),
                self.dir() == old(self).dir(),
            decreases taken@.len(),
        {
            let p = taken.pop().unwrap();
            assert(p@ == all[i as int]);
            self.store(p);
            assert(all.take(i + 1).drop_last() =~= all.take(i as int));
            i = i + 1;
        }
        assert(all.take(n as int) =~= all);
        self.cache_loaded = true;
    }

    /// Store a profile in the cache under its identifier (after the application has
    /// written its file).
    pub fn save_profile(&mut self, profile: &VpnProfile)
        ensures
            final(self).cached() == upsert(old(self).cached(), profile@),
            final(self).is_loaded() == old(self).is_loaded(),
            final(self).dir() == old(self).dir(),
    {
        self.store(profile.clone());
    }

    /// Remove a profile from the cache (after the application has removed its file).
    pub fn delete_profile(&mut self, profile_id: &str)
        ensures
            final(self).cached() == remove_id(old(self).cached(), profile_id@),
            final(self).is_loaded() == old(self).is_loaded(),
            final(self).dir() == old(self).dir(),
    {
        let ghost pred = |p: ProfileView| p.id != profile_id@;
        let ghost before = self.cached();
        let mut kept: Vec<VpnProfile> = Vec::new();
        let mut i: usize = 0;
        while i < self.cache.len()
            invariant
                i <= self.cache@.len(),
                before == self.cached(),
                pred == (|p: ProfileView| p.id != profile_id@),
                profile_views(kept@) == before.take(i as int).filter(pred),
            decreases self.cache@.len() - i,
        {
            proof {
                lemma_filter_take_step(before, pred, i as int);
            }
            if !str_eq(self.cache[i].id.as_str(), profile_id) {
                kept.push(self.cache[i].clone());
                assert(profile_views(kept@) =~= before.take(i as int).filter(pred).push(before[i as int]));
            }
            i = i + 1;
        }
        assert(before.take(before.len() as int) =~= before);
        self.cache = kept;
    }

    /// All cached profiles.
    pub fn load_profiles(&self) -> (r: Vec<VpnProfile>)
        ensures
            profile_views(r@) == self.cached(),
    {
        let mut r: Vec<VpnProfile> = Vec::new();
        let mut i: usize = 0;
        while i < self.cache.len()
            invariant
                i <= self.cache@.len(),
                profile_views(r@) == self.cached().take(i as int),
            decreases self.cache@.len() - i,
        {
            let c = self.cache[i].clone();
            assert(c@ == self.cached()[i as int]);
            let ghost old_r = r@;
            r.push(c);
            assert(profile_views(r@) =~= profile_views(old_r).push(c@));
            assert(self.cached().take(i + 1) =~= self.cached().take(i as int).push(self.cached()[i as int]));
            i = i + 1;
        }
        assert(self.cached().take(self.cache@.len() as int) =~= self.cached());
        r
    }

    /// The cached profile with the given identifier.
    pub fn get_profile(&self, profile_id: &str) -> (r: Result<VpnProfile, Error>)
        ensures
            r is Ok <==> contains_id(self.cached(), profile_id@),
            r matches Ok(p) ==> exists|i: int| first_with_id(self.cached(), profile_id@, i) && p@ == self.cached()[i],
            r matches Err(e) ==> e matches Error::ProfileError { message }
                && message@ == "Profile '"@ + profile_id@ + "' not found"@,
    {
        match self.position_of(profile_id) {
            Some(i) => Ok(self.cache[i].clone()),
            None => {
                let mut message = string_of("Profile '");
                append_str(&mut message, profile_id);
                append_str(&mut message, "' not found");
                Err(Error::ProfileError { message })
            },
        }
    }

    /// Cached profiles whose name, description, host or a tag contains the query,
    /// ignoring case.
    pub fn search_profiles(&self, query: &str) -> (r: Vec<VpnProfile>)
        ensures
            profile_views(r@) == self.cached().filter(|p: ProfileView| matches_query(p, lowercase(query@))),
    {
        let query_lower = to_lowercase(query);
        let ghost q = lowercase(query@);
        let ghost pred = |p: ProfileView| matches_query(p, q);
        let ghost before = self.cached();
        let mut found: Vec<VpnProfile> = Vec::new();
        let mut i: usize = 0;
        while i < self.cache.len()
            invariant
                i <= self.cache@.len(),
                before == self.cached(),
                query_lower@ == q,
                pred == (|p: ProfileView| matches_query(p, q)),
                profile_views(found@) == before.take(i as int).filter(pred),
            decreases self.cache@.len() - i,
        {
            proof {
                lemma_filter_take_step(before, pred, i as int);
            }
            if profile_matches_query(&self.cache[i], query_lower.as_str()) {
                found.push(self.cache[i].clone());
                assert(profile_views(found@) =~= before.take(i as int).filter(pred).push(before[i as int]));
            }
            i = i + 1;
        }
        assert(before.take(before.len() as int) =~= before);
        found
    }

    /// Cached profiles marked as favorite.
    pub fn get_favorite_profiles(&self) -> (r: Vec<VpnProfile>)
        ensures
            profile_views(r@) == self.cached().filter(|p: ProfileView| p.metadata.favorite),
    {
        let ghost pred = |p: ProfileView| p.metadata.favorite;
        let ghost before = self.cached();
        let mut found: Vec<VpnProfile> = Vec::new();
        let mut i: usize = 0;
        while i < self.cache.len()
            invariant
                i <= self.cache@.len(),
                before == self.cached(),
                pred == (|p: ProfileView| p.metadata.favorite),
                profile_views(found@) == before.take(i as int).filter(pred),
            decreases self.cache@.len() - i,
        {
            proof {
                lemma_filter_take_step(before, pred, i as int);
            }
            if self.cache[i].metadata.favorite {
                found.push(self.cache[i].clone());
                assert(profile_views(found@) =~= before.take(i as int).filter(pred).push(before[i as int]));
            }
            i = i + 1;
        }
        assert(before.take(before.len() as int) =~= before);
        found
    }

    /// Cached profiles that carry the tag.
    pub fn get_profiles_by_tag(&self, tag: &str) -> (r: Vec<VpnProfile>)
        ensures
            profile_views(r@) == self.cached().filter(|p: ProfileView| p.metadata.tags.contains(tag@)),
    {
        let ghost pred = |p: ProfileView| p.metadata.tags.contains(tag@);
        let ghost before = self.cached();
        let mut found: Vec<VpnProfile> = Vec::new();
        let mut i: usize = 0;
        while i < self.cache.len()
            invariant
                i <= self.cache@.len(),
                before == self.cached(),
                pred == (|p: ProfileView| p.metadata.tags.contains(tag@)),
                profile_views(found@) == before.take(i as int).filter(pred),
            decreases self.cache@.len() - i,
        {
            proof {
                lemma_filter_take_step(before, pred, i as int);
            }
            if has_tag_str(&self.cache[i], tag) {
                found.push(self.cache[i].clone());
                assert(profile_views(found@) =~= before.take(i as int).filter(pred).push(before[i as int]));
            }
            i = i + 1;
        }
        assert(before.take(before.len() as int) =~= before);
        found
    }
}

/// The profiles that have been used, most recently used first (profiles used at
/// the same time keep their order in `profiles`), at most `limit` of them.
pub fn most_recent(profiles: &Vec<VpnProfile>, limit: usize) -> (r: Vec<VpnProfile>)
    ensures
        exists|perm: Seq<int>|
            #[trigger] is_recency_order(used_profiles(profile_views(profiles@)), perm) && profile_views(r@)
                == first_in_order(used_profiles(profile_views(profiles@)), perm, limit as nat),
{
    let ghost pred = |p: ProfileView| p.metadata.last_used_at is Some;
    let ghost before = profile_views(profiles@);
    let mut used: Vec<VpnProfile> = Vec::new();
    let mut i: usize = 0;
    while i < profiles.len()
        invariant
            i <= profiles@.len(),
            before == profile_views(profiles@),
            pred == (|p: ProfileView| p.metadata.last_used_at is Some),
            profile_views(used@) == before.take(i as int).filter(pred),
        decreases profiles@.len() - i,
    {
        proof {
            lemma_filter_take_step(before, pred, i as int);
        }
        if profiles[i].metadata.last_used_at.is_some() {
            used.push(profiles[i].clone());
            assert(profile_views(used@) =~= before.take(i as int).filter(pred).push(before[i as int]));
        }
        i = i + 1;
    }
    assert(before.take(before.len() as int) =~= before);
    let ghost f = profile_views(used@);
    assert(f == used_profiles(before));
    let n = used.len();
    proof {
        assert forall|k: int| 0 <= k < n implies #[trigger] f[k].metadata.last_used_at is Some by {
            before.lemma_filter_pred(pred, k);
        }
    }
    // The last-use time of each used profile.
    let mut keys: Vec<i64> = Vec::new();
    let mut k: usize = 0;
    while k < n
        invariant
            k <= n,
            n == used@.len(),
            f == profile_views(used@),
            forall|m: int| 0 <= m < n ==> #[trigger] f[m].metadata.last_used_at is Some,
            keys@.len() == k,
            forall|m: int| 0 <= m < k ==> #[trigger] keys@[m] == last_used(f[m]),
        decreases n - k,
    {
        let t = match used[k].metadata.last_used_at {
            Some(t) => t,
            None => 0,
        };
        assert(f[k as int] == used@[k as int]@);
        keys.push(t);
        k = k + 1;
    }
    // Positions of the used profiles, sorted by selection.
    let mut idx: Vec<usize> = Vec::new();
    k = 0;
    while k < n
        invariant
            k <= n,
            idx@.len() == k,
            forall|m: int| 0 <= m < k ==> #[trigger] idx@[m] == m,
        decreases n - k,
    {
        idx.push(k);
        k = k + 1;
    }
    let mut i: usize = 0;
    while i < n
        invariant
            i <= n,
            n == f.len(),
            keys@.len() == n,
            forall|m: int| 0 <= m < n ==> #[trigger] keys@[m] == last_used(f[m]),
            idx@.len() == n,
            forall|m: int| 0 <= m < n ==> #[trigger] idx@[m] < n,
            forall|a: int, b: int| 0 <= a < b < n ==> #[trigger] idx@[a] != #[trigger] idx@[b],
            forall|a: int, b: int|
                0 <= a < i && a < b < n ==> ranks_before(f, #[trigger] idx@[a] as int, #[trigger] idx@[b] as int),
        decreases n - i,
    {
        let mut best: usize = i;
        let mut j: usize = i + 1;
        while j < n
            invariant
                i <= best < j <= n,
                i < n,
                n == f.len(),
                keys@.len() == n,
                forall|m: int| 0 <= m < n ==> #[trigger] keys@[m] == last_used(f[m]),
                idx@.len() == n,
                forall|m: int| 0 <= m < n ==> #[trigger] idx@[m] < n,
                forall|a: int, b: int| 0 <= a < b < n ==> #[trigger] idx@[a] != #[trigger] idx@[b],
                forall|m: int|
                    i <= m < j && m != best ==> ranks_before(f, idx@[best as int] as int, #[trigger] idx@[m] as int),
            decreases n - j,
        {
            let a = idx[j];
            let b = idx[best];
            if keys[a] > keys[b] || (keys[a] == keys[b] && a < b) {
                assert(ranks_before(f, a as int, b as int));
                best = j;
            } else {
                assert(a != b);
                assert(ranks_before(f, b as int, a as int));
            }
            j = j + 1;
        }
        let ghost old_idx = idx@;
        let x = idx[i];
        let y = idx[best];
        idx.set(i, y);
        idx.set(best, x);
        proof {
            assert forall|a: int, b: int| 0 <= a < b < n implies #[trigger] idx@[a] != #[trigger] idx@[b] by {
                let pa = if a == i { best as int } else if a == best { i as int } else { a };
                let pb = if b == i { best as int } else if b == best { i as int } else { b };
                assert(idx@[a] == old_idx[pa] && idx@[b] == old_idx[pb]);
            }
            assert forall|a: int, b: int|
                0 <= a < i + 1 && a < b < n implies ranks_before(f, #[trigger] idx@[a] as int, #[trigger] idx@[b] as int) by {
                let pb = if b == i { best as int } else if b == best { i as int } else { b };
                assert(idx@[b] == old_idx[pb]);
                if a < i {
                    assert(idx@[a] == old_idx[a]);
                } else {
                    assert(idx@[a] == old_idx[best as int]);
                    assert(pb != best as int);
                }
            }
        }
        i = i + 1;
    }
    // The first `limit` profiles in that order.
    let count = if limit < n { limit } else { n };
    let ghost perm = idx@.map_values(|x: usize| x as int);
    let ghost ordered = perm.map_values(|m: int| f[m]);
    let mut out: Vec<VpnProfile> = Vec::new();
    k = 0;
    while k < count
        invariant
            k <= count <= n,
            n == f.len(),
            n == used@.len(),
            f == profile_views(used@),
            idx@.len() == n,
            forall|m: int| 0 <= m < n ==> #[trigger] idx@[m] < n,
            perm == idx@.map_values(|x: usize| x as int),
            ordered == perm.map_values(|m: int| f[m]),
            profile_views(out@) == ordered.take(k as int),
        decreases count - k,
    {
        let c = used[idx[k]].clone();
        assert(c@ == ordered[k as int]);
        let ghost old_out = out@;
        out.push(c);
        assert(profile_views(out@) =~= profile_views(old_out).push(c@));
        assert(ordered.take(k + 1) =~= ordered.take(k as int).push(ordered[k as int]));
        k = k + 1;
    }
    proof {
        assert(is_recency_order(f, perm));
        assert(profile_views(out@) == first_in_order(f, perm, limit as nat));
    }
    out
}

impl ProfileManager {
    /// Cached profiles that have been used, most recently used first (profiles
    /// used at the same time keep their cache order), at most `limit` of them.
    pub fn get_recent_profiles(&self, limit: usize) -> (r: Vec<VpnProfile>)
        ensures
            exists|perm: Seq<int>|
                #[trigger] is_recency_order(used_profiles(self.cached()), perm) && profile_views(r@)
                    == first_in_order(used_profiles(self.cached()), perm, limit as nat),
    {
        let r = most_recent(&self.cache, limit);
        assert(self.cached() == profile_views(self.cache@));
        r
    }
}

/// Inserts `t` into a strictly sorted list of texts, unless it is already there.
fn insert_sorted(list: &mut Vec<String>, t: &String)
    requires
        strictly_sorted(string_views(old(list)@)),
    ensures
        strictly_sorted(string_views(final(list)@)),
        forall|x: Seq<char>|
            string_views(final(list)@).contains(x) <==> (string_views(old(list)@).contains(x) || x == t@),
{
    let tc = chars_of(t.as_str());
    let ghost v = string_views(list@);
    let mut pos: usize = 0;
    while pos < list.len() && chars_less(chars_of(list[pos].as_str()).as_slice(), tc.as_slice())
        invariant
            pos <= list@.len(),
            v == string_views(list@),
            tc@ == t@,
            forall|a: int| 0 <= a < pos ==> lex_lt(#[trigger] v[a], t@),
        decreases list@.len() - pos,
    {
        pos = pos + 1;
    }
    if pos < list.len() && str_eq(list[pos].as_str(), t.as_str()) {
        assert(v[pos as int] == t@);
        return;
    }
    proof {
        if pos < list@.len() {
            lemma_lex_total(v[pos as int], t@);
        }
        assert forall|b: int| pos <= b < v.len() implies lex_lt(t@, #[trigger] v[b]) by {
            if b > pos {
                lemma_lex_transitive(t@, v[pos as int], v[b]);
            }
        }
    }
    list.insert(pos, copy_string(t));
    proof {
        let w = string_views(list@);
        assert(w =~= v.insert(pos as int, t@));
        assert forall|a: int, b: int| 0 <= a < b < w.len() implies lex_lt(#[trigger] w[a], #[trigger] w[b]) by {
            if a < pos && b < pos {
                assert(w[a] == v[a] && w[b] == v[b]);
            } else if a < pos && b == pos {
            } else if a < pos && b > pos {
                assert(w[b] == v[b - 1]);
                lemma_lex_transitive(v[a], t@, v[b - 1]);
            } else if a == pos {
                assert(w[b] == v[b - 1]);
            } else {
                assert(w[a] == v[a - 1] && w[b] == v[b - 1]);
            }
        }
        assert forall|x: Seq<char>| w.contains(x) <==> (v.contains(x) || x == t@) by {
            if w.contains(x) {
                let k = choose|k: int| 0 <= k < w.len() && w[k] == x;
                if k < pos {
                    assert(v[k] == x);
                } else if k > pos {
                    assert(v[k - 1] == x);
                }
            }
            if v.contains(x) {
                let k = choose|k: int| 0 <= k < v.len() && v[k] == x;
                if k < pos {
                    assert(w[k] == x);
                } else {
                    assert(w[k + 1] == x);
                }
            }
            if x == t@ {
                assert(w[pos as int] == x);
            }
        }
    }
}

impl ProfileManager {
    /// All tags of the cached profiles, each once, in lexicographic order.
    pub fn get_all_tags(&self) -> (r: Vec<String>)
        ensures
            strictly_sorted(string_views(r@)),
            forall|t: Seq<char>| string_views(r@).contains(t) <==> tag_in(self.cached(), t),
    {
        let ghost c = self.cached();
        let mut tags: Vec<String> = Vec::new();
        let mut i: usize = 0;
        while i < self.cache.len()
            invariant
                i <= self.cache@.len(),
                c == self.cached(),
                strictly_sorted(string_views(tags@)),
                forall|t: Seq<char>|
                    string_views(tags@).contains(t) <==> tag_in(c.take(i as int), t),
            decreases self.cache@.len() - i,
        {
            let p = &self.cache[i];
            assert(c[i as int] == p@);
            let mut j: usize = 0;
            while j < p.metadata.tags.len()
                invariant
                    i < self.cache@.len(),
                    j <= p.metadata.tags@.len(),
                    c == self.cached(),
                    c[i as int] == p@,
                    strictly_sorted(string_views(tags@)),
                    forall|t: Seq<char>|
                        string_views(tags@).contains(t) <==> (tag_in(c.take(i as int), t)
                            || p@.metadata.tags.take(j as int).contains(t)),
                decreases p.metadata.tags@.len() - j,
            {
                insert_sorted(&mut tags, &p.metadata.tags[j]);
                proof {
                    let tj = p.metadata.tags@[j as int]@;
                    assert(p@.metadata.tags[j as int] == tj);
                    assert(p@.metadata.tags.take(j + 1) =~= p@.metadata.tags.take(j as int).push(tj));
                    let tn = p@.metadata.tags.take(j + 1);
                    let tp = p@.metadata.tags.take(j as int);
                    assert forall|t: Seq<char>| tn.contains(t) <==> (tp.contains(t) || t == tj) by {
                        if tn.contains(t) {
                            let k = choose|k: int| 0 <= k < tn.len() && tn[k] == t;
                            if k < j {
                                assert(tp[k] == t);
                            }
                        }
                        if tp.contains(t) {
                            let k = choose|k: int| 0 <= k < tp.len() && tp[k] == t;
                            assert(tn[k] == t);
                        }
                        if t == tj {
                            assert(tn[j as int] == t);
                        }
                    }
                }
                j = j + 1;
            }
            proof {
                assert(p@.metadata.tags.take(j as int) =~= p@.metadata.tags);
                assert forall|t: Seq<char>|
                    tag_in(c.take(i + 1), t) <==> (tag_in(c.take(i as int), t) || p@.metadata.tags.contains(t)) by {
                    let ci = c.take(i as int);
                    let cn = c.take(i + 1);
                    if tag_in(cn, t) {
                        let (a, b) = choose|a: int, b: int|
                            0 <= a < cn.len() && 0 <= b < cn[a].metadata.tags.len() && #[trigger] cn[a].metadata.tags[b] == t;
                        if a < i {
                            assert(ci[a] == cn[a]);
                            assert(tag_in(ci, t));
                        } else {
                            assert(p@.metadata.tags[b] == t);
                        }
                    }
                    if tag_in(ci, t) {
                        let (a, b) = choose|a: int, b: int|
                            0 <= a < ci.len() && 0 <= b < ci[a].metadata.tags.len() && #[trigger] ci[a].metadata.tags[b] == t;
                        assert(cn[a] == ci[a]);
                        assert(cn[a].metadata.tags[b] == t);
                    }
                    if p@.metadata.tags.contains(t) {
                        let b = choose|b: int| 0 <= b < p@.metadata.tags.len() && p@.metadata.tags[b] == t;
                        assert(cn[i as int] == p@);
                        assert(cn[i as int].metadata.tags[b] == t);
                    }
                }
            }
            i = i + 1;
        }
        assert(c.take(c.len() as int) =~= c);
        tags
    }
}

fn has_tag_str(p: &VpnProfile, tag: &str) -> (r: bool)
    ensures
        r == p@.metadata.tags.contains(tag@),
{
    let mut i: usize = 0;
    while i < p.metadata.tags.len()
        invariant
            i <= p.metadata.tags@.len(),
            forall|k: int| 0 <= k < i ==> p.metadata.tags@[k]@ != tag@,
        decreases p.metadata.tags@.len() - i,
    {
        if str_eq(p.metadata.tags[i].as_str(), tag) {
            assert(p@.metadata.tags[i as int] == tag@);
            return true;
        }
        i = i + 1;
    }
    assert(!p@.metadata.tags.contains(tag@)) by {
        if p@.metadata.tags.contains(tag@) {
            let k = choose|k: int| 0 <= k < p@.metadata.tags.len() && p@.metadata.tags[k] == tag@;
            assert(p.metadata.tags@[k]@ == tag@);
        }
    }
    false
}

fn profile_matches_query(p: &VpnProfile, query_lower: &str) -> (r: bool)
    ensures
        r == matches_query(p@, query_lower@),
{
    let name = to_lowercase(p.name.as_str());
    if str_contains(name.as_str(), query_lower) {
        return true;
    }
    let description = to_lowercase(p.description.as_str());
    if str_contains(description.as_str(), query_lower) {
        return true;
    }
    let host = to_lowercase(p.host.as_str());
    if str_contains(host.as_str(), query_lower) {
        return true;
    }
    let mut i: usize = 0;
    while i < p.metadata.tags.len()
        invariant
            i <= p.metadata.tags@.len(),
            forall|k: int|
                0 <= k < i ==> !seq_contains(lowercase(#[trigger] p@.metadata.tags[k]), query_lower@),
        decreases p.metadata.tags@.len() - i,
    {
        let t = to_lowercase(p.metadata.tags[i].as_str());
        assert(p@.metadata.tags[i as int] == p.metadata.tags@[i as int]@);
        if str_contains(t.as_str(), query_lower) {
            return true;
        }
        i = i + 1;
    }
    false
}


// ---------------------------------------------------------------------------
// Laws of the profile cache
// ---------------------------------------------------------------------------

/// Law: after a profile is saved, looking its identifier up finds it, as saved.
pub proof fn law_get_after_save(s: Seq<ProfileView>, p: ProfileView)
    ensures
        contains_id(upsert(s, p), p.id),
        forall|i: int| #[trigger] first_with_id(upsert(s, p), p.id, i) ==> upsert(s, p)[i] == p,
{
    let t = upsert(s, p);
    if contains_id(s, p.id) {
        let k = choose|k: int| first_with_id(s, p.id, k);
        assert(first_with_id(s, p.id, k)) by {
            let w = choose|w: int| 0 <= w < s.len() && s[w].id == p.id;
            lemma_first_position(s, p.id, w);
        }
        assert(t[k] == p);
        assert(first_with_id(t, p.id, k));
        assert forall|i: int| #[trigger] first_with_id(t, p.id, i) implies t[i] == p by {
            lemma_first_with_id_unique(t, p.id, i, k);
        }
    } else {
        assert(t[s.len() as int] == p);
        assert(first_with_id(t, p.id, s.len() as int));
        assert forall|i: int| #[trigger] first_with_id(t, p.id, i) implies t[i] == p by {
            lemma_first_with_id_unique(t, p.id, i, s.len() as int);
        }
    }
}

/// Some position holding an identifier means a first position holding it.
pub proof fn lemma_first_position(s: Seq<ProfileView>, id: Seq<char>, w: int)
    requires
        0 <= w < s.len(),
        s[w].id == id,
    ensures
        exists|k: int| first_with_id(s, id, k),
    decreases w,
{
    if exists|j: int| 0 <= j < w && s[j].id == id {
        let j = choose|j: int| 0 <= j < w && s[j].id == id;
        lemma_first_position(s, id, j);
    } else {
        assert(first_with_id(s, id, w));
    }
}

/// Law: saving a profile leaves the lookup of every other identifier as it was.
pub proof fn law_save_keeps_others(s: Seq<ProfileView>, p: ProfileView, id: Seq<char>)
    requires
        id != p.id,
    ensures
        contains_id(upsert(s, p), id) == contains_id(s, id),
        forall|i: int| #[trigger] first_with_id(s, id, i) ==> first_with_id(upsert(s, p), id, i) && upsert(s, p)[i] == s[i],
{
    let t = upsert(s, p);
    if contains_id(s, p.id) {
        let k = choose|k: int| first_with_id(s, p.id, k);
        assert(first_with_id(s, p.id, k)) by {
            let w = choose|w: int| 0 <= w < s.len() && s[w].id == p.id;
            lemma_first_position(s, p.id, w);
        }
        assert(t.len() == s.len());
        assert forall|j: int| 0 <= j < s.len() implies (#[trigger] t[j].id == id) == (s[j].id == id) by {
            if j == k {
                assert(t[j] == p);
            }
        }
        if contains_id(s, id) {
            let w = choose|w: int| 0 <= w < s.len() && s[w].id == id;
            assert(t[w].id == id);
        }
        if contains_id(t, id) {
            let w = choose|w: int| 0 <= w < t.len() && t[w].id == id;
            assert(s[w].id == id);
        }
        assert forall|i: int| #[trigger] first_with_id(s, id, i) implies first_with_id(t, id, i) && t[i] == s[i] by {
            assert(i != k);
        }
    } else {
        assert(t =~= s.push(p));
        if contains_id(s, id) {
            let w = choose|w: int| 0 <= w < s.len() && s[w].id == id;
            assert(t[w].id == id);
        }
        if contains_id(t, id) {
            let w = choose|w: int| 0 <= w < t.len() && t[w].id == id;
            assert(w < s.len());
            assert(s[w].id == id);
        }
    }
}

/// Deleting an identifier drops exactly the profiles with that identifier and
/// keeps every other one, in its order: deleting from nothing gives nothing,
/// and a profile added last is kept, last, unless it has the identifier.
pub proof fn law_delete_keeps_others(s: Seq<ProfileView>, id: Seq<char>, p: ProfileView, id2: Seq<char>, q: ProfileView)
    ensures
        remove_id(Seq::empty(), id) == Seq::<ProfileView>::empty(),
        remove_id(s.push(p), id) == (if p.id == id { remove_id(s, id) } else { remove_id(s, id).push(p) }),
        remove_id(s, id).contains(q) <==> (s.contains(q) && q.id != id),
        id2 != id ==> contains_id(remove_id(s, id), id2) == contains_id(s, id2),
{
    let pred = |r: ProfileView| r.id != id;
    Seq::<ProfileView>::empty().lemma_filter_len(pred);
    assert(remove_id(Seq::empty(), id) =~= Seq::<ProfileView>::empty());
    s.lemma_filter_push(p, pred);
    let t = s.filter(pred);
    if t.contains(q) {
        s.lemma_filter_contains_rev(pred, q);
        let w = choose|w: int| 0 <= w < t.len() && t[w] == q;
        s.lemma_filter_pred(pred, w);
    }
    if s.contains(q) && q.id != id {
        let w = choose|w: int| 0 <= w < s.len() && s[w] == q;
        s.lemma_filter_contains(pred, w);
    }
    if id2 != id {
        if contains_id(s, id2) {
            let w = choose|w: int| 0 <= w < s.len() && s[w].id == id2;
            s.lemma_filter_contains(pred, w);
            let v = choose|v: int| 0 <= v < t.len() && t[v] == s[w];
            assert(t[v].id == id2);
        }
        if contains_id(t, id2) {
            let v = choose|v: int| 0 <= v < t.len() && t[v].id == id2;
            assert(t.contains(t[v]));
            s.lemma_filter_contains_rev(pred, t[v]);
            let w = choose|w: int| 0 <= w < s.len() && s[w] == t[v];
            assert(s[w].id == id2);
        }
    }
}

/// A search looks at the name, the description, the host and every tag: a
/// profile is found when any of them, lower-cased, contains the lower-cased
/// query, and it is then in the search result of any cache that holds it.
pub proof fn law_search_fields(p: ProfileView, query: Seq<char>, s: Seq<ProfileView>, i: int, k: int)
    ensures
        seq_contains(lowercase(p.name), lowercase(query)) ==> matches_query(p, lowercase(query)),
        seq_contains(lowercase(p.description), lowercase(query)) ==> matches_query(p, lowercase(query)),
        seq_contains(lowercase(p.host), lowercase(query)) ==> matches_query(p, lowercase(query)),
        0 <= k < p.metadata.tags.len() && seq_contains(lowercase(p.metadata.tags[k]), lowercase(query))
            ==> matches_query(p, lowercase(query)),
        0 <= i < s.len() && matches_query(s[i], lowercase(query)) ==> s.filter(
            |r: ProfileView| matches_query(r, lowercase(query)),
        ).contains(s[i]),
{
    if 0 <= i < s.len() && matches_query(s[i], lowercase(query)) {
        s.lemma_filter_contains(|r: ProfileView| matches_query(r, lowercase(query)), i);
    }
}

/// Law: after a profile is deleted, looking its identifier up finds nothing.
pub proof fn law_get_after_delete(s: Seq<ProfileView>, id: Seq<char>)
    ensures
        !contains_id(remove_id(s, id), id),
{
    let pred = |p: ProfileView| p.id != id;
    let t = s.filter(pred);
    if contains_id(t, id) {
        let w = choose|w: int| 0 <= w < t.len() && t[w].id == id;
        s.lemma_filter_pred(pred, w);
    }
}

/// Filtering keeps identifiers pairwise distinct.
proof fn lemma_filter_distinct(s: Seq<ProfileView>, pred: spec_fn(ProfileView) -> bool)
    requires
        distinct_ids(s),
    ensures
        distinct_ids(s.filter(pred)),
    decreases s.len(),
{
    reveal_with_fuel(Seq::<_>::filter, 1);
    if s.len() > 0 {
        let r = s.drop_last();
        assert(distinct_ids(r)) by {
            assert forall|i: int, j: int| 0 <= i < r.len() && 0 <= j < r.len() && i != j implies r[i].id != r[j].id by {
                assert(r[i] == s[i] && r[j] == s[j]);
            }
        }
        lemma_filter_distinct(r, pred);
        let f = r.filter(pred);
        if pred(s.last()) {
            let t = f.push(s.last());
            assert forall|i: int, j: int| 0 <= i < t.len() && 0 <= j < t.len() && i != j implies t[i].id != t[j].id by {
                if i < f.len() && j < f.len() {
                } else {
                    let m = if i < f.len() { i } else { j };
                    assert(f.contains(f[m]));
                    r.lemma_filter_contains_rev(pred, f[m]);
                    let k = choose|k: int| 0 <= k < r.len() && r[k] == f[m];
                    assert(s[k] == f[m]);
                    assert(s[s.len() - 1] == s.last());
                }
            }
        }
    }
}

/// Saving keeps identifiers pairwise distinct.
proof fn lemma_upsert_distinct(s: Seq<ProfileView>, p: ProfileView)
    requires
        distinct_ids(s),
    ensures
        distinct_ids(upsert(s, p)),
{
    let t = upsert(s, p);
    if contains_id(s, p.id) {
        let k = choose|k: int| first_with_id(s, p.id, k);
        assert(first_with_id(s, p.id, k)) by {
            let w = choose|w: int| 0 <= w < s.len() && s[w].id == p.id;
            lemma_first_position(s, p.id, w);
        }
        assert forall|i: int, j: int| 0 <= i < t.len() && 0 <= j < t.len() && i != j implies t[i].id != t[j].id by {
            if i == k {
                assert(s[j].id != s[k].id);
            } else if j == k {
                assert(s[i].id != s[k].id);
            }
        }
    } else {
        assert forall|i: int, j: int| 0 <= i < t.len() && 0 <= j < t.len() && i != j implies t[i].id != t[j].id by {
            if i == s.len() {
                assert(s[j].id != p.id);
            } else if j == s.len() {
                assert(s[i].id != p.id);
            }
        }
    }
}

/// Law: the cache never holds two profiles with one identifier: saving and
/// deleting keep the identifiers distinct, and filling the cache from any list of
/// profiles makes them so.
pub proof fn law_ids_stay_distinct(s: Seq<ProfileView>, p: ProfileView, id: Seq<char>, loaded: Seq<ProfileView>)
    ensures
        distinct_ids(s) ==> distinct_ids(upsert(s, p)),
        distinct_ids(s) ==> distinct_ids(remove_id(s, id)),
        distinct_ids(upsert_all(Seq::empty(), loaded)),
{
    if distinct_ids(s) {
        lemma_upsert_distinct(s, p);
        lemma_filter_distinct(s, |q: ProfileView| q.id != id);
    }
    lemma_upsert_all_distinct(loaded);
}

proof fn lemma_upsert_all_distinct(ps: Seq<ProfileView>)
    ensures
        distinct_ids(upsert_all(Seq::empty(), ps)),
    decreases ps.len(),
{
    if ps.len() > 0 {
        lemma_upsert_all_distinct(ps.drop_last());
        lemma_upsert_distinct(upsert_all(Seq::empty(), ps.drop_last()), ps.last());
    }
}

/// Law: toggling the favorite mark twice gives the profile back, apart from its
/// update time.
pub proof fn law_toggle_favorite_twice(p: ProfileView, t1: i64, t2: i64)
    ensures
        ({
            let once = ProfileView {
                metadata: MetadataView { favorite: !p.metadata.favorite, updated_at: t1, ..p.metadata },
                ..p
            };
            let twice = ProfileView {
                metadata: MetadataView { favorite: !once.metadata.favorite, updated_at: t2, ..once.metadata },
                ..once
            };
            twice == ProfileView { metadata: MetadataView { updated_at: t2, ..p.metadata }, ..p }
        }),
{
}

/// Law: a profile's tags never hold one tag twice: adding a tag keeps them
/// distinct, and after removing a tag the profile no longer has it.
pub proof fn law_tags_distinct(tags: Seq<Seq<char>>, tag: Seq<char>)
    ensures
        tags.no_duplicates() ==> (if has_tag(tags, tag) { tags } else { tags.push(tag) }).no_duplicates(),
        !has_tag(tags.filter(|t: Seq<char>| t != tag), tag),
{
    if tags.no_duplicates() && !has_tag(tags, tag) {
        let t = tags.push(tag);
        assert forall|i: int, j: int| 0 <= i < t.len() && 0 <= j < t.len() && i != j implies t[i] != t[j] by {
            if i == tags.len() {
                assert(tags.contains(tags[j]));
            } else if j == tags.len() {
                assert(tags.contains(tags[i]));
            }
        }
    }
    let pred = |t: Seq<char>| t != tag;
    if tags.filter(pred).contains(tag) {
        let w = choose|w: int| 0 <= w < tags.filter(pred).len() && tags.filter(pred)[w] == tag;
        tags.lemma_filter_pred(pred, w);
    }
}

} // verus!
