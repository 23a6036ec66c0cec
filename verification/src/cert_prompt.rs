//! Certificate prompts: what the SoftEther certificate callback shares with the
//! user interface while a connection is being made.

use vstd::prelude::*;
use crate::text::string_of;

verus! {

/// Decisions that can be made by the user when presented with a certificate.
#[derive(Debug, Clone, Copy, PartialEq, Eq, Structural)]
pub enum CertificateDecision {
    TrustTemporarily,
    TrustPermanently,
    Reject,
}

/// Active profile metadata shared with the certificate verification callback.
#[derive(Debug)]
pub struct ActiveProfileInfo {
    pub id: String,
    pub name: String,
    pub host: String,
    pub port: u16,
}

impl Clone for ActiveProfileInfo {
    fn clone(&self) -> (r: Self)
        ensures
            r == *self,
    {
        ActiveProfileInfo {
            id: self.id.clone(),
            name: self.name.clone(),
            host: self.host.clone(),
            port: self.port,
        }
    }
}

#[verifier::external_type_specification]
#[verifier::external_body]
#[verifier::reject_recursive_types(T)]
pub struct ExSender<T>(std::sync::mpsc::Sender<T>);

/// Channel used to signal the user's decision back to the callback.
pub type CertificateResponseTx = std::sync::mpsc::Sender<CertificateDecision>;

/// Information sent to the UI when a certificate prompt is emitted.
#[derive(Debug)]
pub struct CertificatePrompt {
    pub profile_id: Option<String>,
    pub profile_name: Option<String>,
    pub host: String,
    pub port: u16,
    pub subject: String,
    pub issuer: String,
    pub fingerprint: String,
    pub pem: String,
    pub expired: bool,
    pub response_tx: CertificateResponseTx,
}

/// Another handle on the channel of `tx` (`std::sync::mpsc::Sender::clone`).
///
/// The handle sends to the same receiver; nothing about it is stated here.
#[verifier::external_body]
fn clone_sender(tx: &CertificateResponseTx) -> CertificateResponseTx {
    tx.clone()
}

/// Whether two prompts are for the same profile and certificate: every field
/// but the reply channel agrees.
pub open spec fn same_prompt(a: CertificatePrompt, b: CertificatePrompt) -> bool {
    &&& a.profile_id == b.profile_id
    &&& a.profile_name == b.profile_name
    &&& a.host == b.host
    &&& a.port == b.port
    &&& a.subject == b.subject
    &&& a.issuer == b.issuer
    &&& a.fingerprint == b.fingerprint
    &&& a.pem == b.pem
    &&& a.expired == b.expired
}

impl Clone for CertificatePrompt {
    /// A copy of the prompt with another handle on the same reply channel.
    fn clone(&self) -> (p: Self)
        ensures
            same_prompt(p, *self),
    {
        CertificatePrompt {
            profile_id: match &self.profile_id {
                Some(t) => Some(t.clone()),
                None => None,
            },
            profile_name: match &self.profile_name {
                Some(t) => Some(t.clone()),
                None => None,
            },
            host: self.host.clone(),
            port: self.port,
            subject: self.subject.clone(),
            issuer: self.issuer.clone(),
            fingerprint: self.fingerprint.clone(),
            pem: self.pem.clone(),
            expired: self.expired,
            response_tx: clone_sender(&self.response_tx),
        }
    }
}

/// `Some` text as it is, `None` as "Unknown".
pub open spec fn or_unknown(s: Option<String>) -> Seq<char> {
    match s {
        Some(t) => t@,
        None => "Unknown"@,
    }
}

impl CertificatePrompt {
    /// The prompt that the certificate callback sends for a server certificate:
    /// the connecting profile's identity (or none, with an empty host and port 0),
    /// the certificate's subject, issuer and fingerprint ("Unknown" where they
    /// could not be read) and its PEM text (empty when it could not be read).
    pub fn for_server_certificate(
        active: Option<ActiveProfileInfo>,
        subject: Option<String>,
        issuer: Option<String>,
        fingerprint: Option<String>,
        pem: Option<String>,
        response_tx: CertificateResponseTx,
    ) -> (p: Self)
        ensures
            match active {
                Some(info) => p.profile_id == Some(info.id) && p.profile_name == Some(info.name)
                    && p.host == info.host && p.port == info.port,
                None => p.profile_id is None && p.profile_name is None && p.host@.len() == 0
                    && p.port == 0,
            },
            p.subject@ == or_unknown(subject),
            p.issuer@ == or_unknown(issuer),
            p.fingerprint@ == or_unknown(fingerprint),
            p.pem@ == (match pem { Some(t) => t@, None => Seq::<char>::empty() }),
            !p.expired,
            p.response_tx == response_tx,
    {
        let (profile_id, profile_name, host, port) = match active {
            Some(info) => (Some(info.id), Some(info.name), info.host, info.port),
            None => (None, None, String::new(), 0u16),
        };
        CertificatePrompt {
            profile_id,
            profile_name,
            host,
            port,
            subject: unknown_if_none(subject),
            issuer: unknown_if_none(issuer),
            fingerprint: unknown_if_none(fingerprint),
            pem: match pem {
                Some(t) => t,
                None => String::new(),
            },
            expired: false,
            response_tx,
        }
    }
}

fn unknown_if_none(s: Option<String>) -> (r: String)
    ensures
        r@ == or_unknown(s),
{
    match s {
        Some(t) => t,
        None => string_of("Unknown"),
    }
}

/// Whether a decision lets the connection go on.
pub open spec fn accepts(d: CertificateDecision) -> bool {
    d == CertificateDecision::TrustTemporarily || d == CertificateDecision::TrustPermanently
}

/// What the certificate callback answers SoftEther for a decision: 1 to accept the
/// certificate, 0 to refuse it.
pub fn decision_answer(decision: CertificateDecision) -> (r: u8)
    ensures
        r == (if accepts(decision) { 1u8 } else { 0u8 }),
{
    match decision {
        CertificateDecision::TrustTemporarily | CertificateDecision::TrustPermanently => 1,
        CertificateDecision::Reject => 0,
    }
}

/// The state shared between a connection attempt and the certificate callback:
/// the profile being connected and the user's last certificate decision.
#[derive(Debug)]
pub struct CertificatePromptState {
    active_profile: Option<ActiveProfileInfo>,
    last_decision: Option<CertificateDecision>,
}

impl CertificatePromptState {
    /// The profile that is currently connecting.
    pub closed spec fn active(&self) -> Option<ActiveProfileInfo> {
        self.active_profile
    }

    /// The last recorded decision.
    pub closed spec fn last(&self) -> Option<CertificateDecision> {
        self.last_decision
    }

    /// No active profile and no recorded decision.
    pub fn new() -> (s: Self)
        ensures
            s.active() is None,
            s.last() is None,
    {
        CertificatePromptState { active_profile: None, last_decision: None }
    }
}

/// Set or clear the active profile that is currently connecting.
pub fn set_active_profile(state: &mut CertificatePromptState, info: Option<ActiveProfileInfo>)
    ensures
        final(state).active() == info,
        final(state).last() == old(state).last(),
{
    state.active_profile = info;
}

/// Clear the active profile once a connection attempt finishes.
pub fn clear_active_profile(state: &mut CertificatePromptState)
    ensures
        final(state).active() is None,
        final(state).last() == old(state).last(),
{
    set_active_profile(state, None);
}

/// Get a copy of the active profile info, if any.
pub fn current_profile(state: &CertificatePromptState) -> (r: Option<ActiveProfileInfo>)
    ensures
        r == state.active(),
{
    match &state.active_profile {
        Some(info) => Some(info.clone()),
        None => None,
    }
}

/// Record the last certificate decision made by the user.
pub fn record_certificate_decision(state: &mut CertificatePromptState, decision: CertificateDecision)
    ensures
        final(state).last() == Some(decision),
        final(state).active() == old(state).active(),
{
    state.last_decision = Some(decision);
}

/// Take the last recorded certificate decision, if any, leaving none recorded.
pub fn take_last_certificate_decision(state: &mut CertificatePromptState) -> (r: Option<CertificateDecision>)
    ensures
        r == old(state).last(),
        final(state).last() is None,
        final(state).active() == old(state).active(),
{
    let r = state.last_decision;
    state.last_decision = None;
    r
}

/// Clear any stored certificate decision (use before a new connect attempt).
pub fn clear_last_certificate_decision(state: &mut CertificatePromptState)
    ensures
        final(state).last() is None,
        final(state).active() == old(state).active(),
{
    state.last_decision = None;
}


/// How a certificate prompt ended, as the certificate callback saw it.
#[derive(Debug, Clone, Copy, PartialEq, Eq, Structural)]
pub enum PromptOutcome {
    /// The prompt could not be delivered to the user interface.
    NotDelivered,
    /// The user decided.
    Answered(CertificateDecision),
    /// No decision came in time.
    TimedOut,
}

/// The decision a prompt outcome amounts to: the user's, else a rejection.
pub open spec fn outcome_decision(o: PromptOutcome) -> CertificateDecision {
    match o {
        PromptOutcome::Answered(d) => d,
        _ => CertificateDecision::Reject,
    }
}

/// Record what a certificate prompt came to and give SoftEther the callback's
/// answer: an undelivered or unanswered prompt counts as a rejection.
pub fn settle_certificate_prompt(state: &mut CertificatePromptState, outcome: PromptOutcome) -> (r: u8)
    ensures
        final(state).last() == Some(outcome_decision(outcome)),
        final(state).active() == old(state).active(),
        r == (if accepts(outcome_decision(outcome)) { 1u8 } else { 0u8 }),
{
    let decision = match outcome {
        PromptOutcome::Answered(d) => d,
        _ => CertificateDecision::Reject,
    };
    record_certificate_decision(state, decision);
    decision_answer(decision)
}

/// Both trust decisions accept the certificate and only a rejection refuses it;
/// a prompt that reached no decision counts as a rejection.
pub proof fn law_trust_accepts(d: CertificateDecision, o: PromptOutcome)
    ensures
        accepts(d) <==> d != CertificateDecision::Reject,
        accepts(CertificateDecision::TrustTemporarily),
        accepts(CertificateDecision::TrustPermanently),
        !accepts(CertificateDecision::Reject),
        accepts(outcome_decision(o)) <==> (o matches PromptOutcome::Answered(a) && a != CertificateDecision::Reject),
{
}

} // verus!
