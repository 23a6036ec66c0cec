use geist_vpn::cert_prompt::{ActiveProfileInfo, CertificateDecision, CertificatePrompt};
use geist_vpn::gui::{ConnectionStatus, Effect, GeistApp, Message, ViewMode};
use geist_vpn::profile::{AuthMethod, VpnProfile, VpnProtocol};
use geist_vpn::ui::modal::AuthMethodType;

fn app_with_profiles() -> GeistApp {
    let mut app = GeistApp::new(true, true);
    let a = VpnProfile::new("Alpha".into(), "alpha.test".into(), 443, VpnProtocol::SslVpn);
    let b = VpnProfile::new("Beta".into(), "beta.test".into(), 443, VpnProtocol::SslVpn);
    assert!(matches!(app.update(Message::ProfilesLoaded(Ok(vec![a, b]))), Effect::Nothing));
    app
}

#[test]
fn start_state() {
    let app = GeistApp::new(true, false);
    assert!(!app.connection_status.connected);
    assert_eq!(app.connection_status.status_message, "Disconnected");
    assert_eq!(app.current_view, ViewMode::All);
    assert_eq!(app.profile_modal_state.port, "443");
    assert_eq!(app.profile_modal_state.timeout, "30");
}

#[test]
fn connect_known_profile_asks_manager() {
    let mut app = app_with_profiles();
    match app.update(Message::Connect("beta_beta.test_443".into())) {
        Effect::Connect(p) => assert_eq!(p.name, "Beta"),
        _ => panic!("expected a connect effect"),
    }
    assert!(app.connecting);
    assert!(matches!(app.update(Message::ConnectionResult(Ok(()))), Effect::Nothing));
    assert!(!app.connecting);
}

#[test]
fn connect_unknown_profile_fails() {
    let mut app = app_with_profiles();
    match app.update(Message::Connect("nope".into())) {
        Effect::Send(Message::ConnectionResult(Err(t))) => assert_eq!(t, "Profile not found"),
        _ => panic!("expected a failure"),
    }
    assert!(!app.connecting);
    app.update(Message::ConnectionResult(Err("Profile not found".into())));
    assert_eq!(app.connection_status.status_message, "Operation failed: Profile not found");
}

#[test]
fn connect_without_vpn_manager() {
    let mut app = GeistApp::new(true, false);
    app.update(Message::ProfilesLoaded(Ok(vec![VpnProfile::default()])));
    let id = app.profiles[0].id.clone();
    match app.update(Message::Connect(id)) {
        Effect::Send(Message::ConnectionResult(Err(t))) => assert_eq!(t, "VPN manager not initialized"),
        _ => panic!("expected a failure"),
    }
    assert!(app.connecting);
    match app.update(Message::PollStatus) {
        Effect::Nothing => {},
        _ => panic!("no query without a manager"),
    }
    assert_eq!(app.connection_status.status_message, "VPN manager not available");
}

#[test]
fn status_poll_results() {
    let mut app = GeistApp::new(true, true);
    assert!(matches!(app.update(Message::PollStatus), Effect::QueryStatus));
    let s = ConnectionStatus { connected: true, profile_name: Some("Beta".into()), status_message: "Connected".into() };
    app.update(Message::StatusPolled(Ok(s)));
    assert!(app.connection_status.connected);
    app.update(Message::StatusPolled(Err("channel closed".into())));
    assert!(!app.connection_status.connected);
    assert_eq!(app.connection_status.status_message, "Status check failed: channel closed");
}

#[test]
fn toggle_favorite_marks_and_persists() {
    let mut app = app_with_profiles();
    match app.update(Message::ToggleFavorite("alpha_alpha.test_443".into())) {
        Effect::PersistProfile(p) => assert!(p.metadata.favorite),
        _ => panic!("expected persist"),
    }
    assert!(app.profiles[0].metadata.favorite);
    assert!(!app.profiles[1].metadata.favorite);
}

#[test]
fn form_save_flow() {
    let mut app = app_with_profiles();
    app.update(Message::CreateProfile);
    assert!(app.show_profile_modal);
    app.update(Message::ProfileModalUpdateName("Gamma".into()));
    app.update(Message::ProfileModalUpdateHost("gamma.test".into()));
    // Incomplete: no credentials yet.
    assert!(matches!(app.update(Message::ProfileModalSave), Effect::Nothing));
    app.update(Message::ProfileModalUpdateUsername("u".into()));
    app.update(Message::ProfileModalUpdatePassword("p".into()));
    let saved = match app.update(Message::ProfileModalSave) {
        Effect::Send(Message::SaveProfile(p)) => p,
        _ => panic!("expected a save"),
    };
    assert_eq!(saved.id, "gamma_gamma.test_443");
    match app.update(Message::SaveProfile(saved)) {
        Effect::SaveProfile(p) => assert_eq!(p.name, "Gamma"),
        _ => panic!("expected save effect"),
    }
    assert!(matches!(app.update(Message::ProfileSaved(Ok(()))), Effect::Send(Message::LoadProfiles)));
    assert!(!app.show_profile_modal);
}

#[test]
fn edit_keeps_profile_id() {
    let mut app = app_with_profiles();
    app.profiles[0].auth = AuthMethod::Password { username: "u".into(), password: "p".into() };
    app.update(Message::EditProfile("alpha_alpha.test_443".into()));
    assert!(app.profile_modal_state.editing);
    app.update(Message::ProfileModalUpdateHost("moved.test".into()));
    match app.update(Message::ProfileModalSave) {
        Effect::Send(Message::SaveProfile(p)) => {
            assert_eq!(p.id, "alpha_alpha.test_443");
            assert_eq!(p.host, "moved.test");
        },
        _ => panic!("expected a save"),
    }
}

#[test]
fn fetch_hubs_checks_form() {
    let mut app = GeistApp::new(true, true);
    app.update(Message::CreateProfile);
    assert!(matches!(app.update(Message::ProfileModalFetchHubs), Effect::Nothing));
    assert_eq!(
        app.profile_modal_state.hub_fetch_error,
        Some("Server host is required before fetching Virtual Hubs".to_string())
    );
    app.update(Message::ProfileModalUpdateHost("vpn.test".into()));
    assert_eq!(app.profile_modal_state.hub_fetch_error, None);
    app.update(Message::ProfileModalUpdatePort("0".into()));
    app.update(Message::ProfileModalFetchHubs);
    assert_eq!(
        app.profile_modal_state.hub_fetch_error,
        Some("Enter a valid server port before fetching Virtual Hubs".to_string())
    );
    app.update(Message::ProfileModalUpdatePort("5555".into()));
    match app.update(Message::ProfileModalFetchHubs) {
        Effect::FetchHubs { host, port } => {
            assert_eq!(host, "vpn.test");
            assert_eq!(port, 5555);
        },
        _ => panic!("expected fetch"),
    }
    assert!(app.profile_modal_state.fetching_hubs);
    assert!(matches!(app.update(Message::ProfileModalFetchHubs), Effect::Nothing));
    app.update(Message::ProfileModalHubListFetched(Ok(vec!["DEFAULT".into(), "OTHER".into()])));
    assert_eq!(app.profile_modal_state.hub_name, "DEFAULT");
    assert!(!app.profile_modal_state.fetching_hubs);
    app.update(Message::ProfileModalHubListFetched(Ok(vec![])));
    assert_eq!(app.profile_modal_state.hub_fetch_error, Some("Server returned no Virtual Hubs.".to_string()));
    app.update(Message::ProfileModalHubListFetched(Err("down".into())));
    assert_eq!(app.profile_modal_state.hub_fetch_error, Some("down".to_string()));
    assert!(app.profile_modal_state.available_hubs.is_empty());
}

#[test]
fn close_resets_form() {
    let mut app = GeistApp::new(false, false);
    app.update(Message::CreateProfile);
    app.update(Message::ProfileModalUpdateName("x".into()));
    app.update(Message::ProfileModalUpdateAuthMethodType(AuthMethodType::Radius));
    app.update(Message::ModalClosed);
    assert!(!app.show_profile_modal);
    assert_eq!(app.profile_modal_state.name, "");
    assert_eq!(app.profile_modal_state.auth_method_type, AuthMethodType::Password);
}

#[test]
fn without_profile_manager() {
    let mut app = GeistApp::new(false, true);
    match app.update(Message::LoadProfiles) {
        Effect::Send(Message::ProfilesLoaded(Err(t))) => assert_eq!(t, "Profile manager not initialized"),
        _ => panic!("expected failure"),
    }
    assert!(app.loading_profiles);
    app.update(Message::ProfilesLoaded(Err("Profile manager not initialized".into())));
    assert!(!app.loading_profiles);
    assert!(matches!(app.update(Message::DeleteProfile("x".into())), Effect::Send(Message::LoadProfiles)));
}

#[test]
fn certificate_prompt_answered_once() {
    let (tx, rx) = std::sync::mpsc::channel();
    let info = ActiveProfileInfo { id: "alpha_alpha.test_443".into(), name: "Alpha".into(), host: "alpha.test".into(), port: 443 };
    let prompt = CertificatePrompt::for_server_certificate(Some(info), None, None, None, Some("PEM".into()), tx);
    let mut app = app_with_profiles();
    app.update(Message::CertificatePromptReceived(prompt));
    match app.update(Message::CertificatePromptDecision(CertificateDecision::TrustPermanently)) {
        Effect::AnswerCertificate { prompt, decision, trust } => {
            assert!(trust);
            assert_eq!(decision, CertificateDecision::TrustPermanently);
            prompt.response_tx.send(decision).unwrap();
        },
        _ => panic!("expected an answer"),
    }
    assert_eq!(rx.recv().unwrap(), CertificateDecision::TrustPermanently);
    assert!(matches!(
        app.update(Message::CertificatePromptDecision(CertificateDecision::Reject)),
        Effect::Nothing
    ));
    app.update(Message::CertificateTrusted { profile_id: "alpha_alpha.test_443".into(), pem: "PEM".into() });
    assert_eq!(app.profiles[0].options.get("server_cert"), Some(&"PEM".to_string()));
}

#[test]
fn view_and_selection_changes() {
    let mut app = GeistApp::new(true, true);
    app.update(Message::ViewChanged(ViewMode::Recent));
    assert_eq!(app.current_view, ViewMode::Recent);
    app.update(Message::ProfileSelected("x".into()));
    assert_eq!(app.selected_profile, Some("x".to_string()));
    let s = ConnectionStatus { connected: false, profile_name: None, status_message: "Connecting...".into() };
    app.update(Message::StatusUpdated(s));
    assert_eq!(app.connection_status.status_message, "Connecting...");
}

#[test]
fn profiles_unchanged_by_other_messages() {
    let mut app = app_with_profiles();
    let before: Vec<String> = app.profiles.iter().map(|p| p.id.clone()).collect();
    app.update(Message::CreateProfile);
    app.update(Message::ProfileModalUpdateName("x".into()));
    app.update(Message::ViewChanged(ViewMode::Favorites));
    app.update(Message::DeleteProfile("alpha_alpha.test_443".into()));
    app.update(Message::Connect("alpha_alpha.test_443".into()));
    app.update(Message::ModalClosed);
    let after: Vec<String> = app.profiles.iter().map(|p| p.id.clone()).collect();
    assert_eq!(before, after);
}

#[test]
fn messages_clone_with_their_payloads() {
    let (tx, rx) = std::sync::mpsc::channel();
    let prompt = CertificatePrompt::for_server_certificate(None, Some("S".into()), None, None, None, tx);
    let m = Message::CertificatePromptReceived(prompt);
    match m.clone() {
        Message::CertificatePromptReceived(p) => {
            assert_eq!(p.subject, "S");
            assert_eq!(p.issuer, "Unknown");
            assert_eq!(p.host, "");
            p.response_tx.send(CertificateDecision::Reject).unwrap();
        },
        _ => panic!("expected the same message"),
    }
    assert_eq!(rx.recv().unwrap(), CertificateDecision::Reject);
    let loaded = Message::ProfilesLoaded(Ok(vec![VpnProfile::default()]));
    match loaded.clone() {
        Message::ProfilesLoaded(Ok(v)) => assert_eq!(v[0].name, "Default Profile"),
        _ => panic!("expected the same message"),
    }
}
