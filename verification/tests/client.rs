use geist_vpn::bindings::error_codes::{ERR_AUTH_FAILED, ERR_CONNECT_FAILED, ERR_HUB_NOT_FOUND};
use geist_vpn::cert_prompt::{
    current_profile, set_active_profile, ActiveProfileInfo, CertificateDecision, CertificatePromptState,
};
use geist_vpn::client::{
    certificate_fingerprint, copy_to_c_buffer, format_cert_name, CertificateName, ConnectOutcome,
    ConnectionState, ConnectionStatus, DisconnectOutcome, DisconnectStep, HostLookup, HttpProbe,
    SoftEtherClient,
};
use geist_vpn::error::Error;
use geist_vpn::memory::strings::{rust_to_softether_wide, softether_wide_to_rust};
use geist_vpn::profile::{AuthMethod, ProfileMetadata, ProfileOptions, VpnProfile, VpnProtocol};

fn password_profile(name: &str, host: &str) -> VpnProfile {
    let mut p = VpnProfile::new(name.to_string(), host.to_string(), 443, VpnProtocol::SslVpn);
    p.auth = AuthMethod::Password { username: "user".to_string(), password: "secret".to_string() };
    p
}

#[test]
fn test_client_creation() {
    let profile = VpnProfile::default();
    assert!(!profile.name.is_empty());
    assert!(!profile.id.is_empty());
    assert!(profile.metadata.version >= 1);
}

#[test]
fn test_profile_validation() {
    let mut profile = VpnProfile {
        id: "test_profile".into(),
        name: "Test Profile".into(),
        description: "Test profile description".into(),
        host: "vpn.example.com".into(),
        port: 443,
        protocol: VpnProtocol::SslVpn,
        auth: AuthMethod::Password { username: "testuser".into(), password: "testpass".into() },
        account_name: "testaccount".into(),
        timeout: 30,
        options: ProfileOptions::new(),
        metadata: ProfileMetadata::default(),
    };

    assert!(profile.validate().is_ok());

    profile.name = String::new();
    assert!(profile.validate().is_err());
}

#[test]
fn client_test_string_conversion() {
    let test_str = "Test VPN Connection";
    let wide_result = rust_to_softether_wide(test_str);
    assert!(wide_result.is_ok(), "Failed to convert string to wide format");

    let wide_str = wide_result.unwrap();
    let back_to_rust = softether_wide_to_rust(&wide_str);
    assert_eq!(test_str, back_to_rust);
}

#[test]
fn test_connection_status() {
    let status = ConnectionStatus::Disconnected;
    assert!(!format!("{:?}", status).is_empty());
}

#[test]
fn client_test_error_handling() {
    let error = Error::ConnectionFailed { message: "Test connection failed".into() };
    assert!(error.to_string().contains("Test connection failed"));
}

#[test]
fn test_softether_error_mapping() {
    let connect_failed = Error::from_softether_error(ERR_CONNECT_FAILED as i32);
    assert_eq!(connect_failed.to_string(), "SoftEther error code 1: Connection to the server has failed");

    let auth_failed = Error::from_softether_error(ERR_AUTH_FAILED as i32);
    assert_eq!(auth_failed.to_string(), "SoftEther error code 9: Authentication failure");

    let hub_not_found = Error::from_softether_error(ERR_HUB_NOT_FOUND as i32);
    assert_eq!(hub_not_found.to_string(), "SoftEther error code 8: The HUB does not exist");

    let unknown_error = Error::from_softether_error(999);
    assert_eq!(unknown_error.to_string(), "SoftEther error code 999: Unknown error");
}

#[test]
fn test_connection_state_transitions() {
    let _profile = VpnProfile::default();
    assert_eq!(ConnectionStatus::Disconnected, ConnectionStatus::Disconnected);

    let state = ConnectionState::Disconnected;
    assert!(!matches!(state, ConnectionState::Connected));

    let state = ConnectionState::Connected;
    assert!(matches!(state, ConnectionState::Connected));

    let state = ConnectionState::Connecting;
    assert!(matches!(state, ConnectionState::Connecting));

    let state = ConnectionState::Disconnecting;
    assert!(matches!(state, ConnectionState::Disconnecting));

    let state = ConnectionState::Error("test".into());
    assert!(matches!(state, ConnectionState::Error(_)));
}

#[test]
fn new_client_is_disconnected() {
    let client = SoftEtherClient::new();
    assert!(!client.is_connected());
    assert_eq!(client.get_status(), ConnectionStatus::Disconnected);
    assert!(client.active_profile().is_none());
    assert_eq!(client.get_active_profile_name(), None);
}

#[test]
fn connect_then_disconnect_cycle() {
    let mut prompts = CertificatePromptState::new();
    let mut client = SoftEtherClient::new();
    let profile = password_profile("Office", "vpn.office.test");
    let alias = client.prepare_connect(&profile).unwrap();
    assert_eq!(alias, "Office");
    assert_eq!(client.start_connecting(), ConnectionStatus::Connecting);
    assert_eq!(client.get_status(), ConnectionStatus::Connecting);
    // A second attempt is refused while connecting.
    let refused = client.prepare_connect(&profile).unwrap_err();
    assert_eq!(refused.to_string(), "Connection failed: Connection attempt already in progress");
    assert!(client.finish_connect(&mut prompts, &profile, alias, ConnectOutcome::Connected).is_ok());
    assert!(client.is_connected());
    assert_eq!(client.get_active_profile_name(), Some("Office".to_string()));
    assert_eq!(
        client.prepare_connect(&profile).unwrap_err().to_string(),
        "Connection failed: Client is already connected"
    );
    match client.begin_disconnect().unwrap() {
        DisconnectStep::Request { account_name } => assert_eq!(account_name, "Office"),
        _ => panic!("expected a disconnect request"),
    }
    assert_eq!(client.get_status(), ConnectionStatus::Disconnecting);
    assert!(client.finish_disconnect(DisconnectOutcome::Disconnected).is_ok());
    assert_eq!(client.get_status(), ConnectionStatus::Disconnected);
    assert!(client.active_profile().is_none());
}

#[test]
fn connect_uses_account_name_when_given() {
    let client = SoftEtherClient::new();
    let mut profile = password_profile("Office", "vpn.office.test");
    profile.account_name = "corp-account".to_string();
    assert_eq!(client.prepare_connect(&profile).unwrap(), "corp-account");
    profile.account_name = "   ".to_string();
    assert_eq!(client.prepare_connect(&profile).unwrap(), "Office");
}

#[test]
fn connect_refuses_invalid_profile() {
    let client = SoftEtherClient::new();
    let mut profile = VpnProfile::new("P".to_string(), "h".to_string(), 443, VpnProtocol::SslVpn);
    profile.auth = AuthMethod::Password { username: String::new(), password: String::new() };
    let e = client.prepare_connect(&profile).unwrap_err();
    assert_eq!(e.to_string(), "Profile error: Username cannot be empty");
}

#[test]
fn connect_timeout_and_failure_leave_client_disconnected() {
    let mut prompts = CertificatePromptState::new();
    let mut client = SoftEtherClient::new();
    let mut profile = password_profile("Slow", "slow.test");
    profile.timeout = 15;
    client.start_connecting();
    let e = client.finish_connect(&mut prompts, &profile, "Slow".to_string(), ConnectOutcome::TimedOut).unwrap_err();
    assert_eq!(e.to_string(), "Connection failed: VPN connection timed out after 15 seconds");
    assert_eq!(client.get_status(), ConnectionStatus::Disconnected);

    client.start_connecting();
    let failure = Error::NetworkError { message: "unreachable".to_string() };
    let e = client.finish_connect(&mut prompts, &profile, "Slow".to_string(), ConnectOutcome::Failed(failure)).unwrap_err();
    assert_eq!(e.to_string(), "Network error: unreachable");
    assert!(!client.is_connected());
}

#[test]
fn disconnect_when_disconnected_does_nothing() {
    let mut client = SoftEtherClient::new();
    assert!(matches!(client.begin_disconnect(), Ok(DisconnectStep::AlreadyDisconnected)));
    assert_eq!(client.get_status(), ConnectionStatus::Disconnected);
}

#[test]
fn disconnect_refused_while_connecting() {
    let mut client = SoftEtherClient::new();
    client.start_connecting();
    let e = client.begin_disconnect().unwrap_err();
    assert_eq!(e.to_string(), "Connection failed: Cannot disconnect while connecting");
    assert_eq!(client.get_status(), ConnectionStatus::Connecting);
}

#[test]
fn disconnect_timeout_sets_error_state() {
    let mut prompts = CertificatePromptState::new();
    let mut client = SoftEtherClient::new();
    let profile = password_profile("Office", "vpn.office.test");
    client.start_connecting();
    client.finish_connect(&mut prompts, &profile, "Office".to_string(), ConnectOutcome::Connected).unwrap();
    client.begin_disconnect().unwrap();
    let e = client.finish_disconnect(DisconnectOutcome::TimedOut).unwrap_err();
    assert_eq!(e.to_string(), "FFI error: VPN disconnect timed out");
    assert_eq!(client.get_status(), ConnectionStatus::Error("Disconnect timeout".to_string()));
    // From the error state a new connection may start.
    assert!(client.prepare_connect(&profile).is_ok());
}

#[test]
fn trusted_certificates_are_recorded_once() {
    let mut client = SoftEtherClient::new();
    assert!(!client.is_trusted("AB:CD"));
    client.record_trusted("AB:CD".to_string());
    client.record_trusted("AB:CD".to_string());
    assert!(client.is_trusted("AB:CD"));
    assert!(!client.is_trusted("EF"));
}

#[test]
fn error_descriptions_and_failures() {
    let client = SoftEtherClient::new();
    assert_eq!(client.get_error_description(0), "No error");
    assert_eq!(client.get_error_description(36), "Specified account doesn't exist");
    assert_eq!(client.get_error_description(25), "Unknown error");
    assert_eq!(
        client.account_creation_error(34, "acct").to_string(),
        "Connection failed: SoftEther Error 34 (Account already exists) while creating account 'acct'"
    );
    assert_eq!(
        client.connect_failure_error(Some(CertificateDecision::Reject), 1, "x").to_string(),
        "Connection failed: Server certificate was rejected by the user"
    );
    assert_eq!(
        client.connect_failure_error(None, 9, "details").to_string(),
        "Connection failed: SoftEther Error 9 (Authentication failure). details"
    );
}

#[test]
fn connection_parameters_are_checked() {
    let client = SoftEtherClient::new();
    let mut p = password_profile("P", "  ");
    assert_eq!(
        client.validate_connection_parameters(&p).unwrap_err().to_string(),
        "Connection failed: Server hostname/IP address is empty"
    );
    p.host = "h".to_string();
    p.port = 0;
    assert_eq!(
        client.validate_connection_parameters(&p).unwrap_err().to_string(),
        "Connection failed: Invalid port number (must be > 0)"
    );
    p.port = 443;
    assert!(client.validate_connection_parameters(&p).is_ok());
    p.auth = AuthMethod::Certificate { cert_path: "c".to_string(), key_path: "k".to_string() };
    assert_eq!(
        client.validate_connection_parameters(&p).unwrap_err().to_string(),
        "Connection failed: Certificate authentication is not yet supported"
    );
    p.auth = AuthMethod::NtDomain { username: "u".to_string(), password: String::new(), domain: "D".to_string() };
    assert_eq!(
        client.validate_connection_parameters(&p).unwrap_err().to_string(),
        "Connection failed: Password is required for NT domain authentication"
    );
}

#[test]
fn connection_error_details_text() {
    let client = SoftEtherClient::new();
    let p = password_profile("P", "vpn.test");
    let lookup = client.connectivity_message(&p, HostLookup::NoAddresses);
    assert_eq!(lookup, "Server hostname 'vpn.test' resolves but no addresses found for port 443");
    let failed = client.connectivity_message(&p, HostLookup::Failed("boom".to_string()));
    assert_eq!(failed, "Cannot resolve server hostname 'vpn.test': boom");
    let details = client.get_connection_error_details(&p, "Server hostname resolves successfully");
    assert_eq!(
        details,
        "Failed to connect to VPN server 'vpn.test' on vpn.test:443 using password authentication. Server hostname resolves successfully. Possible causes: server unreachable, invalid credentials, authentication method not supported by server, or server configuration issues."
    );
}

#[test]
fn fingerprint_is_upper_hex() {
    assert_eq!(certificate_fingerprint(&[0x0a, 0xff, 0x10]), "0AFF10");
}

#[test]
fn certificate_name_parts() {
    let name = CertificateName {
        common_name: Some("vpn.example.com".to_string()),
        organization: Some("Example".to_string()),
        unit: None,
        state: None,
        local: None,
        country: Some("US".to_string()),
    };
    assert_eq!(format_cert_name(&name), Some("CN=vpn.example.com, O=Example, C=US".to_string()));
    let empty = CertificateName {
        common_name: None,
        organization: None,
        unit: None,
        state: None,
        local: None,
        country: None,
    };
    assert_eq!(format_cert_name(&empty), None);
}

fn field(text: &str) -> [u8; 256] {
    let mut f = [0u8; 256];
    f[..text.len()].copy_from_slice(text.as_bytes());
    f
}

#[test]
fn client_auth_settings() {
    let client = SoftEtherClient::new();
    let mut p = password_profile("P", "h");
    p.auth = AuthMethod::Password { username: "  user ".to_string(), password: " secret".to_string() };
    let s = client.build_client_auth(&p).unwrap();
    assert_eq!(s.auth_type, 1);
    assert_eq!(s.username, field("user"));
    assert_eq!(s.password, field("secret"));
    p.auth = AuthMethod::NtDomain { username: "bob".to_string(), password: "pw".to_string(), domain: "CORP".to_string() };
    let s = client.build_client_auth(&p).unwrap();
    assert_eq!(s.username, field("CORP\\bob"));
    assert_eq!(s.password, field("pw"));
    p.auth = AuthMethod::Radius;
    let s = client.build_client_auth(&p).unwrap();
    assert_eq!(s.auth_type, 0);
    assert_eq!(s.username, [0u8; 256]);
    assert_eq!(s.password, [0u8; 256]);
}

#[test]
fn client_auth_rejects_overlong_credentials() {
    let client = SoftEtherClient::new();
    let mut p = password_profile("P", "h");
    let long = "u".repeat(256);
    p.auth = AuthMethod::Password { username: long.clone(), password: "pw".to_string() };
    let e = client.build_client_auth(&p).unwrap_err();
    assert_eq!(
        e.to_string(),
        format!("Connection failed: Value '{}' is too long for a SoftEther field (256 bytes)", long)
    );
    p.auth = AuthMethod::Password { username: "user".to_string(), password: long.clone() };
    let e = client.build_client_auth(&p).unwrap_err();
    assert_eq!(
        e.to_string(),
        format!("Connection failed: Value '{}' is too long for a SoftEther field (256 bytes)", long)
    );
    assert!(client.build_account_request(&p, "acct", "HUB").is_err());
    let fits = "u".repeat(255);
    p.auth = AuthMethod::Password { username: fits.clone(), password: format!("  {}  ", fits) };
    let s = client.build_client_auth(&p).unwrap();
    assert_eq!(s.username[254], b'u');
    assert_eq!(s.username[255], 0);
    assert_eq!(s.password, s.username);
    assert!(client.build_account_request(&p, "acct", "HUB").is_ok());
}

#[test]
fn c_buffer_copy() {
    let mut buf = [9u8; 6];
    assert!(copy_to_c_buffer(&mut buf, "  ab  ").is_ok());
    assert_eq!(buf, [b'a', b'b', 0, 0, 0, 0]);
    let mut small = [9u8; 2];
    let e = copy_to_c_buffer(&mut small, "abc").unwrap_err();
    assert_eq!(e.to_string(), "Connection failed: Value 'abc' is too long for a SoftEther field (2 bytes)");
    assert_eq!(small, [9, 9]);
}

#[test]
fn diagnostics_report() {
    let client = SoftEtherClient::new();
    let p = password_profile("P", "vpn.test");
    let down = client.get_connection_diagnostics(&p, Err("refused".to_string()), HttpProbe::Unreachable);
    assert_eq!(down, "Testing TCP connection to vpn.test:443...\n✗ TCP connection failed: refused");
    let web = client.get_connection_diagnostics(
        &p,
        Ok(()),
        HttpProbe::Response(b"HTTP/1.1 200 OK\r\nServer: x".to_vec()),
    );
    assert!(web.contains("⚠️  Server responds to HTTP: HTTP/1.1 200 OK"));
    assert!(web.ends_with("   This might be a web server, not a VPN server!"));
    let quiet = client.get_connection_diagnostics(&p, Ok(()), HttpProbe::NoResponse);
    assert!(quiet.ends_with("✓ No HTTP response (expected for VPN server)"));
}

fn connecting_info() -> ActiveProfileInfo {
    ActiveProfileInfo { id: "office".into(), name: "Office".into(), host: "vpn.office.test".into(), port: 443 }
}

#[test]
fn finishing_a_connection_clears_the_prompt_profile() {
    let profile = password_profile("Office", "vpn.office.test");
    let outcomes = vec![
        ConnectOutcome::Connected,
        ConnectOutcome::TimedOut,
        ConnectOutcome::Failed(Error::NetworkError { message: "down".into() }),
    ];
    for outcome in outcomes {
        let mut client = SoftEtherClient::new();
        let mut prompts = CertificatePromptState::new();
        set_active_profile(&mut prompts, Some(connecting_info()));
        assert!(current_profile(&prompts).is_some());
        client.start_connecting();
        let _ = client.finish_connect(&mut prompts, &profile, "Office".into(), outcome);
        assert!(current_profile(&prompts).is_none());
    }
}

#[test]
fn active_profile_exactly_while_holding_a_session() {
    let mut client = SoftEtherClient::new();
    let mut prompts = CertificatePromptState::new();
    let profile = password_profile("Office", "vpn.office.test");
    assert!(client.active_profile().is_none());
    client.start_connecting();
    assert!(client.active_profile().is_none());
    client.finish_connect(&mut prompts, &profile, "Office".into(), ConnectOutcome::Connected).unwrap();
    assert!(client.is_connected());
    assert!(client.active_profile().is_some());
    client.begin_disconnect().unwrap();
    assert_eq!(client.get_status(), ConnectionStatus::Disconnecting);
    assert!(client.active_profile().is_some());
    let _ = client.finish_disconnect(DisconnectOutcome::Failed(Error::FfiError { message: "x".into() }));
    assert!(!client.is_connected());
    assert!(client.active_profile().is_none());
}

#[test]
fn completed_steps_leave_profile_iff_connected() {
    let mut client = SoftEtherClient::new();
    let mut prompts = CertificatePromptState::new();
    let profile = password_profile("Office", "vpn.office.test");
    client.start_connecting();
    let _ = client.finish_connect(&mut prompts, &profile, "Office".into(), ConnectOutcome::TimedOut);
    assert_eq!(client.active_profile().is_some(), client.is_connected());
    client.start_connecting();
    client.finish_connect(&mut prompts, &profile, "Office".into(), ConnectOutcome::Connected).unwrap();
    assert_eq!(client.active_profile().is_some(), client.is_connected());
    assert_eq!(client.get_active_profile_name(), client.active_profile().map(|p| p.name.clone()));
    client.begin_disconnect().unwrap();
    client.finish_disconnect(DisconnectOutcome::Disconnected).unwrap();
    assert_eq!(client.active_profile().is_some(), client.is_connected());
    assert!(matches!(client.begin_disconnect(), Ok(DisconnectStep::AlreadyDisconnected)));
    assert_eq!(client.active_profile().is_some(), client.is_connected());
}
