use geist_vpn::error::Error;
use geist_vpn::vpn_manager::{connect_reply, connection_outcome, disconnect_reply, disconnection_outcome, ui_status};
use geist_vpn::client::{ConnectOutcome, SoftEtherClient};
use geist_vpn::profile::{AuthMethod, VpnProfile, VpnProtocol};

#[test]
fn ffi_integration_test_error_handling() {
    let conn_error = Error::ConnectionFailed { message: "Network timeout".into() };
    assert!(conn_error.to_string().contains("Network timeout"));

    let mem_error = Error::MemoryError { message: "Allocation failed".into() };
    assert!(mem_error.to_string().contains("Allocation failed"));

    let encoding_error = Error::EncodingError { message: "Invalid UTF-8".into() };
    assert!(encoding_error.to_string().contains("Invalid UTF-8"));
}

#[test]
fn error_texts_for_each_variant() {
    assert_eq!(Error::new("x").to_string(), "Generic error: x");
    assert_eq!(Error::ffi_error("f").to_string(), "FFI error: f");
    assert_eq!(Error::connection_error("c").to_string(), "Connection failed: c");
    assert_eq!(Error::memory_error("m").to_string(), "Memory allocation failed: m");
    assert_eq!(Error::encoding_error("e").to_string(), "String encoding error: e");
    assert_eq!(Error::InitializationFailed { message: "i".into() }.to_string(), "Initialization failed: i");
    assert_eq!(Error::AuthenticationFailed { message: "a".into() }.to_string(), "Authentication failed: a");
    assert_eq!(Error::ProfileError { message: "p".into() }.to_string(), "Profile error: p");
    assert_eq!(Error::NetworkError { message: "n".into() }.to_string(), "Network error: n");
    assert_eq!(Error::IoError("io".into()).to_string(), "IO error: io");
    assert_eq!(Error::SerializationError("s".into()).to_string(), "Serialization error: s");
    assert_eq!(Error::Utf8Error("u".into()).to_string(), "UTF-8 conversion error: u");
    assert_eq!(Error::NulError("n".into()).to_string(), "Nul byte in string");
    assert_eq!(Error::from_softether_error(-3).to_string(), "SoftEther error code -3: Unknown error");
    assert_eq!(Error::from_softether_error(48).to_string(), "SoftEther error code 48: Failed to connect to the farm controller");
}

#[test]
fn manager_replies() {
    assert_eq!(connect_reply(Ok(())), Ok(()));
    assert_eq!(
        connect_reply(Err(Error::connection_error("x"))),
        Err("Connection failed: Connection failed: x".to_string())
    );
    assert_eq!(disconnect_reply(Err(Error::ffi_error("t"))), Err("Disconnection failed: FFI error: t".to_string()));
    assert_eq!(connection_outcome(Err("e".into())), Err("Connection failed: e".to_string()));
    assert_eq!(disconnection_outcome(Ok(())), Ok(()));
}

#[test]
fn manager_status_follows_client() {
    let mut prompts = geist_vpn::cert_prompt::CertificatePromptState::new();
    let mut client = SoftEtherClient::new();
    let s = ui_status(&client);
    assert!(!s.connected);
    assert_eq!(s.status_message, "Disconnected");
    let mut p = VpnProfile::new("Office".into(), "o.test".into(), 443, VpnProtocol::SslVpn);
    p.auth = AuthMethod::Radius;
    client.start_connecting();
    client.finish_connect(&mut prompts, &p, "Office".into(), ConnectOutcome::Connected).unwrap();
    let s = ui_status(&client);
    assert!(s.connected);
    assert_eq!(s.profile_name, Some("Office".to_string()));
    assert_eq!(s.status_message, "Connected");
}
