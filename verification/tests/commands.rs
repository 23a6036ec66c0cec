use geist_vpn::cert_prompt::CertificatePromptState;
use geist_vpn::client::{ConnectOutcome, DisconnectOutcome, DisconnectStep, SoftEtherClient};
use geist_vpn::commands::{
    connect_target, connect_vpn, connection_test_notice, create_profile, delete_profile,
    disconnect_vpn, get_connection_status, get_version, list_profiles, save_profile,
};
use geist_vpn::error::Error;
use geist_vpn::profile::{AuthMethod, ProfileManager, VpnProfile, VpnProtocol};
use geist_vpn::VERSION;

fn manager_with(p: VpnProfile) -> ProfileManager {
    let mut m = ProfileManager::new("/tmp/geist-profiles".into());
    m.fill_cache(vec![p]);
    m
}

#[test]
fn test_version() {
    assert!(!VERSION.is_empty());
}

#[test]
fn version_command() {
    assert_eq!(get_version(), "0.1.0");
}

#[test]
fn connect_command_reports_profile() {
    let p = VpnProfile::new("Office".into(), "office.test".into(), 443, VpnProtocol::SslVpn);
    let m = manager_with(p);
    let target = connect_target(&m, "office_office.test_443").unwrap();
    assert_eq!(target.name, "Office");
    let e = connect_target(&m, "missing").err().unwrap();
    assert_eq!(e, "Profile error: Profile 'missing' not found");

    let mut client = SoftEtherClient::new();
    let mut prompts = CertificatePromptState::new();
    let alias = client.prepare_connect(&target).unwrap();
    client.start_connecting();
    let outcome = client.finish_connect(&mut prompts, &target, alias, ConnectOutcome::Connected);
    let s = connect_vpn(&client, outcome).unwrap();
    assert!(s.connected);
    assert_eq!(s.profile_name, Some("Office".to_string()));
    assert_eq!(s.status_message, "Connected successfully");
}

#[test]
fn connect_command_reports_failure() {
    let target = VpnProfile::new("Office".into(), "office.test".into(), 443, VpnProtocol::SslVpn);
    let mut client = SoftEtherClient::new();
    let mut prompts = CertificatePromptState::new();
    client.start_connecting();
    let failure = Error::NetworkError { message: "unreachable".into() };
    let outcome = client.finish_connect(&mut prompts, &target, "Office".into(), ConnectOutcome::Failed(failure));
    assert_eq!(connect_vpn(&client, outcome).err().unwrap(), "Network error: unreachable");
}

#[test]
fn status_commands() {
    let mut client = SoftEtherClient::new();
    let s = get_connection_status(&client).ok().unwrap();
    assert!(!s.connected);
    assert_eq!(s.status_message, "Disconnected");
    assert_eq!(s.profile_name, None);

    let target = VpnProfile::new("Office".into(), "office.test".into(), 443, VpnProtocol::SslVpn);
    let mut prompts = CertificatePromptState::new();
    client.start_connecting();
    let s = get_connection_status(&client).ok().unwrap();
    assert!(!s.connected);
    assert_eq!(s.status_message, "Connecting...");
    client.finish_connect(&mut prompts, &target, "Office".into(), ConnectOutcome::Connected).unwrap();
    let s = get_connection_status(&client).ok().unwrap();
    assert!(s.connected);
    assert_eq!(s.profile_name, Some("Office".to_string()));
    assert_eq!(s.status_message, "Connected");

    match client.begin_disconnect().unwrap() {
        DisconnectStep::Request { account_name } => assert_eq!(account_name, "Office"),
        _ => panic!("expected a disconnect request"),
    }
    let s = get_connection_status(&client).ok().unwrap();
    assert!(s.connected);
    assert_eq!(s.status_message, "Disconnecting...");
    let outcome = client.finish_disconnect(DisconnectOutcome::Disconnected);
    let d = disconnect_vpn(&client, outcome).ok().unwrap();
    assert!(!d.connected);
    assert_eq!(d.profile_name, None);
    assert_eq!(d.status_message, "Disconnected successfully");
}

#[test]
fn status_command_reports_errors() {
    let mut client = SoftEtherClient::new();
    let mut prompts = CertificatePromptState::new();
    let target = VpnProfile::new("Office".into(), "office.test".into(), 443, VpnProtocol::SslVpn);
    client.start_connecting();
    client.finish_connect(&mut prompts, &target, "Office".into(), ConnectOutcome::Connected).unwrap();
    client.begin_disconnect().unwrap();
    let outcome = client.finish_disconnect(DisconnectOutcome::TimedOut);
    assert_eq!(disconnect_vpn(&client, outcome).err().unwrap(), "FFI error: VPN disconnect timed out");
    let s = get_connection_status(&client).ok().unwrap();
    assert!(!s.connected);
    assert_eq!(s.profile_name, None);
    assert_eq!(s.status_message, "Error: Disconnect timeout");
}

#[test]
fn list_command_summarizes() {
    let p = VpnProfile::new("Office".into(), "office.test".into(), 443, VpnProtocol::L2tpIpsec);
    let m = manager_with(p);
    let l = list_profiles(&m).ok().unwrap();
    assert_eq!(l.profiles.len(), 1);
    assert_eq!(l.profiles[0].id, "office_office.test_443");
    assert_eq!(l.profiles[0].protocol, "L2tpIpsec");
}

#[test]
fn save_and_delete_commands() {
    let mut m = ProfileManager::new("/tmp/geist-profiles".into());
    let mut p = create_profile("New".into(), "new.test".into(), 992).ok().unwrap();
    assert_eq!(p.protocol, VpnProtocol::SslVpn);
    assert_eq!(p.port, 992);
    assert!(matches!(p.auth, AuthMethod::Radius));
    p.auth = AuthMethod::Password { username: String::new(), password: String::new() };
    assert_eq!(save_profile(&mut m, &p), Err("Profile error: Username cannot be empty".to_string()));
    assert!(m.load_profiles().is_empty());
    p.auth = AuthMethod::Password { username: "u".into(), password: "p".into() };
    assert_eq!(save_profile(&mut m, &p), Ok(()));
    assert_eq!(m.load_profiles().len(), 1);
    assert_eq!(delete_profile(&mut m, &p.id), Ok(()));
    assert!(m.load_profiles().is_empty());
}

#[test]
fn connection_test_notice_uses_default_timeout() {
    assert_eq!(connection_test_notice("h", 443, None), "Testing connection to h:443 with timeout 10s");
    assert_eq!(connection_test_notice("h", 1, Some(3)), "Testing connection to h:1 with timeout 3s");
}
