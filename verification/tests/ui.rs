use geist_vpn::gui::{ConnectionStatus, ViewMode};
use geist_vpn::profile::{AuthMethod, VpnProfile, VpnProtocol};
use geist_vpn::ui::header::{status_indicator, StatusIndicator};
use geist_vpn::ui::modal::{AuthMethodType, ProfileModalState};
use geist_vpn::ui::profiles::{
    empty_message, favorite_icon, last_used_text, profile_heading, profile_subtitle, usage_text,
    view_title, visible_profiles,
};
use geist_vpn::ui::quick_connect::{
    connect_button_action, connect_button_label, connection_info, current_selection,
    profile_for_label, profile_options, InfoTone, QuickAction,
};
use geist_vpn::ui::{init_ui, send_ui_event, UiEvent};

#[test]
fn test_ui_init() {
    assert!(init_ui().is_ok());
}

#[test]
fn ui_events_queue_in_order() {
    let mut outbox = Vec::new();
    send_ui_event(&mut outbox, UiEvent::ProfilesUpdated);
    send_ui_event(&mut outbox, UiEvent::ConnectionStatusChanged { connected: true });
    send_ui_event(&mut outbox, UiEvent::Error { message: "x".into() });
    assert_eq!(outbox.len(), 3);
    assert!(matches!(outbox[0], UiEvent::ProfilesUpdated));
    assert!(matches!(outbox[1], UiEvent::ConnectionStatusChanged { connected: true }));
    assert!(matches!(&outbox[2], UiEvent::Error { message } if message == "x"));
}

fn status(connected: bool, message: &str) -> ConnectionStatus {
    ConnectionStatus { connected, profile_name: None, status_message: message.into() }
}

#[test]
fn header_indicator() {
    assert_eq!(status_indicator(&status(true, "Error: x")), StatusIndicator::Connected);
    assert_eq!(status_indicator(&status(false, "Connecting...")), StatusIndicator::Connecting);
    assert_eq!(status_indicator(&status(false, "Error: broken")), StatusIndicator::Failed);
    assert_eq!(status_indicator(&status(false, "Disconnected")), StatusIndicator::Idle);
}

#[test]
fn form_round_trip() {
    let mut p = VpnProfile::new("Edit Me".into(), "edit.test".into(), 1194, VpnProtocol::OpenVpn);
    p.auth = AuthMethod::NtDomain { username: "bob".into(), password: "pw".into(), domain: "WORKGROUP".into() };
    p.account_name = "acct".into();
    p.timeout = 45;
    let form = ProfileModalState::from_profile(&p);
    assert_eq!(form.port, "1194");
    assert_eq!(form.timeout, "45");
    assert_eq!(form.auth_method_type, AuthMethodType::NtDomain);
    assert!(form.editing);
    assert!(form.is_valid());
    let q = form.to_profile(Some(p.id.clone())).unwrap();
    assert_eq!(q.id, p.id);
    assert_eq!(q.port, 1194);
    assert_eq!(q.timeout, 45);
    assert_eq!(q.account_name, "acct");
    assert_eq!(q.protocol, VpnProtocol::OpenVpn);
    match q.auth {
        AuthMethod::NtDomain { username, password, domain } => {
            assert_eq!((username.as_str(), password.as_str(), domain.as_str()), ("bob", "pw", "WORKGROUP"));
        },
        _ => panic!("expected NT domain auth"),
    }
}

#[test]
fn form_errors() {
    let mut form = ProfileModalState::default();
    form.name = "N".into();
    form.host = "h".into();
    form.port = "70000".into();
    assert_eq!(form.to_profile(None).err().unwrap(), "Invalid port number");
    form.port = "+443".into();
    form.timeout = "-1".into();
    assert_eq!(form.to_profile(None).err().unwrap(), "Invalid timeout value");
    form.timeout = "30".into();
    assert_eq!(form.to_profile(None).err().unwrap(), "Username cannot be empty");
    form.username = "u".into();
    assert_eq!(form.to_profile(None).err().unwrap(), "Password cannot be empty");
    form.auth_method_type = AuthMethodType::Radius;
    let p = form.to_profile(None).unwrap();
    assert_eq!(p.port, 443);
    assert!(matches!(p.auth, AuthMethod::Radius));
    assert_eq!(AuthMethodType::NtDomain.label(), "NT Domain");
}

#[test]
fn profile_panel_texts() {
    assert_eq!(view_title(ViewMode::Favorites), "⭐ Favorite VPN Profiles");
    assert_eq!(empty_message(ViewMode::Recent), "No recently used profiles yet.\nConnect to profiles to see them here.");
    assert_eq!(favorite_icon(true), "★");
    let mut p = VpnProfile::new("Star".into(), "star.test".into(), 443, VpnProtocol::Sstp);
    assert_eq!(profile_heading(&p), "Star ");
    p.toggle_favorite();
    assert_eq!(profile_heading(&p), "Star ⭐");
    assert_eq!(profile_subtitle(&p), "star.test • Sstp");
    assert_eq!(usage_text(1), "Used 1 time");
    assert_eq!(usage_text(3), "Used 3 times");
    assert_eq!(last_used_text(&p), Some("Never used".to_string()));
    p.metadata.last_used_at = Some(1662921288000000);
    assert_eq!(last_used_text(&p), Some("Last used: 2022-09-11 18:34".to_string()));
}

#[test]
fn profile_panel_views() {
    let mut a = VpnProfile::new("A".into(), "a".into(), 1, VpnProtocol::SslVpn);
    let b = VpnProfile::new("B".into(), "b".into(), 1, VpnProtocol::SslVpn);
    a.toggle_favorite();
    a.metadata.last_used_at = Some(5);
    let list = vec![a, b];
    assert_eq!(visible_profiles(&list, ViewMode::All).len(), 2);
    let favs = visible_profiles(&list, ViewMode::Favorites);
    assert_eq!(favs.len(), 1);
    assert_eq!(favs[0].name, "A");
    let recent = visible_profiles(&list, ViewMode::Recent);
    assert_eq!(recent.len(), 1);
    let many: Vec<VpnProfile> = (0..12)
        .map(|i| {
            let mut p = VpnProfile::new(format!("P{}", i), "h".into(), 1, VpnProtocol::SslVpn);
            p.metadata.last_used_at = Some(i);
            p
        })
        .collect();
    let top = visible_profiles(&many, ViewMode::Recent);
    assert_eq!(top.len(), 10);
    assert_eq!(top[0].name, "P11");
}

#[test]
fn quick_connect_choices() {
    let a = VpnProfile::new("A".into(), "a.test".into(), 1, VpnProtocol::SslVpn);
    let b = VpnProfile::new("B".into(), "b.test".into(), 1, VpnProtocol::SslVpn);
    let list = vec![a, b];
    assert_eq!(profile_options(&list), vec!["A (a.test)".to_string(), "B (b.test)".to_string()]);
    assert_eq!(current_selection(&list, Some("b_b.test_1")), Some("B (b.test)".to_string()));
    assert_eq!(current_selection(&list, Some("zzz")), None);
    assert_eq!(current_selection(&list, None), None);
    assert_eq!(profile_for_label(&list, "A (a.test)"), "a_a.test_1");
    assert_eq!(profile_for_label(&list, "C"), "");
    assert_eq!(connect_button_label(true, true), "Disconnecting...");
    assert_eq!(connect_button_label(false, false), "Connect");
    assert!(matches!(connect_button_action(true, true, None), Some(QuickAction::Disconnect)));
    assert!(connect_button_action(false, true, Some("x")).is_none());
    match connect_button_action(false, false, Some("x")) {
        Some(QuickAction::Connect(id)) => assert_eq!(id, "x"),
        _ => panic!("expected connect"),
    }
}

#[test]
fn quick_connect_info() {
    let s = ConnectionStatus { connected: true, profile_name: None, status_message: "Connected".into() };
    let (lines, tone) = connection_info(&s, false);
    assert_eq!(lines, vec!["Connected to: Unknown".to_string(), "Status: Connected".to_string()]);
    assert_eq!(tone, InfoTone::Plain);
    let (lines, tone) = connection_info(&status(false, "Operation failed: x"), false);
    assert_eq!(lines, vec!["Status: Operation failed: x".to_string()]);
    assert_eq!(tone, InfoTone::Alarming);
    let (lines, tone) = connection_info(&status(false, "Disconnected"), true);
    assert_eq!(lines, vec!["Status: Connecting...".to_string()]);
    assert_eq!(tone, InfoTone::Highlighted);
}
