use geist_vpn::client::c_string_lossy;
use geist_vpn::profile::{ProfileManager, VpnProfile, VpnProtocol};
use geist_vpn::text::{
    first_line_of, format_hex_upper, format_u64, join_strings, parse_unsigned_str, str_contains, trim_str,
};
use geist_vpn::cert_prompt::{
    clear_active_profile, clear_last_certificate_decision, current_profile, decision_answer,
    record_certificate_decision, set_active_profile, take_last_certificate_decision, ActiveProfileInfo,
    CertificateDecision, CertificatePromptState,
};

#[test]
fn decimal_round_trip() {
    for n in [0u64, 7, 10, 443, 65535, 4294967295] {
        let s = format_u64(n);
        assert_eq!(parse_unsigned_str(&s, u64::MAX), Some(n));
    }
    assert_eq!(parse_unsigned_str("65536", 65535), None);
    assert_eq!(parse_unsigned_str("", 10), None);
    assert_eq!(parse_unsigned_str("+", 10), None);
    assert_eq!(parse_unsigned_str(" 1", 10), None);
    assert_eq!(parse_unsigned_str("+7", 10), Some(7));
}

#[test]
fn trimming_and_search() {
    assert_eq!(trim_str("\u{3000} a b \n"), "a b");
    assert!(str_contains("Connecting...", "Connect"));
    assert!(!str_contains("abc", "abcd"));
    let mut m = ProfileManager::new("/tmp/p".into());
    m.fill_cache(vec![VpnProfile::new("ÀB Office".into(), "h".into(), 1, VpnProtocol::SslVpn)]);
    assert_eq!(m.search_profiles("àb").len(), 1);
    assert_eq!(m.search_profiles("ÀB OFFICE").len(), 1);
    assert_eq!(first_line_of("HTTP/1.1 200 OK\r\nX"), "HTTP/1.1 200 OK");
    assert_eq!(first_line_of("one"), "one");
    assert_eq!(format_hex_upper(&[0, 171]), "00AB");
    assert_eq!(join_strings(&vec!["a".to_string(), "b".to_string()], ", "), "a, b");
    assert_eq!(c_string_lossy(&[104, 0xff, 105, 0, 33]), "h\u{FFFD}i");
    assert_eq!(c_string_lossy(&[0, 33]), "");
}

#[test]
fn certificate_decisions() {
    let mut state = CertificatePromptState::new();
    assert_eq!(take_last_certificate_decision(&mut state), None);
    record_certificate_decision(&mut state, CertificateDecision::TrustTemporarily);
    assert_eq!(take_last_certificate_decision(&mut state), Some(CertificateDecision::TrustTemporarily));
    assert_eq!(take_last_certificate_decision(&mut state), None);
    record_certificate_decision(&mut state, CertificateDecision::Reject);
    clear_last_certificate_decision(&mut state);
    assert_eq!(take_last_certificate_decision(&mut state), None);
    let info = ActiveProfileInfo { id: "i".into(), name: "n".into(), host: "h".into(), port: 1 };
    set_active_profile(&mut state, Some(info));
    assert_eq!(current_profile(&state).map(|p| p.name), Some("n".to_string()));
    clear_active_profile(&mut state);
    assert!(current_profile(&state).is_none());
    assert_eq!(decision_answer(CertificateDecision::TrustPermanently), 1);
    assert_eq!(decision_answer(CertificateDecision::Reject), 0);
}
