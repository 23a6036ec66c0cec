use geist_vpn::hub::{check_hub_target, collect_hub_names, hub_session_options, write_c_string};

#[test]
fn hub_target_checks() {
    assert_eq!(
        check_hub_target("   ", 443).unwrap_err().to_string(),
        "Profile error: Server host is required to fetch Virtual Hub names"
    );
    assert_eq!(
        check_hub_target("vpn.test", 0).unwrap_err().to_string(),
        "Profile error: Server port must be greater than zero"
    );
    assert!(check_hub_target("vpn.test", 443).is_ok());
}

#[test]
fn c_string_written_and_padded() {
    let mut buf = [1u8; 8];
    assert!(write_c_string(&mut buf, " host ", 7).is_ok());
    assert_eq!(buf, [b'h', b'o', b's', b't', 0, 0, 0, 0]);
    let e = write_c_string(&mut buf, "toolong", 3).unwrap_err();
    assert_eq!(e.to_string(), "Profile error: Value 'toolong' exceeds maximum length 3");
    assert_eq!(buf, [b'h', b'o', b's', b't', 0, 0, 0, 0]);
}

#[test]
fn hub_session_options_are_prepared() {
    let o = hub_session_options(" vpn.test ", 5555).unwrap();
    assert_eq!(o.Port, 5555);
    assert_eq!(&o.Hostname[..9], b"vpn.test\0");
    assert_eq!(o.NumRetry, 1);
    assert!(o.UseEncrypt && o.UseCompress && o.HideStatusWindow);
    assert!(!o.HalfConnection);
    let name: Vec<u16> = "geist-hub-enum".encode_utf16().collect();
    assert_eq!(&o.AccountName[..14], &name[..]);
    assert_eq!(o.AccountName[14], 0);
    let long: String = std::iter::repeat('a').take(256).collect();
    assert_eq!(
        hub_session_options(&long, 1).err().unwrap().to_string(),
        format!("Profile error: Value '{}' exceeds maximum length 255", long)
    );
    assert!(hub_session_options("", 1).is_err());
}

#[test]
fn hub_names_skip_missing_and_empty() {
    let names = collect_hub_names(vec![Some("DEFAULT".into()), None, Some(String::new()), Some("VPN".into())]);
    assert_eq!(names, vec!["DEFAULT".to_string(), "VPN".to_string()]);
}
