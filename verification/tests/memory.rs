use geist_vpn::memory::strings::{rust_to_softether_wide, softether_wide_to_rust};

#[test]
fn memory_test_string_conversion() {
    let test_str = "Hello VPN";
    let wide_buffer = rust_to_softether_wide(test_str).unwrap();
    let back_to_rust = softether_wide_to_rust(&wide_buffer);
    assert_eq!(test_str, back_to_rust);
}

#[test]
fn test_string_encoding() {
    let test_string = "Test VPN Server Connection";
    let account_name = "test_user";

    let wide_account = rust_to_softether_wide(account_name).expect("Failed to convert account name");
    let back_to_rust = softether_wide_to_rust(&wide_account);
    assert_eq!(account_name, back_to_rust);

    let wide_server = rust_to_softether_wide(test_string).expect("Failed to convert server name");
    let back_server = softether_wide_to_rust(&wide_server);
    assert_eq!(test_string, back_server);
}

#[test]
fn wide_buffer_is_zero_padded() {
    let b = rust_to_softether_wide("ab").unwrap();
    assert_eq!(b[0], 97);
    assert_eq!(b[1], 98);
    assert!(b[2..].iter().all(|u| *u == 0));
}

#[test]
fn wide_conversion_rejects_128_units() {
    let long: String = std::iter::repeat('x').take(128).collect();
    let err = rust_to_softether_wide(&long).unwrap_err();
    assert_eq!(
        err.to_string(),
        "String encoding error: String conversion failed: String too long for buffer"
    );
    let fits: String = std::iter::repeat('x').take(127).collect();
    let b = rust_to_softether_wide(&fits).unwrap();
    assert_eq!(softether_wide_to_rust(&b), fits);
}

#[test]
fn wide_to_rust_stops_at_nul_and_replaces_lone_surrogates() {
    assert_eq!(softether_wide_to_rust(&[104, 105, 0, 120]), "hi");
    assert_eq!(softether_wide_to_rust(&[0xD800, 97]), "\u{FFFD}a");
    assert_eq!(softether_wide_to_rust(&[104, 105]), "hi");
}

#[test]
fn wide_round_trip_with_surrogate_pairs() {
    let s = "Zoë 😀 VPN";
    let b = rust_to_softether_wide(s).unwrap();
    assert_eq!(b[4], 0xD83D);
    assert_eq!(softether_wide_to_rust(&b), s);
}
