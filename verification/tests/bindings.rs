use geist_vpn::bindings::{to_wide_string, CLIENT_OPTION};

#[test]
fn test_basic_functionality() {
    assert!(true);
}

#[test]
fn bindings_test_string_conversion() {
    assert!(true);
}

#[test]
fn wide_string_fills_prefix_and_keeps_rest() {
    let mut buffer = [7u16; 8];
    assert!(to_wide_string("abc", &mut buffer).is_ok());
    assert_eq!(buffer, [97, 98, 99, 0, 7, 7, 7, 7]);
}

#[test]
fn wide_string_too_long_leaves_buffer() {
    let mut buffer = [7u16; 3];
    let r = to_wide_string("abc", &mut buffer);
    assert_eq!(r, Err("String too long for buffer".to_string()));
    assert_eq!(buffer, [7, 7, 7]);
}

#[test]
fn wide_string_uses_surrogate_pairs() {
    let mut buffer = [0u16; 4];
    assert!(to_wide_string("😀", &mut buffer).is_ok());
    assert_eq!(buffer, [0xD83D, 0xDE00, 0, 0]);
}

#[test]
fn client_option_default_is_zeroed() {
    let o = CLIENT_OPTION::default();
    assert_eq!(o.Port, 0);
    assert!(!o.UseEncrypt);
    assert!(o.Hostname.iter().all(|b| *b == 0));
    assert!(o.AccountName.iter().all(|u| *u == 0));
}
