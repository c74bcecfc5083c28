use rustblox::json::{build_display_name_body, build_role_id_body, json_escape};
use rustblox::text::{i16_to_dec, str_starts_with, u16_to_dec, usize_to_dec};

#[test]
fn decimal_rendering_is_exact() {
    assert_eq!(usize_to_dec(0), "0");
    assert_eq!(usize_to_dec(7), "7");
    assert_eq!(usize_to_dec(10), "10");
    assert_eq!(usize_to_dec(68429027), "68429027");
    assert_eq!(u16_to_dec(65535), "65535");
}

#[test]
fn signed_decimal_rendering_is_exact() {
    assert_eq!(i16_to_dec(0), "0");
    assert_eq!(i16_to_dec(42), "42");
    assert_eq!(i16_to_dec(-999), "-999");
    assert_eq!(i16_to_dec(i16::MIN), "-32768");
    assert_eq!(i16_to_dec(i16::MAX), "32767");
}

#[test]
fn prefix_test_is_exact() {
    assert!(str_starts_with("_|WARNINGabc", "_|WARNING"));
    assert!(str_starts_with("_|WARNING", "_|WARNING"));
    assert!(!str_starts_with("_|WARNIN", "_|WARNING"));
    assert!(!str_starts_with("", "_|WARNING"));
    assert!(!str_starts_with("x_|WARNING", "_|WARNING"));
    assert!(str_starts_with("anything", ""));
}

#[test]
fn json_escaping_is_exact() {
    assert_eq!(json_escape("plain"), "plain");
    assert_eq!(json_escape("say \"hi\""), "say \\\"hi\\\"");
    assert_eq!(json_escape("back\\slash"), "back\\\\slash");
    assert_eq!(json_escape("line\nbreak"), "line\\u000abreak");
    assert_eq!(json_escape("tab\there"), "tab\\u0009here");
    assert_eq!(json_escape("\u{1f}"), "\\u001f");
    assert_eq!(json_escape("ünïcödé"), "ünïcödé");
}

#[test]
fn escaped_bodies_parse_back_to_the_input() {
    let body = build_display_name_body("quote\" back\\ control\u{02}");
    let parsed: serde_json::Value = serde_json::from_str(&body).expect("valid JSON");
    assert_eq!(
        parsed["newDisplayName"],
        serde_json::Value::String("quote\" back\\ control\u{02}".to_string())
    );
}

#[test]
fn role_body_is_exact() {
    assert_eq!(build_role_id_body(85311978), "{\"roleId\":85311978}");
}
