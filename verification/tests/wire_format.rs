//! The wire frames sent to sessions, and the startup key selection.

use fileshare_build::message::{BroadcastValue, ReloadToken};
use fileshare_build::tls::select_private_key;
use fileshare_build::wire::render_wire_text;

#[test]
fn refresh_frame_carries_the_token_in_decimal() {
    let v = BroadcastValue::RefreshPage(ReloadToken(0));
    assert_eq!(render_wire_text(&v), "{\"RefreshPage\":[0]}");
    let v = BroadcastValue::RefreshPage(ReloadToken(1234567890));
    assert_eq!(render_wire_text(&v), "{\"RefreshPage\":[1234567890]}");
    let v = BroadcastValue::RefreshPage(ReloadToken(u64::MAX));
    assert_eq!(render_wire_text(&v), "{\"RefreshPage\":[18446744073709551615]}");
}

#[test]
fn error_frame_carries_the_text_verbatim() {
    let v = BroadcastValue::DisplayError("TYPE MISMATCH".to_string());
    assert_eq!(render_wire_text(&v), "{\"DisplayError\":\"TYPE MISMATCH\"}");
    let v = BroadcastValue::DisplayError(String::new());
    assert_eq!(render_wire_text(&v), "{\"DisplayError\":\"\"}");
}

#[test]
fn error_frame_escapes_quotes_backslashes_and_control_characters() {
    let v = BroadcastValue::DisplayError("I cannot find a \"Main\" module.".to_string());
    assert_eq!(
        render_wire_text(&v),
        "{\"DisplayError\":\"I cannot find a \\\"Main\\\" module.\"}"
    );
    let v = BroadcastValue::DisplayError("path\\to\\file".to_string());
    assert_eq!(render_wire_text(&v), "{\"DisplayError\":\"path\\\\to\\\\file\"}");
    let v = BroadcastValue::DisplayError("line one\nline two\t.".to_string());
    assert_eq!(
        render_wire_text(&v),
        "{\"DisplayError\":\"line one\\u000aline two\\u0009.\"}"
    );
}

#[test]
fn error_frame_passes_other_text_through() {
    // Non-ASCII text stands for itself inside a JSON string.
    let v = BroadcastValue::DisplayError("höhe — ψ".to_string());
    assert_eq!(render_wire_text(&v), "{\"DisplayError\":\"höhe — ψ\"}");
}

#[test]
fn frames_parse_as_the_expected_json() {
    let v = BroadcastValue::RefreshPage(ReloadToken(42));
    let parsed: serde_json::Value = serde_json::from_str(&render_wire_text(&v)).unwrap();
    assert_eq!(parsed["RefreshPage"][0].as_u64(), Some(42));
    let v = BroadcastValue::DisplayError("a \"b\"\nc".to_string());
    let parsed: serde_json::Value = serde_json::from_str(&render_wire_text(&v)).unwrap();
    assert_eq!(parsed["DisplayError"].as_str(), Some("a \"b\"\nc"));
}

#[test]
fn private_key_prefers_pkcs8() {
    let pkcs8 = vec![vec![1u8, 2, 3], vec![4u8]];
    let rsa = vec![vec![9u8, 9]];
    assert_eq!(select_private_key(&pkcs8, &rsa), Some(vec![1u8, 2, 3]));
}

#[test]
fn private_key_falls_back_to_rsa() {
    let pkcs8: Vec<Vec<u8>> = Vec::new();
    let rsa = vec![vec![9u8, 9], vec![8u8]];
    assert_eq!(select_private_key(&pkcs8, &rsa), Some(vec![9u8, 9]));
}

#[test]
fn no_key_at_all_is_reported() {
    let none: Vec<Vec<u8>> = Vec::new();
    assert_eq!(select_private_key(&none, &none), None);
}
