use serde_json::Value;
use ts_error_translator::codec::{decode_frame, encode_frame, DecodeResult};
use ts_error_translator::catalog::Catalog;
use ts_error_translator::relay::transform_if_diagnostics;
use ts_error_translator::TranslationMode;

fn diagnostic_msg(code: u32, message: &str) -> Vec<u8> {
    let text = format!(
        "{{\"jsonrpc\":\"2.0\",\"method\":\"textDocument/publishDiagnostics\",\"params\":{{\"uri\":\"file:///test.ts\",\"diagnostics\":[{{\"message\":{},\"code\":{}}}]}}}}",
        Value::String(message.to_string()),
        code
    );
    text.into_bytes()
}

fn extract_message(output: &[u8]) -> String {
    let v: Value = serde_json::from_slice(output).unwrap();
    v["params"]["diagnostics"][0]["message"]
        .as_str()
        .unwrap()
        .to_string()
}

#[test]
fn test_translates_known_error() {
    let catalog = Catalog::new();
    let input = diagnostic_msg(2339, "Property 'x' does not exist");
    let output = transform_if_diagnostics(&catalog, &input, TranslationMode::Append);
    let msg = extract_message(&output);

    assert!(msg.contains("Property 'x' does not exist"));
    assert!(msg.contains("\u{25cf}"));
}

#[test]
fn test_unknown_error_passthrough() {
    let catalog = Catalog::new();
    let input = diagnostic_msg(99999, "Unknown error");
    let output = transform_if_diagnostics(&catalog, &input, TranslationMode::Append);

    assert_eq!(extract_message(&output), "Unknown error");
}

#[test]
fn test_non_diagnostic_passthrough() {
    let catalog = Catalog::new();
    let input = br#"{"jsonrpc":"2.0","method":"initialize","params":{}}"#;
    let output = transform_if_diagnostics(&catalog, input, TranslationMode::Append);

    assert_eq!(input.as_slice(), output.as_slice());
}

#[test]
fn unparseable_payload_passthrough() {
    let catalog = Catalog::new();
    let input = b"\x00\x01binary, not JSON";
    let output = transform_if_diagnostics(&catalog, input, TranslationMode::Append);
    assert_eq!(input.as_slice(), output.as_slice());
}

#[test]
fn append_mode_end_to_end() {
    let catalog = Catalog::new();
    let input = diagnostic_msg(2339, "Property 'x' does not exist on type 'Y'.");
    let output = transform_if_diagnostics(&catalog, &input, TranslationMode::Append);
    let msg = extract_message(&output);

    assert!(msg.contains("Property 'x' does not exist on type 'Y'."));
    assert!(msg.contains("You're trying to access 'x' on an object that doesn't contain it."));
}

#[test]
fn replace_mode_end_to_end() {
    let catalog = Catalog::new();
    let input = diagnostic_msg(2339, "Property 'x' does not exist on type 'Y'.");
    let output = transform_if_diagnostics(&catalog, &input, TranslationMode::Replace);
    let msg = extract_message(&output);

    assert!(!msg.contains("Property 'x' does not exist on type 'Y'."));
    assert!(msg.contains("You're trying to access 'x' on an object that doesn't contain it."));
}

#[test]
fn empty_diagnostics_list_stays_empty() {
    let catalog = Catalog::new();
    let input = br#"{"jsonrpc":"2.0","method":"textDocument/publishDiagnostics","params":{"uri":"file:///t.ts","diagnostics":[]}}"#;
    let output = transform_if_diagnostics(&catalog, input, TranslationMode::Append);

    let v: Value = serde_json::from_slice(&output).unwrap();
    assert_eq!(v["method"].as_str(), Some("textDocument/publishDiagnostics"));
    assert_eq!(v["params"]["diagnostics"].as_array().unwrap().len(), 0);
    assert_eq!(v["params"]["uri"].as_str(), Some("file:///t.ts"));
}

#[test]
fn diagnostic_without_message_is_left_alone() {
    let catalog = Catalog::new();
    let input = br#"{"jsonrpc":"2.0","method":"textDocument/publishDiagnostics","params":{"diagnostics":[{"code":2339},{"code":2339,"message":"Property 'a' does not exist on type 'B'."}]}}"#;
    let output = transform_if_diagnostics(&catalog, input, TranslationMode::Append);

    let v: Value = serde_json::from_slice(&output).unwrap();
    let diags = v["params"]["diagnostics"].as_array().unwrap();
    assert!(diags[0].get("message").is_none());
    assert!(diags[1]["message"]
        .as_str()
        .unwrap()
        .contains("You're trying to access 'a' on an object that doesn't contain it."));
}

#[test]
fn code_in_text_is_used_when_no_code_field() {
    let catalog = Catalog::new();
    let input = br#"{"jsonrpc":"2.0","method":"textDocument/publishDiagnostics","params":{"diagnostics":[{"message":"error TS1003: Identifier expected."}]}}"#;
    let output = transform_if_diagnostics(&catalog, input, TranslationMode::Append);
    let msg = extract_message(&output);
    assert!(msg.contains("I was expecting a name but none was provided."));
}

#[test]
fn pass_through_is_idempotent() {
    let catalog = Catalog::new();
    let input = br#"{"jsonrpc":"2.0","method":"initialize","params":{}}"#;
    let once = transform_if_diagnostics(&catalog, input, TranslationMode::Append);
    let twice = transform_if_diagnostics(&catalog, &once, TranslationMode::Append);
    assert_eq!(once, twice);
}

#[test]
fn framed_notification_through_the_relay_step() {
    let catalog = Catalog::new();
    let payload = diagnostic_msg(2304, "Cannot find name 'zed'.");
    let wire = encode_frame(&payload);
    let decoded = match decode_frame(&wire) {
        DecodeResult::Frame { payload, .. } => payload,
        other => panic!("expected a frame, got {:?}", other),
    };
    let transformed = transform_if_diagnostics(&catalog, &decoded, TranslationMode::Append);
    let rewired = encode_frame(&transformed);
    let msg = extract_message(&transformed);
    assert!(msg.contains("I can't find 'zed' - it might not be imported or defined."));
    assert!(rewired.ends_with(&transformed));
}
