use lenzu::hud_ipc::{
    grpc_endpoint_addr, hud_position_message, hud_shutdown_message, hud_text_message,
    install_channel, needs_udp_fallback, reset_channel, udp_target_addr, with_client,
};
use serde_json::Value;

fn parse(msg: &str) -> Value {
    serde_json::from_str(msg).unwrap()
}

#[test]
fn with_client_returns_none_when_not_initialized() {
    let mut channel: Option<u16> = Some(7332);
    reset_channel(&mut channel);
    let result = with_client(&channel, |_| 42);
    assert!(result.is_none());
}

#[test]
fn with_client_runs_closure_on_installed_channel() {
    let mut channel: Option<u16> = None;
    install_channel(&mut channel, 7332);
    assert_eq!(with_client(&channel, |c| *c + 1), Some(7333));
}

#[test]
fn send_text_via_udp_emits_json_message() {
    let json = parse(&hud_text_message("hello 世界"));
    assert_eq!(json["type"], "message");
    assert_eq!(json["text"], "hello 世界");
}

#[test]
fn move_window_via_udp_emits_json_position() {
    let json = parse(&hud_position_message("top"));
    assert_eq!(json["type"], "position");
    assert_eq!(json["pos"], "top");
}

#[test]
fn move_window_via_udp_bottom() {
    let json = parse(&hud_position_message("bottom"));
    assert_eq!(json["type"], "position");
    assert_eq!(json["pos"], "bottom");
}

#[test]
fn shutdown_via_udp_emits_json_shutdown() {
    let json = parse(&hud_shutdown_message());
    assert_eq!(json["type"], "shutdown");
}

#[test]
fn public_send_text_falls_back_to_udp_when_no_grpc_channel() {
    let mut channel: Option<u16> = Some(1);
    reset_channel(&mut channel);
    let outcome: Option<Result<(), String>> = with_client(&channel, |_| Ok(()));
    assert!(needs_udp_fallback(&outcome));
    let json = parse(&hud_text_message("udp fallback test"));
    assert_eq!(json["type"], "message");
    assert_eq!(json["text"], "udp fallback test");
}

#[test]
fn public_move_window_falls_back_to_udp_when_no_grpc_channel() {
    let mut channel: Option<u16> = Some(1);
    reset_channel(&mut channel);
    let outcome: Option<Result<(), String>> = with_client(&channel, |_| Ok(()));
    assert!(needs_udp_fallback(&outcome));
    let json = parse(&hud_position_message("top"));
    assert_eq!(json["type"], "position");
    assert_eq!(json["pos"], "top");
}

#[test]
fn grpc_failure_falls_back_and_success_does_not() {
    let failed: Option<Result<(), String>> = Some(Err("unavailable".to_string()));
    let delivered: Option<Result<(), String>> = Some(Ok(()));
    assert!(needs_udp_fallback(&failed));
    assert!(!needs_udp_fallback(&delivered));
}

#[test]
fn text_message_exact_bytes() {
    assert_eq!(hud_text_message("hi"), "{\"text\":\"hi\",\"type\":\"message\"}");
    assert_eq!(hud_position_message("top"), "{\"pos\":\"top\",\"type\":\"position\"}");
    assert_eq!(hud_shutdown_message(), "{\"type\":\"shutdown\"}");
}

#[test]
fn text_message_escapes_json_specials() {
    let text = "quote\" back\\ nl\n tab\t cr\r bs\u{8} ff\u{c} ctl\u{1} del\u{7f} é";
    let msg = hud_text_message(text);
    assert_eq!(
        msg,
        "{\"text\":\"quote\\\" back\\\\ nl\\n tab\\t cr\\r bs\\b ff\\f ctl\\u0001 del\u{7f} é\",\"type\":\"message\"}"
    );
    assert_eq!(parse(&msg)["text"], text);
    assert!(hud_text_message("\u{1f}").contains("\\u001f"));
}

#[test]
fn loopback_addresses() {
    assert_eq!(udp_target_addr(7331), "127.0.0.1:7331");
    assert_eq!(udp_target_addr(0), "127.0.0.1:0");
    assert_eq!(grpc_endpoint_addr(7332), "http://127.0.0.1:7332");
    assert_eq!(grpc_endpoint_addr(65535), "http://127.0.0.1:65535");
}

#[test]
fn datagrams_match_serde_json_objects() {
    let mut m = serde_json::Map::new();
    m.insert("type".to_string(), Value::String("message".to_string()));
    m.insert("text".to_string(), Value::String("a\"b\n猫".to_string()));
    assert_eq!(hud_text_message("a\"b\n猫"), Value::Object(m).to_string());
    let mut m = serde_json::Map::new();
    m.insert("type".to_string(), Value::String("position".to_string()));
    m.insert("pos".to_string(), Value::String("bottom".to_string()));
    assert_eq!(hud_position_message("bottom"), Value::Object(m).to_string());
    let mut m = serde_json::Map::new();
    m.insert("type".to_string(), Value::String("shutdown".to_string()));
    assert_eq!(hud_shutdown_message(), Value::Object(m).to_string());
}
