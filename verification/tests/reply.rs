use headless_sdk::frame::{encode_frame, ImageFormat, LatestFrame};
use headless_sdk::reply::{connecting_reply, handle_screenshot, handle_status};
use headless_sdk::reply::{json_error, json_ok, peer_id_reply};
use serde_json::Value;

#[test]
fn acceptance_text() {
    assert_eq!(json_ok(7), "{\"id\":7,\"ok\":true}");
    assert_eq!(json_ok(u64::MAX), "{\"id\":18446744073709551615,\"ok\":true}");
}

#[test]
fn refusal_text() {
    let text = json_error(3, "bad \"key\"\n\u{1}\u{e9}");
    assert!(text.starts_with('{'));
    assert!(!text.contains('\n'));
    let value: Value = serde_json::from_str(&text).unwrap();
    assert_eq!(value["id"].as_u64(), Some(3));
    assert_eq!(value["ok"].as_bool(), Some(false));
    assert_eq!(value["error"].as_str(), Some("bad \"key\"\n\u{1}\u{e9}"));
    assert_eq!(value.as_object().unwrap().len(), 3);
}

#[test]
fn connecting_text() {
    assert_eq!(connecting_reply(1), "{\"id\":1,\"ok\":true,\"state\":\"connecting\"}");
}

#[test]
fn status_text() {
    let value: Value = serde_json::from_str(&handle_status(9, true, false)).unwrap();
    assert_eq!(value["id"].as_u64(), Some(9));
    assert_eq!(value["ok"].as_bool(), Some(true));
    assert_eq!(value["connected"].as_bool(), Some(true));
    assert_eq!(value["has_session"].as_bool(), Some(false));
    assert_eq!(value.as_object().unwrap().len(), 4);
}

#[test]
fn peer_id_text() {
    assert_eq!(peer_id_reply(8, "37513141"), "{\"id\":8,\"ok\":true,\"peer_id\":\"37513141\"}");
}

#[test]
fn screenshot_without_a_frame() {
    let reply = handle_screenshot(3, &None);
    let value: Value = serde_json::from_str(&reply.text).unwrap();
    assert_eq!(value["id"].as_u64(), Some(3));
    assert_eq!(value["ok"].as_bool(), Some(true));
    assert_eq!(value["has_frame"].as_bool(), Some(false));
    assert_eq!(value.as_object().unwrap().len(), 3);
    assert!(reply.frame.is_none());
}

#[test]
fn screenshot_with_a_frame() {
    let frame = LatestFrame {
        data: vec![1; 16],
        w: 1920,
        h: 1080,
        fmt: ImageFormat::ARGB,
        stride: 7680,
    };
    let message = encode_frame(&frame);
    let reply = handle_screenshot(3, &Some(frame));
    let value: Value = serde_json::from_str(&reply.text).unwrap();
    assert_eq!(value["id"].as_u64(), Some(3));
    assert_eq!(value["ok"].as_bool(), Some(true));
    assert_eq!(value["has_frame"].as_bool(), Some(true));
    assert_eq!(value["w"].as_u64(), Some(1920));
    assert_eq!(value["h"].as_u64(), Some(1080));
    assert_eq!(value["format"].as_str(), Some("argb"));
    assert_eq!(value["stride"].as_u64(), Some(7680));
    assert_eq!(value["fmt_code"].as_u64(), Some(1));
    assert_eq!(value.as_object().unwrap().len(), 8);
    assert_eq!(reply.frame, Some(message));
}
