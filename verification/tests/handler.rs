use headless_sdk::event::SdkEvent;
use headless_sdk::frame::{ImageFormat, ImageRgb};
use headless_sdk::handler::{DisplayInfo, HeadlessHandler};
use headless_sdk::reply::handle_screenshot;

fn connected(event: &SdkEvent) -> (bool, bool, String) {
    match event {
        SdkEvent::Connected { direct, secured, stream } => (*direct, *secured, stream.clone()),
        _ => panic!("not connected"),
    }
}

fn reason(event: &SdkEvent) -> String {
    match event {
        SdkEvent::Disconnected { reason } => reason.clone(),
        _ => panic!("not disconnected"),
    }
}

#[test]
fn event_texts() {
    let up = SdkEvent::Connected { direct: true, secured: false, stream: "TCP".to_string() };
    assert_eq!(
        up.to_json_string(),
        "{\"direct\":true,\"event\":\"connected\",\"secured\":false,\"stream\":\"TCP\"}"
    );
    let down = SdkEvent::Disconnected { reason: "connection lost".to_string() };
    assert_eq!(
        down.to_json_string(),
        "{\"event\":\"disconnected\",\"reason\":\"connection lost\"}"
    );
    let error = SdkEvent::Error { msg: "failed to connect".to_string() };
    assert_eq!(error.to_json_string(), "{\"event\":\"error\",\"msg\":\"failed to connect\"}");
}

#[test]
fn a_new_handler_knows_nothing() {
    for handler in [HeadlessHandler::new(), HeadlessHandler::default()] {
        assert!(!handler.connected);
        assert!(handler.frame.is_none());
        assert!(handler.displays.is_empty());
        assert!(handler.conn_info.is_none());
        assert!(handler.get_rgba().is_none());
    }
}

#[test]
fn the_route_is_unknown_until_it_is_set() {
    let mut handler = HeadlessHandler::new();
    assert_eq!(connected(&handler.set_peer_info()), (false, true, "unknown".to_string()));
    assert!(!handler.connected);
    assert_eq!(connected(&handler.on_connected()), (false, true, "unknown".to_string()));
    assert!(handler.connected);
}

#[test]
fn the_route_that_was_set_is_announced() {
    let mut handler = HeadlessHandler::new();
    handler.set_connection_type(false, true, "UDP");
    assert_eq!(connected(&handler.on_connected()), (true, false, "UDP".to_string()));
    assert_eq!(connected(&handler.set_peer_info()), (true, false, "UDP".to_string()));
    handler.set_connection_type(true, false, "Relay");
    assert_eq!(connected(&handler.set_peer_info()), (false, true, "Relay".to_string()));
}

#[test]
fn the_last_telling_callback_decides_whether_it_is_connected() {
    let mut handler = HeadlessHandler::new();
    handler.on_connected();
    assert!(handler.msgbox("info", "a", "b").is_none());
    assert!(handler.connected);
    assert_eq!(reason(&handler.msgbox("error", "Login", "wrong").unwrap()), "Login: wrong");
    assert!(!handler.connected);
    handler.on_connected();
    assert!(handler.connected);
    assert_eq!(reason(&handler.close_success()), "closed");
    assert!(!handler.connected);
    assert!(handler.msgbox("Error", "a", "b").is_none());
}

#[test]
fn the_latest_image_is_kept() {
    let mut handler = HeadlessHandler::new();
    let image = |byte: u8| ImageRgb { raw: vec![byte; 12], w: 1, h: 3, fmt: ImageFormat::ABGR };
    handler.on_rgba(image(1));
    handler.on_rgba(image(2));
    assert_eq!(handler.get_rgba(), Some(&vec![2; 12]));
    let frame = handler.frame.as_ref().unwrap();
    assert_eq!((frame.w, frame.h, frame.stride), (1, 3, 4));
    let reply = handle_screenshot(1, &handler.frame);
    let message = reply.frame.unwrap();
    assert_eq!(&message[20..], &[2; 12]);
    assert_eq!(&message[16..20], &[4, 0, 0, 0]);
}

#[test]
fn displays_are_kept() {
    let mut handler = HeadlessHandler::new();
    let display = DisplayInfo { x: 0, y: -5, width: 800, height: 600 };
    handler.set_displays(vec![display]);
    assert_eq!(handler.displays, vec![display]);
}

#[test]
fn a_route_like_the_unknown_one_is_kept_too() {
    let mut handler = HeadlessHandler::new();
    handler.set_connection_type(true, false, "unknown");
    assert_eq!(handler.conn_info, Some((false, true, "unknown".to_string())));
}
