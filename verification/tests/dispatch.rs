use headless_sdk::action::Action;
use headless_sdk::dispatch::{handle_text_command, Dispatch};
use headless_sdk::frame::{ImageFormat, ImageRgb};
use headless_sdk::handler::HeadlessHandler;
use headless_sdk::identity::{IdAction, IdState};
use headless_sdk::mouse::MouseCodes;
use headless_sdk::reply::Reply;
use headless_sdk::session::{connect_opened, connect_step, handle_connect, handle_disconnect};
use headless_sdk::session::{AppState, ConnectStart, ConnectStep, ConnectTask};
use serde_json::Value;
use headless_sdk::command::Command;

fn command(word: &str) -> Command {
    Command {
        id: 5,
        cmd: word.to_string(),
        peer_id: String::new(),
        password: String::new(),
        action: String::new(),
        x: 0,
        y: 0,
        button: String::new(),
        key: String::new(),
        keys_seq: Vec::new(),
        check_server: false,
        quality: String::new(),
        value: 0,
        fps: 0,
        display: 0,
        width: 0,
        height: 0,
    }
}

const CODES: MouseCodes = MouseCodes {
    button_left: 1,
    button_right: 2,
    button_wheel: 4,
    button_back: 8,
    button_forward: 16,
    type_down: 1,
    type_up: 2,
    type_wheel: 3,
    type_move_relative: 5,
};

fn client(session: Option<u32>) -> AppState<u32> {
    let mut state = AppState::new(CODES);
    assert!(state.get_session().is_none());
    state.session = session;
    state
}

fn finished(state: &mut AppState<u32>, cmd: Command) -> (Option<u32>, Vec<Action>, Reply) {
    match handle_text_command(state, &HeadlessHandler::new(), &Ok(cmd)) {
        Dispatch::Finished { close, actions, reply } => (close, actions, reply),
        _ => panic!("not finished"),
    }
}

#[test]
fn a_text_that_is_no_command_is_refused() {
    let mut state = client(Some(1));
    match handle_text_command(&mut state, &HeadlessHandler::new(), &Err("oops".to_string())) {
        Dispatch::Finished { close, actions, reply } => {
            assert!(close.is_none());
            assert!(actions.is_empty());
            assert!(reply.frame.is_none());
            assert_eq!(reply.text, "{\"error\":\"invalid command: oops\",\"id\":0,\"ok\":false}");
        }
        _ => panic!("not finished"),
    }
    assert_eq!(state.session, Some(1));
}

#[test]
fn unknown_command_is_refused() {
    let (close, actions, reply) = finished(&mut client(Some(1)), command("dance"));
    assert!(close.is_none());
    assert!(actions.is_empty());
    assert_eq!(reply.text, "{\"error\":\"unknown command: dance\",\"id\":5,\"ok\":false}");
}

#[test]
fn ping_is_answered() {
    let (_, actions, reply) = finished(&mut client(None), command("ping"));
    assert!(actions.is_empty());
    assert_eq!(reply.text, "{\"id\":5,\"ok\":true}");
}

#[test]
fn disconnecting_gives_up_the_session() {
    let mut state = client(Some(9));
    let (close, actions, reply) = finished(&mut state, command("disconnect"));
    assert_eq!(close, Some(9));
    assert!(actions.is_empty());
    assert_eq!(reply.text, "{\"id\":5,\"ok\":true}");
    assert_eq!(state.session, None);
    let (close, _, reply) = finished(&mut state, command("disconnect"));
    assert_eq!(close, None);
    assert_eq!(reply.text, "{\"id\":5,\"ok\":true}");
    let (_, _, reply) = finished(&mut state, command("status"));
    let value: Value = serde_json::from_str(&reply.text).unwrap();
    assert_eq!(value["has_session"].as_bool(), Some(false));
}

#[test]
fn status_tells_session_and_connection_apart() {
    let mut handler = HeadlessHandler::new();
    handler.on_connected();
    let mut state = client(Some(9));
    match handle_text_command(&mut state, &handler, &Ok(command("status"))) {
        Dispatch::Finished { reply, .. } => {
            let value: Value = serde_json::from_str(&reply.text).unwrap();
            assert_eq!(value["id"].as_u64(), Some(5));
            assert_eq!(value["connected"].as_bool(), Some(true));
            assert_eq!(value["has_session"].as_bool(), Some(true));
        }
        _ => panic!("not finished"),
    }
    assert_eq!(state.session, Some(9));
}

#[test]
fn screenshot_carries_the_frame() {
    let mut handler = HeadlessHandler::new();
    handler.on_rgba(ImageRgb { raw: vec![3; 8], w: 1, h: 2, fmt: ImageFormat::Raw });
    match handle_text_command(&mut client(None), &handler, &Ok(command("screenshot"))) {
        Dispatch::Finished { reply, .. } => {
            let value: Value = serde_json::from_str(&reply.text).unwrap();
            assert_eq!(value["format"].as_str(), Some("rgb"));
            assert_eq!(value["stride"].as_u64(), Some(4));
            assert_eq!(reply.frame.unwrap().len(), 28);
        }
        _ => panic!("not finished"),
    }
}

#[test]
fn commands_reach_their_handlers() {
    let mut cmd = command("mouse");
    cmd.action = "down".to_string();
    let press = Action::Mouse { mask: 9, x: 0, y: 0 };
    assert_eq!(finished(&mut client(Some(1)), cmd).1, vec![press]);
    let mut cmd = command("keyboard");
    cmd.action = "key_up".to_string();
    cmd.key = "Esc".to_string();
    let release = Action::Key { scancode: 1, down: false };
    assert_eq!(finished(&mut client(Some(1)), cmd).1, vec![release]);
    let mut cmd = command("key_sequence");
    cmd.keys_seq = vec![serde_json::from_str("{\"action\":\"wait\",\"delay_ms\":4}").unwrap()];
    assert_eq!(finished(&mut client(Some(1)), cmd).1, vec![Action::Sleep { millis: 4 }]);
    assert_eq!(
        finished(&mut client(Some(1)), command("set_fps")).1,
        vec![Action::Fps { fps: 30 }]
    );
    assert_eq!(
        finished(&mut client(Some(1)), command("set_resolution")).1,
        vec![Action::Resolution { display: 0, width: 1920, height: 1080 }]
    );
    assert_eq!(finished(&mut client(Some(1)), command("set_quality")).1.len(), 1);
}

#[test]
fn commands_without_a_session_are_refused() {
    for word in
        ["mouse", "keyboard", "key_sequence", "set_quality", "set_fps", "set_resolution"]
    {
        let (close, actions, reply) = finished(&mut client(None), command(word));
        assert!(close.is_none());
        assert!(actions.is_empty());
        assert_eq!(reply.text, "{\"error\":\"not connected\",\"id\":5,\"ok\":false}");
    }
}

#[test]
fn connecting_closes_the_old_session_first() {
    let mut state = client(Some(4));
    let mut cmd = command("connect");
    cmd.peer_id = "123456789".to_string();
    cmd.password = "xxx".to_string();
    match handle_text_command(&mut state, &HeadlessHandler::new(), &Ok(cmd)) {
        Dispatch::Connect { close, task } => {
            assert_eq!(close, Some(4));
            assert_eq!(task.peer_id, "123456789");
            assert_eq!(task.password, "xxx");
            assert_eq!((task.id, task.waited), (5, 0));
        }
        _ => panic!("not connecting"),
    }
    assert_eq!(state.session, None);
    let reply = connect_opened(&mut state, 5, 6);
    assert_eq!(reply, "{\"id\":5,\"ok\":true,\"state\":\"connecting\"}");
    assert_eq!(state.session, Some(6));
    assert_eq!(state.get_session(), Some(&6));
}

#[test]
fn connecting_to_nobody_is_refused() {
    let mut state = client(Some(4));
    let (close, _, reply) = finished(&mut state, command("connect"));
    assert!(close.is_none());
    assert_eq!(reply.text, "{\"error\":\"peer_id is required\",\"id\":5,\"ok\":false}");
    assert_eq!(state.session, Some(4));
    assert!(matches!(
        handle_connect(&mut state, &command("connect")),
        ConnectStart::Refused { .. }
    ));
}

fn attempt() -> ConnectTask {
    ConnectTask { id: 5, peer_id: "p".to_string(), password: "q".to_string(), waited: 0 }
}

#[test]
fn an_attempt_waits_thirty_times_at_most() {
    let mut task = attempt();
    let mut waits = 0;
    loop {
        match connect_step(task, true) {
            ConnectStep::Sleep { millis, task: next } => {
                assert_eq!(millis, 200);
                waits += 1;
                task = next;
            }
            ConnectStep::Open { id, peer_id, password } => {
                assert_eq!((id, peer_id.as_str(), password.as_str()), (5, "p", "q"));
                break;
            }
        }
    }
    assert_eq!(waits, 30);
}

#[test]
fn an_attempt_opens_once_the_old_session_is_down() {
    assert!(matches!(connect_step(attempt(), false), ConnectStep::Open { id: 5, .. }));
    match connect_step(attempt(), true) {
        ConnectStep::Sleep { task, .. } => {
            assert_eq!(task.waited, 1);
            assert!(matches!(connect_step(task, false), ConnectStep::Open { .. }));
        }
        _ => panic!("did not wait"),
    }
}

#[test]
fn disconnecting_hands_the_session_out() {
    let mut state = client(Some(3));
    let (session, reply) = handle_disconnect(&mut state, 0);
    assert_eq!(session, Some(3));
    assert_eq!(reply, "{\"id\":0,\"ok\":true}");
    assert_eq!(state.session, None);
}

#[test]
fn peer_id_commands_begin_by_reading_it() {
    let mut state = client(Some(3));
    match handle_text_command(&mut state, &HeadlessHandler::new(), &Ok(command("get_id"))) {
        Dispatch::Identity { state: IdState::Reporting { id }, action } => {
            assert_eq!(id, 5);
            assert!(matches!(action, IdAction::ReadId));
        }
        _ => panic!("not reporting"),
    }
    let mut cmd = command("set_id");
    cmd.peer_id = "42".to_string();
    cmd.check_server = true;
    match handle_text_command(&mut state, &HeadlessHandler::new(), &Ok(cmd)) {
        Dispatch::Identity { state: IdState::Asked { id, new_id, check_server }, .. } => {
            assert_eq!((id, new_id.as_str(), check_server), (5, "42", true));
        }
        _ => panic!("not asking"),
    }
    let (_, _, reply) = finished(&mut state, command("set_id"));
    assert_eq!(reply.text, "{\"error\":\"peer_id is required\",\"id\":5,\"ok\":false}");
    assert_eq!(state.session, Some(3));
}

#[test]
fn only_connecting_and_disconnecting_bear_on_the_session() {
    for word in [
        "screenshot",
        "mouse",
        "keyboard",
        "key_sequence",
        "get_id",
        "set_id",
        "set_quality",
        "set_fps",
        "set_resolution",
        "ping",
        "status",
        "dance",
    ] {
        let mut state = client(Some(7));
        match handle_text_command(&mut state, &HeadlessHandler::new(), &Ok(command(word))) {
            Dispatch::Finished { close, reply, .. } => {
                assert!(close.is_none());
                let value: Value = serde_json::from_str(&reply.text).unwrap();
                assert_eq!(value["id"].as_u64(), Some(5));
                assert!(value["ok"].as_bool().is_some());
            }
            Dispatch::Connect { .. } => panic!("connects"),
            Dispatch::Identity { .. } => assert_eq!(word, "get_id"),
        }
        assert_eq!(state.session, Some(7));
    }
}
