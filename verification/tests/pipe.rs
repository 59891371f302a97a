use headless_sdk::event::SdkEvent;
use headless_sdk::frame::{ImageFormat, LatestFrame};
use headless_sdk::pipe::{pipe_event, pipe_farewell, pipe_output, pipe_step};
use headless_sdk::pipe::{PipeAction, PipeEvent, PipeState};
use headless_sdk::reply::{handle_screenshot, json_error, Reply};
use headless_sdk::text::{join, same_text};
use headless_sdk::websocket::{forward_step, socket_output, socket_step};
use headless_sdk::websocket::{ForwardInput, ForwardStep, SocketAction, SocketEvent};
use headless_sdk::websocket::{SocketMessage, SocketState};

fn line(text: &str) -> PipeAction {
    pipe_step(PipeState::Reading, PipeEvent::Line { text: text.to_string() }).1
}

#[test]
fn lines_are_trimmed() {
    match line(" \t{\"cmd\": \"ping\"}\u{3000}\r\n") {
        PipeAction::Run { text } => assert_eq!(text, "{\"cmd\": \"ping\"}"),
        _ => panic!("not run"),
    }
    match line("a\u{200b}") {
        PipeAction::Run { text } => assert_eq!(text, "a\u{200b}"),
        _ => panic!("not run"),
    }
}

#[test]
fn every_white_space_character_is_trimmed() {
    for space in [
        '\u{9}', '\u{a}', '\u{b}', '\u{c}', '\u{d}', ' ', '\u{85}', '\u{a0}', '\u{1680}',
        '\u{2000}', '\u{200a}', '\u{2028}', '\u{2029}', '\u{202f}', '\u{205f}', '\u{3000}',
    ] {
        assert!(matches!(line(&space.to_string()), PipeAction::Read));
    }
    for other in ['\u{8}', '\u{e}', '\u{1f}', '\u{180e}', '\u{200b}', '\u{2060}', '\u{feff}'] {
        assert!(matches!(line(&other.to_string()), PipeAction::Run { .. }));
    }
}

#[test]
fn blank_lines_are_passed_over() {
    assert!(matches!(line(""), PipeAction::Read));
    assert!(matches!(line(" \r\n"), PipeAction::Read));
}

#[test]
fn the_end_of_the_input_closes_the_session() {
    for event in [PipeEvent::End, PipeEvent::Failed] {
        let (state, action) = pipe_step(PipeState::Reading, event);
        assert!(matches!(action, PipeAction::Disconnect));
        let (state, action) = pipe_step(state, PipeEvent::Disconnected);
        assert!(matches!(action, PipeAction::Write { bytes } if bytes == pipe_farewell()));
        let (state, action) = pipe_step(state, PipeEvent::Written);
        assert!(matches!(action, PipeAction::Exit));
        assert!(matches!(state, PipeState::Done));
    }
}

#[test]
fn a_session_over_the_pipe() {
    let inputs = ["{\"cmd\":\"ping\"}\n", "\n", "{\"cmd\":\"status\"}\n"];
    let mut lines = inputs.iter();
    let mut output: Vec<u8> = Vec::new();
    let mut commands: Vec<String> = Vec::new();
    let mut state = PipeState::Reading;
    let mut action = PipeAction::Read;
    loop {
        let event = match action {
            PipeAction::Read => match lines.next() {
                Some(text) => PipeEvent::Line { text: text.to_string() },
                None => PipeEvent::End,
            },
            PipeAction::Run { text } => {
                commands.push(text);
                let number = commands.len();
                let reply = Reply { text: format!("{{{}}}", number), frame: None };
                PipeEvent::Ran { reply }
            }
            PipeAction::Write { bytes } => {
                output.extend(bytes);
                PipeEvent::Written
            }
            PipeAction::Disconnect => PipeEvent::Disconnected,
            PipeAction::Exit => break,
        };
        (state, action) = pipe_step(state, event);
    }
    assert_eq!(commands, vec!["{\"cmd\":\"ping\"}", "{\"cmd\":\"status\"}"]);
    let mut expected = b"{1}\n{2}\n".to_vec();
    expected.extend(pipe_farewell());
    assert_eq!(output, expected);
}

#[test]
fn a_reply_is_a_line() {
    let reply = Reply { text: "{\"a\":\"\u{e9}\"}".to_string(), frame: None };
    assert_eq!(pipe_output(reply), "{\"a\":\"\u{e9}\"}\n".as_bytes());
}

#[test]
fn the_binary_message_goes_before_the_line() {
    let reply = Reply { text: "{}".to_string(), frame: Some(vec![1, 2, 10]) };
    assert_eq!(pipe_output(reply), vec![1, 2, 10, b'{', b'}', b'\n']);
}

#[test]
fn a_reader_gets_the_reply_back() {
    let frame = LatestFrame {
        data: vec![10; 12],
        w: 1,
        h: 3,
        fmt: ImageFormat::ABGR,
        stride: 4,
    };
    let reply = handle_screenshot(2, &Some(frame));
    let text = reply.text.clone();
    let message = reply.frame.clone().unwrap();
    let mut stream = pipe_output(reply);
    let refusal = json_error(3, "two\nlines");
    stream.extend(pipe_output(Reply { text: refusal.clone(), frame: None }));

    assert_eq!(&stream[..4], b"RSDK");
    let number = |at: usize| {
        u32::from_le_bytes([stream[at], stream[at + 1], stream[at + 2], stream[at + 3]]) as usize
    };
    let len = 20 + number(16) * number(8);
    assert_eq!(&stream[..len], &message[..]);
    let rest = &stream[len..];
    let lines: Vec<&[u8]> = rest.split(|byte| *byte == b'\n').collect();
    assert_eq!(lines, vec![text.as_bytes(), refusal.as_bytes(), &[][..]]);
}

#[test]
fn the_farewell_is_an_event() {
    assert_eq!(
        pipe_farewell(),
        b"{\"event\":\"disconnected\",\"reason\":\"pipe closed\"}\n".to_vec()
    );
}

#[test]
fn only_errors_are_told_apart_from_the_replies() {
    let error = SdkEvent::Error { msg: "m".to_string() };
    assert_eq!(pipe_event(&error), Some("{\"event\":\"error\",\"msg\":\"m\"}".to_string()));
    assert_eq!(pipe_event(&SdkEvent::Disconnected { reason: "r".to_string() }), None);
    let up = SdkEvent::Connected { direct: true, secured: true, stream: String::new() };
    assert_eq!(pipe_event(&up), None);
}

#[test]
fn text_messages_are_commands() {
    match socket_step(SocketState::Reading, SocketEvent::Text { text: " x ".to_string() }) {
        (SocketState::Running, SocketAction::Run { text }) => assert_eq!(text, " x "),
        _ => panic!("not run"),
    }
    for event in [
        SocketEvent::Binary,
        SocketEvent::Ping,
        SocketEvent::Pong,
        SocketEvent::Close,
        SocketEvent::Frame,
    ] {
        assert!(matches!(
            socket_step(SocketState::Reading, event),
            (SocketState::Reading, SocketAction::Read)
        ));
    }
}

#[test]
fn a_connection_closes_the_session_at_its_end() {
    for event in [SocketEvent::Failed, SocketEvent::End] {
        let (state, action) = socket_step(SocketState::Reading, event);
        assert!(matches!(action, SocketAction::Disconnect));
        let (state, action) = socket_step(state, SocketEvent::Disconnected);
        assert!(matches!(action, SocketAction::Exit));
        assert!(matches!(state, SocketState::Done));
    }
}

#[test]
fn a_command_is_answered_before_the_next_message_is_read() {
    let reply = Reply { text: "t".to_string(), frame: None };
    let (state, action) = socket_step(SocketState::Running, SocketEvent::Ran { reply });
    match action {
        SocketAction::Send { messages } => assert_eq!(messages.len(), 1),
        _ => panic!("not sent"),
    }
    let (state, action) = socket_step(state, SocketEvent::Sent);
    assert!(matches!(state, SocketState::Reading));
    assert!(matches!(action, SocketAction::Read));
}

#[test]
fn the_binary_message_is_sent_before_the_text() {
    let messages = socket_output(Reply { text: "t".to_string(), frame: Some(vec![1]) });
    assert_eq!(messages.len(), 2);
    assert!(matches!(&messages[0], SocketMessage::Binary { bytes } if *bytes == vec![1]));
    assert!(matches!(&messages[1], SocketMessage::Text { text } if text == "t"));
    let messages = socket_output(Reply { text: "t".to_string(), frame: None });
    assert_eq!(messages.len(), 1);
    assert!(matches!(&messages[0], SocketMessage::Text { text } if text == "t"));
}

#[test]
fn events_are_forwarded_until_the_client_is_gone() {
    let event = SdkEvent::Disconnected { reason: "closed".to_string() };
    match forward_step(&ForwardInput::Event { event }) {
        ForwardStep::Send { text } => {
            assert_eq!(text, "{\"event\":\"disconnected\",\"reason\":\"closed\"}");
        }
        _ => panic!("not sent"),
    }
    assert!(matches!(forward_step(&ForwardInput::Sent), ForwardStep::Receive));
    assert!(matches!(forward_step(&ForwardInput::Lagged), ForwardStep::Resubscribe));
    assert!(matches!(forward_step(&ForwardInput::Closed), ForwardStep::Stop));
    assert!(matches!(forward_step(&ForwardInput::SendFailed), ForwardStep::Stop));
}

#[test]
fn texts_are_joined_and_told_apart() {
    assert_eq!(join("a\u{e9}", "b"), "a\u{e9}b");
    assert!(same_text("", ""));
    assert!(same_text("a\u{e9}", "a\u{e9}"));
    assert!(!same_text("a", "b"));
    assert!(!same_text("a", "aa"));
}
