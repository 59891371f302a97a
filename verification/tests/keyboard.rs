use headless_sdk::action::Action;
use headless_sdk::command::{read_step, KeyStep};
use headless_sdk::keyboard::{handle_key_sequence, handle_keyboard, plan_step};
use headless_sdk::command::Command;

fn command(word: &str) -> Command {
    Command {
        id: 5,
        cmd: word.to_string(),
        peer_id: String::new(),
        password: String::new(),
        action: String::new(),
        x: 0,
        y: 0,
        button: String::new(),
        key: String::new(),
        keys_seq: Vec::new(),
        check_server: false,
        quality: String::new(),
        value: 0,
        fps: 0,
        display: 0,
        width: 0,
        height: 0,
    }
}

const OK: &str = "{\"id\":5,\"ok\":true}";

fn down(scancode: u32) -> Action {
    Action::Key { scancode, down: true }
}

fn up(scancode: u32) -> Action {
    Action::Key { scancode, down: false }
}

fn pause(millis: u64) -> Action {
    Action::Sleep { millis }
}

fn keyboard(action: &str, key: &str) -> (Vec<Action>, String) {
    let mut cmd = command("keyboard");
    cmd.action = action.to_string();
    cmd.key = key.to_string();
    let outcome = handle_keyboard(true, &cmd);
    (outcome.actions, outcome.reply)
}

fn sequence(steps: &[&str]) -> Vec<Action> {
    let mut cmd = command("key_sequence");
    cmd.keys_seq = steps.iter().map(|step| serde_json::from_str(step).unwrap()).collect();
    let outcome = handle_key_sequence(true, &cmd);
    assert_eq!(outcome.reply, OK);
    outcome.actions
}

#[test]
fn keyboard_actions() {
    assert_eq!(keyboard("key_down", "W"), (vec![down(0x11)], OK.to_string()));
    assert_eq!(keyboard("key_up", "W"), (vec![up(0x11)], OK.to_string()));
    assert_eq!(
        keyboard("key_click", "ArrowUp"),
        (vec![down(0xE048), pause(50), up(0xE048)], OK.to_string())
    );
}

#[test]
fn unknown_key_is_refused_before_the_action() {
    let (actions, reply) = keyboard("bounce", "Nope");
    assert!(actions.is_empty());
    assert_eq!(reply, "{\"error\":\"unknown key: Nope\",\"id\":5,\"ok\":false}");
}

#[test]
fn unknown_keyboard_action_is_refused() {
    let (actions, reply) = keyboard("bounce", "W");
    assert!(actions.is_empty());
    assert_eq!(reply, "{\"error\":\"unknown keyboard action: bounce\",\"id\":5,\"ok\":false}");
}

#[test]
fn keyboard_needs_a_session() {
    let mut cmd = command("keyboard");
    cmd.key = "Nope".to_string();
    let outcome = handle_keyboard(false, &cmd);
    assert!(outcome.actions.is_empty());
    assert_eq!(outcome.reply, "{\"error\":\"not connected\",\"id\":5,\"ok\":false}");
    let outcome = handle_key_sequence(false, &command("key_sequence"));
    assert!(outcome.actions.is_empty());
    assert_eq!(outcome.reply, "{\"error\":\"not connected\",\"id\":5,\"ok\":false}");
}

#[test]
fn documented_sequence() {
    assert_eq!(
        sequence(&[
            r#"{"action": "key_down", "key": "MetaLeft", "delay_ms": 50}"#,
            r#"{"action": "key_click", "key": "2", "delay_ms": 80}"#,
        ]),
        vec![down(0xE05B), pause(50), down(0x03), pause(50), up(0x03), pause(80)]
    );
}

#[test]
fn default_pauses() {
    assert_eq!(sequence(&[r#"{"action":"wait"}"#]), vec![pause(100)]);
    assert_eq!(sequence(&[r#"{"action":"wait","delay_ms":0}"#]), vec![pause(0)]);
    assert_eq!(sequence(&[r#"{"action":"wait","delay_ms":7}"#]), vec![pause(7)]);
    assert_eq!(sequence(&[r#"{"action":"key_down","key":"a"}"#]), vec![down(0x1E), pause(40)]);
    assert_eq!(sequence(&[r#"{"action":"key_up","key":"a"}"#]), vec![up(0x1E), pause(30)]);
    assert_eq!(
        sequence(&[r#"{"action":"key_click","key":"a","delay_ms":0}"#]),
        vec![down(0x1E), pause(50), up(0x1E), pause(50)]
    );
}

#[test]
fn steps_that_make_no_sense_are_passed_over() {
    for step in [
        r#"{"action":"key_click","key":"Nope"}"#,
        r#"{"action":"key_down","key":""}"#,
        r#"{"action":"key_down"}"#,
        r#"{"action":"key_up","key":"Nope"}"#,
        r#"{"action":"press","key":"a"}"#,
        r#"{"key":"a"}"#,
        r#"{"action":1,"key":"a"}"#,
        r#"{}"#,
        r#"null"#,
        r#"[1]"#,
        r#""key_down""#,
    ] {
        assert!(sequence(&[step]).is_empty(), "{}", step);
    }
    assert_eq!(
        sequence(&[r#"{"key":"a"}"#, r#"{"action":"key_up","key":"a","delay_ms":1}"#]),
        vec![up(0x1E), pause(1)]
    );
}

#[test]
fn a_delay_that_is_no_whole_number_is_no_delay() {
    for delay in ["-5", "1.5", "\"9\"", "null", "1e3"] {
        let step = format!("{{\"action\":\"wait\",\"delay_ms\":{}}}", delay);
        assert_eq!(sequence(&[&step]), vec![pause(100)], "{}", step);
    }
}

#[test]
fn steps_are_read_from_their_members() {
    let step = read_step(
        &serde_json::from_str(r#"{"action":"x","key":"y","delay_ms":18446744073709551615}"#)
            .unwrap(),
    );
    assert_eq!(step.action, "x");
    assert_eq!(step.key, "y");
    assert_eq!(step.delay_ms, Some(u64::MAX));
}

#[test]
fn a_step_comes_after_what_is_there() {
    let mut actions = vec![pause(1)];
    let step = KeyStep {
        action: "key_down".to_string(),
        key: "Key1".to_string(),
        delay_ms: Some(3),
    };
    plan_step(&step, &mut actions);
    assert_eq!(actions, vec![pause(1), down(0x02), pause(3)]);
}

#[test]
fn sequences_add_up_and_space_their_keys() {
    let first = r#"{"action":"key_down","key":"Shift"}"#;
    let second = r#"{"action":"key_click","key":"b"}"#;
    let third = r#"{"action":"key_up","key":"Shift"}"#;
    let mut both = sequence(&[first, second]);
    both.extend(sequence(&[third]));
    let whole = sequence(&[first, second, third]);
    assert_eq!(whole, both);
    for (i, action) in whole.iter().enumerate() {
        if let Action::Key { .. } = action {
            assert!(matches!(whole[i + 1], Action::Sleep { millis } if millis > 0));
        }
    }
}

#[test]
fn clicks_release_what_they_press() {
    let actions = sequence(&[
        r#"{"action":"key_click","key":"a"}"#,
        r#"{"action":"wait"}"#,
        r#"{"action":"key_click","key":"F5"}"#,
    ]);
    let mut held: Vec<u32> = Vec::new();
    for action in actions {
        if let Action::Key { scancode, down } = action {
            held.retain(|key| *key != scancode);
            if down {
                held.push(scancode);
            }
        }
    }
    assert!(held.is_empty());
}
