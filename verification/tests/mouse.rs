use headless_sdk::action::Action;
use headless_sdk::mouse::{handle_mouse, MouseCodes};
use headless_sdk::command::Command;

fn command(word: &str) -> Command {
    Command {
        id: 5,
        cmd: word.to_string(),
        peer_id: String::new(),
        password: String::new(),
        action: String::new(),
        x: 0,
        y: 0,
        button: String::new(),
        key: String::new(),
        keys_seq: Vec::new(),
        check_server: false,
        quality: String::new(),
        value: 0,
        fps: 0,
        display: 0,
        width: 0,
        height: 0,
    }
}

const CODES: MouseCodes = MouseCodes {
    button_left: 0x01,
    button_right: 0x02,
    button_wheel: 0x04,
    button_back: 0x08,
    button_forward: 0x10,
    type_down: 1,
    type_up: 2,
    type_wheel: 3,
    type_move_relative: 5,
};

const OK: &str = "{\"id\":5,\"ok\":true}";

fn mouse(action: &str, button: &str, x: i32, y: i32) -> (Vec<Action>, String) {
    let mut cmd = command("mouse");
    cmd.action = action.to_string();
    cmd.button = button.to_string();
    cmd.x = x;
    cmd.y = y;
    let outcome = handle_mouse(&CODES, true, &cmd);
    (outcome.actions, outcome.reply)
}

#[test]
fn click_presses_pauses_and_releases() {
    let (actions, reply) = mouse("click", "left", 500, 300);
    assert_eq!(
        actions,
        vec![
            Action::Mouse { mask: 9, x: 0, y: 0 },
            Action::Sleep { millis: 10 },
            Action::Mouse { mask: 10, x: 0, y: 0 },
        ]
    );
    assert_eq!(reply, OK);
}

#[test]
fn press_and_release_of_each_button() {
    for (name, code) in
        [("left", 1), ("right", 2), ("middle", 4), ("back", 8), ("forward", 16), ("", 1), ("x", 1)]
    {
        let down = Action::Mouse { mask: 1 | (code << 3), x: 0, y: 0 };
        let up = Action::Mouse { mask: 2 | (code << 3), x: 0, y: 0 };
        assert_eq!(mouse("down", name, 7, 7).0, vec![down]);
        assert_eq!(mouse("up", name, 7, 7).0, vec![up]);
    }
}

#[test]
fn masks_read_back() {
    for (name, code) in [("left", 1), ("right", 2), ("middle", 4), ("back", 8), ("forward", 16)] {
        match mouse("up", name, 0, 0).0[0] {
            Action::Mouse { mask, .. } => {
                assert_eq!(mask >> 3, code);
                assert_eq!(mask & 7, 2);
            }
            _ => panic!("no mouse message"),
        }
    }
}

#[test]
fn moves_take_the_coordinates() {
    assert_eq!(mouse("move_to", "right", 3, -4).0, vec![Action::Mouse { mask: 0, x: 3, y: -4 }]);
    assert_eq!(
        mouse("move_relative", "", -20000, 1).0,
        vec![Action::Mouse { mask: 5, x: -20000, y: 1 }]
    );
}

#[test]
fn scroll_turns_each_axis_on_its_own() {
    let across = Action::Mouse { mask: 3, x: 2, y: 0 };
    let along = Action::Mouse { mask: 3, x: 0, y: -1 };
    assert_eq!(mouse("scroll", "", 2, -1).0, vec![across, along]);
    assert_eq!(mouse("scroll", "", 2, 0).0, vec![across]);
    assert_eq!(mouse("scroll", "", 0, -1).0, vec![along]);
    let (actions, reply) = mouse("scroll", "", 0, 0);
    assert!(actions.is_empty());
    assert_eq!(reply, OK);
}

#[test]
fn unknown_mouse_action_is_refused() {
    let (actions, reply) = mouse("drag", "left", 0, 0);
    assert!(actions.is_empty());
    assert_eq!(reply, "{\"error\":\"unknown mouse action: drag\",\"id\":5,\"ok\":false}");
}

#[test]
fn mouse_needs_a_session() {
    let mut cmd = command("mouse");
    cmd.action = "click".to_string();
    let outcome = handle_mouse(&CODES, false, &cmd);
    assert!(outcome.actions.is_empty());
    assert_eq!(outcome.reply, "{\"error\":\"not connected\",\"id\":5,\"ok\":false}");
}
