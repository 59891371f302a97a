//! Mouse commands.

use vstd::prelude::*;

use crate::action::{accept, accepted, refuse, refused, Action, Outcome, Plan};
use crate::command::Command;
use crate::text::{join, same_text};

verus! {

/// The numbers by which the remote protocol calls the buttons of a mouse and
/// the kinds of mouse messages.
#[derive(Clone, Copy, Debug, PartialEq, Eq, Structural)]
pub struct MouseCodes {
    pub button_left: i32,
    pub button_right: i32,
    pub button_wheel: i32,
    pub button_back: i32,
    pub button_forward: i32,
    pub type_down: i32,
    pub type_up: i32,
    pub type_wheel: i32,
    pub type_move_relative: i32,
}

/// The pause between the two halves of a click, so that they are not merged.
pub const CLICK_GAP_MILLIS: u64 = 10;

/// The code of a button by its name. Any other name is the left button.
pub open spec fn button_code(codes: MouseCodes, button: Seq<char>) -> i32 {
    if button == "right"@ {
        codes.button_right
    } else if button == "middle"@ {
        codes.button_wheel
    } else if button == "back"@ {
        codes.button_back
    } else if button == "forward"@ {
        codes.button_forward
    } else {
        codes.button_left
    }
}

/// The mask of a button message: the kind in the low three bits, the button
/// above them.
pub open spec fn mask_of(kind: i32, button: i32) -> i32 {
    kind | (button << 3)
}

/// What a mouse command sends, if its action is one of the known ones. A
/// button goes down or up where the pointer is; only the moves and the wheel
/// take the coordinates.
pub open spec fn mouse_actions(
    codes: MouseCodes,
    action: Seq<char>,
    button: Seq<char>,
    x: i32,
    y: i32,
) -> Option<Seq<Action>> {
    let press = Action::Mouse {
        mask: mask_of(codes.type_down, button_code(codes, button)),
        x: 0,
        y: 0,
    };
    let release = Action::Mouse {
        mask: mask_of(codes.type_up, button_code(codes, button)),
        x: 0,
        y: 0,
    };
    if action == "click"@ {
        Some(seq![press, Action::Sleep { millis: CLICK_GAP_MILLIS }, release])
    } else if action == "down"@ {
        Some(seq![press])
    } else if action == "up"@ {
        Some(seq![release])
    } else if action == "move_to"@ {
        Some(seq![Action::Mouse { mask: 0, x, y }])
    } else if action == "move_relative"@ {
        Some(seq![Action::Mouse { mask: codes.type_move_relative, x, y }])
    } else if action == "scroll"@ {
        Some(scroll_actions(codes, x, y))
    } else {
        None
    }
}

/// What a scroll sends: one wheel message for each direction that it turns.
pub open spec fn scroll_actions(codes: MouseCodes, x: i32, y: i32) -> Seq<Action> {
    let across = if x != 0 {
        seq![Action::Mouse { mask: codes.type_wheel, x, y: 0 }]
    } else {
        Seq::empty()
    };
    let along = if y != 0 {
        seq![Action::Mouse { mask: codes.type_wheel, x: 0, y }]
    } else {
        Seq::empty()
    };
    across + along
}

/// What a mouse command does and is answered.
pub open spec fn mouse_plan(codes: MouseCodes, has_session: bool, cmd: Command) -> Plan {
    if !has_session {
        refused(cmd.id, "not connected"@)
    } else {
        match mouse_actions(codes, cmd.action@, cmd.button@, cmd.x, cmd.y) {
            Some(actions) => accepted(cmd.id, actions),
            None => refused(cmd.id, "unknown mouse action: "@ + cmd.action@),
        }
    }
}

fn find_button(codes: &MouseCodes, button: &str) -> (code: i32)
    ensures
        code == button_code(*codes, button@),
{
    if same_text(button, "right") {
        codes.button_right
    } else if same_text(button, "middle") {
        codes.button_wheel
    } else if same_text(button, "back") {
        codes.button_back
    } else if same_text(button, "forward") {
        codes.button_forward
    } else {
        codes.button_left
    }
}

/// Decides a mouse command.
pub fn handle_mouse(codes: &MouseCodes, has_session: bool, cmd: &Command) -> (outcome: Outcome)
    ensures
        outcome.is_as(mouse_plan(*codes, has_session, *cmd)),
{
    if !has_session {
        return refuse(cmd.id, "not connected");
    }
    let button: i32 = find_button(codes, cmd.button.as_str());
    let press: Action = Action::Mouse { mask: codes.type_down | (button << 3), x: 0, y: 0 };
    let release: Action = Action::Mouse { mask: codes.type_up | (button << 3), x: 0, y: 0 };
    let action: &str = cmd.action.as_str();
    let mut actions: Vec<Action> = Vec::new();
    if same_text(action, "click") {
        actions.push(press);
        actions.push(Action::Sleep { millis: CLICK_GAP_MILLIS });
        actions.push(release);
    } else if same_text(action, "down") {
        actions.push(press);
    } else if same_text(action, "up") {
        actions.push(release);
    } else if same_text(action, "move_to") {
        actions.push(Action::Mouse { mask: 0, x: cmd.x, y: cmd.y });
    } else if same_text(action, "move_relative") {
        actions.push(Action::Mouse { mask: codes.type_move_relative, x: cmd.x, y: cmd.y });
    } else if same_text(action, "scroll") {
        if cmd.x != 0 {
            actions.push(Action::Mouse { mask: codes.type_wheel, x: cmd.x, y: 0 });
        }
        if cmd.y != 0 {
            actions.push(Action::Mouse { mask: codes.type_wheel, x: 0, y: cmd.y });
        }
    } else {
        return refuse(cmd.id, join("unknown mouse action: ", action).as_str());
    }
    assert(Some(actions@) == mouse_actions(*codes, cmd.action@, cmd.button@, cmd.x, cmd.y)) by {
        assert(actions@ =~= mouse_actions(*codes, cmd.action@, cmd.button@, cmd.x, cmd.y)->0);
    }
    accept(cmd.id, actions)
}

/// The remote machine reads the button back from a mask by shifting it down
/// by three bits, and the kind of message from the low three bits.
pub proof fn masks_give_back_kind_and_button(kind: i32, button: i32)
    requires
        0 <= kind < 8,
        0 <= button < 0x1000_0000,
    ensures
        mask_of(kind, button) >> 3 == button,
        mask_of(kind, button) & 7 == kind,
{
    assert((kind | (button << 3)) >> 3 == button && (kind | (button << 3)) & 7 == kind)
        by (bit_vector)
        requires
            0 <= kind < 8,
            0 <= button < 0x1000_0000,
    ;
}

/// A click is a press, a pause and a release of one button.
pub proof fn a_click_is_a_press_and_a_release(
    codes: MouseCodes,
    button: Seq<char>,
    x: i32,
    y: i32,
)
    ensures
        mouse_actions(codes, "click"@, button, x, y) == Some(
            mouse_actions(codes, "down"@, button, x, y)->0 + seq![
                Action::Sleep { millis: CLICK_GAP_MILLIS },
            ] + mouse_actions(codes, "up"@, button, x, y)->0,
        ),
{
    reveal_strlit("click");
    reveal_strlit("down");
    reveal_strlit("up");
    assert("click"@.len() == 5);
    assert("down"@.len() == 4);
    assert("up"@.len() == 2);
    assert(mouse_actions(codes, "click"@, button, x, y)->0 =~= mouse_actions(
        codes,
        "down"@,
        button,
        x,
        y,
    )->0 + seq![Action::Sleep { millis: CLICK_GAP_MILLIS }] + mouse_actions(
        codes,
        "up"@,
        button,
        x,
        y,
    )->0);
}

} // verus!
