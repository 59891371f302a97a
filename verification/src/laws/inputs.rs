//! What mouse and keyboard commands send.

use vstd::prelude::*;

use crate::action::{Action, Outcome};
use crate::command::{read_step, Command, KeyStep};
use crate::json::{value_members, Json};
use crate::keyboard::{handle_key_sequence, handle_keyboard, held_after_all, plan_step};
use crate::laws::outcomes::{declines, lemma_outcome, sends};
use crate::laws::replies::accepts_text;
use crate::mouse::{handle_mouse, MouseCodes};
use crate::scancode::name_to_scancode;

verus! {

/// The code is that of the button with this name. A name that is none of the
/// five is the left button.
pub open spec fn is_button(codes: MouseCodes, name: Seq<char>, code: i32) -> bool {
    &&& name == "left"@ ==> code == codes.button_left
    &&& name == "right"@ ==> code == codes.button_right
    &&& name == "middle"@ ==> code == codes.button_wheel
    &&& name == "back"@ ==> code == codes.button_back
    &&& name == "forward"@ ==> code == codes.button_forward
    &&& name != "right"@ && name != "middle"@ && name != "back"@ && name != "forward"@ ==> code
        == codes.button_left
}

proof fn lemma_mouse_words()
    ensures
        "click"@.len() == 5,
        "down"@.len() == 4,
        "up"@.len() == 2,
        "move_to"@.len() == 7,
        "move_relative"@.len() == 13,
        "scroll"@.len() == 6,
        "left"@.len() == 4 && "left"@[0] == 'l',
        "right"@.len() == 5,
        "middle"@.len() == 6,
        "back"@.len() == 4 && "back"@[0] == 'b',
        "forward"@.len() == 7,
{
    reveal_strlit("click");
    reveal_strlit("down");
    reveal_strlit("up");
    reveal_strlit("move_to");
    reveal_strlit("move_relative");
    reveal_strlit("scroll");
    reveal_strlit("left");
    reveal_strlit("right");
    reveal_strlit("middle");
    reveal_strlit("back");
    reveal_strlit("forward");
}

/// Without a session, no mouse command sends anything, and each is told why.
/// With one, a command is refused if and only if its action is none of the six.
pub proof fn mouse_commands_are_refused_for_a_reason(
    codes: &MouseCodes,
    has_session: bool,
    cmd: &Command,
    outcome: Outcome,
)
    requires
        call_ensures(handle_mouse, (codes, has_session, cmd), outcome),
    ensures
        !has_session ==> declines(outcome, cmd.id, "not connected"@),
        has_session && cmd.action@ != "click"@ && cmd.action@ != "down"@ && cmd.action@ != "up"@
            && cmd.action@ != "move_to"@ && cmd.action@ != "move_relative"@ && cmd.action@
            != "scroll"@ ==> declines(outcome, cmd.id, "unknown mouse action: "@ + cmd.action@),
        has_session && (cmd.action@ == "click"@ || cmd.action@ == "down"@ || cmd.action@ == "up"@
            || cmd.action@ == "move_to"@ || cmd.action@ == "move_relative"@ || cmd.action@
            == "scroll"@) ==> accepts_text(outcome.reply@, cmd.id),
{
    lemma_outcome(outcome, crate::mouse::mouse_plan(*codes, has_session, *cmd), cmd.id);
}

/// A press, or a release, is one message at no place of its own, which holds
/// the kind of message below the button.
pub proof fn presses_and_releases_name_the_button(
    codes: &MouseCodes,
    cmd: &Command,
    outcome: Outcome,
    code: i32,
)
    requires
        call_ensures(handle_mouse, (codes, true, cmd), outcome),
        is_button(*codes, cmd.button@, code),
    ensures
        cmd.action@ == "down"@ ==> sends(
            outcome,
            cmd.id,
            seq![Action::Mouse { mask: codes.type_down | (code << 3), x: 0, y: 0 }],
        ),
        cmd.action@ == "up"@ ==> sends(
            outcome,
            cmd.id,
            seq![Action::Mouse { mask: codes.type_up | (code << 3), x: 0, y: 0 }],
        ),
{
    lemma_mouse_words();
    lemma_outcome(outcome, crate::mouse::mouse_plan(*codes, true, *cmd), cmd.id);
}

/// The remote machine reads back from a press, or a release, which button it
/// was, and whether it was pressed or released.
pub proof fn buttons_are_read_back(
    codes: &MouseCodes,
    cmd: &Command,
    outcome: Outcome,
    code: i32,
    kind: i32,
)
    requires
        call_ensures(handle_mouse, (codes, true, cmd), outcome),
        is_button(*codes, cmd.button@, code),
        0 <= code < 0x1000_0000,
        (cmd.action@ == "down"@ && kind == codes.type_down) || (cmd.action@ == "up"@ && kind
            == codes.type_up),
        0 <= kind < 8,
    ensures
        outcome.actions@.len() == 1,
        outcome.actions@[0] is Mouse,
        outcome.actions@[0]->mask >> 3 == code,
        outcome.actions@[0]->mask & 7 == kind,
{
    lemma_mouse_words();
    presses_and_releases_name_the_button(codes, cmd, outcome, code);
    assert((kind | (code << 3)) >> 3 == code && (kind | (code << 3)) & 7 == kind) by (bit_vector)
        requires
            0 <= kind < 8,
            0 <= code < 0x1000_0000,
    ;
}

/// A click sends what a press sends, a pause of ten milliseconds, and what a
/// release sends.
pub proof fn clicks_are_presses_and_releases(
    codes: &MouseCodes,
    click: &Command,
    down: &Command,
    up: &Command,
    clicked: Outcome,
    pressed: Outcome,
    released: Outcome,
)
    requires
        call_ensures(handle_mouse, (codes, true, click), clicked),
        call_ensures(handle_mouse, (codes, true, down), pressed),
        call_ensures(handle_mouse, (codes, true, up), released),
        click.action@ == "click"@,
        down.action@ == "down"@,
        up.action@ == "up"@,
        down.button@ == click.button@,
        up.button@ == click.button@,
    ensures
        sends(
            clicked,
            click.id,
            pressed.actions@ + seq![Action::Sleep { millis: 10 }] + released.actions@,
        ),
        pressed.actions@.len() == 1,
        released.actions@.len() == 1,
{
    lemma_mouse_words();
    lemma_outcome(clicked, crate::mouse::mouse_plan(*codes, true, *click), click.id);
    lemma_outcome(pressed, crate::mouse::mouse_plan(*codes, true, *down), down.id);
    lemma_outcome(released, crate::mouse::mouse_plan(*codes, true, *up), up.id);
    assert(clicked.actions@ =~= pressed.actions@ + seq![Action::Sleep { millis: 10 }]
        + released.actions@);
}

/// A move is one message with the coordinates as they were given: with no kind
/// where it goes to a place, with its own kind where it goes by a distance.
pub proof fn moves_take_the_coordinates(codes: &MouseCodes, cmd: &Command, outcome: Outcome)
    requires
        call_ensures(handle_mouse, (codes, true, cmd), outcome),
    ensures
        cmd.action@ == "move_to"@ ==> sends(
            outcome,
            cmd.id,
            seq![Action::Mouse { mask: 0, x: cmd.x, y: cmd.y }],
        ),
        cmd.action@ == "move_relative"@ ==> sends(
            outcome,
            cmd.id,
            seq![Action::Mouse { mask: codes.type_move_relative, x: cmd.x, y: cmd.y }],
        ),
{
    lemma_mouse_words();
    lemma_outcome(outcome, crate::mouse::mouse_plan(*codes, true, *cmd), cmd.id);
}

/// How far mouse messages go across in all.
pub open spec fn total_x(actions: Seq<Action>) -> int
    decreases actions.len(),
{
    if actions.len() == 0 {
        0
    } else {
        total_x(actions.drop_last()) + match actions.last() {
            Action::Mouse { x, .. } => x as int,
            _ => 0int,
        }
    }
}

/// How far mouse messages go along in all.
pub open spec fn total_y(actions: Seq<Action>) -> int
    decreases actions.len(),
{
    if actions.len() == 0 {
        0
    } else {
        total_y(actions.drop_last()) + match actions.last() {
            Action::Mouse { y, .. } => y as int,
            _ => 0int,
        }
    }
}

/// The action is a message of the wheel that turns it on one axis.
pub open spec fn turns_one_axis(codes: MouseCodes, action: Action) -> bool {
    &&& action is Mouse
    &&& action->mask == codes.type_wheel
    &&& (action->Mouse_x == 0) != (action->Mouse_y == 0)
}

/// A scroll turns the wheel by as much as was asked for on either axis, each
/// message on one axis only, across before along.
pub proof fn scrolls_add_up(codes: &MouseCodes, cmd: &Command, outcome: Outcome)
    requires
        call_ensures(handle_mouse, (codes, true, cmd), outcome),
        cmd.action@ == "scroll"@,
    ensures
        accepts_text(outcome.reply@, cmd.id),
        total_x(outcome.actions@) == cmd.x,
        total_y(outcome.actions@) == cmd.y,
        forall|i: int|
            0 <= i < outcome.actions@.len() ==> turns_one_axis(
                *codes,
                #[trigger] outcome.actions@[i],
            ),
        outcome.actions@.len() <= 2,
        outcome.actions@.len() == 2 ==> outcome.actions@[0]->Mouse_x == cmd.x
            && outcome.actions@[1]->Mouse_y == cmd.y,
{
    lemma_mouse_words();
    lemma_outcome(outcome, crate::mouse::mouse_plan(*codes, true, *cmd), cmd.id);
    reveal_with_fuel(total_x, 3);
    reveal_with_fuel(total_y, 3);
    let actions = outcome.actions@;
    if actions.len() == 2 {
        assert(actions.drop_last().last() == actions[0]);
    }
}

proof fn lemma_key_words()
    ensures
        "key_down"@.len() == 8,
        "key_up"@.len() == 6,
        "key_click"@.len() == 9,
        "wait"@.len() == 4,
{
    reveal_strlit("key_down");
    reveal_strlit("key_up");
    reveal_strlit("key_click");
    reveal_strlit("wait");
}

/// A keyboard command is refused without a session, then for a key that has no
/// code, then for an action that is none of the three, and for nothing else.
pub proof fn keyboard_commands_are_refused_for_a_reason(
    has_session: bool,
    cmd: &Command,
    outcome: Outcome,
    key: &str,
    code: Option<u32>,
)
    requires
        call_ensures(handle_keyboard, (has_session, cmd), outcome),
        key@ == cmd.key@,
        call_ensures(name_to_scancode, (key,), code),
    ensures
        !has_session ==> declines(outcome, cmd.id, "not connected"@),
        has_session && code is None ==> declines(outcome, cmd.id, "unknown key: "@ + cmd.key@),
        has_session && code is Some && cmd.action@ != "key_down"@ && cmd.action@ != "key_up"@
            && cmd.action@ != "key_click"@ ==> declines(
            outcome,
            cmd.id,
            "unknown keyboard action: "@ + cmd.action@,
        ),
{
    lemma_outcome(outcome, crate::keyboard::keyboard_plan(has_session, *cmd), cmd.id);
}

/// A key goes down, goes up, or goes down, stays for fifty milliseconds and
/// goes up: the key of the command, whichever it is, and no other.
pub proof fn keyboard_commands_send_the_key(
    cmd: &Command,
    outcome: Outcome,
    key: &str,
    code: u32,
)
    requires
        call_ensures(handle_keyboard, (true, cmd), outcome),
        key@ == cmd.key@,
        call_ensures(name_to_scancode, (key,), Some(code)),
    ensures
        cmd.action@ == "key_down"@ ==> sends(
            outcome,
            cmd.id,
            seq![Action::Key { scancode: code, down: true }],
        ),
        cmd.action@ == "key_up"@ ==> sends(
            outcome,
            cmd.id,
            seq![Action::Key { scancode: code, down: false }],
        ),
        cmd.action@ == "key_click"@ ==> sends(
            outcome,
            cmd.id,
            seq![
                Action::Key { scancode: code, down: true },
                Action::Sleep { millis: 50 },
                Action::Key { scancode: code, down: false },
            ],
        ),
{
    lemma_key_words();
    lemma_outcome(outcome, crate::keyboard::keyboard_plan(true, *cmd), cmd.id);
}

/// The pause after a step: as long as the step says, where it says a time that
/// is not zero, and else as long as is usual.
pub open spec fn is_pause_of(millis: u64, delay_ms: Option<u64>, usual: u64) -> bool {
    match delay_ms {
        Some(delay) => millis == if delay == 0 {
            usual
        } else {
            delay
        },
        None => millis == usual,
    }
}

/// A step for a key that has a code, extended or not, sends just that key, down
/// or up or both, and pauses after it.
pub proof fn steps_send_the_key_and_pause(
    step: &KeyStep,
    actions: &mut Vec<Action>,
    key: &str,
    code: u32,
    millis: u64,
)
    requires
        call_ensures(plan_step, (step, actions), ()),
        key@ == step.key@,
        call_ensures(name_to_scancode, (key,), Some(code)),
    ensures
        step.action@ == "key_down"@ && is_pause_of(millis, step.delay_ms, 40)
            ==> final(actions)@ == old(actions)@ + seq![
            Action::Key { scancode: code, down: true },
            Action::Sleep { millis },
        ],
        step.action@ == "key_up"@ && is_pause_of(millis, step.delay_ms, 30) ==> final(actions)@
            == old(actions)@ + seq![
            Action::Key { scancode: code, down: false },
            Action::Sleep { millis },
        ],
        step.action@ == "key_click"@ && is_pause_of(millis, step.delay_ms, 50)
            ==> final(actions)@ == old(actions)@ + seq![
            Action::Key { scancode: code, down: true },
            Action::Sleep { millis: 50 },
            Action::Key { scancode: code, down: false },
            Action::Sleep { millis },
        ],
{
    lemma_key_words();
}

/// A wait pauses for as long as it says, and for a hundred milliseconds where
/// it says nothing.
pub proof fn waits_pause(step: &KeyStep, actions: &mut Vec<Action>)
    requires
        call_ensures(plan_step, (step, actions), ()),
        step.action@ == "wait"@,
    ensures
        final(actions)@.len() == old(actions)@.len() + 1,
        final(actions)@.drop_last() == old(actions)@,
        final(actions)@.last() is Sleep,
        step.delay_ms is Some ==> final(actions)@.last()->millis == step.delay_ms->0,
        step.delay_ms is None ==> final(actions)@.last()->millis == 100,
{
    assert(final(actions)@.drop_last() =~= old(actions)@);
}

/// A step that is no wait and has a key without a code, or an action that is
/// none of the four, is passed over.
pub proof fn senseless_steps_are_passed_over(
    step: &KeyStep,
    actions: &mut Vec<Action>,
    key: &str,
    code: Option<u32>,
)
    requires
        call_ensures(plan_step, (step, actions), ()),
        key@ == step.key@,
        call_ensures(name_to_scancode, (key,), code),
        step.action@ != "wait"@,
        code is None || (step.action@ != "key_down"@ && step.action@ != "key_up"@
            && step.action@ != "key_click"@),
    ensures
        final(actions)@ == old(actions)@,
{
    assert(old(actions)@ + Seq::<Action>::empty() =~= old(actions)@);
}

/// After a step that releases or clicks a key, that key is not held, and after
/// one that presses it, it is. No other key is touched.
pub proof fn steps_hold_and_release_their_key(
    step: &KeyStep,
    actions: &mut Vec<Action>,
    key: &str,
    code: u32,
    held: Set<u32>,
)
    requires
        call_ensures(plan_step, (step, actions), ()),
        key@ == step.key@,
        call_ensures(name_to_scancode, (key,), Some(code)),
    ensures
        step.action@ == "key_up"@ || step.action@ == "key_click"@ ==> held_after_all(
            held,
            final(actions)@,
        ) == held_after_all(held, old(actions)@).remove(code),
        step.action@ == "key_down"@ ==> held_after_all(held, final(actions)@) == held_after_all(
            held,
            old(actions)@,
        ).insert(code),
{
    lemma_key_words();
    let before = old(actions)@;
    let after = final(actions)@;
    let n = before.len() as int;
    reveal_with_fuel(held_after_all, 5);
    if step.action@ == "key_up"@ || step.action@ == "key_down"@ {
        assert(after.len() == n + 2);
        assert(after.drop_last().last() == after[n]);
        assert(after.drop_last().drop_last() =~= before);
    } else if step.action@ == "key_click"@ {
        assert(after.len() == n + 4);
        assert(after.drop_last().last() == after[n + 2]);
        assert(after.drop_last().drop_last().last() == after[n + 1]);
        assert(after.drop_last().drop_last().drop_last().last() == after[n]);
        assert(after.drop_last().drop_last().drop_last().drop_last() =~= before);
        assert(held_after_all(held, after) =~= held_after_all(held, before).remove(code));
    }
}

/// A step is read from the members of its item: the texts under `action` and
/// `key`, the whole number under `delay_ms`, and nothing from members of
/// another kind.
pub proof fn steps_are_read_from_their_members(item: &serde_json::Value, step: KeyStep)
    requires
        call_ensures(read_step, (item,), step),
    ensures
        ({
            let members = value_members(*item);
            &&& forall|text: Seq<char>|
                members.contains_key("action"@) && members["action"@] == Json::Text(text)
                    ==> step.action@ == text
            &&& !members.contains_key("action"@) || members["action"@] !is Text
                ==> step.action@.len() == 0
            &&& forall|text: Seq<char>|
                members.contains_key("key"@) && members["key"@] == Json::Text(text)
                    ==> step.key@ == text
            &&& !members.contains_key("key"@) || members["key"@] !is Text ==> step.key@.len()
                == 0
            &&& forall|number: u64|
                members.contains_key("delay_ms"@) && members["delay_ms"@] == Json::Number(
                    number,
                ) ==> step.delay_ms == Some(number)
            &&& !members.contains_key("delay_ms"@) || members["delay_ms"@] !is Number
                ==> step.delay_ms is None
        }),
{
}

/// A key sequence is refused without a session, and accepted with one, whatever
/// its items are.
pub proof fn sequences_need_a_session_only(has_session: bool, cmd: &Command, outcome: Outcome)
    requires
        call_ensures(handle_key_sequence, (has_session, cmd), outcome),
    ensures
        !has_session ==> declines(outcome, cmd.id, "not connected"@),
        has_session ==> accepts_text(outcome.reply@, cmd.id),
        has_session && cmd.keys_seq@.len() == 0 ==> outcome.actions@.len() == 0,
{
    lemma_outcome(outcome, crate::keyboard::key_sequence_plan(has_session, *cmd), cmd.id);
}

/// A sequence with one more item does what the sequence without it does, and
/// then what the step in that item does.
pub proof fn sequences_take_their_steps_in_order(
    shorter: &Command,
    longer: &Command,
    before: Outcome,
    after: Outcome,
    item: &serde_json::Value,
    step: &KeyStep,
    actions: &mut Vec<Action>,
)
    requires
        call_ensures(handle_key_sequence, (true, shorter), before),
        call_ensures(handle_key_sequence, (true, longer), after),
        longer.keys_seq@ == shorter.keys_seq@.push(*item),
        call_ensures(read_step, (item,), *step),
        call_ensures(plan_step, (step, actions), ()),
        old(actions)@ == before.actions@,
    ensures
        after.actions@ == final(actions)@,
{
    let steps = crate::keyboard::steps_of(longer.keys_seq@);
    assert(steps.drop_last() =~= crate::keyboard::steps_of(shorter.keys_seq@));
    assert(steps.last() == step@);
}

/// After a sequence whose last item releases, or clicks, a key, that key is not
/// held, whatever came before.
pub proof fn sequences_release_the_last_key(
    shorter: &Command,
    longer: &Command,
    before: Outcome,
    after: Outcome,
    item: &serde_json::Value,
    step: &KeyStep,
    actions: &mut Vec<Action>,
    key: &str,
    code: u32,
    held: Set<u32>,
)
    requires
        call_ensures(handle_key_sequence, (true, shorter), before),
        call_ensures(handle_key_sequence, (true, longer), after),
        longer.keys_seq@ == shorter.keys_seq@.push(*item),
        call_ensures(read_step, (item,), *step),
        call_ensures(plan_step, (step, actions), ()),
        old(actions)@ == before.actions@,
        step.action@ == "key_up"@ || step.action@ == "key_click"@,
        key@ == step.key@,
        call_ensures(name_to_scancode, (key,), Some(code)),
    ensures
        !held_after_all(held, after.actions@).contains(code),
{
    sequences_take_their_steps_in_order(shorter, longer, before, after, item, step, actions);
    steps_hold_and_release_their_key(step, actions, key, code, held);
}

} // verus!
