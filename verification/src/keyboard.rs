//! Keyboard commands: single keys and key sequences.
//!
//! Keys are sent as raw scan codes, with no modifier syncing: the remote
//! machine follows the modifiers from the stream of keys that go down and up.

use vstd::prelude::*;

use crate::action::{accept, accepted, refuse, refused, Action, Outcome, Plan};
use crate::command::{read_step, step_of, Command, KeyStep, StepView};
use crate::json::value_members;
use crate::scancode::{name_to_scancode, scancode_of};
use crate::text::{join, same_text};

verus! {

/// How long a key is held by a click.
pub const KEY_CLICK_MILLIS: u64 = 50;

/// The pause after a wait step that names no delay.
pub const WAIT_MILLIS: u64 = 100;

/// The pause after a step that presses a key and names no delay.
pub const AFTER_DOWN_MILLIS: u64 = 40;

/// The pause after a step that releases a key and names no delay.
pub const AFTER_UP_MILLIS: u64 = 30;

/// What a keyboard command sends for a key, if its action is one of the known
/// ones.
pub open spec fn key_actions(action: Seq<char>, scancode: u32) -> Option<Seq<Action>> {
    let press = Action::Key { scancode, down: true };
    let release = Action::Key { scancode, down: false };
    if action == "key_down"@ {
        Some(seq![press])
    } else if action == "key_up"@ {
        Some(seq![release])
    } else if action == "key_click"@ {
        Some(seq![press, Action::Sleep { millis: KEY_CLICK_MILLIS }, release])
    } else {
        None
    }
}

/// What a keyboard command does and is answered. The key is looked up before
/// the action.
pub open spec fn keyboard_plan(has_session: bool, cmd: Command) -> Plan {
    if !has_session {
        refused(cmd.id, "not connected"@)
    } else {
        match scancode_of(cmd.key@) {
            None => refused(cmd.id, "unknown key: "@ + cmd.key@),
            Some(scancode) => match key_actions(cmd.action@, scancode) {
                Some(actions) => accepted(cmd.id, actions),
                None => refused(cmd.id, "unknown keyboard action: "@ + cmd.action@),
            },
        }
    }
}

/// The delay that a step names, unless it names none or zero.
pub open spec fn delay_or(delay_ms: Option<u64>, default: u64) -> u64 {
    match delay_ms {
        Some(millis) => if millis > 0 {
            millis
        } else {
            default
        },
        None => default,
    }
}

/// What one step of a key sequence does. A wait pauses for as long as it says,
/// even if that is not at all. A step with an unknown key or an unknown action
/// does nothing.
pub open spec fn step_actions(step: StepView) -> Seq<Action> {
    if step.action == "wait"@ {
        seq![
            Action::Sleep {
                millis: match step.delay_ms {
                    Some(millis) => millis,
                    None => WAIT_MILLIS,
                },
            },
        ]
    } else {
        match scancode_of(step.key) {
            None => Seq::empty(),
            Some(scancode) => if step.action == "key_click"@ {
                seq![
                    Action::Key { scancode, down: true },
                    Action::Sleep { millis: KEY_CLICK_MILLIS },
                    Action::Key { scancode, down: false },
                    Action::Sleep { millis: delay_or(step.delay_ms, KEY_CLICK_MILLIS) },
                ]
            } else if step.action == "key_down"@ {
                seq![
                    Action::Key { scancode, down: true },
                    Action::Sleep { millis: delay_or(step.delay_ms, AFTER_DOWN_MILLIS) },
                ]
            } else if step.action == "key_up"@ {
                seq![
                    Action::Key { scancode, down: false },
                    Action::Sleep { millis: delay_or(step.delay_ms, AFTER_UP_MILLIS) },
                ]
            } else {
                Seq::empty()
            },
        }
    }
}

/// What a key sequence does: its steps, one after the other.
pub open spec fn sequence_actions(steps: Seq<StepView>) -> Seq<Action>
    decreases steps.len(),
{
    if steps.len() == 0 {
        Seq::empty()
    } else {
        sequence_actions(steps.drop_last()) + step_actions(steps.last())
    }
}

/// The steps that the items of a key sequence stand for.
pub open spec fn steps_of(items: Seq<serde_json::Value>) -> Seq<StepView> {
    Seq::new(items.len(), |i: int| step_of(value_members(items[i])))
}

/// What a key sequence command does and is answered.
pub open spec fn key_sequence_plan(has_session: bool, cmd: Command) -> Plan {
    if !has_session {
        refused(cmd.id, "not connected"@)
    } else {
        accepted(cmd.id, sequence_actions(steps_of(cmd.keys_seq@)))
    }
}

/// Decides a keyboard command.
pub fn handle_keyboard(has_session: bool, cmd: &Command) -> (outcome: Outcome)
    ensures
        outcome.is_as(keyboard_plan(has_session, *cmd)),
{
    if !has_session {
        return refuse(cmd.id, "not connected");
    }
    let scancode: u32 = match name_to_scancode(cmd.key.as_str()) {
        Some(code) => code,
        None => {
            return refuse(cmd.id, join("unknown key: ", cmd.key.as_str()).as_str());
        },
    };
    let action: &str = cmd.action.as_str();
    let mut actions: Vec<Action> = Vec::new();
    if same_text(action, "key_down") {
        actions.push(Action::Key { scancode, down: true });
    } else if same_text(action, "key_up") {
        actions.push(Action::Key { scancode, down: false });
    } else if same_text(action, "key_click") {
        actions.push(Action::Key { scancode, down: true });
        actions.push(Action::Sleep { millis: KEY_CLICK_MILLIS });
        actions.push(Action::Key { scancode, down: false });
    } else {
        return refuse(cmd.id, join("unknown keyboard action: ", action).as_str());
    }
    assert(Some(actions@) == key_actions(cmd.action@, scancode)) by {
        assert(actions@ =~= key_actions(cmd.action@, scancode)->0);
    }
    accept(cmd.id, actions)
}

fn pick_delay(delay_ms: Option<u64>, default: u64) -> (millis: u64)
    ensures
        millis == delay_or(delay_ms, default),
{
    match delay_ms {
        Some(millis) => if millis > 0 {
            millis
        } else {
            default
        },
        None => default,
    }
}

/// Decides one step of a key sequence: puts what it does behind what the steps
/// before it do.
pub fn plan_step(step: &KeyStep, actions: &mut Vec<Action>)
    ensures
        final(actions)@ == old(actions)@ + step_actions(step@),
{
    let action: &str = step.action.as_str();
    if same_text(action, "wait") {
        let millis: u64 = match step.delay_ms {
            Some(millis) => millis,
            None => WAIT_MILLIS,
        };
        actions.push(Action::Sleep { millis });
    } else if let Some(scancode) = name_to_scancode(step.key.as_str()) {
        if same_text(action, "key_click") {
            actions.push(Action::Key { scancode, down: true });
            actions.push(Action::Sleep { millis: KEY_CLICK_MILLIS });
            actions.push(Action::Key { scancode, down: false });
            actions.push(Action::Sleep { millis: pick_delay(step.delay_ms, KEY_CLICK_MILLIS) });
        } else if same_text(action, "key_down") {
            actions.push(Action::Key { scancode, down: true });
            actions.push(Action::Sleep { millis: pick_delay(step.delay_ms, AFTER_DOWN_MILLIS) });
        } else if same_text(action, "key_up") {
            actions.push(Action::Key { scancode, down: false });
            actions.push(Action::Sleep { millis: pick_delay(step.delay_ms, AFTER_UP_MILLIS) });
        }
    }
    assert(actions@ =~= old(actions)@ + step_actions(step@));
}

/// Decides a key sequence command.
pub fn handle_key_sequence(has_session: bool, cmd: &Command) -> (outcome: Outcome)
    ensures
        outcome.is_as(key_sequence_plan(has_session, *cmd)),
{
    if !has_session {
        return refuse(cmd.id, "not connected");
    }
    let ghost steps = steps_of(cmd.keys_seq@);
    let mut actions: Vec<Action> = Vec::new();
    let mut i: usize = 0;
    while i < cmd.keys_seq.len()
        invariant
            i <= cmd.keys_seq@.len(),
            steps == steps_of(cmd.keys_seq@),
            actions@ == sequence_actions(steps.take(i as int)),
        decreases cmd.keys_seq@.len() - i,
    {
        let step: KeyStep = read_step(&cmd.keys_seq[i]);
        plan_step(&step, &mut actions);
        assert(steps.take(i + 1).drop_last() =~= steps.take(i as int));
        assert(steps.take(i + 1).last() == step@);
        i = i + 1;
    }
    assert(steps.take(i as int) =~= steps);
    accept(cmd.id, actions)
}

/// Two key sequences in one do what the first does and then what the second
/// does.
pub proof fn sequences_add_up(first: Seq<StepView>, second: Seq<StepView>)
    ensures
        sequence_actions(first + second) == sequence_actions(first) + sequence_actions(second),
    decreases second.len(),
{
    if second.len() == 0 {
        assert(first + second =~= first);
        assert(sequence_actions(first) + sequence_actions(second) =~= sequence_actions(first));
    } else {
        let whole = first + second;
        assert(whole.drop_last() =~= first + second.drop_last());
        assert(whole.last() == second.last());
        sequences_add_up(first, second.drop_last());
        assert(sequence_actions(whole) =~= sequence_actions(first) + sequence_actions(second));
    }
}

/// Every key that goes down or up is followed by a pause.
pub open spec fn keys_are_spaced(actions: Seq<Action>) -> bool {
    forall|i: int|
        0 <= i < actions.len() && #[trigger] actions[i] is Key ==> i + 1 < actions.len()
            && is_pause(actions[i + 1])
}

/// A pause that takes time.
pub open spec fn is_pause(action: Action) -> bool {
    action is Sleep && action->millis > 0
}

/// A key sequence never sends two keys without a pause between them, and
/// pauses after the last.
pub proof fn sequences_space_their_keys(steps: Seq<StepView>)
    ensures
        keys_are_spaced(sequence_actions(steps)),
    decreases steps.len(),
{
    if steps.len() > 0 {
        let before = sequence_actions(steps.drop_last());
        let last = step_actions(steps.last());
        sequences_space_their_keys(steps.drop_last());
        let all = before + last;
        assert forall|i: int| 0 <= i < all.len() && #[trigger] all[i] is Key implies i + 1
            < all.len() && is_pause(all[i + 1]) by {
            if i < before.len() {
                assert(before[i] is Key);
                assert(all[i + 1] == before[i + 1]);
            } else {
                assert(all[i] == last[i - before.len()]);
                assert(all[i + 1] == last[i + 1 - before.len()]);
            }
        }
    }
}

/// A step names the key of this scan code.
pub open spec fn names_key(step: StepView, scancode: u32) -> bool {
    scancode_of(step.key) == Some(scancode)
}

/// A key sequence sends no key that none of its steps names: no modifier is
/// added.
pub proof fn sequences_send_only_named_keys(steps: Seq<StepView>, i: int)
    requires
        0 <= i < sequence_actions(steps).len(),
        sequence_actions(steps)[i] is Key,
    ensures
        exists|j: int|
            0 <= j < steps.len() && #[trigger] names_key(
                steps[j],
                sequence_actions(steps)[i]->scancode,
            ),
    decreases steps.len(),
{
    let scancode = sequence_actions(steps)[i]->scancode;
    let before = sequence_actions(steps.drop_last());
    if i < before.len() {
        assert(before[i] == sequence_actions(steps)[i]);
        sequences_send_only_named_keys(steps.drop_last(), i);
        let j = choose|j: int|
            0 <= j < steps.drop_last().len() && #[trigger] names_key(
                steps.drop_last()[j],
                scancode,
            );
        assert(steps[j] == steps.drop_last()[j]);
        assert(names_key(steps[j], scancode));
    } else {
        let last = steps.len() - 1;
        assert(step_actions(steps.last())[i - before.len()] == sequence_actions(steps)[i]);
        assert(names_key(steps[last], scancode));
    }
}

/// The keys that are held after an action.
pub open spec fn held_after(held: Set<u32>, action: Action) -> Set<u32> {
    match action {
        Action::Key { scancode, down } => if down {
            held.insert(scancode)
        } else {
            held.remove(scancode)
        },
        _ => held,
    }
}

/// The keys that are held after the actions, in their order.
pub open spec fn held_after_all(held: Set<u32>, actions: Seq<Action>) -> Set<u32>
    decreases actions.len(),
{
    if actions.len() == 0 {
        held
    } else {
        held_after(held_after_all(held, actions.drop_last()), actions.last())
    }
}

proof fn lemma_held_adds_up(held: Set<u32>, first: Seq<Action>, second: Seq<Action>)
    ensures
        held_after_all(held, first + second) == held_after_all(
            held_after_all(held, first),
            second,
        ),
    decreases second.len(),
{
    if second.len() == 0 {
        assert(first + second =~= first);
    } else {
        assert((first + second).drop_last() =~= first + second.drop_last());
        assert((first + second).last() == second.last());
        lemma_held_adds_up(held, first, second.drop_last());
    }
}

proof fn lemma_held_by_click(held: Set<u32>, step: StepView)
    requires
        step.action == "key_click"@ || step.action == "wait"@,
    ensures
        held_after_all(held, step_actions(step)).subset_of(held),
{
    let actions = step_actions(step);
    reveal_with_fuel(held_after_all, 5);
    if actions.len() == 4 {
        assert(actions.drop_last().last() == actions[2]);
        assert(actions.drop_last().drop_last().last() == actions[1]);
        assert(actions.drop_last().drop_last().drop_last().last() == actions[0]);
    }
}

/// Clicks and waits leave no key held that was not held before.
pub proof fn clicks_leave_no_key_held(held: Set<u32>, steps: Seq<StepView>)
    requires
        forall|i: int|
            0 <= i < steps.len() ==> (#[trigger] steps[i]).action == "key_click"@
                || steps[i].action == "wait"@,
    ensures
        held_after_all(held, sequence_actions(steps)).subset_of(held),
    decreases steps.len(),
{
    if steps.len() > 0 {
        let before = sequence_actions(steps.drop_last());
        clicks_leave_no_key_held(held, steps.drop_last());
        lemma_held_adds_up(held, before, step_actions(steps.last()));
        lemma_held_by_click(held_after_all(held, before), steps.last());
    }
}

} // verus!
