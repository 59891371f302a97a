//! The commands of a client.

use vstd::prelude::*;

use crate::json::{number_under, text_under, value_members, Members};

verus! {

/// A command, as its JSON object gave it. What the object leaves out is zero,
/// false or empty.
pub struct Command {
    /// The number by which the client finds the reply.
    pub id: u64,
    /// What is asked for.
    pub cmd: String,
    pub peer_id: String,
    pub password: String,
    pub action: String,
    pub x: i32,
    pub y: i32,
    pub button: String,
    pub key: String,
    /// The steps of a key sequence, each as it was written.
    pub keys_seq: Vec<serde_json::Value>,
    pub check_server: bool,
    pub quality: String,
    pub value: i32,
    pub fps: i32,
    pub display: i32,
    pub width: i32,
    pub height: i32,
}

/// One step of a key sequence.
pub struct KeyStep {
    pub action: String,
    pub key: String,
    pub delay_ms: Option<u64>,
}

/// What one step of a key sequence says.
pub struct StepView {
    pub action: Seq<char>,
    pub key: Seq<char>,
    pub delay_ms: Option<u64>,
}

impl View for KeyStep {
    type V = StepView;

    open spec fn view(&self) -> StepView {
        StepView { action: self.action@, key: self.key@, delay_ms: self.delay_ms }
    }
}

/// The string under a key, and the empty one where there is none.
pub open spec fn text_or_empty(members: Members, key: Seq<char>) -> Seq<char> {
    if members.contains_key(key) && members[key] is Text {
        members[key]->Text_0
    } else {
        Seq::empty()
    }
}

/// The number under a key, if there is one.
pub open spec fn number_at(members: Members, key: Seq<char>) -> Option<u64> {
    if members.contains_key(key) && members[key] is Number {
        Some(members[key]->Number_0)
    } else {
        None
    }
}

/// The step that an object with these members stands for. A member that is
/// missing or of another kind is as if it were not there.
pub open spec fn step_of(members: Members) -> StepView {
    StepView {
        action: text_or_empty(members, "action"@),
        key: text_or_empty(members, "key"@),
        delay_ms: number_at(members, "delay_ms"@),
    }
}

fn text_at(item: &serde_json::Value, key: &str) -> (text: String)
    ensures
        text@ == text_or_empty(value_members(*item), key@),
{
    match text_under(item, key) {
        Some(text) => text,
        None => String::new(),
    }
}

/// Reads one step of a key sequence.
pub fn read_step(item: &serde_json::Value) -> (step: KeyStep)
    ensures
        step@ == step_of(value_members(*item)),
{
    KeyStep {
        action: text_at(item, "action"),
        key: text_at(item, "key"),
        delay_ms: number_under(item, "delay_ms"),
    }
}

} // verus!
