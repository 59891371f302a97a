//! What a command asks of the remote session, and what it is answered.

use vstd::prelude::*;

use crate::json::Members;
use crate::reply::{error_members, json_error, json_ok, ok_members, says};

verus! {

/// A preset of the image quality.
#[derive(Clone, Copy, Debug, PartialEq, Eq, Structural)]
pub enum ImageQuality {
    Best,
    Balanced,
    Low,
}

/// The word for a preset.
pub open spec fn quality_word(quality: ImageQuality) -> Seq<char> {
    match quality {
        ImageQuality::Best => "best"@,
        ImageQuality::Balanced => "balanced"@,
        ImageQuality::Low => "low"@,
    }
}

impl ImageQuality {
    /// The word for the preset.
    pub fn name(self) -> (word: &'static str)
        ensures
            word@ == quality_word(self),
    {
        match self {
            ImageQuality::Best => "best",
            ImageQuality::Balanced => "balanced",
            ImageQuality::Low => "low",
        }
    }
}

/// One thing to do to the remote session, or a pause.
#[derive(Clone, Copy, Debug, PartialEq, Eq, Structural)]
pub enum Action {
    /// Send a mouse message, with no modifier held.
    Mouse { mask: i32, x: i32, y: i32 },
    /// Send the raw scan code of a key that goes down or up.
    Key { scancode: u32, down: bool },
    /// Wait.
    Sleep { millis: u64 },
    /// Choose a preset of the image quality.
    Preset { quality: ImageQuality },
    /// Choose the image quality by its value.
    CustomQuality { value: i32 },
    /// Choose the frames per second.
    Fps { fps: i32 },
    /// Change the resolution of a display.
    Resolution { display: i32, width: i32, height: i32 },
}

/// What a command does to the session, in this order, and what it is answered.
pub struct Outcome {
    pub actions: Vec<Action>,
    pub reply: String,
}

/// What a command should do to the session, and the members of its reply.
pub struct Plan {
    pub actions: Seq<Action>,
    pub members: Members,
}

impl Outcome {
    /// The outcome is as planned.
    pub open spec fn is_as(self, plan: Plan) -> bool {
        self.actions@ == plan.actions && says(self.reply@, plan.members)
    }
}

/// The command is carried out.
pub open spec fn accepted(id: u64, actions: Seq<Action>) -> Plan {
    Plan { actions, members: ok_members(id) }
}

/// The command is refused, and nothing is done.
pub open spec fn refused(id: u64, msg: Seq<char>) -> Plan {
    Plan { actions: Seq::empty(), members: error_members(id, msg) }
}

/// Accepts a command.
pub(crate) fn accept(id: u64, actions: Vec<Action>) -> (outcome: Outcome)
    ensures
        outcome.is_as(accepted(id, actions@)),
{
    Outcome { actions, reply: json_ok(id) }
}

/// Refuses a command.
pub(crate) fn refuse(id: u64, msg: &str) -> (outcome: Outcome)
    ensures
        outcome.is_as(refused(id, msg@)),
{
    Outcome { actions: Vec::new(), reply: json_error(id, msg) }
}

} // verus!
