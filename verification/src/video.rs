//! Commands that tune the video stream.

use vstd::prelude::*;

use crate::action::{accept, accepted, refuse, refused, Action, ImageQuality, Outcome, Plan};
use crate::command::Command;
use crate::text::{join, same_text};

verus! {

/// The custom quality where a command gives none.
pub const DEFAULT_CUSTOM_QUALITY: i32 = 50;

/// The frames per second where a command gives none.
pub const DEFAULT_FPS: i32 = 30;

/// The width where a command gives none.
pub const DEFAULT_WIDTH: i32 = 1920;

/// The height where a command gives none.
pub const DEFAULT_HEIGHT: i32 = 1080;

/// The value, where it is positive.
pub open spec fn positive_or(value: i32, default: i32) -> i32 {
    if value > 0 {
        value
    } else {
        default
    }
}

/// What a word for a quality asks for, if it is one of the known ones. No word
/// at all is the balanced preset.
pub open spec fn quality_action(quality: Seq<char>, value: i32) -> Option<Action> {
    if quality.len() == 0 || quality == "balanced"@ {
        Some(Action::Preset { quality: ImageQuality::Balanced })
    } else if quality == "best"@ {
        Some(Action::Preset { quality: ImageQuality::Best })
    } else if quality == "low"@ {
        Some(Action::Preset { quality: ImageQuality::Low })
    } else if quality == "custom"@ {
        Some(Action::CustomQuality { value: positive_or(value, DEFAULT_CUSTOM_QUALITY) })
    } else {
        None
    }
}

/// What a quality command does and is answered.
pub open spec fn quality_plan(has_session: bool, cmd: Command) -> Plan {
    if !has_session {
        refused(cmd.id, "not connected"@)
    } else {
        match quality_action(cmd.quality@, cmd.value) {
            Some(action) => accepted(cmd.id, seq![action]),
            None => refused(
                cmd.id,
                "unknown quality: "@ + cmd.quality@ + " (use best/balanced/low/custom)"@,
            ),
        }
    }
}

/// What a frame rate command does and is answered.
pub open spec fn fps_plan(has_session: bool, cmd: Command) -> Plan {
    if !has_session {
        refused(cmd.id, "not connected"@)
    } else {
        accepted(cmd.id, seq![Action::Fps { fps: positive_or(cmd.fps, DEFAULT_FPS) }])
    }
}

/// What a resolution command does and is answered.
pub open spec fn resolution_plan(has_session: bool, cmd: Command) -> Plan {
    if !has_session {
        refused(cmd.id, "not connected"@)
    } else {
        accepted(
            cmd.id,
            seq![
                Action::Resolution {
                    display: cmd.display,
                    width: positive_or(cmd.width, DEFAULT_WIDTH),
                    height: positive_or(cmd.height, DEFAULT_HEIGHT),
                },
            ],
        )
    }
}

fn pick_positive(value: i32, default: i32) -> (picked: i32)
    ensures
        picked == positive_or(value, default),
{
    if value > 0 {
        value
    } else {
        default
    }
}

fn accept_one(id: u64, action: Action) -> (outcome: Outcome)
    ensures
        outcome.is_as(accepted(id, seq![action])),
{
    let mut actions: Vec<Action> = Vec::new();
    actions.push(action);
    assert(actions@ =~= seq![action]);
    accept(id, actions)
}

/// Decides a quality command.
pub fn handle_set_quality(has_session: bool, cmd: &Command) -> (outcome: Outcome)
    ensures
        outcome.is_as(quality_plan(has_session, *cmd)),
{
    if !has_session {
        return refuse(cmd.id, "not connected");
    }
    let quality: &str = cmd.quality.as_str();
    let action: Action = if quality.is_empty() || same_text(quality, "balanced") {
        Action::Preset { quality: ImageQuality::Balanced }
    } else if same_text(quality, "best") {
        Action::Preset { quality: ImageQuality::Best }
    } else if same_text(quality, "low") {
        Action::Preset { quality: ImageQuality::Low }
    } else if same_text(quality, "custom") {
        Action::CustomQuality { value: pick_positive(cmd.value, DEFAULT_CUSTOM_QUALITY) }
    } else {
        let msg: String = join(
            join("unknown quality: ", quality).as_str(),
            " (use best/balanced/low/custom)",
        );
        return refuse(cmd.id, msg.as_str());
    };
    accept_one(cmd.id, action)
}

/// Decides a frame rate command.
pub fn handle_set_fps(has_session: bool, cmd: &Command) -> (outcome: Outcome)
    ensures
        outcome.is_as(fps_plan(has_session, *cmd)),
{
    if !has_session {
        return refuse(cmd.id, "not connected");
    }
    accept_one(cmd.id, Action::Fps { fps: pick_positive(cmd.fps, DEFAULT_FPS) })
}

/// Decides a resolution command.
pub fn handle_set_resolution(has_session: bool, cmd: &Command) -> (outcome: Outcome)
    ensures
        outcome.is_as(resolution_plan(has_session, *cmd)),
{
    if !has_session {
        return refuse(cmd.id, "not connected");
    }
    accept_one(
        cmd.id,
        Action::Resolution {
            display: cmd.display,
            width: pick_positive(cmd.width, DEFAULT_WIDTH),
            height: pick_positive(cmd.height, DEFAULT_HEIGHT),
        },
    )
}

/// The session is never asked for a frame rate, a custom quality or a
/// dimension that is not positive.
pub proof fn video_settings_are_positive(cmd: Command)
    ensures
        quality_action(cmd.quality@, cmd.value) matches Some(Action::CustomQuality { value })
            ==> value > 0,
        fps_plan(true, cmd).actions[0]->fps > 0,
        resolution_plan(true, cmd).actions[0]->width > 0,
        resolution_plan(true, cmd).actions[0]->height > 0,
{
}

} // verus!
