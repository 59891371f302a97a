//! What the commands on the video stream ask of the session.

use vstd::prelude::*;

use crate::action::{Action, ImageQuality, Outcome};
use crate::command::Command;
use crate::laws::outcomes::{declines, lemma_outcome, sends};
use crate::video::{fps_plan, handle_set_fps, handle_set_quality, handle_set_resolution};
use crate::video::{quality_plan, resolution_plan};

verus! {

proof fn lemma_quality_words()
    ensures
        "best"@.len() == 4,
        "balanced"@.len() == 8,
        "low"@.len() == 3,
        "custom"@.len() == 6,
{
    reveal_strlit("best");
    reveal_strlit("balanced");
    reveal_strlit("low");
    reveal_strlit("custom");
}

/// A preset goes to the session under the very word that the command gave, and
/// no word at all is the balanced one.
pub proof fn presets_go_by_the_word_that_was_given(
    cmd: &Command,
    outcome: Outcome,
    preset: ImageQuality,
    word: &'static str,
)
    requires
        call_ensures(handle_set_quality, (true, cmd), outcome),
        call_ensures(ImageQuality::name, (preset,), word),
        word@ == cmd.quality@ || (cmd.quality@.len() == 0 && word@ == "balanced"@),
    ensures
        sends(outcome, cmd.id, seq![Action::Preset { quality: preset }]),
{
    lemma_quality_words();
    lemma_outcome(outcome, quality_plan(true, *cmd), cmd.id);
}

/// The words of the presets are those that commands can give.
pub proof fn presets_have_these_words(preset: ImageQuality, word: &'static str)
    requires
        call_ensures(ImageQuality::name, (preset,), word),
    ensures
        preset is Best ==> word@ == "best"@,
        preset is Balanced ==> word@ == "balanced"@,
        preset is Low ==> word@ == "low"@,
{
}

/// A custom quality is the value that the command gave, where it is positive,
/// and fifty where it is not.
pub proof fn custom_qualities_are_those_given(cmd: &Command, outcome: Outcome)
    requires
        call_ensures(handle_set_quality, (true, cmd), outcome),
        cmd.quality@ == "custom"@,
    ensures
        cmd.value > 0 ==> sends(
            outcome,
            cmd.id,
            seq![Action::CustomQuality { value: cmd.value }],
        ),
        cmd.value <= 0 ==> sends(outcome, cmd.id, seq![Action::CustomQuality { value: 50 }]),
{
    lemma_quality_words();
    lemma_outcome(outcome, quality_plan(true, *cmd), cmd.id);
}

/// A quality is refused without a session, or where its word is none of the
/// four, and then the words are given.
pub proof fn qualities_are_refused_for_a_reason(
    has_session: bool,
    cmd: &Command,
    outcome: Outcome,
)
    requires
        call_ensures(handle_set_quality, (has_session, cmd), outcome),
    ensures
        !has_session ==> declines(outcome, cmd.id, "not connected"@),
        has_session && cmd.quality@.len() > 0 && cmd.quality@ != "best"@ && cmd.quality@
            != "balanced"@ && cmd.quality@ != "low"@ && cmd.quality@ != "custom"@ ==> declines(
            outcome,
            cmd.id,
            "unknown quality: "@ + cmd.quality@ + " (use best/balanced/low/custom)"@,
        ),
{
    lemma_outcome(outcome, quality_plan(has_session, *cmd), cmd.id);
}

/// The frame rate is the one that the command gave, where it is positive, and
/// thirty where it is not. Without a session it is refused.
pub proof fn frame_rates_are_those_given(has_session: bool, cmd: &Command, outcome: Outcome)
    requires
        call_ensures(handle_set_fps, (has_session, cmd), outcome),
    ensures
        !has_session ==> declines(outcome, cmd.id, "not connected"@),
        has_session && cmd.fps > 0 ==> sends(outcome, cmd.id, seq![Action::Fps { fps: cmd.fps }]),
        has_session && cmd.fps <= 0 ==> sends(outcome, cmd.id, seq![Action::Fps { fps: 30 }]),
{
    lemma_outcome(outcome, fps_plan(has_session, *cmd), cmd.id);
}

/// The side is the one that was given, where that is positive, and else the
/// usual one.
pub open spec fn is_side(side: i32, given: i32, usual: i32) -> bool {
    (given > 0 ==> side == given) && (given <= 0 ==> side == usual)
}

/// A resolution is that of the display that the command gave, whichever it is,
/// and each side is the one that it gave, where that is positive, and else that
/// of 1920 by 1080. Without a session it is refused.
pub proof fn resolutions_are_those_given(
    has_session: bool,
    cmd: &Command,
    outcome: Outcome,
    width: i32,
    height: i32,
)
    requires
        call_ensures(handle_set_resolution, (has_session, cmd), outcome),
        is_side(width, cmd.width, 1920),
        is_side(height, cmd.height, 1080),
    ensures
        !has_session ==> declines(outcome, cmd.id, "not connected"@),
        has_session ==> sends(
            outcome,
            cmd.id,
            seq![Action::Resolution { display: cmd.display, width, height }],
        ),
{
    lemma_outcome(outcome, resolution_plan(has_session, *cmd), cmd.id);
}

} // verus!
