//! What is done about the texts of a client.

use vstd::prelude::*;

use crate::action::Outcome;
use crate::command::Command;
use crate::dispatch::{handle_text_command, lemma_words, Dispatch};
use crate::handler::HeadlessHandler;
use crate::identity::{handle_get_id, handle_set_id, IdAction, IdState};
use crate::keyboard::{handle_key_sequence, handle_keyboard};
use crate::laws::frames::{carries, lemma_carries};
use crate::laws::identities::changes_need_an_id;
use crate::laws::replies::{accepts_text, lemma_accepts, lemma_refuses, lemma_screenshot};
use crate::laws::replies::{lemma_status, refuses_text, screenshot_text, status_text};
use crate::mouse::handle_mouse;
use crate::session::AppState;
use crate::video::{handle_set_fps, handle_set_quality, handle_set_resolution};

verus! {

/// The text is answered at once with a text alone, no session is closed, and
/// nothing is asked of one.
pub open spec fn only_answers<S>(dispatch: Dispatch<S>) -> bool {
    &&& dispatch is Finished
    &&& dispatch->Finished_close is None
    &&& dispatch->actions@.len() == 0
    &&& dispatch->reply.frame is None
}

/// The text is answered at once as the outcome says, and what the outcome asks
/// of the session is asked of it.
pub open spec fn turns_out<S>(dispatch: Dispatch<S>, outcome: Outcome) -> bool {
    &&& dispatch is Finished
    &&& dispatch->Finished_close is None
    &&& dispatch->actions@ == outcome.actions@
    &&& dispatch->reply.text@ == outcome.reply@
    &&& dispatch->reply.frame is None
}

/// A text that is no command is answered under the id zero with what is wrong
/// with it, and changes nothing.
pub proof fn texts_that_are_no_command_are_refused<S>(
    state: &mut AppState<S>,
    handler: &HeadlessHandler,
    parsed: &Result<Command, String>,
    dispatch: Dispatch<S>,
)
    requires
        call_ensures(handle_text_command::<S>, (state, handler, parsed), dispatch),
        parsed is Err,
    ensures
        only_answers(dispatch),
        refuses_text(dispatch->reply.text@, 0, "invalid command: "@ + parsed->Err_0@),
        *final(state) == *old(state),
{
    lemma_refuses(dispatch->reply.text@, 0, "invalid command: "@ + parsed->Err_0@);
}

/// A command with a word that is none of the thirteen is refused, and changes
/// nothing.
pub proof fn unknown_words_are_refused<S>(
    state: &mut AppState<S>,
    handler: &HeadlessHandler,
    parsed: &Result<Command, String>,
    cmd: Command,
    dispatch: Dispatch<S>,
)
    requires
        call_ensures(handle_text_command::<S>, (state, handler, parsed), dispatch),
        *parsed == Ok::<Command, String>(cmd),
        cmd.cmd@ != "connect"@ && cmd.cmd@ != "disconnect"@ && cmd.cmd@ != "screenshot"@,
        cmd.cmd@ != "mouse"@ && cmd.cmd@ != "keyboard"@ && cmd.cmd@ != "key_sequence"@,
        cmd.cmd@ != "get_id"@ && cmd.cmd@ != "set_id"@,
        cmd.cmd@ != "set_quality"@ && cmd.cmd@ != "set_fps"@ && cmd.cmd@ != "set_resolution"@,
        cmd.cmd@ != "ping"@ && cmd.cmd@ != "status"@,
    ensures
        only_answers(dispatch),
        refuses_text(dispatch->reply.text@, cmd.id, "unknown command: "@ + cmd.cmd@),
        final(state).session == old(state).session,
        final(state).codes == old(state).codes,
{
    lemma_refuses(dispatch->reply.text@, cmd.id, "unknown command: "@ + cmd.cmd@);
}

/// A ping is accepted, and nothing else comes of it.
pub proof fn pings_are_answered<S>(
    state: &mut AppState<S>,
    handler: &HeadlessHandler,
    parsed: &Result<Command, String>,
    cmd: Command,
    dispatch: Dispatch<S>,
)
    requires
        call_ensures(handle_text_command::<S>, (state, handler, parsed), dispatch),
        *parsed == Ok::<Command, String>(cmd),
        cmd.cmd@ == "ping"@,
    ensures
        only_answers(dispatch),
        accepts_text(dispatch->reply.text@, cmd.id),
        final(state).session == old(state).session,
        final(state).codes == old(state).codes,
{
    lemma_words();
    lemma_accepts(dispatch->reply.text@, cmd.id);
}

/// Disconnecting closes the session that there is, if there is one, leaves
/// none, and is accepted either way.
pub proof fn disconnecting_closes_the_session<S>(
    state: &mut AppState<S>,
    handler: &HeadlessHandler,
    parsed: &Result<Command, String>,
    cmd: Command,
    dispatch: Dispatch<S>,
)
    requires
        call_ensures(handle_text_command::<S>, (state, handler, parsed), dispatch),
        *parsed == Ok::<Command, String>(cmd),
        cmd.cmd@ == "disconnect"@,
    ensures
        dispatch is Finished,
        dispatch->Finished_close == old(state).session,
        dispatch->actions@.len() == 0,
        dispatch->reply.frame is None,
        accepts_text(dispatch->reply.text@, cmd.id),
        final(state).session is None,
        final(state).codes == old(state).codes,
{
    lemma_words();
    lemma_accepts(dispatch->reply.text@, cmd.id);
}

/// A status command is told whether the session is connected, as its callbacks
/// left it, and whether the client has one.
pub proof fn statuses_tell_how_it_stands<S>(
    state: &mut AppState<S>,
    handler: &HeadlessHandler,
    parsed: &Result<Command, String>,
    cmd: Command,
    dispatch: Dispatch<S>,
)
    requires
        call_ensures(handle_text_command::<S>, (state, handler, parsed), dispatch),
        *parsed == Ok::<Command, String>(cmd),
        cmd.cmd@ == "status"@,
    ensures
        only_answers(dispatch),
        status_text(
            dispatch->reply.text@,
            cmd.id,
            handler.connected,
            old(state).session is Some,
        ),
        final(state).session == old(state).session,
        final(state).codes == old(state).codes,
{
    lemma_words();
    lemma_status(
        dispatch->reply.text@,
        cmd.id,
        handler.connected,
        old(state).session is Some,
    );
}

/// A screenshot command is answered with the latest frame, described and
/// carried, whether or not there is a session.
pub proof fn screenshots_give_the_latest_frame<S>(
    state: &mut AppState<S>,
    handler: &HeadlessHandler,
    parsed: &Result<Command, String>,
    cmd: Command,
    dispatch: Dispatch<S>,
)
    requires
        call_ensures(handle_text_command::<S>, (state, handler, parsed), dispatch),
        *parsed == Ok::<Command, String>(cmd),
        cmd.cmd@ == "screenshot"@,
    ensures
        dispatch is Finished,
        dispatch->Finished_close is None,
        dispatch->actions@.len() == 0,
        screenshot_text(dispatch->reply.text@, cmd.id, handler.frame),
        match handler.frame {
            Some(latest) => dispatch->reply.frame is Some && carries(
                (dispatch->reply.frame->0)@,
                latest,
            ),
            None => dispatch->reply.frame is None,
        },
        final(state).session == old(state).session,
        final(state).codes == old(state).codes,
{
    lemma_words();
    lemma_screenshot(dispatch->reply.text@, cmd.id, handler.frame);
    match handler.frame {
        Some(latest) => {
            lemma_carries(latest);
        },
        None => {},
    }
}

/// Mouse and keyboard commands turn out as they are decided, for a client that
/// has the session that it has.
pub proof fn input_commands_are_carried_out<S>(
    state: &mut AppState<S>,
    handler: &HeadlessHandler,
    parsed: &Result<Command, String>,
    cmd: &Command,
    dispatch: Dispatch<S>,
    codes: &crate::mouse::MouseCodes,
    outcome: Outcome,
)
    requires
        call_ensures(handle_text_command::<S>, (state, handler, parsed), dispatch),
        *parsed == Ok::<Command, String>(*cmd),
        *codes == old(state).codes,
        ({
            let has_session = old(state).session is Some;
            ||| cmd.cmd@ == "mouse"@ && call_ensures(
                handle_mouse,
                (codes, has_session, cmd),
                outcome,
            )
            ||| cmd.cmd@ == "keyboard"@ && call_ensures(
                handle_keyboard,
                (has_session, cmd),
                outcome,
            )
            ||| cmd.cmd@ == "key_sequence"@ && call_ensures(
                handle_key_sequence,
                (has_session, cmd),
                outcome,
            )
        }),
    ensures
        turns_out(dispatch, outcome),
        final(state).session == old(state).session,
        final(state).codes == old(state).codes,
{
    lemma_words();
}

/// Commands on the video stream turn out as they are decided, for a client that
/// has the session that it has.
pub proof fn video_commands_are_carried_out<S>(
    state: &mut AppState<S>,
    handler: &HeadlessHandler,
    parsed: &Result<Command, String>,
    cmd: &Command,
    dispatch: Dispatch<S>,
    outcome: Outcome,
)
    requires
        call_ensures(handle_text_command::<S>, (state, handler, parsed), dispatch),
        *parsed == Ok::<Command, String>(*cmd),
        ({
            let has_session = old(state).session is Some;
            ||| cmd.cmd@ == "set_quality"@ && call_ensures(
                handle_set_quality,
                (has_session, cmd),
                outcome,
            )
            ||| cmd.cmd@ == "set_fps"@ && call_ensures(
                handle_set_fps,
                (has_session, cmd),
                outcome,
            )
            ||| cmd.cmd@ == "set_resolution"@ && call_ensures(
                handle_set_resolution,
                (has_session, cmd),
                outcome,
            )
        }),
    ensures
        turns_out(dispatch, outcome),
        final(state).session == old(state).session,
        final(state).codes == old(state).codes,
{
    lemma_words();
}

/// Connecting to nobody is refused, and the session stays. Connecting to a peer
/// closes the session that there is, and goes on with an attempt to reach that
/// peer with that password.
pub proof fn connecting_replaces_the_session<S>(
    state: &mut AppState<S>,
    handler: &HeadlessHandler,
    parsed: &Result<Command, String>,
    cmd: Command,
    dispatch: Dispatch<S>,
)
    requires
        call_ensures(handle_text_command::<S>, (state, handler, parsed), dispatch),
        *parsed == Ok::<Command, String>(cmd),
        cmd.cmd@ == "connect"@,
    ensures
        cmd.peer_id@.len() == 0 ==> {
            &&& only_answers(dispatch)
            &&& refuses_text(dispatch->reply.text@, cmd.id, "peer_id is required"@)
            &&& final(state).session == old(state).session
        },
        cmd.peer_id@.len() > 0 ==> {
            &&& dispatch is Connect
            &&& dispatch->Connect_close == old(state).session
            &&& dispatch->task.id == cmd.id
            &&& dispatch->task.peer_id@ == cmd.peer_id@
            &&& dispatch->task.password@ == cmd.password@
            &&& dispatch->task.waited == 0
            &&& final(state).session is None
        },
        final(state).codes == old(state).codes,
{
    if cmd.peer_id@.len() == 0 {
        lemma_refuses(dispatch->reply.text@, cmd.id, "peer_id is required"@);
    }
}

/// A command on the peer id begins as it is decided, and keeps the session. A
/// change to no id at all is refused at once.
pub proof fn peer_id_commands_are_begun<S>(
    state: &mut AppState<S>,
    handler: &HeadlessHandler,
    parsed: &Result<Command, String>,
    cmd: &Command,
    dispatch: Dispatch<S>,
    begun: (IdState, IdAction),
)
    requires
        call_ensures(handle_text_command::<S>, (state, handler, parsed), dispatch),
        *parsed == Ok::<Command, String>(*cmd),
        (cmd.cmd@ == "get_id"@ && call_ensures(handle_get_id, (cmd.id,), begun)) || (cmd.cmd@
            == "set_id"@ && call_ensures(handle_set_id, (cmd.id, cmd), begun)),
    ensures
        cmd.cmd@ == "set_id"@ && cmd.peer_id@.len() == 0 ==> only_answers(dispatch)
            && refuses_text(dispatch->reply.text@, cmd.id, "peer_id is required"@),
        cmd.cmd@ == "get_id"@ || cmd.peer_id@.len() > 0 ==> dispatch is Identity
            && dispatch->state == begun.0 && dispatch->action is ReadId && begun.1 is ReadId,
        final(state).session == old(state).session,
        final(state).codes == old(state).codes,
{
    lemma_words();
    if cmd.cmd@ == "set_id"@ {
        changes_need_an_id(cmd.id, cmd, begun);
        if cmd.peer_id@.len() == 0 {
            lemma_refuses(dispatch->reply.text@, cmd.id, "peer_id is required"@);
        }
    }
}

} // verus!
