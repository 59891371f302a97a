//! From the text of a client to what is done about it.

use vstd::prelude::*;

use crate::action::{accepted, refuse, refused, Action, Outcome, Plan};
use crate::command::Command;
use crate::handler::HeadlessHandler;
use crate::identity::{handle_get_id, handle_set_id, IdAction, IdState};
use crate::json::Members;
use crate::keyboard::{handle_key_sequence, handle_keyboard, key_sequence_plan, keyboard_plan};
use crate::mouse::{handle_mouse, mouse_plan};
use crate::reply::{json_ok, says, screenshot_members, screenshot_message};
use crate::reply::{answers, refusals_carry_the_id, replies_carry_the_id};
use crate::reply::{handle_screenshot, handle_status, status_members, Reply};
use crate::session::{begins, handle_connect, handle_disconnect, AppState, ConnectStart, ConnectTask};
use crate::text::{join, same_text};
use crate::video::{fps_plan, handle_set_fps, handle_set_quality, handle_set_resolution};
use crate::video::{quality_plan, resolution_plan};

verus! {

/// What is done about a text of a client.
pub enum Dispatch<S> {
    /// Close the old session, if one is given, carry out the actions in their
    /// order, and answer.
    Finished { close: Option<S>, actions: Vec<Action>, reply: Reply },
    /// Close the old session, if one is given, and go on with the attempt.
    Connect { close: Option<S>, task: ConnectTask },
    /// Carry out the action, and go on from the state with what came of it.
    Identity { state: IdState, action: IdAction },
}

impl<S> Dispatch<S> {
    /// The text is answered at once: as planned, with this binary message, and
    /// this session is closed.
    pub open spec fn finishes(
        self,
        close: Option<S>,
        plan: Plan,
        message: Option<Seq<u8>>,
    ) -> bool {
        &&& self is Finished
        &&& self->Finished_close == close
        &&& self->actions@ == plan.actions
        &&& says(self->reply.text@, plan.members)
        &&& self->reply.message() == message
    }

    /// The session that is to be closed.
    pub open spec fn closes(self) -> Option<S> {
        match self {
            Dispatch::Finished { close, .. } => close,
            Dispatch::Connect { close, .. } => close,
            Dispatch::Identity { .. } => None,
        }
    }
}

/// What is done and answered at once about a command that neither connects nor
/// is on the peer id.
pub open spec fn prompt_plan<S>(
    state: AppState<S>,
    handler: HeadlessHandler,
    cmd: Command,
) -> Plan {
    let has_session = state.session is Some;
    let word = cmd.cmd@;
    if word == "disconnect"@ {
        accepted(cmd.id, Seq::empty())
    } else if word == "screenshot"@ {
        Plan { actions: Seq::empty(), members: screenshot_members(cmd.id, handler.frame) }
    } else if word == "mouse"@ {
        mouse_plan(state.codes, has_session, cmd)
    } else if word == "keyboard"@ {
        keyboard_plan(has_session, cmd)
    } else if word == "key_sequence"@ {
        key_sequence_plan(has_session, cmd)
    } else if word == "set_quality"@ {
        quality_plan(has_session, cmd)
    } else if word == "set_fps"@ {
        fps_plan(has_session, cmd)
    } else if word == "set_resolution"@ {
        resolution_plan(has_session, cmd)
    } else if word == "ping"@ {
        accepted(cmd.id, Seq::empty())
    } else if word == "status"@ {
        Plan {
            actions: Seq::empty(),
            members: status_members(cmd.id, handler.connected, has_session),
        }
    } else {
        refused(cmd.id, "unknown command: "@ + word)
    }
}

/// What the command has done about it, and what it leaves of the client.
pub open spec fn dispatches<S>(
    before: AppState<S>,
    handler: HeadlessHandler,
    cmd: Command,
    dispatch: Dispatch<S>,
    after: AppState<S>,
) -> bool {
    let word = cmd.cmd@;
    &&& after.codes == before.codes
    &&& if word == "connect"@ {
        if cmd.peer_id@.len() == 0 {
            &&& dispatch.finishes(None, refused(cmd.id, "peer_id is required"@), None)
            &&& after.session == before.session
        } else {
            &&& dispatch is Connect
            &&& dispatch->Connect_close == before.session
            &&& begins(dispatch->task, cmd)
            &&& after.session is None
        }
    } else if word == "get_id"@ {
        &&& dispatch is Identity
        &&& dispatch->state == (IdState::Reporting { id: cmd.id })
        &&& dispatch->action is ReadId
        &&& after.session == before.session
    } else if word == "set_id"@ {
        &&& after.session == before.session
        &&& if cmd.peer_id@.len() == 0 {
            dispatch.finishes(None, refused(cmd.id, "peer_id is required"@), None)
        } else {
            &&& dispatch is Identity
            &&& dispatch->state == (IdState::Asked {
                id: cmd.id,
                new_id: cmd.peer_id,
                check_server: cmd.check_server,
            })
            &&& dispatch->action is ReadId
        }
    } else {
        let closing = word == "disconnect"@;
        &&& dispatch.finishes(
            if closing {
                before.session
            } else {
                None
            },
            prompt_plan(before, handler, cmd),
            if word == "screenshot"@ {
                screenshot_message(handler.frame)
            } else {
                None
            },
        )
        &&& after.session == if closing {
            None
        } else {
            before.session
        }
    }
}

fn finish<S>(outcome: Outcome) -> (dispatch: Dispatch<S>)
    ensures
        dispatch is Finished,
        dispatch->Finished_close is None,
        dispatch->actions == outcome.actions,
        dispatch->reply.text == outcome.reply,
        dispatch->reply.frame is None,
{
    Dispatch::Finished {
        close: None,
        actions: outcome.actions,
        reply: Reply { text: outcome.reply, frame: None },
    }
}

fn answer<S>(reply: Reply) -> (dispatch: Dispatch<S>)
    ensures
        dispatch is Finished,
        dispatch->Finished_close is None,
        dispatch->actions@ == Seq::<Action>::empty(),
        dispatch->reply == reply,
{
    Dispatch::Finished { close: None, actions: Vec::new(), reply }
}

/// Decides what is done about a text, from the command that was read from it
/// or from what was wrong with it.
pub fn handle_text_command<S>(
    state: &mut AppState<S>,
    handler: &HeadlessHandler,
    parsed: &Result<Command, String>,
) -> (dispatch: Dispatch<S>)
    ensures
        match parsed {
            Ok(cmd) => dispatches(*old(state), *handler, *cmd, dispatch, *final(state)),
            Err(err) => {
                &&& dispatch.finishes(None, refused(0, "invalid command: "@ + err@), None)
                &&& *final(state) == *old(state)
            },
        },
{
    let cmd: &Command = match parsed {
        Ok(cmd) => cmd,
        Err(err) => {
            return finish(refuse(0, join("invalid command: ", err.as_str()).as_str()));
        },
    };
    let has_session: bool = state.get_session().is_some();
    let word: &str = cmd.cmd.as_str();
    if same_text(word, "connect") {
        match handle_connect(state, cmd) {
            ConnectStart::Refused { reply } => answer(Reply { text: reply, frame: None }),
            ConnectStart::Begun { close, task } => Dispatch::Connect { close, task },
        }
    } else if same_text(word, "get_id") {
        let (begun, action): (IdState, IdAction) = handle_get_id(cmd.id);
        Dispatch::Identity { state: begun, action }
    } else if same_text(word, "set_id") {
        match handle_set_id(cmd.id, cmd) {
            (IdState::Done, IdAction::Reply { text }) => answer(Reply { text, frame: None }),
            (begun, action) => Dispatch::Identity { state: begun, action },
        }
    } else if same_text(word, "disconnect") {
        let (close, text): (Option<S>, String) = handle_disconnect(state, cmd.id);
        proof {
            lemma_words();
        }
        Dispatch::Finished { close, actions: Vec::new(), reply: Reply { text, frame: None } }
    } else if same_text(word, "screenshot") {
        answer(handle_screenshot(cmd.id, &handler.frame))
    } else if same_text(word, "mouse") {
        finish(handle_mouse(&state.codes, has_session, cmd))
    } else if same_text(word, "keyboard") {
        finish(handle_keyboard(has_session, cmd))
    } else if same_text(word, "key_sequence") {
        finish(handle_key_sequence(has_session, cmd))
    } else if same_text(word, "set_quality") {
        finish(handle_set_quality(has_session, cmd))
    } else if same_text(word, "set_fps") {
        finish(handle_set_fps(has_session, cmd))
    } else if same_text(word, "set_resolution") {
        finish(handle_set_resolution(has_session, cmd))
    } else if same_text(word, "ping") {
        answer(Reply { text: json_ok(cmd.id), frame: None })
    } else if same_text(word, "status") {
        answer(Reply {
            text: handle_status(cmd.id, handler.connected, has_session),
            frame: None,
        })
    } else {
        finish(refuse(cmd.id, join("unknown command: ", word).as_str()))
    }
}

/// A command that is answered at once is answered under its own id.
pub proof fn prompt_replies_carry_the_id<S>(
    state: AppState<S>,
    handler: HeadlessHandler,
    cmd: Command,
)
    ensures
        answers(prompt_plan(state, handler, cmd).members, cmd.id, true) || answers(
            prompt_plan(state, handler, cmd).members,
            cmd.id,
            false,
        ),
{
    replies_carry_the_id(
        cmd.id,
        Seq::empty(),
        handler.connected,
        state.session is Some,
        handler.frame,
    );
    refusals_carry_the_id(cmd.id);
}

/// Whatever is answered at once is answered under the id of the command.
pub proof fn answers_at_once_carry_the_id<S>(
    before: AppState<S>,
    handler: HeadlessHandler,
    cmd: Command,
    dispatch: Dispatch<S>,
    after: AppState<S>,
)
    requires
        dispatches(before, handler, cmd, dispatch, after),
        dispatch is Finished,
    ensures
        exists|members: Members| #[trigger]
            says(dispatch->reply.text@, members) && (answers(members, cmd.id, true) || answers(
                members,
                cmd.id,
                false,
            )),
{
    prompt_replies_carry_the_id(before, handler, cmd);
    refusals_carry_the_id(cmd.id);
    assert(says(dispatch->reply.text@, prompt_plan(before, handler, cmd).members) || says(
        dispatch->reply.text@,
        refused(cmd.id, "peer_id is required"@).members,
    ));
}

/// No session is lost: a command keeps the session, or hands it out to be
/// closed and leaves the client without one.
pub proof fn sessions_are_never_lost<S>(
    before: AppState<S>,
    handler: HeadlessHandler,
    cmd: Command,
    dispatch: Dispatch<S>,
    after: AppState<S>,
)
    requires
        dispatches(before, handler, cmd, dispatch, after),
    ensures
        (after.session == before.session && dispatch.closes() is None) || (after.session is None
            && dispatch.closes() == before.session),
{
}

/// Only connecting and disconnecting bear on which session a client has.
pub proof fn other_commands_keep_the_session<S>(
    before: AppState<S>,
    handler: HeadlessHandler,
    cmd: Command,
    dispatch: Dispatch<S>,
    after: AppState<S>,
)
    requires
        dispatches(before, handler, cmd, dispatch, after),
        cmd.cmd@ != "connect"@,
        cmd.cmd@ != "disconnect"@,
    ensures
        after.session == before.session,
        dispatch.closes() is None,
{
}

/// A refused command does nothing to the session.
pub proof fn refused_commands_do_nothing<S>(
    state: AppState<S>,
    handler: HeadlessHandler,
    cmd: Command,
)
    requires
        answers(prompt_plan(state, handler, cmd).members, cmd.id, false),
    ensures
        prompt_plan(state, handler, cmd).actions == Seq::<Action>::empty(),
{
    replies_carry_the_id(
        cmd.id,
        Seq::empty(),
        handler.connected,
        state.session is Some,
        handler.frame,
    );
}

/// Without a session no command does anything to one.
pub proof fn no_session_no_action<S>(state: AppState<S>, handler: HeadlessHandler, cmd: Command)
    requires
        state.session is None,
    ensures
        prompt_plan(state, handler, cmd).actions == Seq::<Action>::empty(),
{
}

/// A command that needs a session.
pub open spec fn needs_session(word: Seq<char>) -> bool {
    ||| word == "mouse"@
    ||| word == "keyboard"@
    ||| word == "key_sequence"@
    ||| word == "set_quality"@
    ||| word == "set_fps"@
    ||| word == "set_resolution"@
}

/// The words of the commands.
pub open spec fn words() -> Seq<Seq<char>> {
    seq![
        "connect"@,
        "get_id"@,
        "set_id"@,
        "disconnect"@,
        "screenshot"@,
        "mouse"@,
        "keyboard"@,
        "key_sequence"@,
        "set_quality"@,
        "set_fps"@,
        "set_resolution"@,
        "ping"@,
        "status"@,
    ]
}

/// No two commands share a word.
pub(crate) proof fn lemma_words()
    ensures
        forall|i: int, j: int|
            0 <= i < j < words().len() ==> #[trigger] words()[i] != #[trigger] words()[j],
        words()[0] == "connect"@,
        words()[1] == "get_id"@,
        words()[2] == "set_id"@,
        words()[3] == "disconnect"@,
        words()[4] == "screenshot"@,
        words()[5] == "mouse"@,
        words()[6] == "keyboard"@,
        words()[7] == "key_sequence"@,
        words()[8] == "set_quality"@,
        words()[9] == "set_fps"@,
        words()[10] == "set_resolution"@,
        words()[11] == "ping"@,
        words()[12] == "status"@,
{
    reveal_strlit("connect");
    reveal_strlit("get_id");
    reveal_strlit("set_id");
    reveal_strlit("disconnect");
    reveal_strlit("screenshot");
    reveal_strlit("mouse");
    reveal_strlit("keyboard");
    reveal_strlit("key_sequence");
    reveal_strlit("set_quality");
    reveal_strlit("set_fps");
    reveal_strlit("set_resolution");
    reveal_strlit("ping");
    reveal_strlit("status");
    assert("connect"@.len() == 7);
    assert("get_id"@.len() == 6);
    assert("set_id"@.len() == 6);
    assert("disconnect"@.len() == 10);
    assert("screenshot"@.len() == 10);
    assert("mouse"@.len() == 5);
    assert("keyboard"@.len() == 8);
    assert("key_sequence"@.len() == 12);
    assert("set_quality"@.len() == 11);
    assert("set_fps"@.len() == 7);
    assert("set_resolution"@.len() == 14);
    assert("ping"@.len() == 4);
    assert("status"@.len() == 6);
    assert("connect"@[0] == 'c');
    assert("set_fps"@[0] == 's');
    assert("get_id"@[0] == 'g');
    assert("set_id"@[0] == 's');
    assert("status"@[0] == 's');
    assert("set_id"@[1] == 'e');
    assert("status"@[1] == 't');
    assert("disconnect"@[0] == 'd');
    assert("screenshot"@[0] == 's');
}

/// Without a session, a command that needs one is refused, because it is not
/// connected.
pub proof fn commands_that_need_a_session_are_refused_without<S>(
    before: AppState<S>,
    handler: HeadlessHandler,
    cmd: Command,
    dispatch: Dispatch<S>,
    after: AppState<S>,
)
    requires
        needs_session(cmd.cmd@),
        before.session is None,
        dispatches(before, handler, cmd, dispatch, after),
    ensures
        dispatch.finishes(None, refused(cmd.id, "not connected"@), None),
        after.session is None,
{
    lemma_words();
}

/// Once a client has disconnected, its status says that it has no session.
pub proof fn no_session_after_disconnecting<S>(
    before: AppState<S>,
    handler: HeadlessHandler,
    disconnect: Command,
    disconnected: Dispatch<S>,
    after: AppState<S>,
    later: HeadlessHandler,
    status: Command,
    answered: Dispatch<S>,
    end: AppState<S>,
)
    requires
        disconnect.cmd@ == "disconnect"@,
        dispatches(before, handler, disconnect, disconnected, after),
        status.cmd@ == "status"@,
        dispatches(after, later, status, answered, end),
    ensures
        disconnected.finishes(before.session, accepted(disconnect.id, Seq::empty()), None),
        answered.finishes(
            None,
            (Plan {
                actions: Seq::empty(),
                members: status_members(status.id, later.connected, false),
            }),
            None,
        ),
{
    lemma_words();
}

} // verus!
