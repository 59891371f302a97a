//! How the session of a client is opened and closed.

use vstd::prelude::*;

use crate::command::Command;
use crate::laws::replies::{accepts_text, connecting_text};
use crate::laws::replies::{lemma_accepts, lemma_connecting, lemma_refuses, refuses_text};
use crate::mouse::MouseCodes;
use crate::session::{connect_opened, connect_step, handle_connect, handle_disconnect, AppState};
use crate::session::{ConnectStart, ConnectStep, ConnectTask};

verus! {

/// A client begins without a session, and what it has is what it is asked for.
pub proof fn clients_have_the_session_that_was_opened<S>(
    codes: MouseCodes,
    fresh: AppState<S>,
    state: &AppState<S>,
    session: Option<&S>,
)
    requires
        call_ensures(AppState::<S>::new, (codes,), fresh),
        call_ensures(AppState::<S>::get_session, (state,), session),
    ensures
        fresh.session is None,
        fresh.codes == codes,
        state.session is Some <==> session is Some,
        state.session is Some ==> *(session->0) == state.session->0,
{
}

/// Disconnecting hands out the session that was opened, to be closed, and
/// leaves none, so that disconnecting again hands out nothing.
pub proof fn sessions_are_handed_out_once<S>(
    state: &mut AppState<S>,
    id: u64,
    session: S,
    text: String,
    first: &mut AppState<S>,
    first_id: u64,
    closed: (Option<S>, String),
    second: &mut AppState<S>,
    second_id: u64,
    nothing: (Option<S>, String),
)
    requires
        call_ensures(connect_opened::<S>, (state, id, session), text),
        *old(first) == *final(state),
        call_ensures(handle_disconnect::<S>, (first, first_id), closed),
        *old(second) == *final(first),
        call_ensures(handle_disconnect::<S>, (second, second_id), nothing),
    ensures
        connecting_text(text@, id),
        closed.0 == Some(session),
        accepts_text(closed.1@, first_id),
        final(first).session is None,
        nothing.0 is None,
        accepts_text(nothing.1@, second_id),
        final(second).codes == old(state).codes,
{
    lemma_connecting(text@, id);
    lemma_accepts(closed.1@, first_id);
    lemma_accepts(nothing.1@, second_id);
}

/// An attempt to connect to nobody is refused and leaves the session. Any other
/// hands out the session to be closed, and goes on with the peer and the
/// password that were given.
pub proof fn attempts_need_a_peer<S>(
    state: &mut AppState<S>,
    cmd: &Command,
    start: ConnectStart<S>,
)
    requires
        call_ensures(handle_connect::<S>, (state, cmd), start),
    ensures
        cmd.peer_id@.len() == 0 ==> {
            &&& start is Refused
            &&& refuses_text(start->reply@, cmd.id, "peer_id is required"@)
            &&& *final(state) == *old(state)
        },
        cmd.peer_id@.len() > 0 ==> {
            &&& start is Begun
            &&& start->close == old(state).session
            &&& start->task.id == cmd.id
            &&& start->task.peer_id@ == cmd.peer_id@
            &&& start->task.password@ == cmd.password@
            &&& start->task.waited == 0
            &&& final(state).session is None
            &&& final(state).codes == old(state).codes
        },
{
    if cmd.peer_id@.len() == 0 {
        lemma_refuses(start->reply@, cmd.id, "peer_id is required"@);
    }
}

/// An attempt waits two hundred milliseconds while the old session is
/// connected, thirty times at the most, and opens the session that was asked
/// for as soon as the old one is down or the waiting is over.
pub proof fn attempts_wait_thirty_times_at_most(
    task: ConnectTask,
    connected: bool,
    step: ConnectStep,
)
    requires
        call_ensures(connect_step, (task, connected), step),
    ensures
        connected && task.waited < 30 ==> {
            &&& step is Sleep
            &&& step->millis == 200
            &&& step->task.waited == task.waited + 1
            &&& step->task.id == task.id
            &&& step->task.peer_id@ == task.peer_id@
            &&& step->task.password@ == task.password@
        },
        !connected || task.waited >= 30 ==> {
            &&& step is Open
            &&& step->Open_id == task.id
            &&& step->peer_id@ == task.peer_id@
            &&& step->password@ == task.password@
        },
{
}

/// A session that was opened is the client's own, whatever it had before, and
/// the client is told that it is connecting.
pub proof fn opened_sessions_become_the_clients<S>(
    state: &mut AppState<S>,
    id: u64,
    session: S,
    text: String,
)
    requires
        call_ensures(connect_opened::<S>, (state, id, session), text),
    ensures
        final(state).session == Some(session),
        final(state).codes == old(state).codes,
        connecting_text(text@, id),
{
    lemma_connecting(text@, id);
}

} // verus!
