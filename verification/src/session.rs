//! Opening and closing the remote session of a client.
//!
//! The session itself is of any type: whoever runs the client opens and closes
//! it. A connection attempt closes the session that is there, waits until it is
//! down, and then opens the new one.

use vstd::prelude::*;

use crate::command::Command;
use crate::mouse::MouseCodes;
use crate::reply::{connecting_members, connecting_reply, error_members, json_error, json_ok};
use crate::reply::{ok_members, says};

verus! {

/// How often the old session is given time to go down.
pub const MAX_WAITS: u32 = 30;

/// How long the old session is given each time.
pub const WAIT_STEP_MILLIS: u64 = 200;

/// What a client has: at most one session, and the codes of the protocol.
pub struct AppState<S> {
    pub session: Option<S>,
    pub codes: MouseCodes,
}

impl<S> AppState<S> {
    /// A client without a session.
    pub fn new(codes: MouseCodes) -> (state: Self)
        ensures
            state.session is None,
            state.codes == codes,
    {
        AppState { session: None, codes }
    }

    /// The session, if there is one.
    pub fn get_session(&self) -> (session: Option<&S>)
        ensures
            session == match self.session {
                Some(open) => Some(&open),
                None => None,
            },
    {
        match &self.session {
            Some(open) => Some(open),
            None => None,
        }
    }
}

/// Gives up the session. Returns it, so that it can be closed, and the reply.
pub fn handle_disconnect<S>(state: &mut AppState<S>, id: u64) -> (result: (Option<S>, String))
    ensures
        result.0 == old(state).session,
        says(result.1@, ok_members(id)),
        final(state).session is None,
        final(state).codes == old(state).codes,
{
    let session: Option<S> = state.session.take();
    (session, json_ok(id))
}

/// A connection attempt under way.
pub struct ConnectTask {
    pub id: u64,
    pub peer_id: String,
    pub password: String,
    /// How often the old session was given time to go down.
    pub waited: u32,
}

/// How a connection attempt begins.
pub enum ConnectStart<S> {
    /// There is nobody to connect to.
    Refused { reply: String },
    /// The old session, if there is one, is to be closed, and then the attempt
    /// goes on.
    Begun { close: Option<S>, task: ConnectTask },
}

/// What a connection attempt does next.
pub enum ConnectStep {
    /// Wait, and look again whether the old session is down.
    Sleep { millis: u64, task: ConnectTask },
    /// Open the session.
    Open { id: u64, peer_id: String, password: String },
}

/// What a connection attempt does next: it waits while the old session is
/// still connected, but not for ever.
pub open spec fn connect_next(task: ConnectTask, connected: bool) -> ConnectStep {
    if connected && task.waited < MAX_WAITS {
        ConnectStep::Sleep {
            millis: WAIT_STEP_MILLIS,
            task: ConnectTask { waited: (task.waited + 1) as u32, ..task },
        }
    } else {
        ConnectStep::Open { id: task.id, peer_id: task.peer_id, password: task.password }
    }
}

/// The task is that of the command, and has not waited yet.
pub open spec fn begins(task: ConnectTask, cmd: Command) -> bool {
    &&& task.id == cmd.id
    &&& task.peer_id == cmd.peer_id
    &&& task.password == cmd.password
    &&& task.waited == 0
}

/// Begins a connection attempt. Without a peer id it is refused, and the
/// session that is there stays.
pub fn handle_connect<S>(state: &mut AppState<S>, cmd: &Command) -> (start: ConnectStart<S>)
    ensures
        match start {
            ConnectStart::Refused { reply } => {
                &&& cmd.peer_id@.len() == 0
                &&& says(reply@, error_members(cmd.id, "peer_id is required"@))
                &&& *final(state) == *old(state)
            },
            ConnectStart::Begun { close, task } => {
                &&& cmd.peer_id@.len() > 0
                &&& close == old(state).session
                &&& begins(task, *cmd)
                &&& final(state).session is None
                &&& final(state).codes == old(state).codes
            },
        },
{
    if cmd.peer_id.as_str().is_empty() {
        return ConnectStart::Refused { reply: json_error(cmd.id, "peer_id is required") };
    }
    let (close, _reply): (Option<S>, String) = handle_disconnect(state, 0);
    ConnectStart::Begun {
        close,
        task: ConnectTask {
            id: cmd.id,
            peer_id: cmd.peer_id.clone(),
            password: cmd.password.clone(),
            waited: 0,
        },
    }
}

/// Decides what a connection attempt does next, from whether the old session
/// is still connected.
pub fn connect_step(task: ConnectTask, connected: bool) -> (step: ConnectStep)
    ensures
        step == connect_next(task, connected),
{
    if connected && task.waited < MAX_WAITS {
        ConnectStep::Sleep {
            millis: WAIT_STEP_MILLIS,
            task: ConnectTask { waited: task.waited + 1, ..task },
        }
    } else {
        ConnectStep::Open { id: task.id, peer_id: task.peer_id, password: task.password }
    }
}

/// The session was opened: it becomes the session of the client.
pub fn connect_opened<S>(state: &mut AppState<S>, id: u64, session: S) -> (reply: String)
    ensures
        says(reply@, connecting_members(id)),
        final(state).session == Some(session),
        final(state).codes == old(state).codes,
{
    state.session = Some(session);
    connecting_reply(id)
}

/// How often an attempt sleeps, where `connected` holds in turn whether the
/// old session was still connected each time that it looked.
pub open spec fn sleeps(task: ConnectTask, connected: Seq<bool>) -> nat
    decreases connected.len(),
{
    if connected.len() == 0 {
        0
    } else {
        match connect_next(task, connected[0]) {
            ConnectStep::Sleep { millis, task: next } => 1 + sleeps(next, connected.drop_first()),
            ConnectStep::Open { .. } => 0,
        }
    }
}

/// The task after it slept `n` times.
pub open spec fn after_sleeps(task: ConnectTask, n: nat) -> ConnectTask {
    ConnectTask { waited: (task.waited + n) as u32, ..task }
}

/// A connection attempt never sleeps more than thirty times, so it ends, and
/// it ends by opening the session that the command asked for: at the first
/// look that finds the old session down, or when the waiting is over.
pub proof fn connection_attempts_end(task: ConnectTask, connected: Seq<bool>)
    requires
        task.waited <= MAX_WAITS,
        connected.len() > MAX_WAITS - task.waited,
    ensures
        sleeps(task, connected) <= MAX_WAITS - task.waited,
        forall|i: int| 0 <= i < sleeps(task, connected) ==> #[trigger] connected[i],
        sleeps(task, connected) < MAX_WAITS - task.waited ==> !connected[sleeps(
            task,
            connected,
        ) as int],
        connect_next(
            after_sleeps(task, sleeps(task, connected)),
            connected[sleeps(task, connected) as int],
        ) == (ConnectStep::Open { id: task.id, peer_id: task.peer_id, password: task.password }),
    decreases connected.len(),
{
    if connected[0] && task.waited < MAX_WAITS {
        let next = ConnectTask { waited: (task.waited + 1) as u32, ..task };
        let rest = connected.drop_first();
        connection_attempts_end(next, rest);
        assert forall|i: int| 0 <= i < sleeps(task, connected) implies #[trigger] connected[i] by {
            if i > 0 {
                assert(rest[i - 1]);
            }
        }
    }
}

} // verus!
