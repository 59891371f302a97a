//! WebSocket mode: each text message is a command, and events are pushed as
//! they come.

use vstd::prelude::*;

use crate::event::{event_members, SdkEvent};
use crate::reply::{says, Reply};

verus! {

/// A message to the client.
pub enum SocketMessage {
    Binary { bytes: Vec<u8> },
    Text { text: String },
}

/// Where a connection stands.
pub enum SocketState {
    /// A message is being read.
    Reading,
    /// A command is being carried out.
    Running,
    /// Its reply is being sent.
    Sending,
    /// The connection is over, and the session is being closed.
    Closing,
    /// It is over.
    Done,
}

/// What a connection waited for.
pub enum SocketEvent {
    /// A text message was read.
    Text { text: String },
    /// A binary message was read.
    Binary,
    Ping,
    Pong,
    Close,
    Frame,
    /// The message could not be read.
    Failed,
    /// The stream of messages is over.
    End,
    /// The command was carried out, and this is its reply.
    Ran { reply: Reply },
    /// The messages were sent, or could not be.
    Sent,
    /// The session was closed.
    Disconnected,
}

/// What a connection does next.
pub enum SocketAction {
    /// Read a message.
    Read,
    /// Carry out the command.
    Run { text: String },
    /// Send the messages in their order.
    Send { messages: Vec<SocketMessage> },
    /// Stop pushing events, and close the session, if there is one.
    Disconnect,
    /// Stop.
    Exit,
}

/// What a connection should do next.
pub enum SocketDecision {
    Read,
    Run { text: String },
    Send { messages: Seq<SocketMessage> },
    Disconnect,
    Exit,
}

impl SocketAction {
    /// The action is as decided.
    pub open spec fn is_as(self, decision: SocketDecision) -> bool {
        match decision {
            SocketDecision::Read => self is Read,
            SocketDecision::Run { text } => self is Run && self->text == text,
            SocketDecision::Send { messages } => self is Send && self->messages@ == messages,
            SocketDecision::Disconnect => self is Disconnect,
            SocketDecision::Exit => self is Exit,
        }
    }
}

/// The messages that a reply sends, in their order: the binary message, if
/// there is one, goes before the text, so that the client has it at hand when
/// the text arrives.
pub open spec fn reply_messages(reply: Reply) -> Seq<SocketMessage> {
    match reply.frame {
        Some(bytes) => seq![
            SocketMessage::Binary { bytes },
            SocketMessage::Text { text: reply.text },
        ],
        None => seq![SocketMessage::Text { text: reply.text }],
    }
}

/// The event is one of reading a message.
pub open spec fn is_read(event: SocketEvent) -> bool {
    !(event is Ran || event is Sent || event is Disconnected)
}

/// The event is one that the state waits for.
pub open spec fn awaits(state: SocketState, event: SocketEvent) -> bool {
    match state {
        SocketState::Reading => is_read(event),
        SocketState::Running => event is Ran,
        SocketState::Sending => event is Sent,
        SocketState::Closing => event is Disconnected,
        SocketState::Done => false,
    }
}

/// Where a connection goes from a state, and what it does: a text is a
/// command, and it is answered before the next message is read; the end or a
/// failure ends the connection; anything else is passed over.
pub open spec fn socket_next(
    state: SocketState,
    event: SocketEvent,
) -> (SocketState, SocketDecision) {
    match state {
        SocketState::Reading => if event is Text {
            (SocketState::Running, SocketDecision::Run { text: event->text })
        } else if event is Failed || event is End {
            (SocketState::Closing, SocketDecision::Disconnect)
        } else {
            (SocketState::Reading, SocketDecision::Read)
        },
        SocketState::Running => (
            SocketState::Sending,
            SocketDecision::Send { messages: reply_messages(event->reply) },
        ),
        SocketState::Sending => (SocketState::Reading, SocketDecision::Read),
        SocketState::Closing => (SocketState::Done, SocketDecision::Exit),
        SocketState::Done => (SocketState::Done, SocketDecision::Exit),
    }
}

/// The messages that a reply sends, in their order.
pub fn socket_output(reply: Reply) -> (messages: Vec<SocketMessage>)
    ensures
        messages@ == reply_messages(reply),
{
    let mut messages: Vec<SocketMessage> = Vec::new();
    match reply.frame {
        Some(bytes) => {
            messages.push(SocketMessage::Binary { bytes });
        },
        None => {},
    }
    messages.push(SocketMessage::Text { text: reply.text });
    assert(messages@ =~= reply_messages(reply));
    messages
}

/// Takes a connection one step further. It begins in `SocketState::Reading`,
/// by reading a message.
pub fn socket_step(state: SocketState, event: SocketEvent) -> (next: (SocketState, SocketAction))
    requires
        awaits(state, event),
    ensures
        next.0 == socket_next(state, event).0,
        next.1.is_as(socket_next(state, event).1),
{
    match (state, event) {
        (SocketState::Reading, SocketEvent::Text { text }) => (
            SocketState::Running,
            SocketAction::Run { text },
        ),
        (SocketState::Reading, SocketEvent::Failed) => (
            SocketState::Closing,
            SocketAction::Disconnect,
        ),
        (SocketState::Reading, SocketEvent::End) => (
            SocketState::Closing,
            SocketAction::Disconnect,
        ),
        (SocketState::Reading, _) => (SocketState::Reading, SocketAction::Read),
        (SocketState::Running, SocketEvent::Ran { reply }) => (
            SocketState::Sending,
            SocketAction::Send { messages: socket_output(reply) },
        ),
        (SocketState::Sending, _) => (SocketState::Reading, SocketAction::Read),
        _ => (SocketState::Done, SocketAction::Exit),
    }
}

/// What a connection does from a state on, while the events are those that it
/// waits for.
pub open spec fn socket_trace(
    state: SocketState,
    events: Seq<SocketEvent>,
) -> Seq<SocketDecision>
    decreases events.len(),
{
    if events.len() == 0 || !awaits(state, events[0]) {
        Seq::empty()
    } else {
        let (next, decision) = socket_next(state, events[0]);
        seq![decision] + socket_trace(next, events.drop_first())
    }
}

/// The messages that decisions send, one after the other.
pub open spec fn sent(decisions: Seq<SocketDecision>) -> Seq<SocketMessage>
    decreases decisions.len(),
{
    if decisions.len() == 0 {
        Seq::empty()
    } else {
        let rest = sent(decisions.drop_first());
        match decisions[0] {
            SocketDecision::Send { messages } => messages + rest,
            _ => rest,
        }
    }
}

/// What should be sent: the replies in the order in which the commands were
/// carried out.
pub open spec fn expected_messages(
    state: SocketState,
    events: Seq<SocketEvent>,
) -> Seq<SocketMessage>
    decreases events.len(),
{
    if events.len() == 0 || !awaits(state, events[0]) {
        Seq::empty()
    } else {
        let rest = expected_messages(socket_next(state, events[0]).0, events.drop_first());
        match events[0] {
            SocketEvent::Ran { reply } => reply_messages(reply) + rest,
            _ => rest,
        }
    }
}

/// The client is sent the reply of every command that was carried out, in that
/// order.
pub proof fn every_reply_is_sent_in_order(state: SocketState, events: Seq<SocketEvent>)
    ensures
        sent(socket_trace(state, events)) == expected_messages(state, events),
    decreases events.len(),
{
    if events.len() > 0 && awaits(state, events[0]) {
        let (next, decision) = socket_next(state, events[0]);
        let rest = socket_trace(next, events.drop_first());
        every_reply_is_sent_in_order(next, events.drop_first());
        assert(socket_trace(state, events) =~= seq![decision] + rest);
        assert((seq![decision] + rest).drop_first() =~= rest);
    }
}

/// A connection that is over closed the session first.
pub proof fn connections_close_the_session(
    state: SocketState,
    events: Seq<SocketEvent>,
    i: int,
)
    requires
        state is Reading || state is Running || state is Sending,
        0 <= i < socket_trace(state, events).len(),
        socket_trace(state, events)[i] is Exit,
    ensures
        exists|j: int| 0 <= j < i && #[trigger] socket_trace(state, events)[j] is Disconnect,
    decreases events.len(),
{
    let trace = socket_trace(state, events);
    let (next, decision) = socket_next(state, events[0]);
    let rest = socket_trace(next, events.drop_first());
    assert(trace =~= seq![decision] + rest);
    assert(trace[0] == decision);
    if !(decision is Disconnect) {
        assert(trace[i] == rest[i - 1]);
        connections_close_the_session(next, events.drop_first(), i - 1);
        let j = choose|j: int| 0 <= j < i - 1 && #[trigger] rest[j] is Disconnect;
        assert(trace[j + 1] is Disconnect);
    }
}

/// What came of waiting for an event, or of sending one.
pub enum ForwardInput {
    /// An event came.
    Event { event: SdkEvent },
    /// Events were lost, because they came too fast.
    Lagged,
    /// There will be no more events.
    Closed,
    /// An event was sent.
    Sent,
    /// An event could not be sent.
    SendFailed,
}

/// What is done about it.
pub enum ForwardStep {
    /// Wait for the next event.
    Receive,
    /// Send the text.
    Send { text: String },
    /// Subscribe to the events anew, and wait for the next one.
    Resubscribe,
    /// Stop.
    Stop,
}

/// Decides what is done about an event of the session: every event is sent,
/// until there are no more of them or the client cannot be reached.
pub fn forward_step(input: &ForwardInput) -> (step: ForwardStep)
    ensures
        match input {
            ForwardInput::Event { event } => step is Send && says(
                step->text@,
                event_members(*event),
            ),
            ForwardInput::Lagged => step is Resubscribe,
            ForwardInput::Sent => step is Receive,
            ForwardInput::Closed => step is Stop,
            ForwardInput::SendFailed => step is Stop,
        },
{
    match input {
        ForwardInput::Event { event } => ForwardStep::Send { text: event.to_json_string() },
        ForwardInput::Lagged => ForwardStep::Resubscribe,
        ForwardInput::Sent => ForwardStep::Receive,
        ForwardInput::Closed => ForwardStep::Stop,
        ForwardInput::SendFailed => ForwardStep::Stop,
    }
}

} // verus!
