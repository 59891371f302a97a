//! How pipe mode and a WebSocket connection go, step by step.

use vstd::prelude::*;
use vstd::utf8::*;

use crate::event::{disconnected_members, SdkEvent};
use crate::laws::replies::{ended_text, event_text, lemma_ended, lemma_event};
use crate::pipe::{line_bytes, pipe_event, pipe_farewell, pipe_output, pipe_step};
use crate::pipe::{PipeAction, PipeEvent, PipeState};
use crate::reply::{says, Reply};
use crate::text::{is_white_space, trim_end_of, trim_of, trim_start_of};
use crate::websocket::{forward_step, socket_output, socket_step, ForwardInput, ForwardStep};
use crate::websocket::{SocketAction, SocketEvent, SocketMessage, SocketState};

verus! {

/// There is nothing but white space.
pub open spec fn is_blank(text: Seq<char>) -> bool {
    forall|i: int| 0 <= i < text.len() ==> is_white_space(#[trigger] text[i])
}

/// The core is all of the text but the white space around it.
pub open spec fn is_core(core: Seq<char>, text: Seq<char>) -> bool {
    exists|from: int, to: int|
        #![trigger text.subrange(from, to)]
        {
            &&& 0 <= from < to <= text.len()
            &&& core == text.subrange(from, to)
            &&& is_blank(text.take(from))
            &&& is_blank(text.skip(to))
            &&& !is_white_space(core.first())
            &&& !is_white_space(core.last())
        }
}

proof fn lemma_trim_start(text: Seq<char>) -> (from: int)
    ensures
        0 <= from <= text.len(),
        trim_start_of(text) == text.skip(from),
        is_blank(text.take(from)),
        from < text.len() ==> !is_white_space(text[from]),
    decreases text.len(),
{
    if text.len() > 0 && is_white_space(text.first()) {
        let rest = text.drop_first();
        let n = lemma_trim_start(rest);
        assert(rest.skip(n) =~= text.skip(n + 1));
        assert forall|i: int| 0 <= i < n + 1 implies is_white_space(
            #[trigger] text.take(n + 1)[i],
        ) by {
            if i > 0 {
                assert(rest.take(n)[i - 1] == text[i]);
            }
        }
        if n < rest.len() {
            assert(rest[n] == text[n + 1]);
        }
        n + 1
    } else {
        assert(text.skip(0) =~= text);
        0
    }
}

proof fn lemma_trim_end(text: Seq<char>) -> (to: int)
    ensures
        0 <= to <= text.len(),
        trim_end_of(text) == text.take(to),
        is_blank(text.skip(to)),
        to > 0 ==> !is_white_space(text[to - 1]),
    decreases text.len(),
{
    if text.len() > 0 && is_white_space(text.last()) {
        let rest = text.drop_last();
        let n = lemma_trim_end(rest);
        assert(rest.take(n) =~= text.take(n));
        assert forall|i: int| 0 <= i < text.len() - n implies is_white_space(
            #[trigger] text.skip(n)[i],
        ) by {
            if n + i < rest.len() {
                assert(rest.skip(n)[i] == text[n + i]);
            }
        }
        n
    } else {
        assert(text.take(text.len() as int) =~= text);
        text.len() as int
    }
}

proof fn lemma_trim(text: Seq<char>)
    ensures
        trim_of(text).len() == 0 <==> is_blank(text),
        trim_of(text).len() > 0 ==> is_core(trim_of(text), text),
{
    let from = lemma_trim_start(text);
    let rest = text.skip(from);
    let n = lemma_trim_end(rest);
    let core = rest.take(n);
    assert(core == trim_of(text));
    if n > 0 {
        assert(core =~= text.subrange(from, from + n));
        assert(text.skip(from + n) =~= rest.skip(n));
        assert(core.first() == text[from]);
        assert(core.last() == rest[n - 1]);
        assert(is_core(core, text));
        if is_blank(text) {
            assert(is_white_space(text[from]));
        }
    } else {
        assert forall|i: int| 0 <= i < text.len() implies is_white_space(#[trigger] text[i]) by {
            if i < from {
                assert(text.take(from)[i] == text[i]);
            } else {
                assert(rest.skip(0)[i - from] == text[i]);
            }
        }
    }
}

/// A blank line is passed over. Any other is a command, without the white space
/// around it.
pub proof fn lines_are_commands(text: String, next: (PipeState, PipeAction))
    requires
        call_ensures(pipe_step, (PipeState::Reading, PipeEvent::Line { text }), next),
    ensures
        call_requires(pipe_step, (PipeState::Reading, PipeEvent::Line { text })),
        is_blank(text@) ==> next.0 is Reading && next.1 is Read,
        !is_blank(text@) ==> next.1 is Run && is_core(next.1->text@, text@),
{
    lemma_trim(text@);
}

/// The bytes are those of the reply: the binary message, if there is one, then
/// the text, then a line feed.
pub open spec fn are_bytes_of(bytes: Seq<u8>, reply: Reply) -> bool {
    bytes == match reply.frame {
        Some(message) => message@,
        None => Seq::<u8>::empty(),
    } + encode_utf8(reply.text@) + seq![0x0Au8]
}

/// The bytes are the line that the pipe was closed.
pub open spec fn are_farewell(bytes: Seq<u8>) -> bool {
    exists|text: Seq<char>| #[trigger]
        ended_text(text, "pipe closed"@) && bytes == encode_utf8(text) + seq![0x0Au8]
}

proof fn lemma_bytes(reply: Reply)
    ensures
        are_bytes_of(crate::pipe::reply_bytes(reply), reply),
{
    let text = encode_utf8(reply.text@);
    match reply.frame {
        Some(message) => {
            assert(message@ + text.push(0x0A) =~= message@ + text + seq![0x0Au8]);
        },
        None => {
            assert(text.push(0x0A) =~= Seq::<u8>::empty() + text + seq![0x0Au8]);
        },
    }
}

/// After a command was carried out its reply is written, and then the next line
/// is read.
pub proof fn piped_commands_are_answered(
    text: String,
    running: (PipeState, PipeAction),
    reply: Reply,
    writing: (PipeState, PipeAction),
    reading: (PipeState, PipeAction),
)
    requires
        call_ensures(pipe_step, (PipeState::Reading, PipeEvent::Line { text }), running),
        running.1 is Run,
        call_ensures(pipe_step, (running.0, PipeEvent::Ran { reply }), writing),
        call_ensures(pipe_step, (writing.0, PipeEvent::Written), reading),
    ensures
        call_requires(pipe_step, (running.0, PipeEvent::Ran { reply })),
        writing.1 is Write,
        are_bytes_of(writing.1->bytes@, reply),
        call_requires(pipe_step, (writing.0, PipeEvent::Written)),
        reading.1 is Read,
        reading.0 is Reading,
{
    lemma_bytes(reply);
}

/// At the end of the input, or where it cannot be read, the session is closed,
/// then the client is told, and then it is over.
pub proof fn the_end_of_the_input_is_the_end(
    end: PipeEvent,
    closing: (PipeState, PipeAction),
    parting: (PipeState, PipeAction),
    done: (PipeState, PipeAction),
    farewell: Vec<u8>,
)
    requires
        end is End || end is Failed,
        call_ensures(pipe_step, (PipeState::Reading, end), closing),
        call_ensures(pipe_step, (closing.0, PipeEvent::Disconnected), parting),
        call_ensures(pipe_step, (parting.0, PipeEvent::Written), done),
        call_ensures(pipe_farewell, (), farewell),
    ensures
        call_requires(pipe_step, (PipeState::Reading, end)),
        closing.1 is Disconnect,
        call_requires(pipe_step, (closing.0, PipeEvent::Disconnected)),
        parting.1 is Write,
        parting.1->bytes@ == farewell@,
        are_farewell(farewell@),
        call_requires(pipe_step, (parting.0, PipeEvent::Written)),
        done.1 is Exit,
        done.0 is Done,
{
    let text = choose|text: Seq<char>| #[trigger]
        says(text, disconnected_members("pipe closed"@)) && farewell@ == line_bytes(text);
    lemma_ended(text, "pipe closed"@);
    assert(line_bytes(text) =~= encode_utf8(text) + seq![0x0Au8]);
}

/// What a reply puts on the output.
pub proof fn outputs_hold_the_reply(reply: Reply, bytes: Vec<u8>)
    requires
        call_ensures(pipe_output, (reply,), bytes),
    ensures
        are_bytes_of(bytes@, reply),
{
    lemma_bytes(reply);
}

/// An error, and no other event, is put on the error output, as it is told.
pub proof fn only_errors_are_put_on_the_error_output(event: &SdkEvent, line: Option<String>)
    requires
        call_ensures(pipe_event, (event,), line),
    ensures
        event is Error ==> line is Some && event_text((line->0)@, *event),
        event !is Error ==> line is None,
{
    if event is Error {
        lemma_event((line->0)@, *event);
    }
}

/// A text message is a command as it stands. The end of the messages, or one
/// that cannot be read, ends the connection. Any other message is passed over.
pub proof fn text_messages_are_commands(event: SocketEvent, next: (SocketState, SocketAction))
    requires
        call_ensures(socket_step, (SocketState::Reading, event), next),
        event is Text || event is Binary || event is Ping || event is Pong || event is Close
            || event is Frame || event is Failed || event is End,
    ensures
        call_requires(socket_step, (SocketState::Reading, event)),
        event is Text ==> next.1 is Run && next.1->text@ == event->text@,
        event is Failed || event is End ==> next.1 is Disconnect,
        event is Binary || event is Ping || event is Pong || event is Close || event is Frame
            ==> next.1 is Read && next.0 is Reading,
{
}

/// The messages are those of the reply: the text last, and before it the binary
/// message, if there is one.
pub open spec fn are_messages_of(messages: Seq<SocketMessage>, reply: Reply) -> bool {
    &&& messages.len() == if reply.frame is Some {
        2int
    } else {
        1int
    }
    &&& messages.last() is Text
    &&& messages.last()->text@ == reply.text@
    &&& reply.frame is Some ==> messages[0] is Binary && messages[0]->bytes@
        == (reply.frame->0)@
}

/// What a reply sends.
pub proof fn messages_hold_the_reply(reply: Reply, messages: Vec<SocketMessage>)
    requires
        call_ensures(socket_output, (reply,), messages),
    ensures
        are_messages_of(messages@, reply),
{
}

/// After a command was carried out its reply is sent, and then the next message
/// is read.
pub proof fn sent_commands_are_answered(
    text: String,
    running: (SocketState, SocketAction),
    reply: Reply,
    sending: (SocketState, SocketAction),
    reading: (SocketState, SocketAction),
)
    requires
        call_ensures(socket_step, (SocketState::Reading, SocketEvent::Text { text }), running),
        call_ensures(socket_step, (running.0, SocketEvent::Ran { reply }), sending),
        call_ensures(socket_step, (sending.0, SocketEvent::Sent), reading),
    ensures
        call_requires(socket_step, (running.0, SocketEvent::Ran { reply })),
        sending.1 is Send,
        are_messages_of(sending.1->messages@, reply),
        call_requires(socket_step, (sending.0, SocketEvent::Sent)),
        reading.1 is Read,
        reading.0 is Reading,
{
}

/// A connection that ends closes the session, and then it is over.
pub proof fn ended_connections_close_the_session(
    end: SocketEvent,
    closing: (SocketState, SocketAction),
    done: (SocketState, SocketAction),
)
    requires
        end is End || end is Failed,
        call_ensures(socket_step, (SocketState::Reading, end), closing),
        call_ensures(socket_step, (closing.0, SocketEvent::Disconnected), done),
    ensures
        closing.1 is Disconnect,
        call_requires(socket_step, (closing.0, SocketEvent::Disconnected)),
        done.1 is Exit,
        done.0 is Done,
{
}

/// Every event is sent to the client as it is told, and the next one is waited
/// for, until there are no more or the client cannot be reached. Where events
/// were lost, the next one is waited for all the same.
pub proof fn events_are_pushed_until_the_end(input: &ForwardInput, step: ForwardStep)
    requires
        call_ensures(forward_step, (input,), step),
    ensures
        input is Event ==> step is Send && event_text(step->text@, input->event),
        input is Sent ==> step is Receive,
        input is Lagged ==> step is Resubscribe,
        input is Closed || input is SendFailed ==> step is Stop,
{
    if input is Event {
        lemma_event(step->text@, input->event);
    }
}

} // verus!
