//! Pipe mode: commands come in one on a line, replies go out the same way.
//!
//! A binary message goes out before the line that it belongs to, so that a
//! reader has it at hand when the line arrives.

use vstd::prelude::*;
use vstd::utf8::*;

use crate::event::{disconnected_members, event_members, SdkEvent};
use crate::frame::{frame_message, frame_message_gives_back_the_frame, le_bytes, le_number};
use crate::frame::{frame_message_opens_with_rsdk, LatestFrame, FRAME_MAGIC};
use crate::json::json_text;
use crate::reply::{is_object_line, says, screenshot_message, Reply};
use crate::text::trim_of;

verus! {

/// Where pipe mode stands.
pub enum PipeState {
    /// A line is being read.
    Reading,
    /// A command is being carried out.
    Running,
    /// Its reply is being written.
    Writing,
    /// The input is over, and the session is being closed.
    Closing,
    /// The farewell is being written.
    Parting,
    /// It is over.
    Done,
}

/// What pipe mode waited for.
pub enum PipeEvent {
    /// A line was read.
    Line { text: String },
    /// The input is over.
    End,
    /// The input could not be read.
    Failed,
    /// The command was carried out, and this is its reply.
    Ran { reply: Reply },
    /// The bytes were written.
    Written,
    /// The session was closed.
    Disconnected,
}

/// What pipe mode does next.
pub enum PipeAction {
    /// Read a line.
    Read,
    /// Carry out the command.
    Run { text: String },
    /// Write the bytes to the output, all of them.
    Write { bytes: Vec<u8> },
    /// Close the session, if there is one.
    Disconnect,
    /// Stop.
    Exit,
}

/// What pipe mode should do next.
pub enum PipeDecision {
    Read,
    Run { text: Seq<char> },
    Write { bytes: Seq<u8> },
    Disconnect,
    Exit,
}

impl PipeAction {
    /// The action is as decided.
    pub open spec fn is_as(self, decision: PipeDecision) -> bool {
        match decision {
            PipeDecision::Read => self is Read,
            PipeDecision::Run { text } => self is Run && self->text@ == text,
            PipeDecision::Write { bytes } => self is Write && self->bytes@ == bytes,
            PipeDecision::Disconnect => self is Disconnect,
            PipeDecision::Exit => self is Exit,
        }
    }
}

/// The event is one that the state waits for.
pub open spec fn awaits(state: PipeState, event: PipeEvent) -> bool {
    match state {
        PipeState::Reading => event is Line || event is End || event is Failed,
        PipeState::Running => event is Ran,
        PipeState::Writing => event is Written,
        PipeState::Closing => event is Disconnected,
        PipeState::Parting => event is Written,
        PipeState::Done => false,
    }
}

/// Where pipe mode goes from a state, and what it does. Blank lines are passed
/// over, and white space around a command is not part of it. Each command is
/// answered before the next line is read. At the end of the input the session
/// is closed, and then the client is told.
pub open spec fn pipe_next(state: PipeState, event: PipeEvent) -> (PipeState, PipeDecision) {
    match state {
        PipeState::Reading => if event is Line {
            if trim_of(event->text@).len() == 0 {
                (PipeState::Reading, PipeDecision::Read)
            } else {
                (PipeState::Running, PipeDecision::Run { text: trim_of(event->text@) })
            }
        } else {
            (PipeState::Closing, PipeDecision::Disconnect)
        },
        PipeState::Running => (
            PipeState::Writing,
            PipeDecision::Write { bytes: reply_bytes(event->reply) },
        ),
        PipeState::Writing => (PipeState::Reading, PipeDecision::Read),
        PipeState::Closing => (PipeState::Parting, PipeDecision::Write { bytes: farewell() }),
        PipeState::Parting => (PipeState::Done, PipeDecision::Exit),
        PipeState::Done => (PipeState::Done, PipeDecision::Exit),
    }
}

/// The bytes of a line.
pub open spec fn line_bytes(text: Seq<char>) -> Seq<u8> {
    encode_utf8(text).push(0x0A)
}

/// The bytes of a reply: the binary message, if there is one, and then the
/// line.
pub open spec fn output_bytes(message: Option<Seq<u8>>, text: Seq<char>) -> Seq<u8> {
    match message {
        Some(bytes) => bytes + line_bytes(text),
        None => line_bytes(text),
    }
}

/// The bytes that a reply puts on the output.
pub open spec fn reply_bytes(reply: Reply) -> Seq<u8> {
    output_bytes(reply.message(), reply.text@)
}

/// The bytes that close the output: the event that the pipe was closed.
pub open spec fn farewell() -> Seq<u8> {
    line_bytes(json_text(disconnected_members("pipe closed"@)))
}

fn push_line(out: &mut Vec<u8>, text: &str)
    ensures
        final(out)@ == old(out)@ + line_bytes(text@),
{
    let bytes: &[u8] = text.as_bytes();
    out.extend_from_slice(bytes);
    assert(out@ =~= old(out)@ + bytes@);
    out.push(0x0A);
    assert(out@ =~= old(out)@ + line_bytes(text@));
}

/// The bytes that a reply puts on the output.
pub fn pipe_output(reply: Reply) -> (bytes: Vec<u8>)
    ensures
        bytes@ == reply_bytes(reply),
{
    let mut out: Vec<u8> = match reply.frame {
        Some(message) => message,
        None => Vec::new(),
    };
    push_line(&mut out, reply.text.as_str());
    assert(out@ =~= output_bytes(reply.message(), reply.text@));
    out
}

/// The bytes that close the output: the event that the pipe was closed.
pub fn pipe_farewell() -> (bytes: Vec<u8>)
    ensures
        bytes@ == farewell(),
        exists|text: Seq<char>| #[trigger]
            says(text, disconnected_members("pipe closed"@)) && bytes@ == line_bytes(text),
{
    let event: SdkEvent = SdkEvent::Disconnected { reason: "pipe closed".to_owned() };
    let text: String = event.to_json_string();
    let mut out: Vec<u8> = Vec::new();
    push_line(&mut out, text.as_str());
    assert(out@ =~= line_bytes(text@));
    out
}

/// Takes pipe mode one step further. It begins in `PipeState::Reading`, by
/// reading a line.
pub fn pipe_step(state: PipeState, event: PipeEvent) -> (next: (PipeState, PipeAction))
    requires
        awaits(state, event),
    ensures
        next.0 == pipe_next(state, event).0,
        next.1.is_as(pipe_next(state, event).1),
{
    match (state, event) {
        (PipeState::Reading, PipeEvent::Line { text }) => {
            let command: &str = text.as_str().trim();
            if command.is_empty() {
                (PipeState::Reading, PipeAction::Read)
            } else {
                (PipeState::Running, PipeAction::Run { text: command.to_owned() })
            }
        },
        (PipeState::Reading, _) => (PipeState::Closing, PipeAction::Disconnect),
        (PipeState::Running, PipeEvent::Ran { reply }) => (
            PipeState::Writing,
            PipeAction::Write { bytes: pipe_output(reply) },
        ),
        (PipeState::Writing, _) => (PipeState::Reading, PipeAction::Read),
        (PipeState::Closing, _) => (
            PipeState::Parting,
            PipeAction::Write { bytes: pipe_farewell() },
        ),
        _ => (PipeState::Done, PipeAction::Exit),
    }
}

/// The line that an event puts on the error output, which is kept apart from
/// the replies: only errors are told.
pub fn pipe_event(event: &SdkEvent) -> (line: Option<String>)
    ensures
        event is Error <==> line is Some,
        line is Some ==> says((line->0)@, event_members(*event)),
{
    match event {
        SdkEvent::Error { .. } => Some(event.to_json_string()),
        _ => None,
    }
}

/// The bytes up to the first line feed.
pub open spec fn first_line(bytes: Seq<u8>) -> Seq<u8>
    decreases bytes.len(),
{
    if bytes.len() == 0 || bytes[0] == 0x0A {
        Seq::empty()
    } else {
        seq![bytes[0]] + first_line(bytes.drop_first())
    }
}

/// The length of the binary message at the start of an output, if one stands
/// there: the header, and as many rows of pixels as it announces.
pub open spec fn message_len(stream: Seq<u8>) -> int {
    if stream.len() >= 20 && stream.take(4) == le_bytes(FRAME_MAGIC) {
        20 + le_number(stream, 16) * le_number(stream, 8)
    } else {
        0
    }
}

/// What a reader takes off an output: the binary message, the line, and what
/// comes after them.
pub open spec fn read_output(stream: Seq<u8>) -> (Seq<u8>, Seq<u8>, Seq<u8>) {
    let message = stream.take(message_len(stream));
    let line = first_line(stream.skip(message_len(stream)));
    (message, line, stream.skip(message_len(stream) + line.len() + 1))
}

proof fn lemma_first_line(line: Seq<u8>, rest: Seq<u8>)
    requires
        !line.contains(0x0Au8),
    ensures
        first_line(line.push(0x0A) + rest) == line,
    decreases line.len(),
{
    let bytes = line.push(0x0A) + rest;
    if line.len() > 0 {
        assert(line.contains(line[0]));
        assert(!line.drop_first().contains(0x0Au8)) by {
            if line.drop_first().contains(0x0Au8) {
                let i = choose|i: int|
                    0 <= i < line.drop_first().len() && line.drop_first()[i] == 0x0Au8;
                assert(line[i + 1] == 0x0Au8);
            }
        }
        lemma_first_line(line.drop_first(), rest);
        assert(bytes.drop_first() =~= line.drop_first().push(0x0A) + rest);
        assert(first_line(bytes) =~= line);
    } else {
        assert(bytes[0] == 0x0A);
        assert(first_line(bytes) =~= line);
    }
}

proof fn lemma_scalar_bytes(scalar: u32)
    requires
        is_scalar(scalar),
    ensures
        encode_scalar(scalar).len() > 0,
        scalar <= 0x7F ==> encode_scalar(scalar) == seq![scalar as u8],
        forall|i: int|
            0 <= i < encode_scalar(scalar).len() && scalar > 0x7F ==> #[trigger] encode_scalar(
                scalar,
            )[i] >= 0x80,
{
    assert(scalar <= 0x7F ==> (scalar & 0x7F) as u8 == scalar as u8) by (bit_vector);
    assert(0xC0 | ((scalar >> 6) & 0x1F) as u8 >= 0x80) by (bit_vector);
    assert(0xE0 | ((scalar >> 12) & 0x0F) as u8 >= 0x80) by (bit_vector);
    assert(0xF0 | ((scalar >> 18) & 0x7) as u8 >= 0x80) by (bit_vector);
    assert(0x80 | (scalar & 0x3F) as u8 >= 0x80) by (bit_vector);
    assert(0x80 | ((scalar >> 6) & 0x3F) as u8 >= 0x80) by (bit_vector);
    assert(0x80 | ((scalar >> 12) & 0x3F) as u8 >= 0x80) by (bit_vector);
}

/// A text without a line feed is encoded without one.
proof fn lemma_no_line_feed(text: Seq<char>)
    requires
        !text.contains('\n'),
    ensures
        !encode_utf8(text).contains(0x0Au8),
    decreases text.len(),
{
    if text.len() > 0 {
        let scalar = text[0] as u32;
        let head = encode_scalar(scalar);
        let tail = encode_utf8(text.drop_first());
        char_is_scalar(text[0]);
        lemma_scalar_bytes(scalar);
        assert(text.contains(text[0]));
        assert(scalar != 0x0A) by {
            char_u32_cast(text[0], scalar);
            assert(0x0Au32 as char == '\n');
        }
        assert(!text.drop_first().contains('\n')) by {
            if text.drop_first().contains('\n') {
                let i = choose|i: int|
                    0 <= i < text.drop_first().len() && text.drop_first()[i] == '\n';
                assert(text[i + 1] == '\n');
            }
        }
        lemma_no_line_feed(text.drop_first());
        if encode_utf8(text).contains(0x0Au8) {
            let i = choose|i: int|
                0 <= i < encode_utf8(text).len() && encode_utf8(text)[i] == 0x0Au8;
            if i < head.len() {
                assert(head[i] == 0x0Au8);
            } else {
                assert(tail[i - head.len()] == 0x0Au8);
                assert(tail.contains(0x0Au8));
            }
        }
    }
}

/// The first byte of a reply line is that of a brace, so a line is never taken
/// for a binary message.
proof fn lemma_line_is_no_message(text: Seq<char>, rest: Seq<u8>)
    requires
        is_object_line(text),
    ensures
        message_len(line_bytes(text) + rest) == 0,
{
    let stream = line_bytes(text) + rest;
    char_is_scalar(text[0]);
    lemma_scalar_bytes(text[0] as u32);
    assert(encode_utf8(text)[0] == 0x7B);
    assert(stream[0] == 0x7B);
    if stream.len() >= 20 && stream.take(4) == le_bytes(FRAME_MAGIC) {
        assert(le_bytes(FRAME_MAGIC)[0] == 0x52);
        assert(stream.take(4)[0] == stream[0]);
    }
}

/// A reader gets back what was written, whatever is written after it: the
/// binary message, if there is one, and the line. The frames are those whose
/// pixels are whole rows and whose dimensions fit the header.
pub proof fn readers_get_back_the_reply(
    frame: Option<LatestFrame>,
    text: Seq<char>,
    rest: Seq<u8>,
)
    requires
        is_object_line(text),
        frame matches Some(latest) ==> latest.w <= u32::MAX && latest.h <= u32::MAX
            && latest.stride <= u32::MAX && latest.data@.len() == latest.stride * latest.h,
    ensures
        read_output(output_bytes(screenshot_message(frame), text) + rest) == (
            match screenshot_message(frame) {
                Some(message) => message,
                None => Seq::empty(),
            },
            encode_utf8(text),
            rest,
        ),
{
    let stream = output_bytes(screenshot_message(frame), text) + rest;
    let tail = line_bytes(text) + rest;
    let message = match screenshot_message(frame) {
        Some(message) => message,
        None => Seq::empty(),
    };
    assert(stream =~= message + tail);
    assert(message_len(stream) == message.len()) by {
        match frame {
            Some(latest) => {
                frame_message_gives_back_the_frame(latest);
                frame_message_opens_with_rsdk(latest);
                assert(stream.take(4) =~= frame_message(latest).take(4));
                assert(le_number(stream, 8) == le_number(frame_message(latest), 8));
                assert(le_number(stream, 16) == le_number(frame_message(latest), 16));
            },
            None => {
                assert(stream =~= tail);
                lemma_line_is_no_message(text, rest);
            },
        }
    }
    assert(stream.take(message.len() as int) =~= message);
    assert(stream.skip(message.len() as int) =~= tail);
    lemma_no_line_feed(text);
    lemma_first_line(encode_utf8(text), rest);
    assert(stream.skip((message.len() + encode_utf8(text).len() + 1) as int) =~= rest);
}

/// What pipe mode does from a state on, while the events are those that it
/// waits for.
pub open spec fn pipe_trace(state: PipeState, events: Seq<PipeEvent>) -> Seq<PipeDecision>
    decreases events.len(),
{
    if events.len() == 0 || !awaits(state, events[0]) {
        Seq::empty()
    } else {
        let (next, decision) = pipe_next(state, events[0]);
        seq![decision] + pipe_trace(next, events.drop_first())
    }
}

/// The bytes that decisions put on the output, one after the other.
pub open spec fn written(decisions: Seq<PipeDecision>) -> Seq<u8>
    decreases decisions.len(),
{
    if decisions.len() == 0 {
        Seq::empty()
    } else {
        let rest = written(decisions.drop_first());
        match decisions[0] {
            PipeDecision::Write { bytes } => bytes + rest,
            _ => rest,
        }
    }
}

/// What the output should hold: the replies in the order in which the commands
/// were carried out, and the farewell once the session is closed.
pub open spec fn expected_output(state: PipeState, events: Seq<PipeEvent>) -> Seq<u8>
    decreases events.len(),
{
    if events.len() == 0 || !awaits(state, events[0]) {
        Seq::empty()
    } else {
        let rest = expected_output(pipe_next(state, events[0]).0, events.drop_first());
        match events[0] {
            PipeEvent::Ran { reply } => reply_bytes(reply) + rest,
            PipeEvent::Disconnected => farewell() + rest,
            _ => rest,
        }
    }
}

/// The output holds the reply of every command that was carried out, in that
/// order, then the farewell, and nothing else.
pub proof fn the_output_is_the_replies_and_the_farewell(
    state: PipeState,
    events: Seq<PipeEvent>,
)
    ensures
        written(pipe_trace(state, events)) == expected_output(state, events),
    decreases events.len(),
{
    if events.len() > 0 && awaits(state, events[0]) {
        let (next, decision) = pipe_next(state, events[0]);
        let rest = pipe_trace(next, events.drop_first());
        the_output_is_the_replies_and_the_farewell(next, events.drop_first());
        assert(pipe_trace(state, events) =~= seq![decision] + rest);
        assert((seq![decision] + rest).drop_first() =~= rest);
    }
}

/// A command that is carried out is answered before anything else is done.
pub proof fn commands_are_answered_at_once(state: PipeState, events: Seq<PipeEvent>, i: int)
    requires
        0 <= i,
        i + 1 < pipe_trace(state, events).len(),
        pipe_trace(state, events)[i] is Run,
    ensures
        pipe_trace(state, events)[i + 1] is Write,
    decreases events.len(),
{
    let (next, decision) = pipe_next(state, events[0]);
    let rest = pipe_trace(next, events.drop_first());
    assert(pipe_trace(state, events) =~= seq![decision] + rest);
    if i > 0 {
        commands_are_answered_at_once(next, events.drop_first(), i - 1);
    } else {
        assert(pipe_trace(state, events)[1] == rest[0]);
    }
}

/// Once the session is closed, no line is read and no command is carried out.
pub proof fn nothing_runs_after_the_end(
    state: PipeState,
    events: Seq<PipeEvent>,
    i: int,
    j: int,
)
    requires
        0 <= i < j < pipe_trace(state, events).len(),
        pipe_trace(state, events)[i] is Disconnect,
    ensures
        pipe_trace(state, events)[j] !is Read,
        pipe_trace(state, events)[j] !is Run,
    decreases events.len(),
{
    let (next, decision) = pipe_next(state, events[0]);
    let rest = pipe_trace(next, events.drop_first());
    assert(pipe_trace(state, events) =~= seq![decision] + rest);
    if i > 0 {
        nothing_runs_after_the_end(next, events.drop_first(), i - 1, j - 1);
    } else {
        lemma_closing_runs_nothing(next, events.drop_first(), j - 1);
    }
}

proof fn lemma_closing_runs_nothing(state: PipeState, events: Seq<PipeEvent>, i: int)
    requires
        state is Closing || state is Parting || state is Done,
        0 <= i < pipe_trace(state, events).len(),
    ensures
        pipe_trace(state, events)[i] !is Read,
        pipe_trace(state, events)[i] !is Run,
    decreases events.len(),
{
    let (next, decision) = pipe_next(state, events[0]);
    if i > 0 {
        lemma_closing_runs_nothing(next, events.drop_first(), i - 1);
    }
}

} // verus!
