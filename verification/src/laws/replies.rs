//! What the replies and the events say.

use vstd::prelude::*;

use crate::event::{disconnected_members, event_members, SdkEvent};
use crate::frame::{ImageFormat, LatestFrame};
use crate::json::{json_text, Json, Members};
use crate::reply::{connecting_members, error_members, ok_members, peer_id_members, says};
use crate::reply::{connecting_reply, handle_screenshot, handle_status, json_error, json_ok};
use crate::reply::{peer_id_reply, screenshot_members, status_members, Reply};

verus! {

/// The text is that of an object with these members, and stands on one line.
pub open spec fn object_text(text: Seq<char>, members: Members) -> bool {
    &&& text == json_text(members)
    &&& text.len() > 0
    &&& text[0] == '{'
    &&& !text.contains('\n')
}

/// The text says that the command with this id was accepted, and nothing else.
pub open spec fn accepts_text(text: Seq<char>, id: u64) -> bool {
    exists|members: Members| #[trigger]
        object_text(text, members) && members.dom() == set!["id"@, "ok"@] && members["id"@]
            == Json::Number(id) && members["ok"@] == Json::Bool(true)
}

/// The text says that the command with this id was refused, and for this reason.
pub open spec fn refuses_text(text: Seq<char>, id: u64, reason: Seq<char>) -> bool {
    exists|members: Members| #[trigger]
        object_text(text, members) && members.dom() == set!["id"@, "ok"@, "error"@]
            && members["id"@] == Json::Number(id) && members["ok"@] == Json::Bool(false)
            && members["error"@] == Json::Text(reason)
}

/// The text accepts the command with this id and reports this peer id.
pub open spec fn reports_text(text: Seq<char>, id: u64, peer_id: Seq<char>) -> bool {
    exists|members: Members| #[trigger]
        object_text(text, members) && members.dom() == set!["id"@, "ok"@, "peer_id"@]
            && members["id"@] == Json::Number(id) && members["ok"@] == Json::Bool(true)
            && members["peer_id"@] == Json::Text(peer_id)
}

/// The text accepts the command with this id and says that it is connecting.
pub open spec fn connecting_text(text: Seq<char>, id: u64) -> bool {
    exists|members: Members| #[trigger]
        object_text(text, members) && members.dom() == set!["id"@, "ok"@, "state"@]
            && members["id"@] == Json::Number(id) && members["ok"@] == Json::Bool(true)
            && members["state"@] == Json::Text("connecting"@)
}

/// The text accepts the command with this id and tells whether the session is
/// connected and whether there is one.
pub open spec fn status_text(
    text: Seq<char>,
    id: u64,
    connected: bool,
    has_session: bool,
) -> bool {
    exists|members: Members| #[trigger]
        object_text(text, members) && members.dom() == set![
            "id"@,
            "ok"@,
            "connected"@,
            "has_session"@,
        ] && members["id"@] == Json::Number(id) && members["ok"@] == Json::Bool(true)
            && members["connected"@] == Json::Bool(connected) && members["has_session"@]
            == Json::Bool(has_session)
}

/// The members describe the frame: its dimensions as they are, and its format
/// by its word and by its number.
pub open spec fn describes(members: Members, frame: LatestFrame) -> bool {
    &&& members["has_frame"@] == Json::Bool(true)
    &&& members["w"@] == Json::Number(frame.w as u64)
    &&& members["h"@] == Json::Number(frame.h as u64)
    &&& members["stride"@] == Json::Number(frame.stride as u64)
    &&& match frame.fmt {
        ImageFormat::ABGR => members["format"@] == Json::Text("abgr"@) && members["fmt_code"@]
            == Json::Number(0),
        ImageFormat::ARGB => members["format"@] == Json::Text("argb"@) && members["fmt_code"@]
            == Json::Number(1),
        ImageFormat::Raw => members["format"@] == Json::Text("rgb"@) && members["fmt_code"@]
            == Json::Number(2),
    }
}

/// The text accepts the screenshot command with this id and describes the
/// frame, or says that there is none.
pub open spec fn screenshot_text(text: Seq<char>, id: u64, frame: Option<LatestFrame>) -> bool {
    match frame {
        Some(latest) => exists|members: Members| #[trigger]
            object_text(text, members) && members.dom() == set![
                "id"@,
                "ok"@,
                "has_frame"@,
                "w"@,
                "h"@,
                "format"@,
                "stride"@,
                "fmt_code"@,
            ] && members["id"@] == Json::Number(id) && members["ok"@] == Json::Bool(true)
                && describes(members, latest),
        None => exists|members: Members| #[trigger]
            object_text(text, members) && members.dom() == set!["id"@, "ok"@, "has_frame"@]
                && members["id"@] == Json::Number(id) && members["ok"@] == Json::Bool(true)
                && members["has_frame"@] == Json::Bool(false),
    }
}

/// The text says what the event says, under the name of the event.
pub open spec fn event_text(text: Seq<char>, event: SdkEvent) -> bool {
    match event {
        SdkEvent::Connected { direct, secured, stream } => exists|members: Members| #[trigger]
            object_text(text, members) && members.dom() == set![
                "event"@,
                "direct"@,
                "secured"@,
                "stream"@,
            ] && members["event"@] == Json::Text("connected"@) && members["direct"@]
                == Json::Bool(direct) && members["secured"@] == Json::Bool(secured)
                && members["stream"@] == Json::Text(stream@),
        SdkEvent::Disconnected { reason } => ended_text(text, reason@),
        SdkEvent::Error { msg } => exists|members: Members| #[trigger]
            object_text(text, members) && members.dom() == set!["event"@, "msg"@]
                && members["event"@] == Json::Text("error"@) && members["msg"@] == Json::Text(
                msg@,
            ),
    }
}

/// The text is the event that the session ended for this reason.
pub open spec fn ended_text(text: Seq<char>, reason: Seq<char>) -> bool {
    exists|members: Members| #[trigger]
        object_text(text, members) && members.dom() == set!["event"@, "reason"@]
            && members["event"@] == Json::Text("disconnected"@) && members["reason"@]
            == Json::Text(reason)
}

proof fn lemma_keys()
    ensures
        "id"@.len() == 2 && "id"@[0] == 'i',
        "ok"@.len() == 2 && "ok"@[0] == 'o',
        "error"@.len() == 5 && "error"@[0] == 'e',
        "state"@.len() == 5 && "state"@[0] == 's',
        "connected"@.len() == 9 && "connected"@[0] == 'c',
        "has_session"@.len() == 11,
        "peer_id"@.len() == 7,
        "has_frame"@.len() == 9 && "has_frame"@[0] == 'h',
        "w"@.len() == 1 && "w"@[0] == 'w',
        "h"@.len() == 1 && "h"@[0] == 'h',
        "format"@.len() == 6 && "format"@[0] == 'f',
        "stride"@.len() == 6 && "stride"@[0] == 's',
        "fmt_code"@.len() == 8,
        "event"@.len() == 5,
        "direct"@.len() == 6 && "direct"@[0] == 'd',
        "secured"@.len() == 7,
        "stream"@.len() == 6 && "stream"@[0] == 's',
        "reason"@.len() == 6,
        "msg"@.len() == 3,
{
    reveal_strlit("id");
    reveal_strlit("ok");
    reveal_strlit("error");
    reveal_strlit("state");
    reveal_strlit("connected");
    reveal_strlit("has_session");
    reveal_strlit("peer_id");
    reveal_strlit("has_frame");
    reveal_strlit("w");
    reveal_strlit("h");
    reveal_strlit("format");
    reveal_strlit("stride");
    reveal_strlit("fmt_code");
    reveal_strlit("event");
    reveal_strlit("direct");
    reveal_strlit("secured");
    reveal_strlit("stream");
    reveal_strlit("reason");
    reveal_strlit("msg");
}

/// A text of the members of an acceptance is one.
pub proof fn lemma_accepts(text: Seq<char>, id: u64)
    requires
        says(text, ok_members(id)),
    ensures
        accepts_text(text, id),
{
    lemma_keys();
    let members = ok_members(id);
    assert(members.dom() =~= set!["id"@, "ok"@]);
    assert(object_text(text, members));
}

/// A text of the members of a refusal is one.
pub proof fn lemma_refuses(text: Seq<char>, id: u64, reason: Seq<char>)
    requires
        says(text, error_members(id, reason)),
    ensures
        refuses_text(text, id, reason),
{
    lemma_keys();
    let members = error_members(id, reason);
    assert(members.dom() =~= set!["id"@, "ok"@, "error"@]);
    assert(object_text(text, members));
}

/// A text of the members of the reply to an attempt is one.
pub proof fn lemma_connecting(text: Seq<char>, id: u64)
    requires
        says(text, connecting_members(id)),
    ensures
        connecting_text(text, id),
{
    lemma_keys();
    let members = connecting_members(id);
    assert(members.dom() =~= set!["id"@, "ok"@, "state"@]);
    assert(object_text(text, members));
}

/// A text of the members of a status reply is one.
pub proof fn lemma_status(text: Seq<char>, id: u64, connected: bool, has_session: bool)
    requires
        says(text, status_members(id, connected, has_session)),
    ensures
        status_text(text, id, connected, has_session),
{
    lemma_keys();
    let members = status_members(id, connected, has_session);
    assert(members.dom() =~= set!["id"@, "ok"@, "connected"@, "has_session"@]);
    assert(object_text(text, members));
}

/// A text of the members of a report is one.
pub proof fn lemma_reports(text: Seq<char>, id: u64, peer_id: Seq<char>)
    requires
        says(text, peer_id_members(id, peer_id)),
    ensures
        reports_text(text, id, peer_id),
{
    lemma_keys();
    let members = peer_id_members(id, peer_id);
    assert(members.dom() =~= set!["id"@, "ok"@, "peer_id"@]);
    assert(object_text(text, members));
}

/// A text of the members of a screenshot reply is one.
pub proof fn lemma_screenshot(text: Seq<char>, id: u64, frame: Option<LatestFrame>)
    requires
        says(text, screenshot_members(id, frame)),
    ensures
        screenshot_text(text, id, frame),
{
    lemma_keys();
    let members = screenshot_members(id, frame);
    assert(object_text(text, members));
    match frame {
        Some(latest) => {
            assert(members.dom() =~= set![
                "id"@,
                "ok"@,
                "has_frame"@,
                "w"@,
                "h"@,
                "format"@,
                "stride"@,
                "fmt_code"@,
            ]);
            assert(describes(members, latest));
        },
        None => {
            assert(members.dom() =~= set!["id"@, "ok"@, "has_frame"@]);
        },
    }
}

/// A text of the members of an event is one.
pub proof fn lemma_event(text: Seq<char>, event: SdkEvent)
    requires
        says(text, event_members(event)),
    ensures
        event_text(text, event),
{
    lemma_keys();
    let members = event_members(event);
    assert(object_text(text, members));
    match event {
        SdkEvent::Connected { .. } => {
            assert(members.dom() =~= set!["event"@, "direct"@, "secured"@, "stream"@]);
        },
        SdkEvent::Disconnected { reason } => {
            assert(members.dom() =~= set!["event"@, "reason"@]);
            assert(ended_text(text, reason@));
        },
        SdkEvent::Error { .. } => {
            assert(members.dom() =~= set!["event"@, "msg"@]);
        },
    }
}

/// A text of the members of the event that the session ended is one.
pub proof fn lemma_ended(text: Seq<char>, reason: Seq<char>)
    requires
        says(text, disconnected_members(reason)),
    ensures
        ended_text(text, reason),
{
    lemma_keys();
    let members = disconnected_members(reason);
    assert(members.dom() =~= set!["event"@, "reason"@]);
    assert(object_text(text, members));
}

/// An acceptance carries the id and says so, and says nothing else.
pub proof fn acceptances_say_so(id: u64, text: String)
    requires
        call_ensures(json_ok, (id,), text),
    ensures
        accepts_text(text@, id),
{
    lemma_accepts(text@, id);
}

/// A refusal carries the id and the reason, and says that it is one.
pub proof fn refusals_say_why(id: u64, reason: &str, text: String)
    requires
        call_ensures(json_error, (id, reason), text),
    ensures
        refuses_text(text@, id, reason@),
{
    lemma_refuses(text@, id, reason@);
}

/// The reply to an attempt that has begun says that it is connecting.
pub proof fn attempts_are_said_to_be_under_way(id: u64, text: String)
    requires
        call_ensures(connecting_reply, (id,), text),
    ensures
        connecting_text(text@, id),
{
    lemma_connecting(text@, id);
}

/// A status reply tells whether the session is connected apart from whether
/// there is one, in all four combinations.
pub proof fn statuses_tell_connection_and_session_apart(
    id: u64,
    connected: bool,
    has_session: bool,
    text: String,
)
    requires
        call_ensures(handle_status, (id, connected, has_session), text),
    ensures
        status_text(text@, id, connected, has_session),
{
    lemma_status(text@, id, connected, has_session);
}

/// A reply that reports the peer id gives it as it is.
pub proof fn reports_give_the_peer_id(id: u64, peer_id: &str, text: String)
    requires
        call_ensures(peer_id_reply, (id, peer_id), text),
    ensures
        reports_text(text@, id, peer_id@),
{
    lemma_reports(text@, id, peer_id@);
}

/// A screenshot reply describes the frame, whatever its format, or says that
/// there is none.
pub proof fn screenshots_describe_the_frame(id: u64, frame: &Option<LatestFrame>, reply: Reply)
    requires
        call_ensures(handle_screenshot, (id, frame), reply),
    ensures
        screenshot_text(reply.text@, id, *frame),
        reply.frame is Some <==> frame is Some,
{
    lemma_screenshot(reply.text@, id, *frame);
}

/// Frames of different formats are described by different words and numbers.
pub proof fn descriptions_tell_formats_apart(
    left: LatestFrame,
    right: LatestFrame,
    of_left: Members,
    of_right: Members,
)
    requires
        describes(of_left, left),
        describes(of_right, right),
        left.fmt != right.fmt,
    ensures
        of_left["format"@] != of_right["format"@],
        of_left["fmt_code"@] != of_right["fmt_code"@],
{
    reveal_strlit("abgr");
    reveal_strlit("argb");
    reveal_strlit("rgb");
    assert("abgr"@[1] == 'b' && "argb"@[1] == 'r' && "rgb"@[0] == 'r');
    assert("abgr"@[0] == 'a' && "argb"@[0] == 'a');
}

/// The text of an event says all that the event says.
pub proof fn events_say_what_happened(event: &SdkEvent, text: String)
    requires
        call_ensures(SdkEvent::to_json_string, (event,), text),
    ensures
        event_text(text@, *event),
{
    lemma_event(text@, *event);
}

} // verus!
