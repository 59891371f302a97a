//! The replies to commands.
//!
//! Every reply is one JSON object on one line. It carries the id of the
//! command that it answers, and whether the command was accepted.

use vstd::prelude::*;

use crate::frame::{encode_frame, format_code, format_index, format_number, format_word};
use crate::frame::{frame_message, LatestFrame};
use crate::json::{json_text, new_object, object_members, print_object, put_bool, put_number};
use crate::json::{put_text, Json, Members};

verus! {

/// What a command is answered: the text of a JSON object, and the binary
/// message that goes with it, if there is one.
pub struct Reply {
    pub text: String,
    pub frame: Option<Vec<u8>>,
}

impl Reply {
    /// The bytes of the binary message, if there is one.
    pub open spec fn message(self) -> Option<Seq<u8>> {
        match self.frame {
            Some(bytes) => Some(bytes@),
            None => None,
        }
    }
}

/// A text that can stand alone on a line and opens as a JSON object does.
pub open spec fn is_object_line(text: Seq<char>) -> bool {
    text.len() > 0 && text[0] == '{' && !text.contains('\n')
}

/// The text of an object with these members, on one line.
pub open spec fn says(text: Seq<char>, members: Members) -> bool {
    text == json_text(members) && is_object_line(text)
}

/// The members of a bare acceptance.
pub open spec fn ok_members(id: u64) -> Members {
    map!["id"@ => Json::Number(id), "ok"@ => Json::Bool(true)]
}

/// The members of a refusal.
pub open spec fn error_members(id: u64, msg: Seq<char>) -> Members {
    map!["id"@ => Json::Number(id), "ok"@ => Json::Bool(false), "error"@ => Json::Text(msg)]
}

/// The members of the reply to a connection attempt that has begun.
pub open spec fn connecting_members(id: u64) -> Members {
    ok_members(id).insert("state"@, Json::Text("connecting"@))
}

/// The members of a status reply.
pub open spec fn status_members(id: u64, connected: bool, has_session: bool) -> Members {
    ok_members(id).insert("connected"@, Json::Bool(connected)).insert(
        "has_session"@,
        Json::Bool(has_session),
    )
}

/// The members of a reply that reports the local peer id.
pub open spec fn peer_id_members(id: u64, peer_id: Seq<char>) -> Members {
    ok_members(id).insert("peer_id"@, Json::Text(peer_id))
}

/// The members of the reply that goes with a frame.
pub open spec fn frame_members(id: u64, frame: LatestFrame) -> Members {
    ok_members(id).insert("has_frame"@, Json::Bool(true)).insert(
        "w"@,
        Json::Number(frame.w as u64),
    ).insert("h"@, Json::Number(frame.h as u64)).insert(
        "format"@,
        Json::Text(format_word(frame.fmt)),
    ).insert("stride"@, Json::Number(frame.stride as u64)).insert(
        "fmt_code"@,
        Json::Number(format_number(frame.fmt) as u64),
    )
}

/// The members of the reply where there is no frame yet.
pub open spec fn no_frame_members(id: u64) -> Members {
    ok_members(id).insert("has_frame"@, Json::Bool(false))
}

/// The members of the reply to a screenshot command.
pub open spec fn screenshot_members(id: u64, frame: Option<LatestFrame>) -> Members {
    match frame {
        Some(latest) => frame_members(id, latest),
        None => no_frame_members(id),
    }
}

/// The binary message that goes with the reply to a screenshot command.
pub open spec fn screenshot_message(frame: Option<LatestFrame>) -> Option<Seq<u8>> {
    match frame {
        Some(latest) => Some(frame_message(latest)),
        None => None,
    }
}

fn ok_object(id: u64) -> (object: serde_json::Map<String, serde_json::Value>)
    ensures
        object_members(object) == ok_members(id),
{
    let mut object: serde_json::Map<String, serde_json::Value> = new_object();
    put_number(&mut object, "id", id);
    put_bool(&mut object, "ok", true);
    object
}

/// A bare acceptance.
pub fn json_ok(id: u64) -> (text: String)
    ensures
        says(text@, ok_members(id)),
{
    print_object(ok_object(id))
}

/// A refusal, with the reason.
pub fn json_error(id: u64, msg: &str) -> (text: String)
    ensures
        says(text@, error_members(id, msg@)),
{
    let mut object: serde_json::Map<String, serde_json::Value> = new_object();
    put_number(&mut object, "id", id);
    put_bool(&mut object, "ok", false);
    put_text(&mut object, "error", msg);
    print_object(object)
}

/// The reply to a connection attempt that has begun.
pub fn connecting_reply(id: u64) -> (text: String)
    ensures
        says(text@, connecting_members(id)),
{
    let mut object: serde_json::Map<String, serde_json::Value> = ok_object(id);
    put_text(&mut object, "state", "connecting");
    print_object(object)
}

/// Answers a status command.
pub fn handle_status(id: u64, connected: bool, has_session: bool) -> (text: String)
    ensures
        says(text@, status_members(id, connected, has_session)),
{
    let mut object: serde_json::Map<String, serde_json::Value> = ok_object(id);
    put_bool(&mut object, "connected", connected);
    put_bool(&mut object, "has_session", has_session);
    print_object(object)
}

/// The reply that reports the local peer id.
pub fn peer_id_reply(id: u64, peer_id: &str) -> (text: String)
    ensures
        says(text@, peer_id_members(id, peer_id@)),
{
    let mut object: serde_json::Map<String, serde_json::Value> = ok_object(id);
    put_text(&mut object, "peer_id", peer_id);
    print_object(object)
}

/// Answers a screenshot command: with the latest frame as a binary message,
/// described in the text, or with the word that there is none yet.
pub fn handle_screenshot(id: u64, frame: &Option<LatestFrame>) -> (reply: Reply)
    ensures
        says(reply.text@, screenshot_members(id, *frame)),
        reply.message() == screenshot_message(*frame),
{
    let mut object: serde_json::Map<String, serde_json::Value> = ok_object(id);
    match frame {
        Some(latest) => {
            put_bool(&mut object, "has_frame", true);
            put_number(&mut object, "w", latest.w as u64);
            put_number(&mut object, "h", latest.h as u64);
            put_text(&mut object, "format", format_code(latest.fmt));
            put_number(&mut object, "stride", latest.stride as u64);
            put_number(&mut object, "fmt_code", format_index(latest.fmt) as u64);
            Reply { text: print_object(object), frame: Some(encode_frame(latest)) }
        },
        None => {
            put_bool(&mut object, "has_frame", false);
            Reply { text: print_object(object), frame: None }
        },
    }
}

/// The keys of the replies other than `id` and `ok` are neither of the two.
proof fn lemma_keys()
    ensures
        "id"@ != "ok"@,
        "error"@ != "id"@ && "error"@ != "ok"@,
        "state"@ != "id"@ && "state"@ != "ok"@,
        "connected"@ != "id"@ && "connected"@ != "ok"@,
        "has_session"@ != "id"@ && "has_session"@ != "ok"@,
        "peer_id"@ != "id"@ && "peer_id"@ != "ok"@,
        "has_frame"@ != "id"@ && "has_frame"@ != "ok"@,
        "w"@ != "id"@ && "w"@ != "ok"@,
        "h"@ != "id"@ && "h"@ != "ok"@,
        "format"@ != "id"@ && "format"@ != "ok"@,
        "stride"@ != "id"@ && "stride"@ != "ok"@,
        "fmt_code"@ != "id"@ && "fmt_code"@ != "ok"@,
{
    reveal_strlit("id");
    reveal_strlit("ok");
    reveal_strlit("error");
    reveal_strlit("state");
    reveal_strlit("connected");
    reveal_strlit("has_session");
    reveal_strlit("peer_id");
    reveal_strlit("has_frame");
    reveal_strlit("w");
    reveal_strlit("h");
    reveal_strlit("format");
    reveal_strlit("stride");
    reveal_strlit("fmt_code");
    assert("id"@[0] == 'i');
    assert("ok"@[0] == 'o');
    assert("id"@.len() == 2);
    assert("ok"@.len() == 2);
    assert("error"@.len() == 5);
    assert("state"@.len() == 5);
    assert("connected"@.len() == 9);
    assert("has_session"@.len() == 11);
    assert("peer_id"@.len() == 7);
    assert("has_frame"@.len() == 9);
    assert("w"@.len() == 1);
    assert("h"@.len() == 1);
    assert("format"@.len() == 6);
    assert("stride"@.len() == 6);
    assert("fmt_code"@.len() == 8);
}

/// The reply answers the command with this id, and accepts it or refuses it.
pub open spec fn answers(members: Members, id: u64, accepted: bool) -> bool {
    &&& members.contains_key("id"@) && members["id"@] == Json::Number(id)
    &&& members.contains_key("ok"@) && members["ok"@] == Json::Bool(accepted)
}

/// Every reply carries the id that it was made for, and says whether the
/// command was accepted: only a refusal says that it was not.
pub proof fn replies_carry_the_id(
    id: u64,
    msg: Seq<char>,
    connected: bool,
    has_session: bool,
    frame: Option<LatestFrame>,
)
    ensures
        answers(ok_members(id), id, true),
        answers(error_members(id, msg), id, false),
        answers(connecting_members(id), id, true),
        answers(status_members(id, connected, has_session), id, true),
        answers(peer_id_members(id, msg), id, true),
        answers(screenshot_members(id, frame), id, true),
{
    lemma_keys();
}

/// Every refusal carries the id that it was made for, whatever the reason.
pub proof fn refusals_carry_the_id(id: u64)
    ensures
        forall|msg: Seq<char>| answers(#[trigger] error_members(id, msg), id, false),
{
    lemma_keys();
}

/// A refusal gives its reason under `error`.
pub proof fn refusals_give_the_reason(id: u64, msg: Seq<char>)
    ensures
        error_members(id, msg).contains_key("error"@),
        error_members(id, msg)["error"@] == Json::Text(msg),
{
}

} // verus!
