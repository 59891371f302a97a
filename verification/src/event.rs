//! The events that a session pushes to its client.

use vstd::prelude::*;

use crate::json::{new_object, print_object, put_bool, put_text, Json, Members};
use crate::reply::says;

verus! {

/// An event of the remote session.
pub enum SdkEvent {
    Connected { direct: bool, secured: bool, stream: String },
    Disconnected { reason: String },
    Error { msg: String },
}

impl Clone for SdkEvent {
    fn clone(&self) -> (copy: Self)
        ensures
            copy == *self,
    {
        match self {
            SdkEvent::Connected { direct, secured, stream } => SdkEvent::Connected {
                direct: *direct,
                secured: *secured,
                stream: stream.clone(),
            },
            SdkEvent::Disconnected { reason } => SdkEvent::Disconnected {
                reason: reason.clone(),
            },
            SdkEvent::Error { msg } => SdkEvent::Error { msg: msg.clone() },
        }
    }
}

/// The members of the event that the session ended.
pub open spec fn disconnected_members(reason: Seq<char>) -> Members {
    map!["event"@ => Json::Text("disconnected"@), "reason"@ => Json::Text(reason)]
}

/// The members of an event: its name under `event`, and what it tells.
pub open spec fn event_members(event: SdkEvent) -> Members {
    match event {
        SdkEvent::Connected { direct, secured, stream } => map![
            "event"@ => Json::Text("connected"@),
            "direct"@ => Json::Bool(direct),
            "secured"@ => Json::Bool(secured),
            "stream"@ => Json::Text(stream@)
        ],
        SdkEvent::Disconnected { reason } => disconnected_members(reason@),
        SdkEvent::Error { msg } => map![
            "event"@ => Json::Text("error"@),
            "msg"@ => Json::Text(msg@)
        ],
    }
}

impl SdkEvent {
    /// The event as a JSON object on one line.
    pub fn to_json_string(&self) -> (text: String)
        ensures
            says(text@, event_members(*self)),
    {
        let mut object: serde_json::Map<String, serde_json::Value> = new_object();
        match self {
            SdkEvent::Connected { direct, secured, stream } => {
                put_text(&mut object, "event", "connected");
                put_bool(&mut object, "direct", *direct);
                put_bool(&mut object, "secured", *secured);
                put_text(&mut object, "stream", stream.as_str());
            },
            SdkEvent::Disconnected { reason } => {
                put_text(&mut object, "event", "disconnected");
                put_text(&mut object, "reason", reason.as_str());
            },
            SdkEvent::Error { msg } => {
                put_text(&mut object, "event", "error");
                put_text(&mut object, "msg", msg.as_str());
            },
        }
        print_object(object)
    }
}

/// The name under which an event goes.
pub open spec fn event_name(event: SdkEvent) -> Seq<char> {
    match event {
        SdkEvent::Connected { .. } => "connected"@,
        SdkEvent::Disconnected { .. } => "disconnected"@,
        SdkEvent::Error { .. } => "error"@,
    }
}

/// Every event carries its name under `event`, and, unlike a reply, no `id`.
pub proof fn events_are_named_and_have_no_id(event: SdkEvent)
    ensures
        event_members(event).contains_key("event"@),
        event_members(event)["event"@] == Json::Text(event_name(event)),
        !event_members(event).contains_key("id"@),
{
    reveal_strlit("event");
    reveal_strlit("direct");
    reveal_strlit("secured");
    reveal_strlit("stream");
    reveal_strlit("reason");
    reveal_strlit("msg");
    reveal_strlit("id");
    assert("event"@.len() == 5);
    assert("direct"@.len() == 6);
    assert("secured"@.len() == 7);
    assert("stream"@.len() == 6);
    assert("reason"@.len() == 6);
    assert("msg"@.len() == 3);
    assert("id"@.len() == 2);
}

} // verus!
