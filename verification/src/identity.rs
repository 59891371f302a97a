//! Reading and changing the local peer id.
//!
//! A change either writes the new id as it is, or leaves it to the rendezvous
//! server, which checks its form and whether it is taken. Either way the reply
//! reports the id that is in force afterwards.
//!
//! An id is written twice. The first write is the normal one, which encrypts
//! it. The second is for official RustDesk, which may not be able to decrypt
//! it: the stored record is loaded, and stored again with the plain id and
//! without the encrypted one. If the second write fails, the reply is the same.

use vstd::prelude::*;

use crate::command::Command;
use crate::json::Members;
use crate::reply::{answers, error_members, json_error, peer_id_members, peer_id_reply};
use crate::reply::{refusals_carry_the_id, replies_carry_the_id, says};
use crate::text::same_text;

verus! {

/// The configuration as it is stored.
pub struct IdRecord {
    /// The plain id.
    pub id: String,
    /// The encrypted id, if there is one.
    pub enc_id: Option<String>,
    /// The other fields.
    pub rest: serde_json::Map<String, serde_json::Value>,
}

/// What the stored configuration says.
pub struct RecordView {
    pub id: Seq<char>,
    pub enc_id: Option<Seq<char>>,
    pub rest: serde_json::Map<String, serde_json::Value>,
}

impl View for IdRecord {
    type V = RecordView;

    open spec fn view(&self) -> RecordView {
        RecordView {
            id: self.id@,
            enc_id: match self.enc_id {
                Some(encrypted) => Some(encrypted@),
                None => None,
            },
            rest: self.rest,
        }
    }
}

/// The record with the plain id and without an encrypted one, its other fields
/// as they were.
pub open spec fn with_plain_id(record: RecordView, new_id: Seq<char>) -> RecordView {
    RecordView { id: new_id, enc_id: None, rest: record.rest }
}

/// Puts the plain id in a record, and takes the encrypted one out.
pub fn plain_record(record: IdRecord, new_id: String) -> (plain: IdRecord)
    ensures
        plain@ == with_plain_id(record@, new_id@),
{
    IdRecord { id: new_id, enc_id: None, rest: record.rest }
}

/// Where a command on the peer id stands.
pub enum IdState {
    /// The id in force is being read, before it is changed.
    Asked { id: u64, new_id: String, check_server: bool },
    /// The server is being asked for the change.
    Changing { id: u64 },
    /// The new id is being written, encrypted.
    Writing { id: u64, new_id: String },
    /// The stored record is being loaded, to put the plain id in it.
    Loading { id: u64, new_id: String },
    /// The record with the plain id is being stored.
    Storing { id: u64 },
    /// The id in force is being read, to report it.
    Reporting { id: u64 },
    /// The command is answered.
    Done,
}

/// What a command on the peer id waited for.
pub enum IdEvent {
    /// The id in force was read.
    Id { current: String },
    /// The server answered: with nothing, or with what went wrong.
    Answer { err: String },
    /// The new id was written.
    Written,
    /// The stored record was loaded.
    Loaded { record: IdRecord },
    /// The record was stored.
    Stored,
    /// The record could not be loaded or stored.
    Failed,
}

/// What a command on the peer id does next.
pub enum IdAction {
    /// Read the id in force.
    ReadId,
    /// Ask the server for the change.
    ChangeOnServer { new_id: String, old_id: String },
    /// Write the new id in the normal way, encrypted, with no check.
    WriteId { new_id: String },
    /// Load the record that is now stored.
    LoadRecord,
    /// Store the record in its place.
    StoreRecord { record: IdRecord },
    /// Answer the command.
    Reply { text: String },
}

/// What a command on the peer id should do next.
pub enum IdDecision {
    ReadId,
    ChangeOnServer { new_id: Seq<char>, old_id: Seq<char> },
    WriteId { new_id: Seq<char> },
    LoadRecord,
    StoreRecord { record: RecordView },
    Reply { members: Members },
}

impl IdAction {
    /// The action is as decided.
    pub open spec fn is_as(self, decision: IdDecision) -> bool {
        match decision {
            IdDecision::ReadId => self is ReadId,
            IdDecision::ChangeOnServer { new_id, old_id } => {
                &&& self is ChangeOnServer
                &&& self->ChangeOnServer_new_id@ == new_id
                &&& self->old_id@ == old_id
            },
            IdDecision::WriteId { new_id } => self is WriteId && self->WriteId_new_id@ == new_id,
            IdDecision::LoadRecord => self is LoadRecord,
            IdDecision::StoreRecord { record } => self is StoreRecord && self->record@ == record,
            IdDecision::Reply { members } => self is Reply && says(self->text@, members),
        }
    }
}

/// The event is one that the state waits for.
pub open spec fn awaits(state: IdState, event: IdEvent) -> bool {
    match state {
        IdState::Asked { .. } => event is Id,
        IdState::Changing { .. } => event is Answer,
        IdState::Writing { .. } => event is Written,
        IdState::Loading { .. } => event is Loaded || event is Failed,
        IdState::Storing { .. } => event is Stored || event is Failed,
        IdState::Reporting { .. } => event is Id,
        IdState::Done => false,
    }
}

/// Where a command on the peer id goes from a state, and what it does.
pub open spec fn id_next(state: IdState, event: IdEvent) -> (IdState, IdDecision) {
    match state {
        IdState::Asked { id, new_id, check_server } => if check_server {
            (
                IdState::Changing { id },
                IdDecision::ChangeOnServer { new_id: new_id@, old_id: event->current@ },
            )
        } else if new_id@ != event->current@ {
            (IdState::Writing { id, new_id }, IdDecision::WriteId { new_id: new_id@ })
        } else {
            (IdState::Reporting { id }, IdDecision::ReadId)
        },
        IdState::Changing { id } => if event->err@.len() == 0 {
            (IdState::Reporting { id }, IdDecision::ReadId)
        } else {
            (IdState::Done, IdDecision::Reply { members: error_members(id, event->err@) })
        },
        IdState::Writing { id, new_id } => (
            IdState::Loading { id, new_id },
            IdDecision::LoadRecord,
        ),
        IdState::Loading { id, new_id } => if event is Loaded {
            (
                IdState::Storing { id },
                IdDecision::StoreRecord { record: with_plain_id(event->record@, new_id@) },
            )
        } else {
            (IdState::Reporting { id }, IdDecision::ReadId)
        },
        IdState::Storing { id } => (IdState::Reporting { id }, IdDecision::ReadId),
        IdState::Reporting { id } => (
            IdState::Done,
            IdDecision::Reply { members: peer_id_members(id, event->current@) },
        ),
        IdState::Done => (IdState::Done, IdDecision::ReadId),
    }
}

/// Begins to report the peer id.
pub fn handle_get_id(id: u64) -> (begun: (IdState, IdAction))
    ensures
        begun.0 == (IdState::Reporting { id }),
        begun.1 is ReadId,
{
    (IdState::Reporting { id }, IdAction::ReadId)
}

/// Begins to change the peer id. Without a new one it is refused.
pub fn handle_set_id(id: u64, cmd: &Command) -> (begun: (IdState, IdAction))
    ensures
        cmd.peer_id@.len() == 0 ==> begun.0 is Done && begun.1.is_as(
            IdDecision::Reply { members: error_members(id, "peer_id is required"@) },
        ),
        cmd.peer_id@.len() > 0 ==> begun.1 is ReadId && begun.0 == (IdState::Asked {
            id,
            new_id: cmd.peer_id,
            check_server: cmd.check_server,
        }),
{
    if cmd.peer_id.as_str().is_empty() {
        return (IdState::Done, IdAction::Reply { text: json_error(id, "peer_id is required") });
    }
    (
        IdState::Asked { id, new_id: cmd.peer_id.clone(), check_server: cmd.check_server },
        IdAction::ReadId,
    )
}

/// Takes a command on the peer id one step further.
pub fn id_step(state: IdState, event: IdEvent) -> (next: (IdState, IdAction))
    requires
        awaits(state, event),
    ensures
        next.0 == id_next(state, event).0,
        next.1.is_as(id_next(state, event).1),
{
    match (state, event) {
        (IdState::Asked { id, new_id, check_server }, IdEvent::Id { current }) => {
            if check_server {
                (IdState::Changing { id }, IdAction::ChangeOnServer { new_id, old_id: current })
            } else if !same_text(new_id.as_str(), current.as_str()) {
                let written: String = new_id.clone();
                (IdState::Writing { id, new_id }, IdAction::WriteId { new_id: written })
            } else {
                (IdState::Reporting { id }, IdAction::ReadId)
            }
        },
        (IdState::Changing { id }, IdEvent::Answer { err }) => {
            if err.as_str().is_empty() {
                (IdState::Reporting { id }, IdAction::ReadId)
            } else {
                (IdState::Done, IdAction::Reply { text: json_error(id, err.as_str()) })
            }
        },
        (IdState::Writing { id, new_id }, IdEvent::Written) => (
            IdState::Loading { id, new_id },
            IdAction::LoadRecord,
        ),
        (IdState::Loading { id, new_id }, IdEvent::Loaded { record }) => (
            IdState::Storing { id },
            IdAction::StoreRecord { record: plain_record(record, new_id) },
        ),
        (IdState::Loading { id, .. }, _) => (IdState::Reporting { id }, IdAction::ReadId),
        (IdState::Storing { id }, _) => (IdState::Reporting { id }, IdAction::ReadId),
        (IdState::Reporting { id }, IdEvent::Id { current }) => (
            IdState::Done,
            IdAction::Reply { text: peer_id_reply(id, current.as_str()) },
        ),
        _ => (IdState::Done, IdAction::ReadId),
    }
}

/// What a command on the peer id does from a state on, while the events are
/// those that it waits for.
pub open spec fn id_trace(state: IdState, events: Seq<IdEvent>) -> Seq<IdDecision>
    decreases events.len(),
{
    if events.len() == 0 || !awaits(state, events[0]) {
        Seq::empty()
    } else {
        let (next, decision) = id_next(state, events[0]);
        seq![decision] + id_trace(next, events.drop_first())
    }
}

/// A change without the check never asks the server.
pub proof fn unchecked_changes_never_ask_the_server(state: IdState, events: Seq<IdEvent>, i: int)
    requires
        !(state matches IdState::Asked { check_server: true, .. }),
        0 <= i < id_trace(state, events).len(),
    ensures
        id_trace(state, events)[i] !is ChangeOnServer,
    decreases events.len(),
{
    let (next, decision) = id_next(state, events[0]);
    if i > 0 {
        unchecked_changes_never_ask_the_server(next, events.drop_first(), i - 1);
    }
}

/// The state is one of a change that writes the id itself.
pub open spec fn is_unchecked(state: IdState) -> bool {
    ||| state matches IdState::Asked { check_server: false, .. }
    ||| state is Writing
    ||| state is Loading
    ||| state is Storing
}

/// A change with the check never writes the id itself.
pub proof fn checked_changes_never_write_the_id(state: IdState, events: Seq<IdEvent>, i: int)
    requires
        !is_unchecked(state),
        0 <= i < id_trace(state, events).len(),
    ensures
        id_trace(state, events)[i] !is WriteId,
        id_trace(state, events)[i] !is StoreRecord,
    decreases events.len(),
{
    let (next, decision) = id_next(state, events[0]);
    if i > 0 {
        checked_changes_never_write_the_id(next, events.drop_first(), i - 1);
    }
}

/// A change to another id without the check makes two writes: first the normal
/// one, and then that of the record as it was then stored, with the plain id
/// and without the encrypted one. The id is read after both of them.
pub proof fn unchecked_changes_write_twice(
    id: u64,
    new_id: String,
    current: String,
    record: IdRecord,
    stored: IdEvent,
)
    requires
        new_id@ != current@,
        stored is Stored || stored is Failed,
    ensures
        id_trace(
            (IdState::Asked { id, new_id, check_server: false }),
            seq![
                IdEvent::Id { current },
                IdEvent::Written,
                IdEvent::Loaded { record },
                stored,
            ],
        ) == seq![
            IdDecision::WriteId { new_id: new_id@ },
            IdDecision::LoadRecord,
            IdDecision::StoreRecord { record: with_plain_id(record@, new_id@) },
            IdDecision::ReadId,
        ],
{
    let asked = IdState::Asked { id, new_id, check_server: false };
    let all = seq![IdEvent::Id { current }, IdEvent::Written, IdEvent::Loaded { record }, stored];
    let from_one = seq![IdEvent::Written, IdEvent::Loaded { record }, stored];
    let from_two = seq![IdEvent::Loaded { record }, stored];
    let from_three = seq![stored];
    assert(all.drop_first() =~= from_one);
    assert(from_one.drop_first() =~= from_two);
    assert(from_two.drop_first() =~= from_three);
    reveal_with_fuel(id_trace, 5);
    assert(id_trace(asked, all) =~= seq![
        IdDecision::WriteId { new_id: new_id@ },
        IdDecision::LoadRecord,
        IdDecision::StoreRecord { record: with_plain_id(record@, new_id@) },
        IdDecision::ReadId,
    ]);
}

/// Where the plain write fails, the change goes on as if it had not: it still
/// reports the id in force, and is still accepted.
pub proof fn failed_plain_writes_do_not_change_the_reply(
    id: u64,
    new_id: String,
    current: String,
)
    ensures
        id_next(IdState::Storing { id }, IdEvent::Failed) == id_next(
            IdState::Storing { id },
            IdEvent::Stored,
        ),
        id_trace(
            (IdState::Storing { id }),
            seq![IdEvent::Failed, IdEvent::Id { current }],
        ).last() == (IdDecision::Reply { members: peer_id_members(id, current@) }),
        id_trace(
            (IdState::Loading { id, new_id }),
            seq![IdEvent::Failed, IdEvent::Id { current }],
        ).last() == (IdDecision::Reply { members: peer_id_members(id, current@) }),
        answers(peer_id_members(id, current@), id, true),
{
    let events = seq![IdEvent::Failed, IdEvent::Id { current }];
    assert(events.drop_first() =~= seq![IdEvent::Id { current }]);
    reveal_with_fuel(id_trace, 3);
    replies_carry_the_id(id, current@, false, false, None);
}

/// The id of the command that a state belongs to.
pub open spec fn id_of(state: IdState) -> Option<u64> {
    match state {
        IdState::Asked { id, .. } => Some(id),
        IdState::Changing { id } => Some(id),
        IdState::Writing { id, .. } => Some(id),
        IdState::Loading { id, .. } => Some(id),
        IdState::Storing { id } => Some(id),
        IdState::Reporting { id } => Some(id),
        IdState::Done => None,
    }
}

/// A command on the peer id is answered under its own id, and once it is
/// answered it is over.
pub proof fn id_replies_carry_the_id(state: IdState, events: Seq<IdEvent>, i: int)
    requires
        0 <= i < id_trace(state, events).len(),
        id_trace(state, events)[i] is Reply,
    ensures
        i == id_trace(state, events).len() - 1,
        id_of(state) is Some,
        answers(id_trace(state, events)[i]->members, id_of(state)->0, true) || answers(
            id_trace(state, events)[i]->members,
            id_of(state)->0,
            false,
        ),
    decreases events.len(),
{
    let (next, decision) = id_next(state, events[0]);
    if i > 0 {
        assert(id_trace(state, events)[i] == id_trace(next, events.drop_first())[i - 1]);
        id_replies_carry_the_id(next, events.drop_first(), i - 1);
    } else {
        let id = id_of(state)->0;
        assert(next is Done);
        assert(id_trace(next, events.drop_first()).len() == 0);
        refusals_carry_the_id(id);
        replies_carry_the_id(id, events[0]->current@, false, false, None);
    }
}

/// A command on the peer id is answered with the id that was in force when it
/// was read last, or with what the server said was wrong.
pub proof fn id_replies_report_what_was_read(state: IdState, events: Seq<IdEvent>, i: int)
    requires
        0 <= i < id_trace(state, events).len(),
        id_trace(state, events)[i] is Reply,
    ensures
        i < events.len(),
        id_of(state) is Some,
        events[i] is Id ==> id_trace(state, events)[i]->members == peer_id_members(
            id_of(state)->0,
            events[i]->current@,
        ),
        events[i] is Answer ==> id_trace(state, events)[i]->members == error_members(
            id_of(state)->0,
            events[i]->err@,
        ),
        events[i] is Id || events[i] is Answer,
    decreases events.len(),
{
    let (next, decision) = id_next(state, events[0]);
    if i > 0 {
        assert(id_trace(state, events)[i] == id_trace(next, events.drop_first())[i - 1]);
        id_replies_report_what_was_read(next, events.drop_first(), i - 1);
    }
}

/// A command on the peer id is over after five steps at the most, and a change
/// that took five of them was answered by the last.
pub proof fn id_commands_end(state: IdState, events: Seq<IdEvent>)
    ensures
        id_trace(state, events).len() <= 5,
        id_trace(state, events).len() == 5 ==> id_trace(state, events)[4] is Reply,
{
    reveal_with_fuel(id_trace, 7);
}

} // verus!
