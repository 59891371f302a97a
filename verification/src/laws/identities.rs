//! How the commands on the peer id go, step by step.

use vstd::prelude::*;

use crate::command::Command;
use crate::identity::{handle_get_id, handle_set_id, id_step, plain_record};
use crate::identity::{IdAction, IdEvent, IdRecord, IdState};
use crate::laws::replies::{lemma_refuses, lemma_reports, refuses_text, reports_text};

verus! {

/// The command is answered with this peer id, and is over.
pub open spec fn reports(next: (IdState, IdAction), id: u64, peer_id: Seq<char>) -> bool {
    next.0 is Done && next.1 is Reply && reports_text(next.1->text@, id, peer_id)
}

/// The command is refused for this reason, and is over.
pub open spec fn refuses(next: (IdState, IdAction), id: u64, reason: Seq<char>) -> bool {
    next.0 is Done && next.1 is Reply && refuses_text(next.1->text@, id, reason)
}

/// The id that is asked for is read, and reported as it was read.
pub proof fn asked_ids_are_read_and_reported(
    id: u64,
    begun: (IdState, IdAction),
    current: String,
    done: (IdState, IdAction),
)
    requires
        call_ensures(handle_get_id, (id,), begun),
        call_ensures(id_step, (begun.0, IdEvent::Id { current }), done),
    ensures
        begun.1 is ReadId,
        call_requires(id_step, (begun.0, IdEvent::Id { current })),
        reports(done, id, current@),
{
    lemma_reports(done.1->text@, id, current@);
}

/// A change to no id at all is refused at once. Any other begins by reading the
/// id in force.
pub proof fn changes_need_an_id(id: u64, cmd: &Command, begun: (IdState, IdAction))
    requires
        call_ensures(handle_set_id, (id, cmd), begun),
    ensures
        cmd.peer_id@.len() == 0 ==> refuses(begun, id, "peer_id is required"@),
        cmd.peer_id@.len() > 0 ==> begun.1 is ReadId,
{
    if cmd.peer_id@.len() == 0 {
        lemma_refuses(begun.1->text@, id, "peer_id is required"@);
    }
}

/// A change with the check asks the server for the new id in place of the one
/// in force, and does nothing before the server has answered. Any answer but
/// the empty one is a refusal, for the reason that the server gave. After the
/// empty one the id in force is read again, and reported as it was read.
pub proof fn checked_changes_go_by_the_answer(
    id: u64,
    cmd: &Command,
    begun: (IdState, IdAction),
    current: String,
    asked: (IdState, IdAction),
    err: String,
    answered: (IdState, IdAction),
    now: String,
    done: (IdState, IdAction),
)
    requires
        call_ensures(handle_set_id, (id, cmd), begun),
        cmd.peer_id@.len() > 0,
        cmd.check_server,
        call_ensures(id_step, (begun.0, IdEvent::Id { current }), asked),
        call_ensures(id_step, (asked.0, IdEvent::Answer { err }), answered),
        call_ensures(id_step, (answered.0, IdEvent::Id { current: now }), done),
    ensures
        call_requires(id_step, (begun.0, IdEvent::Id { current })),
        asked.1 is ChangeOnServer,
        asked.1->ChangeOnServer_new_id@ == cmd.peer_id@,
        asked.1->old_id@ == current@,
        call_requires(id_step, (asked.0, IdEvent::Answer { err })),
        err@.len() > 0 ==> refuses(answered, id, err@),
        err@.len() == 0 ==> answered.1 is ReadId && call_requires(
            id_step,
            (answered.0, IdEvent::Id { current: now }),
        ) && reports(done, id, now@),
{
    if err@.len() > 0 {
        lemma_refuses(answered.1->text@, id, err@);
    } else {
        lemma_reports(done.1->text@, id, now@);
    }
}

/// A change without the check to the id that is in force writes nothing, and
/// reports the id as it is read.
pub proof fn changes_to_the_same_id_write_nothing(
    id: u64,
    cmd: &Command,
    begun: (IdState, IdAction),
    current: String,
    same: (IdState, IdAction),
    now: String,
    done: (IdState, IdAction),
)
    requires
        call_ensures(handle_set_id, (id, cmd), begun),
        cmd.peer_id@.len() > 0,
        !cmd.check_server,
        current@ == cmd.peer_id@,
        call_ensures(id_step, (begun.0, IdEvent::Id { current }), same),
        call_ensures(id_step, (same.0, IdEvent::Id { current: now }), done),
    ensures
        same.1 is ReadId,
        call_requires(id_step, (same.0, IdEvent::Id { current: now })),
        reports(done, id, now@),
{
    lemma_reports(done.1->text@, id, now@);
}

/// A change without the check to another id writes the new id, then loads the
/// stored record and stores it again with that id plain and without an
/// encrypted one, all else as it was. Whether or not that went well, the id in
/// force is then read, and reported as it was read.
pub proof fn unchecked_changes_write_the_id(
    id: u64,
    cmd: &Command,
    begun: (IdState, IdAction),
    current: String,
    writing: (IdState, IdAction),
    loading: (IdState, IdAction),
    record: IdRecord,
    storing: (IdState, IdAction),
    outcome: IdEvent,
    reading: (IdState, IdAction),
    now: String,
    done: (IdState, IdAction),
)
    requires
        call_ensures(handle_set_id, (id, cmd), begun),
        cmd.peer_id@.len() > 0,
        !cmd.check_server,
        current@ != cmd.peer_id@,
        call_ensures(id_step, (begun.0, IdEvent::Id { current }), writing),
        call_ensures(id_step, (writing.0, IdEvent::Written), loading),
        call_ensures(id_step, (loading.0, IdEvent::Loaded { record }), storing),
        outcome is Stored || outcome is Failed,
        call_ensures(id_step, (storing.0, outcome), reading),
        call_ensures(id_step, (reading.0, IdEvent::Id { current: now }), done),
    ensures
        writing.1 is WriteId,
        writing.1->WriteId_new_id@ == cmd.peer_id@,
        call_requires(id_step, (writing.0, IdEvent::Written)),
        loading.1 is LoadRecord,
        call_requires(id_step, (loading.0, IdEvent::Loaded { record })),
        storing.1 is StoreRecord,
        storing.1->record.id@ == cmd.peer_id@,
        storing.1->record.enc_id is None,
        storing.1->record.rest == record.rest,
        call_requires(id_step, (storing.0, outcome)),
        reading.1 is ReadId,
        call_requires(id_step, (reading.0, IdEvent::Id { current: now })),
        reports(done, id, now@),
{
    assert(storing.1->record@.id == cmd.peer_id@);
    assert(storing.1->record@.enc_id is None);
    assert(storing.1->record@.rest == record.rest);
    lemma_reports(done.1->text@, id, now@);
}

/// Where the stored record cannot be loaded, nothing is stored, and the change
/// goes on to report the id in force.
pub proof fn records_that_cannot_be_loaded_are_left(
    id: u64,
    cmd: &Command,
    begun: (IdState, IdAction),
    current: String,
    writing: (IdState, IdAction),
    loading: (IdState, IdAction),
    reading: (IdState, IdAction),
    now: String,
    done: (IdState, IdAction),
)
    requires
        call_ensures(handle_set_id, (id, cmd), begun),
        cmd.peer_id@.len() > 0,
        !cmd.check_server,
        current@ != cmd.peer_id@,
        call_ensures(id_step, (begun.0, IdEvent::Id { current }), writing),
        call_ensures(id_step, (writing.0, IdEvent::Written), loading),
        call_ensures(id_step, (loading.0, IdEvent::Failed), reading),
        call_ensures(id_step, (reading.0, IdEvent::Id { current: now }), done),
    ensures
        call_requires(id_step, (loading.0, IdEvent::Failed)),
        reading.1 is ReadId,
        reports(done, id, now@),
{
    lemma_reports(done.1->text@, id, now@);
}

/// A plain record has the new id, no encrypted one, and all else as it was.
pub proof fn plain_records_have_the_id_alone(
    record: IdRecord,
    new_id: String,
    plain: IdRecord,
)
    requires
        call_ensures(plain_record, (record, new_id), plain),
    ensures
        plain.id@ == new_id@,
        plain.enc_id is None,
        plain.rest == record.rest,
{
    assert(plain@.id == new_id@);
    assert(plain@.enc_id is None);
    assert(plain@.rest == record.rest);
}

} // verus!
