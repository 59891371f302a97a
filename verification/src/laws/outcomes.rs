//! How a command that is decided at once turns out.

use vstd::prelude::*;

use crate::action::{Action, Outcome, Plan};
use crate::laws::replies::{accepts_text, lemma_accepts, lemma_refuses, refuses_text};
use crate::reply::{error_members, ok_members};

verus! {

/// The command is accepted, and this is what it sends.
pub open spec fn sends(outcome: Outcome, id: u64, actions: Seq<Action>) -> bool {
    accepts_text(outcome.reply@, id) && outcome.actions@ == actions
}

/// The command is refused for this reason, and sends nothing.
pub open spec fn declines(outcome: Outcome, id: u64, reason: Seq<char>) -> bool {
    refuses_text(outcome.reply@, id, reason) && outcome.actions@.len() == 0
}

/// What an outcome as planned says.
pub proof fn lemma_outcome(outcome: Outcome, plan: Plan, id: u64)
    requires
        outcome.is_as(plan),
    ensures
        outcome.actions@ == plan.actions,
        plan.members == ok_members(id) ==> accepts_text(outcome.reply@, id),
        forall|reason: Seq<char>|
            plan.members == #[trigger] error_members(id, reason) ==> refuses_text(
                outcome.reply@,
                id,
                reason,
            ),
{
    if plan.members == ok_members(id) {
        lemma_accepts(outcome.reply@, id);
    }
    assert forall|reason: Seq<char>|
        plan.members == #[trigger] error_members(id, reason) implies refuses_text(
        outcome.reply@,
        id,
        reason,
    ) by {
        lemma_refuses(outcome.reply@, id, reason);
    }
}

} // verus!
