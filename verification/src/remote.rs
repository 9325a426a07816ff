use vstd::prelude::*;

use crate::models::EntryModel;

verus! {

/// The one piece of remote state the commands revolve around: the currently
/// running entry, of which the service keeps at most one per account.
pub struct RemoteModel {
    pub running: Option<EntryModel>,
}

/// What the entry created for a `start_entry` call looks like: the requested
/// description (empty when none was given — never absent), project and
/// billable flag, started at the moment `now` of creation, still running.
pub open spec fn entry_of_start(
    id: u64,
    description: Option<Seq<char>>,
    project_id: Option<u64>,
    billable: bool,
    now: int,
) -> EntryModel {
    EntryModel {
        id,
        description: match description {
            Some(d) => d,
            None => Seq::empty(),
        },
        project_id,
        start: now,
        stop: None,
        billable,
    }
}

/// `start_entry`: the new entry runs; whatever ran before is implicitly
/// stopped by the service, with no `stop_entry` call needed.
pub open spec fn after_start(m: RemoteModel, e: EntryModel) -> RemoteModel {
    RemoteModel { running: Some(e) }
}

/// `stop_entry`: nothing runs afterwards.
pub open spec fn after_stop(m: RemoteModel) -> RemoteModel {
    RemoteModel { running: None }
}

/// After a stop nothing runs: the Idle state of the two-state machine.
pub proof fn lemma_stop_idles(m: RemoteModel)
    ensures
        after_stop(m).running is None,
{
}

/// Two Starts in a row: the second replaces the first as the running entry,
/// with no explicit Stop in between — whatever ran before, even `a` itself.
pub proof fn lemma_start_replaces_running(m: RemoteModel, a: EntryModel, b: EntryModel)
    ensures
        after_start(after_start(m, a), b) == after_start(m, b),
        after_start(after_start(m, a), b).running == Some(b),
{
}

/// An entry created at or after the moment a command was invoked starts no
/// earlier than that invocation.
pub proof fn lemma_started_no_earlier(
    id: u64,
    description: Option<Seq<char>>,
    project_id: Option<u64>,
    billable: bool,
    invoked_at: int,
    now: int,
)
    requires
        invoked_at <= now,
    ensures
        entry_of_start(id, description, project_id, billable, now).start >= invoked_at,
        entry_of_start(id, description, project_id, billable, now).running(),
{
}

} // verus!
