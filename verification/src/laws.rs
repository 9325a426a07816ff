use vstd::prelude::*;

use crate::commands::{
    first_step, next_step, start_from_entry, Action, Command, Event, Outcome, State, Step,
};
use crate::error::Error;
use crate::models::{Project, TimeEntry};

verus! {

/// A trace of one command: `steps[i]` answers `evs[i]`, each taken from the
/// state the step before left behind.
pub open spec fn drives(s: State, evs: Seq<Event>, steps: Seq<Step>) -> bool
    decreases evs.len(),
{
    &&& steps.len() == evs.len()
    &&& evs.len() > 0 ==> {
        &&& next_step(s, evs[0], steps[0])
        &&& drives(steps[0].state, evs.drop_first(), steps.drop_first())
    }
}

/// The actions a trace issues, in order.
pub open spec fn actions_of(steps: Seq<Step>) -> Seq<Action>
    decreases steps.len(),
{
    if steps.len() == 0 {
        Seq::empty()
    } else {
        match steps[0].action {
            Some(a) => seq![a] + actions_of(steps.drop_first()),
            None => actions_of(steps.drop_first()),
        }
    }
}

/// The remote mutating calls: the ones a command must never issue unasked.
/// Reads are safe to repeat; these are not.
pub open spec fn mutating(a: Action) -> bool {
    ||| a is StartEntry
    ||| a is StopEntry
    ||| a is StoreToken
}

/// Induction workhorse: if every single step out of `inv` states, on the
/// events `allowed` admits, stays in `inv` and issues only `ok` actions, then
/// a whole trace of such events issues only `ok` actions.
proof fn lemma_trace_actions(
    inv: spec_fn(State) -> bool,
    ok: spec_fn(Action) -> bool,
    allowed: spec_fn(Event) -> bool,
    s: State,
    evs: Seq<Event>,
    steps: Seq<Step>,
)
    requires
        inv(s),
        drives(s, evs, steps),
        forall|i: int| 0 <= i < evs.len() ==> allowed(#[trigger] evs[i]),
        forall|s2: State, e: Event, r: Step|
            inv(s2) && allowed(e) && #[trigger] next_step(s2, e, r) ==> inv(r.state) && (match r.action {
                Some(a) => ok(a),
                None => true,
            }),
    ensures
        forall|i: int| 0 <= i < actions_of(steps).len() ==> ok(#[trigger] actions_of(steps)[i]),
    decreases evs.len(),
{
    if evs.len() > 0 {
        let r0 = steps[0];
        assert(next_step(s, evs[0], r0));
        assert(inv(r0.state));
        assert forall|i: int| 0 <= i < evs.drop_first().len() implies allowed(
            #[trigger] evs.drop_first()[i],
        ) by {
            assert(evs.drop_first()[i] == evs[i + 1]);
        }
        lemma_trace_actions(inv, ok, allowed, r0.state, evs.drop_first(), steps.drop_first());
        let tail = actions_of(steps.drop_first());
        match r0.action {
            Some(a) => {
                assert(ok(a));
                assert forall|i: int| 0 <= i < actions_of(steps).len() implies ok(
                    #[trigger] actions_of(steps)[i],
                ) by {
                    if i == 0 {
                        assert(actions_of(steps)[0] == a);
                    } else {
                        assert(actions_of(steps)[i] == tail[i - 1]);
                    }
                }
            },
            None => {
                assert(actions_of(steps) == tail);
            },
        }
    }
}

/// A finished command is inert: from a `Done` state, no event makes the
/// machine issue any action, and the outcome never changes.
pub proof fn lemma_done_is_inert(o: Outcome, evs: Seq<Event>, steps: Seq<Step>)
    requires
        drives(State::Done(o), evs, steps),
    ensures
        actions_of(steps) =~= Seq::<Action>::empty(),
    decreases evs.len(),
{
    let inv = |s: State| s is Done;
    let ok = |a: Action| false;
    let allowed = |e: Event| true;
    assert forall|s2: State, e: Event, r: Step|
        inv(s2) && allowed(e) && #[trigger] next_step(s2, e, r) implies inv(r.state) && (match r.action {
        Some(a) => ok(a),
        None => true,
    }) by {}
    lemma_trace_actions(inv, ok, allowed, State::Done(o), evs, steps);
    if actions_of(steps).len() > 0 {
        assert(ok(actions_of(steps)[0]));
    }
}

/// Stop when nothing runs: the only call made is the read of the running
/// entry; no mutating call is ever issued, and the outcome — nothing was
/// running — is benign, not an error.
pub proof fn lemma_stop_when_idle(r0: Step, r1: Step, evs: Seq<Event>, steps: Seq<Step>)
    requires
        first_step(Command::Stop, r0),
        next_step(r0.state, Event::GotRunning(None), r1),
        drives(r1.state, evs, steps),
    ensures
        r0.action == Some(Action::GetRunningEntry),
        !mutating(Action::GetRunningEntry),
        r1.state == State::Done(Outcome::NothingRunning),
        r1.action is None,
        !Outcome::NothingRunning.is_error(),
        actions_of(steps) =~= Seq::<Action>::empty(),
{
    lemma_done_is_inert(Outcome::NothingRunning, evs, steps);
}

/// Start without a description or project, not interactive: the command fails
/// at once with `MissingArgument`, before any remote call — the whole trace
/// issues nothing.
pub proof fn lemma_start_missing_argument(
    billable: Option<bool>,
    r0: Step,
    evs: Seq<Event>,
    steps: Seq<Step>,
)
    requires
        first_step(
            Command::Start { description: None, project: None, billable, interactive: false },
            r0,
        ),
        drives(r0.state, evs, steps),
    ensures
        r0.state == State::Done(Outcome::Failed(Error::MissingArgument)),
        r0.action is None,
        actions_of(steps) =~= Seq::<Action>::empty(),
{
    lemma_done_is_inert(Outcome::Failed(Error::MissingArgument), evs, steps);
}

/// While a token awaits validation, nothing reaches the credential store: a
/// trace in which the service never confirms the token — a failed validation
/// among anything else — stores nothing, so the store is left untouched.
pub proof fn lemma_unvalidated_token_never_stored(
    api_token: String,
    evs: Seq<Event>,
    steps: Seq<Step>,
)
    requires
        drives(State::AuthAwaitValidation { api_token }, evs, steps),
        forall|i: int| 0 <= i < evs.len() ==> !(#[trigger] evs[i] is TokenValid),
    ensures
        forall|i: int| 0 <= i < actions_of(steps).len() ==> !(#[trigger] actions_of(
            steps,
        )[i] is StoreToken),
{
    let inv = |s: State| s is AuthAwaitValidation || s is Done;
    let ok = |a: Action| !(a is StoreToken);
    let allowed = |e: Event| !(e is TokenValid);
    assert forall|s2: State, e: Event, r: Step|
        inv(s2) && allowed(e) && #[trigger] next_step(s2, e, r) implies inv(r.state) && (match r.action {
        Some(a) => ok(a),
        None => true,
    }) by {}
    lemma_trace_actions(
        inv,
        ok,
        allowed,
        State::AuthAwaitValidation { api_token },
        evs,
        steps,
    );
}

/// A token is handed to the store exactly on validation, and the stored token
/// is the one that was validated — never an unvalidated one.
pub proof fn lemma_stored_token_is_validated(api_token: String, r: Step)
    requires
        next_step(
            State::AuthAwaitValidation { api_token: api_token },
            Event::TokenValid,
            r,
        ),
    ensures
        r.action == Some(Action::StoreToken { api_token }),
        r.state == State::AuthAwaitStore,
{
}

/// A Start command never asks for an explicit stop, whatever trace it takes:
/// replacing a running entry is the service's own implicit stop (see
/// `crate::remote::lemma_start_replaces_running`).
pub proof fn lemma_start_never_stops(c: Command, r0: Step, evs: Seq<Event>, steps: Seq<Step>)
    requires
        c is Start,
        first_step(c, r0),
        drives(r0.state, evs, steps),
    ensures
        match r0.action {
            Some(a) => !(a is StopEntry),
            None => true,
        },
        forall|i: int| 0 <= i < actions_of(steps).len() ==> !(#[trigger] actions_of(
            steps,
        )[i] is StopEntry),
{
    let inv = |s: State|
        s is StartAwaitProjects || s is StartAwaitPick || s is StartAwaitStarted || s is Done;
    let ok = |a: Action| !(a is StopEntry);
    let allowed = |e: Event| true;
    assert forall|s2: State, e: Event, r: Step|
        inv(s2) && allowed(e) && #[trigger] next_step(s2, e, r) implies inv(r.state) && (match r.action {
        Some(a) => ok(a),
        None => true,
    }) by {}
    lemma_trace_actions(inv, ok, allowed, r0.state, evs, steps);
}

/// The status command is a pure observation: whatever trace it takes, it
/// never issues a mutating call.
pub proof fn lemma_current_never_mutates(r0: Step, evs: Seq<Event>, steps: Seq<Step>)
    requires
        first_step(Command::Current, r0),
        drives(r0.state, evs, steps),
    ensures
        r0.action == Some(Action::GetRunningEntry),
        forall|i: int| 0 <= i < actions_of(steps).len() ==> !mutating(
            #[trigger] actions_of(steps)[i],
        ),
{
    let inv = |s: State| s is CurrentAwaitRunning || s is Done;
    let ok = |a: Action| !mutating(a);
    let allowed = |e: Event| true;
    assert forall|s2: State, e: Event, r: Step|
        inv(s2) && allowed(e) && #[trigger] next_step(s2, e, r) implies inv(r.state) && (match r.action {
        Some(a) => ok(a),
        None => true,
    }) by {}
    lemma_trace_actions(inv, ok, allowed, r0.state, evs, steps);
}

/// So is List: it fetches and shows, and mutates nothing.
pub proof fn lemma_list_never_mutates(count: usize, r0: Step, evs: Seq<Event>, steps: Seq<Step>)
    requires
        first_step(Command::List { count }, r0),
        drives(r0.state, evs, steps),
    ensures
        r0.action == Some(Action::ListEntries { count }),
        forall|i: int| 0 <= i < actions_of(steps).len() ==> !mutating(
            #[trigger] actions_of(steps)[i],
        ),
{
    let inv = |s: State| s is ListAwaitEntries || s is Done;
    let ok = |a: Action| !mutating(a);
    let allowed = |e: Event| true;
    assert forall|s2: State, e: Event, r: Step|
        inv(s2) && allowed(e) && #[trigger] next_step(s2, e, r) implies inv(r.state) && (match r.action {
        Some(a) => ok(a),
        None => true,
    }) by {}
    lemma_trace_actions(inv, ok, allowed, r0.state, evs, steps);
}

/// An interactive Start whose candidate list comes back empty is already "no
/// selection": no picker is presented, and the command ends as a clean
/// cancellation, not a failure.
pub proof fn lemma_start_empty_candidates_cancel(
    description: Option<String>,
    billable: Option<bool>,
    ps: Vec<Project>,
    r: Step,
)
    requires
        next_step(
            State::StartAwaitProjects { description, billable, project: None },
            Event::GotProjects(ps),
            r,
        ),
        ps@.len() == 0,
    ensures
        r.state == State::Done(Outcome::Cancelled),
        r.action is None,
        !Outcome::Cancelled.is_error(),
{
}

/// Likewise for an interactive Continue with no recent entries to offer.
pub proof fn lemma_continue_empty_candidates_cancel(es: Vec<TimeEntry>, r: Step)
    requires
        next_step(
            State::ContinueAwaitEntries { interactive: true },
            Event::GotEntries(es),
            r,
        ),
        es@.len() == 0,
    ensures
        r.state == State::Done(Outcome::Cancelled),
        r.action is None,
        !Outcome::Cancelled.is_error(),
{
}

/// A cancelled pick ends Start cleanly: the outcome is `Cancelled`, and no
/// start — no action at all — is ever issued afterwards.
pub proof fn lemma_cancelled_pick_starts_nothing(
    description: Option<String>,
    billable: Option<bool>,
    projects: Vec<Project>,
    r: Step,
    evs: Seq<Event>,
    steps: Seq<Step>,
)
    requires
        next_step(
            State::StartAwaitPick { description, billable, projects },
            Event::Picked(None),
            r,
        ),
        drives(r.state, evs, steps),
    ensures
        r.state == State::Done(Outcome::Cancelled),
        r.action is None,
        actions_of(steps) =~= Seq::<Action>::empty(),
{
    lemma_done_is_inert(Outcome::Cancelled, evs, steps);
}

/// Continue re-creates the most recent entry: the start it requests carries
/// the very description, project and billable flag of that entry.
pub proof fn lemma_continue_recreates_most_recent(es: Vec<TimeEntry>, r: Step)
    requires
        next_step(
            State::ContinueAwaitEntries { interactive: false },
            Event::GotEntries(es),
            r,
        ),
        es@.len() > 0,
    ensures
        r.action == Some(start_from_entry(es@[0])),
        r.action == Some(
            Action::StartEntry {
                description: Some(es@[0].description),
                project_id: es@[0].project_id,
                billable: es@[0].billable,
            },
        ),
{
}

/// And likewise for the entry picked interactively.
pub proof fn lemma_continue_recreates_picked(entries: Vec<TimeEntry>, i: usize, r: Step)
    requires
        next_step(State::ContinueAwaitPick { entries }, Event::Picked(Some(i)), r),
        i < entries@.len(),
    ensures
        r.action == Some(
            Action::StartEntry {
                description: Some(entries@[i as int].description),
                project_id: entries@[i as int].project_id,
                billable: entries@[i as int].billable,
            },
        ),
{
}

/// End to end, what Continue's re-start makes of the selected source entry:
/// the service creates an entry with the source's description, project and
/// billable flag, running, and started no earlier than the moment Continue
/// was invoked.
pub proof fn lemma_continue_round_trip(source: TimeEntry, id: u64, invoked_at: int, now: int)
    requires
        invoked_at <= now,
    ensures
        (match start_from_entry(source) {
            Action::StartEntry { description, project_id, billable } => {
                let created = crate::remote::entry_of_start(
                    id,
                    match description {
                        Some(d) => Some(d@),
                        None => None,
                    },
                    project_id,
                    billable,
                    now,
                );
                &&& created.description == source.description@
                &&& created.project_id == source.project_id
                &&& created.billable == source.billable
                &&& created.start >= invoked_at
                &&& created.running()
            },
            _ => false,
        }),
{
}

/// The happy path of Auth, whole: validation first, then — and only then —
/// the store receives exactly the validated token, and the command reports
/// success.
pub proof fn lemma_auth_validates_then_stores(api_token: String, r1: Step, r2: Step)
    requires
        next_step(
            State::AuthAwaitValidation { api_token: api_token },
            Event::TokenValid,
            r1,
        ),
        next_step(r1.state, Event::TokenStored, r2),
    ensures
        r1.action == Some(Action::StoreToken { api_token }),
        r2.state == State::Done(Outcome::Authenticated),
        r2.action is None,
{
}

} // verus!
