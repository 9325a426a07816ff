use vstd::prelude::*;

use crate::error::{error_of_api_spec, error_of_api, ApiError, Error};
use crate::models::{Project, TimeEntry};

verus! {

/// How many recent entries an interactive Continue offers to pick among.
pub const RECENT_ENTRIES: usize = 10;

/// One parsed command, as the dispatcher hands it to the orchestration layer.
#[derive(Debug, PartialEq)]
pub enum Command {
    /// Start a new entry; missing fields are resolved interactively when
    /// `interactive` is set, and are an error otherwise.
    Start {
        description: Option<String>,
        /// Name of the project to start under, to be resolved remotely.
        project: Option<String>,
        billable: Option<bool>,
        interactive: bool,
    },
    /// Stop the running entry, if any.
    Stop,
    /// Re-start the most recent entry, or one picked among the recent ones.
    Continue { interactive: bool },
    /// Print the last `count` entries, most recent first.
    List { count: usize },
    /// Print the running entry, or that nothing runs.
    Current,
    /// Validate a token against the service, then persist it.
    Auth { api_token: String },
}

/// One remote call or picker interaction the surrounding process must perform
/// next. Every command issues at most one of these at a time.
#[derive(Debug, PartialEq)]
pub enum Action {
    /// Read the currently running entry.
    GetRunningEntry,
    /// Create (and return) a new running entry; the service implicitly stops
    /// any entry that was running.
    StartEntry { description: Option<String>, project_id: Option<u64>, billable: bool },
    /// Stop the entry with this id.
    StopEntry { id: u64 },
    /// Fetch the last `count` entries, most recent first.
    ListEntries { count: usize },
    /// Fetch the projects of the workspace.
    ListProjects,
    /// Check the token against the service without persisting anything.
    Validate { api_token: String },
    /// Persist the token in the credential store.
    StoreToken { api_token: String },
    /// Let the user pick among the projects held in the machine's state.
    PickProject,
    /// Let the user pick among the entries held in the machine's state.
    PickEntry,
}

/// The reply to the action last issued, fed back into the machine.
#[derive(Debug, PartialEq)]
pub enum Event {
    GotRunning(Option<TimeEntry>),
    GotStarted(TimeEntry),
    GotStopped(TimeEntry),
    GotEntries(Vec<TimeEntry>),
    GotProjects(Vec<Project>),
    /// The token passed validation.
    TokenValid,
    /// The credential store accepted the token.
    TokenStored,
    /// The user picked the item with this index, or cancelled.
    Picked(Option<usize>),
    /// The picker mechanism itself failed (distinct from cancelling).
    PickFailed,
    /// The remote call failed.
    ApiFailed(ApiError),
}

/// What a finished command reports. `Cancelled` is a clean no-op, not an
/// error; `NothingRunning` likewise.
#[derive(Debug, PartialEq)]
pub enum Outcome {
    /// A new entry is running.
    Started(TimeEntry),
    /// The formerly running entry, now stopped.
    Stopped(TimeEntry),
    /// Stop found nothing running; a benign outcome.
    NothingRunning,
    /// The running entry, or `None` when idle.
    Status(Option<TimeEntry>),
    /// The fetched entries, most recent first, at most the requested count.
    Listed(Vec<TimeEntry>),
    /// The token was validated and persisted.
    Authenticated,
    /// The user aborted an interactive pick; a clean, silent no-op.
    Cancelled,
    Failed(Error),
}

impl Outcome {
    /// Only `Failed` is an error; everything else, cancellation included, is a
    /// regular result.
    pub open spec fn is_error(self) -> bool {
        self is Failed
    }
}

/// Where a command stands between two interactions with the outside.
#[derive(Debug, PartialEq)]
pub enum State {
    CurrentAwaitRunning,
    StopAwaitRunning,
    StopAwaitStopped,
    /// Start fetched the projects to resolve `project` by name, or, with no
    /// name given, to offer them to the picker.
    StartAwaitProjects { description: Option<String>, billable: Option<bool>, project: Option<String> },
    StartAwaitPick { description: Option<String>, billable: Option<bool>, projects: Vec<Project> },
    StartAwaitStarted,
    ContinueAwaitEntries { interactive: bool },
    ContinueAwaitPick { entries: Vec<TimeEntry> },
    ContinueAwaitStarted,
    ListAwaitEntries { count: usize },
    AuthAwaitValidation { api_token: String },
    AuthAwaitStore,
    Done(Outcome),
}

/// One turn of the machine: the state it moves to, and the action, if any,
/// the surrounding process must perform to produce the next event. A finished
/// command is `Done` and issues no action.
#[derive(Debug, PartialEq)]
pub struct Step {
    pub state: State,
    pub action: Option<Action>,
}

/// First index among `ps` whose name reads `name`, if any.
pub open spec fn first_project_named(ps: Seq<Project>, name: Seq<char>) -> Option<int>
    decreases ps.len(),
{
    if ps.len() == 0 {
        None
    } else if ps[0].name@ == name {
        Some(0int)
    } else {
        match first_project_named(ps.drop_first(), name) {
            Some(i) => Some(i + 1),
            None => None,
        }
    }
}

/// `first_project_named` returns exactly the first match: a valid index whose
/// project carries the name, with no earlier match; `None` when no project
/// carries it.
pub proof fn lemma_first_project_named(ps: Seq<Project>, name: Seq<char>)
    ensures
        match first_project_named(ps, name) {
            Some(i) => 0 <= i < ps.len() && ps[i].name@ == name
                && (forall|j: int| 0 <= j < i ==> ps[j].name@ != name),
            None => forall|j: int| 0 <= j < ps.len() ==> ps[j].name@ != name,
        },
    decreases ps.len(),
{
    if ps.len() > 0 && ps[0].name@ != name {
        lemma_first_project_named(ps.drop_first(), name);
        assert forall|j: int| 1 <= j < ps.len() implies ps[j] == ps.drop_first()[j - 1] by {}
    }
}

/// What `start_entry` is asked for when the entry runs under `p`: arguments
/// win, and `billable` falls back to the project's default flag.
pub open spec fn start_under_project(description: Option<String>, billable: Option<bool>, p: Project) -> Action {
    Action::StartEntry {
        description,
        project_id: Some(p.id),
        billable: match billable {
            Some(b) => b,
            None => p.billable,
        },
    }
}

/// What `start_entry` is asked for when Continue re-creates `source`: the same
/// description, project and billable flag.
pub open spec fn start_from_entry(source: TimeEntry) -> Action {
    Action::StartEntry {
        description: Some(source.description),
        project_id: source.project_id,
        billable: source.billable,
    }
}

/// The machine's first step for each command.
///
/// Start fails fast with `MissingArgument` when neither a description nor a
/// project is given and the command is not interactive: no remote call is
/// issued at all. With a project name, or interactively without one, the
/// projects are fetched first; with only a description the entry starts at
/// once.
pub open spec fn first_step(c: Command, r: Step) -> bool {
    match c {
        Command::Current => r == (Step { state: State::CurrentAwaitRunning, action: Some(Action::GetRunningEntry) }),
        Command::Stop => r == (Step { state: State::StopAwaitRunning, action: Some(Action::GetRunningEntry) }),
        Command::List { count } => r == (Step {
            state: State::ListAwaitEntries { count },
            action: Some(Action::ListEntries { count }),
        }),
        Command::Auth { api_token } => r == (Step {
            state: State::AuthAwaitValidation { api_token },
            action: Some(Action::Validate { api_token }),
        }),
        Command::Continue { interactive } => r == (Step {
            state: State::ContinueAwaitEntries { interactive },
            action: Some(Action::ListEntries { count: if interactive { RECENT_ENTRIES } else { 1usize } }),
        }),
        Command::Start { description, project, billable, interactive } => {
            match project {
                Some(name) => r == (Step {
                    state: State::StartAwaitProjects { description, billable, project: Some(name) },
                    action: Some(Action::ListProjects),
                }),
                None => {
                    if interactive {
                        r == (Step {
                            state: State::StartAwaitProjects { description, billable, project: None },
                            action: Some(Action::ListProjects),
                        })
                    } else if description is Some {
                        r == (Step {
                            state: State::StartAwaitStarted,
                            action: Some(Action::StartEntry { description, project_id: None, billable: match billable { Some(b) => b, None => false } }),
                        })
                    } else {
                        r == (Step {
                            state: State::Done(Outcome::Failed(Error::MissingArgument)),
                            action: None,
                        })
                    }
                },
            }
        },
    }
}

/// Every later step of the machine: from the state left behind and the event
/// the outside produced, the state and action that follow.
///
/// A `Done` state absorbs every event and issues nothing. An event that does
/// not answer the pending action leaves the state as it was and issues
/// nothing (no honest driver produces one). A remote failure ends any pending
/// command with the corresponding error.
pub open spec fn next_step(s: State, e: Event, r: Step) -> bool {
    match (s, e) {
        (State::CurrentAwaitRunning, Event::GotRunning(running)) => r == (Step {
            state: State::Done(Outcome::Status(running)),
            action: None,
        }),
        (State::StopAwaitRunning, Event::GotRunning(running)) => match running {
            None => r == (Step { state: State::Done(Outcome::NothingRunning), action: None }),
            Some(entry) => r == (Step {
                state: State::StopAwaitStopped,
                action: Some(Action::StopEntry { id: entry.id }),
            }),
        },
        (State::StopAwaitStopped, Event::GotStopped(entry)) => r == (Step {
            state: State::Done(Outcome::Stopped(entry)),
            action: None,
        }),
        (State::StartAwaitProjects { description, billable, project: Some(name) }, Event::GotProjects(ps)) => {
            match first_project_named(ps@, name@) {
                Some(i) => r == (Step {
                    state: State::StartAwaitStarted,
                    action: Some(start_under_project(description, billable, ps@[i])),
                }),
                None => r == (Step { state: State::Done(Outcome::Failed(Error::NotFound)), action: None }),
            }
        },
        (State::StartAwaitProjects { description, billable, project: None }, Event::GotProjects(ps)) => {
            if ps@.len() == 0 {
                r == (Step { state: State::Done(Outcome::Cancelled), action: None })
            } else {
                r == (Step {
                    state: State::StartAwaitPick { description, billable, projects: ps },
                    action: Some(Action::PickProject),
                })
            }
        },
        (State::StartAwaitPick { description, billable, projects }, Event::Picked(choice)) => match choice {
            None => r == (Step { state: State::Done(Outcome::Cancelled), action: None }),
            Some(i) => {
                if i < projects@.len() {
                    r == (Step {
                        state: State::StartAwaitStarted,
                        action: Some(start_under_project(description, billable, projects@[i as int])),
                    })
                } else {
                    r == (Step { state: State::Done(Outcome::Failed(Error::Picker)), action: None })
                }
            },
        },
        (State::StartAwaitPick { .. }, Event::PickFailed) => r == (Step {
            state: State::Done(Outcome::Failed(Error::Picker)),
            action: None,
        }),
        (State::StartAwaitStarted, Event::GotStarted(entry)) => r == (Step {
            state: State::Done(Outcome::Started(entry)),
            action: None,
        }),
        (State::ContinueAwaitEntries { interactive: false }, Event::GotEntries(es)) => {
            if es@.len() == 0 {
                r == (Step { state: State::Done(Outcome::Failed(Error::NotFound)), action: None })
            } else {
                r == (Step {
                    state: State::ContinueAwaitStarted,
                    action: Some(start_from_entry(es@[0])),
                })
            }
        },
        (State::ContinueAwaitEntries { interactive: true }, Event::GotEntries(es)) => {
            if es@.len() == 0 {
                r == (Step { state: State::Done(Outcome::Cancelled), action: None })
            } else {
                r == (Step {
                    state: State::ContinueAwaitPick { entries: es },
                    action: Some(Action::PickEntry),
                })
            }
        },
        (State::ContinueAwaitPick { entries }, Event::Picked(choice)) => match choice {
            None => r == (Step { state: State::Done(Outcome::Cancelled), action: None }),
            Some(i) => {
                if i < entries@.len() {
                    r == (Step {
                        state: State::ContinueAwaitStarted,
                        action: Some(start_from_entry(entries@[i as int])),
                    })
                } else {
                    r == (Step { state: State::Done(Outcome::Failed(Error::Picker)), action: None })
                }
            },
        },
        (State::ContinueAwaitPick { .. }, Event::PickFailed) => r == (Step {
            state: State::Done(Outcome::Failed(Error::Picker)),
            action: None,
        }),
        (State::ContinueAwaitStarted, Event::GotStarted(entry)) => r == (Step {
            state: State::Done(Outcome::Started(entry)),
            action: None,
        }),
        (State::ListAwaitEntries { count }, Event::GotEntries(es)) => {
            &&& r.action is None
            &&& r.state matches State::Done(Outcome::Listed(shown))
                && shown@ == es@.take(if count < es@.len() { count as int } else { es@.len() as int })
        },
        (State::AuthAwaitValidation { api_token }, Event::TokenValid) => r == (Step {
            state: State::AuthAwaitStore,
            action: Some(Action::StoreToken { api_token }),
        }),
        (State::AuthAwaitStore, Event::TokenStored) => r == (Step {
            state: State::Done(Outcome::Authenticated),
            action: None,
        }),
        (s2, Event::ApiFailed(err)) => {
            if s2 is Done {
                r == (Step { state: s2, action: None })
            } else {
                r == (Step { state: State::Done(Outcome::Failed(error_of_api_spec(err))), action: None })
            }
        },
        (s2, _) => r == (Step { state: s2, action: None }),
    }
}

/// Dispatches a parsed command: the machine's first state and action.
pub fn start_command(c: Command) -> (r: Step)
    ensures
        first_step(c, r),
{
    match c {
        Command::Current => Step { state: State::CurrentAwaitRunning, action: Some(Action::GetRunningEntry) },
        Command::Stop => Step { state: State::StopAwaitRunning, action: Some(Action::GetRunningEntry) },
        Command::List { count } => Step {
            state: State::ListAwaitEntries { count },
            action: Some(Action::ListEntries { count }),
        },
        Command::Auth { api_token } => {
            let stored = api_token.clone();
            Step {
                state: State::AuthAwaitValidation { api_token: stored },
                action: Some(Action::Validate { api_token }),
            }
        },
        Command::Continue { interactive } => {
            let count: usize = if interactive { RECENT_ENTRIES } else { 1 };
            Step {
                state: State::ContinueAwaitEntries { interactive },
                action: Some(Action::ListEntries { count }),
            }
        },
        Command::Start { description, project, billable, interactive } => match project {
            Some(name) => Step {
                state: State::StartAwaitProjects { description, billable, project: Some(name) },
                action: Some(Action::ListProjects),
            },
            None => {
                if interactive {
                    Step {
                        state: State::StartAwaitProjects { description, billable, project: None },
                        action: Some(Action::ListProjects),
                    }
                } else if description.is_some() {
                    let b: bool = match billable {
                        Some(b) => b,
                        None => false,
                    };
                    Step {
                        state: State::StartAwaitStarted,
                        action: Some(Action::StartEntry { description, project_id: None, billable: b }),
                    }
                } else {
                    Step { state: State::Done(Outcome::Failed(Error::MissingArgument)), action: None }
                }
            },
        },
    }
}

/// Finds the first project named `name`, as `first_project_named` does.
fn find_project(ps: &Vec<Project>, name: &String) -> (r: Option<usize>)
    ensures
        match r {
            Some(i) => first_project_named(ps@, name@) == Some(i as int),
            None => first_project_named(ps@, name@) is None,
        },
{
    let mut i: usize = 0;
    while i < ps.len()
        invariant
            i <= ps@.len(),
            forall|j: int| 0 <= j < i ==> ps@[j].name@ != name@,
        decreases ps@.len() - i,
    {
        if ps[i].name == *name {
            proof {
                lemma_first_project_named(ps@, name@);
            }
            return Some(i);
        }
        i = i + 1;
    }
    proof {
        lemma_first_project_named(ps@, name@);
    }
    None
}

/// Advances a command by one turn, on the event that answers the pending
/// action.
pub fn advance(s: State, e: Event) -> (r: Step)
    ensures
        next_step(s, e, r),
{
    match (s, e) {
        (State::CurrentAwaitRunning, Event::GotRunning(running)) => Step {
            state: State::Done(Outcome::Status(running)),
            action: None,
        },
        (State::StopAwaitRunning, Event::GotRunning(running)) => match running {
            None => Step { state: State::Done(Outcome::NothingRunning), action: None },
            Some(entry) => Step {
                state: State::StopAwaitStopped,
                action: Some(Action::StopEntry { id: entry.id }),
            },
        },
        (State::StopAwaitStopped, Event::GotStopped(entry)) => Step {
            state: State::Done(Outcome::Stopped(entry)),
            action: None,
        },
        (State::StartAwaitProjects { description, billable, project: Some(name) }, Event::GotProjects(ps)) => {
            match find_project(&ps, &name) {
                Some(i) => {
                    proof {
                        lemma_first_project_named(ps@, name@);
                    }
                    let b: bool = match billable {
                        Some(b) => b,
                        None => ps[i].billable,
                    };
                    Step {
                        state: State::StartAwaitStarted,
                        action: Some(Action::StartEntry { description, project_id: Some(ps[i].id), billable: b }),
                    }
                },
                None => Step { state: State::Done(Outcome::Failed(Error::NotFound)), action: None },
            }
        },
        (State::StartAwaitProjects { description, billable, project: None }, Event::GotProjects(ps)) => {
            if ps.len() == 0 {
                Step { state: State::Done(Outcome::Cancelled), action: None }
            } else {
                Step {
                    state: State::StartAwaitPick { description, billable, projects: ps },
                    action: Some(Action::PickProject),
                }
            }
        },
        (State::StartAwaitPick { description, billable, projects }, Event::Picked(choice)) => match choice {
            None => Step { state: State::Done(Outcome::Cancelled), action: None },
            Some(i) => {
                if i < projects.len() {
                    let b: bool = match billable {
                        Some(b) => b,
                        None => projects[i].billable,
                    };
                    Step {
                        state: State::StartAwaitStarted,
                        action: Some(Action::StartEntry { description, project_id: Some(projects[i].id), billable: b }),
                    }
                } else {
                    Step { state: State::Done(Outcome::Failed(Error::Picker)), action: None }
                }
            },
        },
        (State::StartAwaitPick { .. }, Event::PickFailed) => Step {
            state: State::Done(Outcome::Failed(Error::Picker)),
            action: None,
        },
        (State::StartAwaitStarted, Event::GotStarted(entry)) => Step {
            state: State::Done(Outcome::Started(entry)),
            action: None,
        },
        (State::ContinueAwaitEntries { interactive: false }, Event::GotEntries(es)) => {
            if es.len() == 0 {
                Step { state: State::Done(Outcome::Failed(Error::NotFound)), action: None }
            } else {
                let mut es = es;
                let source = es.remove(0);
                Step {
                    state: State::ContinueAwaitStarted,
                    action: Some(Action::StartEntry {
                        description: Some(source.description),
                        project_id: source.project_id,
                        billable: source.billable,
                    }),
                }
            }
        },
        (State::ContinueAwaitEntries { interactive: true }, Event::GotEntries(es)) => {
            if es.len() == 0 {
                Step { state: State::Done(Outcome::Cancelled), action: None }
            } else {
                Step {
                    state: State::ContinueAwaitPick { entries: es },
                    action: Some(Action::PickEntry),
                }
            }
        },
        (State::ContinueAwaitPick { entries }, Event::Picked(choice)) => match choice {
            None => Step { state: State::Done(Outcome::Cancelled), action: None },
            Some(i) => {
                if i < entries.len() {
                    let mut entries = entries;
                    let source = entries.remove(i);
                    Step {
                        state: State::ContinueAwaitStarted,
                        action: Some(Action::StartEntry {
                            description: Some(source.description),
                            project_id: source.project_id,
                            billable: source.billable,
                        }),
                    }
                } else {
                    Step { state: State::Done(Outcome::Failed(Error::Picker)), action: None }
                }
            },
        },
        (State::ContinueAwaitPick { .. }, Event::PickFailed) => Step {
            state: State::Done(Outcome::Failed(Error::Picker)),
            action: None,
        },
        (State::ContinueAwaitStarted, Event::GotStarted(entry)) => Step {
            state: State::Done(Outcome::Started(entry)),
            action: None,
        },
        (State::ListAwaitEntries { count }, Event::GotEntries(es)) => {
            let mut es = es;
            let ghost orig = es@;
            es.truncate(count);
            proof {
                if count >= orig.len() {
                    assert(es@ =~= orig.take(orig.len() as int));
                }
            }
            Step { state: State::Done(Outcome::Listed(es)), action: None }
        },
        (State::AuthAwaitValidation { api_token }, Event::TokenValid) => Step {
            state: State::AuthAwaitStore,
            action: Some(Action::StoreToken { api_token }),
        },
        (State::AuthAwaitStore, Event::TokenStored) => Step {
            state: State::Done(Outcome::Authenticated),
            action: None,
        },
        (s2, Event::ApiFailed(err)) => match s2 {
            State::Done(o) => Step { state: State::Done(o), action: None },
            _ => Step { state: State::Done(Outcome::Failed(error_of_api(err))), action: None },
        },
        (s2, _) => Step { state: s2, action: None },
    }
}

/// The description actually sent over the wire: the given one, or empty —
/// never absent, as the remote API expects.
pub fn description_or_empty(description: Option<String>) -> (r: String)
    ensures
        r@ == match description {
            Some(d) => d@,
            None => Seq::<char>::empty(),
        },
{
    match description {
        Some(d) => d,
        None => String::new(),
    }
}

} // verus!
