use togglcli::commands::{advance, start_command, Action, Command, Event, Outcome, State, Step};
use togglcli::error::{ApiError, Error};
use togglcli::models::{Project, TimeEntry};

fn entry(id: u64, description: &str, project_id: Option<u64>, billable: bool) -> TimeEntry {
    TimeEntry {
        id,
        description: description.to_string(),
        project_id,
        start: 1_000,
        stop: Some(2_000),
        billable,
    }
}

fn project(id: u64, name: &str, billable: bool) -> Project {
    Project {
        id,
        name: name.to_string(),
        billable,
        workspace_id: 1,
    }
}

/// A test double for the remote service: holds the running entry and counts
/// every call the machine asks for.
struct RemoteDouble {
    running: Option<TimeEntry>,
    start_calls: usize,
    stop_calls: usize,
    store_calls: usize,
    next_id: u64,
}

impl RemoteDouble {
    fn new() -> Self {
        RemoteDouble { running: None, start_calls: 0, stop_calls: 0, store_calls: 0, next_id: 1 }
    }

    fn perform(&mut self, a: Action) -> Event {
        match a {
            Action::GetRunningEntry => Event::GotRunning(self.running.clone()),
            Action::StartEntry { description, project_id, billable } => {
                self.start_calls += 1;
                let e = TimeEntry {
                    id: self.next_id,
                    description: description.unwrap_or_default(),
                    project_id,
                    start: 5_000,
                    stop: None,
                    billable,
                };
                self.next_id += 1;
                self.running = Some(e.clone());
                Event::GotStarted(e)
            }
            Action::StopEntry { id } => {
                self.stop_calls += 1;
                match self.running.take() {
                    Some(mut e) if e.id == id => {
                        e.stop = Some(6_000);
                        Event::GotStopped(e)
                    }
                    other => {
                        self.running = other;
                        Event::ApiFailed(ApiError::NotFound)
                    }
                }
            }
            Action::StoreToken { .. } => {
                self.store_calls += 1;
                Event::TokenStored
            }
            Action::Validate { .. } => Event::TokenValid,
            other => panic!("unexpected action: {:?}", other),
        }
    }

    fn run(&mut self, cmd: Command) -> Outcome {
        let mut step: Step = start_command(cmd);
        loop {
            match step.action.take() {
                Some(a) => {
                    let ev = self.perform(a);
                    step = advance(step.state, ev);
                }
                None => match step.state {
                    State::Done(o) => return o,
                    other => panic!("machine stalled in {:?}", other),
                },
            }
        }
    }
}

#[test]
fn stop_when_idle_makes_no_mutating_call() {
    let step = start_command(Command::Stop);
    assert_eq!(step.action, Some(Action::GetRunningEntry));
    let step = advance(step.state, Event::GotRunning(None));
    assert_eq!(step.state, State::Done(Outcome::NothingRunning));
    assert_eq!(step.action, None);
}

#[test]
fn stop_when_running_stops_that_entry() {
    let mut e = entry(7, "work", None, false);
    e.stop = None;
    let step = start_command(Command::Stop);
    let step = advance(step.state, Event::GotRunning(Some(e)));
    assert_eq!(step.action, Some(Action::StopEntry { id: 7 }));
    let mut stopped = entry(7, "work", None, false);
    stopped.stop = Some(6_000);
    let step = advance(step.state, Event::GotStopped(stopped.clone()));
    assert_eq!(step.state, State::Done(Outcome::Stopped(stopped)));
}

#[test]
fn second_start_replaces_running_without_stop() {
    let mut double = RemoteDouble::new();
    let first = double.run(Command::Start {
        description: Some("a".to_string()),
        project: None,
        billable: None,
        interactive: false,
    });
    assert!(matches!(first, Outcome::Started(_)));
    let second = double.run(Command::Start {
        description: Some("b".to_string()),
        project: None,
        billable: None,
        interactive: false,
    });
    match second {
        Outcome::Started(e) => assert_eq!(e.description, "b"),
        other => panic!("expected a started entry, got {:?}", other),
    }
    let running = double.running.as_ref().expect("an entry should be running");
    assert_eq!(running.description, "b");
    assert_eq!(double.start_calls, 2);
    assert_eq!(double.stop_calls, 0);
}

#[test]
fn start_without_input_fails_before_any_remote_call() {
    let step = start_command(Command::Start {
        description: None,
        project: None,
        billable: None,
        interactive: false,
    });
    assert_eq!(step.state, State::Done(Outcome::Failed(Error::MissingArgument)));
    assert_eq!(step.action, None);
}

#[test]
fn interactive_start_cancelled_pick_starts_nothing() {
    let step = start_command(Command::Start {
        description: None,
        project: None,
        billable: None,
        interactive: true,
    });
    assert_eq!(step.action, Some(Action::ListProjects));
    let ps = vec![project(1, "web", true), project(2, "ops", false)];
    let step = advance(step.state, Event::GotProjects(ps));
    assert_eq!(step.action, Some(Action::PickProject));
    let step = advance(step.state, Event::Picked(None));
    assert_eq!(step.state, State::Done(Outcome::Cancelled));
    assert_eq!(step.action, None);
}

#[test]
fn interactive_start_with_no_projects_cancels_without_ui() {
    let step = start_command(Command::Start {
        description: Some("x".to_string()),
        project: None,
        billable: None,
        interactive: true,
    });
    let step = advance(step.state, Event::GotProjects(Vec::new()));
    assert_eq!(step.state, State::Done(Outcome::Cancelled));
    assert_eq!(step.action, None);
}

#[test]
fn start_resolves_project_name_and_defaults_billable() {
    let step = start_command(Command::Start {
        description: Some("x".to_string()),
        project: Some("web".to_string()),
        billable: None,
        interactive: false,
    });
    assert_eq!(step.action, Some(Action::ListProjects));
    let ps = vec![project(9, "ops", false), project(4, "web", true)];
    let step = advance(step.state, Event::GotProjects(ps));
    assert_eq!(
        step.action,
        Some(Action::StartEntry {
            description: Some("x".to_string()),
            project_id: Some(4),
            billable: true,
        })
    );
}

#[test]
fn start_with_unknown_project_is_not_found() {
    let step = start_command(Command::Start {
        description: None,
        project: Some("nope".to_string()),
        billable: None,
        interactive: false,
    });
    let step = advance(step.state, Event::GotProjects(vec![project(1, "web", true)]));
    assert_eq!(step.state, State::Done(Outcome::Failed(Error::NotFound)));
}

#[test]
fn explicit_billable_wins_over_project_default() {
    let step = start_command(Command::Start {
        description: None,
        project: Some("web".to_string()),
        billable: Some(false),
        interactive: false,
    });
    let step = advance(step.state, Event::GotProjects(vec![project(4, "web", true)]));
    assert_eq!(
        step.action,
        Some(Action::StartEntry { description: None, project_id: Some(4), billable: false })
    );
}

#[test]
fn list_three_of_five_keeps_most_recent_first() {
    let step = start_command(Command::List { count: 3 });
    assert_eq!(step.action, Some(Action::ListEntries { count: 3 }));
    let es = vec![
        entry(5, "e", None, false),
        entry(4, "d", None, false),
        entry(3, "c", None, false),
        entry(2, "b", None, false),
        entry(1, "a", None, false),
    ];
    let step = advance(step.state, Event::GotEntries(es));
    match step.state {
        State::Done(Outcome::Listed(shown)) => {
            assert_eq!(shown.len(), 3);
            assert_eq!(shown[0].id, 5);
            assert_eq!(shown[1].id, 4);
            assert_eq!(shown[2].id, 3);
        }
        other => panic!("expected a listing, got {:?}", other),
    }
}

#[test]
fn list_fewer_than_asked_shows_all() {
    let step = start_command(Command::List { count: 10 });
    let step = advance(step.state, Event::GotEntries(vec![entry(1, "a", None, false)]));
    match step.state {
        State::Done(Outcome::Listed(shown)) => assert_eq!(shown.len(), 1),
        other => panic!("expected a listing, got {:?}", other),
    }
}

#[test]
fn continue_recreates_most_recent_entry() {
    let step = start_command(Command::Continue { interactive: false });
    assert_eq!(step.action, Some(Action::ListEntries { count: 1 }));
    let step = advance(
        step.state,
        Event::GotEntries(vec![entry(8, "deploy", Some(4), true)]),
    );
    assert_eq!(
        step.action,
        Some(Action::StartEntry {
            description: Some("deploy".to_string()),
            project_id: Some(4),
            billable: true,
        })
    );
    let mut started = entry(9, "deploy", Some(4), true);
    started.stop = None;
    let step = advance(step.state, Event::GotStarted(started.clone()));
    assert_eq!(step.state, State::Done(Outcome::Started(started)));
}

#[test]
fn continue_with_no_entries_is_not_found() {
    let step = start_command(Command::Continue { interactive: false });
    let step = advance(step.state, Event::GotEntries(Vec::new()));
    assert_eq!(step.state, State::Done(Outcome::Failed(Error::NotFound)));
}

#[test]
fn interactive_continue_recreates_picked_entry() {
    let step = start_command(Command::Continue { interactive: true });
    assert_eq!(step.action, Some(Action::ListEntries { count: 10 }));
    let es = vec![
        entry(3, "c", None, false),
        entry(2, "b", Some(7), true),
        entry(1, "a", None, false),
    ];
    let step = advance(step.state, Event::GotEntries(es));
    assert_eq!(step.action, Some(Action::PickEntry));
    let step = advance(step.state, Event::Picked(Some(1)));
    assert_eq!(
        step.action,
        Some(Action::StartEntry {
            description: Some("b".to_string()),
            project_id: Some(7),
            billable: true,
        })
    );
}

#[test]
fn current_reports_running_entry() {
    let step = start_command(Command::Current);
    assert_eq!(step.action, Some(Action::GetRunningEntry));
    let mut e = entry(2, "now", None, false);
    e.stop = None;
    let step = advance(step.state, Event::GotRunning(Some(e.clone())));
    assert_eq!(step.state, State::Done(Outcome::Status(Some(e))));
}

#[test]
fn auth_failure_stores_nothing() {
    let step = start_command(Command::Auth { api_token: "bad".to_string() });
    assert_eq!(step.action, Some(Action::Validate { api_token: "bad".to_string() }));
    let step = advance(step.state, Event::ApiFailed(ApiError::Auth));
    assert_eq!(step.state, State::Done(Outcome::Failed(Error::Auth)));
    assert_eq!(step.action, None);
}

#[test]
fn auth_stores_exactly_the_validated_token() {
    let mut double = RemoteDouble::new();
    let outcome = double.run(Command::Auth { api_token: "token-123".to_string() });
    assert_eq!(outcome, Outcome::Authenticated);
    assert_eq!(double.store_calls, 1);
}

#[test]
fn network_failure_surfaces_as_error() {
    let step = start_command(Command::List { count: 2 });
    let step = advance(step.state, Event::ApiFailed(ApiError::Network));
    assert_eq!(step.state, State::Done(Outcome::Failed(Error::Network)));
}
