use vstd::prelude::*;

verus! {

/// A time entry as the remote service reports it. An absent `stop` means the
/// entry is currently running; at most one entry per account is running at a
/// time (the remote service enforces this).
#[derive(Clone, Debug, PartialEq)]
pub struct TimeEntry {
    pub id: u64,
    pub description: String,
    pub project_id: Option<u64>,
    /// Start of the entry, seconds since the epoch.
    pub start: i64,
    /// End of the entry, seconds since the epoch; absent while running.
    pub stop: Option<i64>,
    pub billable: bool,
}

/// Mathematical view of a time entry.
pub struct EntryModel {
    pub id: u64,
    pub description: Seq<char>,
    pub project_id: Option<u64>,
    pub start: int,
    pub stop: Option<int>,
    pub billable: bool,
}

impl EntryModel {
    /// Timestamps make sense: non-negative, and a stopped entry stops no
    /// earlier than it starts.
    pub open spec fn wf(self) -> bool {
        &&& 0 <= self.start
        &&& match self.stop {
            Some(t) => self.start <= t,
            None => true,
        }
    }

    /// The entry is currently running.
    pub open spec fn running(self) -> bool {
        self.stop is None
    }

    /// Elapsed seconds as of `now`: `stop - start` once stopped, elapsed so
    /// far otherwise.
    pub open spec fn duration_at_spec(self, now: int) -> int {
        match self.stop {
            Some(t) => t - self.start,
            None => now - self.start,
        }
    }
}

impl View for TimeEntry {
    type V = EntryModel;

    open spec fn view(&self) -> EntryModel {
        EntryModel {
            id: self.id,
            description: self.description@,
            project_id: self.project_id,
            start: self.start as int,
            stop: match self.stop {
                Some(t) => Some(t as int),
                None => None,
            },
            billable: self.billable,
        }
    }
}

impl TimeEntry {
    /// Derived duration of the entry at time `now` (seconds since the epoch).
    pub fn duration_at(&self, now: i64) -> (r: i64)
        requires
            self@.wf(),
            self@.running() ==> self@.start <= now,
        ensures
            r == self@.duration_at_spec(now as int),
    {
        match self.stop {
            Some(t) => t - self.start,
            None => now - self.start,
        }
    }
}

/// A project as the remote service reports it. Immutable within one command
/// invocation.
#[derive(Clone, Debug, PartialEq)]
pub struct Project {
    pub id: u64,
    pub name: String,
    /// Default billable flag for entries started under this project.
    pub billable: bool,
    pub workspace_id: u64,
}

/// Mathematical view of a project.
pub struct ProjectModel {
    pub id: u64,
    pub name: Seq<char>,
    pub billable: bool,
    pub workspace_id: u64,
}

impl View for Project {
    type V = ProjectModel;

    open spec fn view(&self) -> ProjectModel {
        ProjectModel {
            id: self.id,
            name: self.name@,
            billable: self.billable,
            workspace_id: self.workspace_id,
        }
    }
}

/// The one locally persisted secret: the API token.
#[derive(Clone, Debug, PartialEq)]
pub struct Credentials {
    pub api_token: String,
}

impl View for Credentials {
    type V = Seq<char>;

    open spec fn view(&self) -> Seq<char> {
        self.api_token@
    }
}

} // verus!
