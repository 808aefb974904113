use vstd::prelude::*;

use crate::project::{opt_view, Project};
use crate::registry::RegistryError;
use crate::text::{notes_header, notes_header_of, repo_to_url, repo_url, session_name, session_of};

verus! {

/// The text to seed a notes file with: the header when the file is absent,
/// nothing when it exists, so that an existing file is never overwritten.
pub open spec fn notes_seed_of(exists: bool, name: Seq<char>) -> Option<Seq<char>> {
    if exists {
        None
    } else {
        Some(notes_header_of(name))
    }
}

/// What the notes file holds after the ensure step, from what it held
/// before (`None` when absent).
pub open spec fn notes_file_after(file: Option<Seq<char>>, name: Seq<char>) -> Option<Seq<char>> {
    match notes_seed_of(file is Some, name) {
        Some(h) => Some(h),
        None => file,
    }
}

/// Decides what to write into the notes file of the project named `name`.
pub fn notes_seed(exists: bool, name: &str) -> (r: Option<String>)
    ensures
        opt_view(r) == notes_seed_of(exists, name@),
{
    if exists {
        None
    } else {
        Some(notes_header(name))
    }
}

/// Ensuring the notes file a second time leaves it as the first time left
/// it, and an existing file is left as it is.
pub proof fn lemma_notes_ensure_idempotent(file: Option<Seq<char>>, name: Seq<char>)
    ensures
        notes_file_after(notes_file_after(file, name), name) == notes_file_after(file, name),
        file is Some ==> notes_file_after(file, name) == file,
{
}

/// Where an activation stands: which answer it waits for.
#[derive(Clone, Copy, Debug, PartialEq, Eq, Structural)]
pub enum Phase {
    Start,
    AwaitWorkspace,
    AwaitClone,
    AwaitNotes,
    AwaitSession,
    AwaitSessionCreated,
    AwaitDetach,
    Finished,
    Failed,
}

/// What the outside world reports back to an activation.
#[derive(Debug)]
pub enum Event {
    /// Start the activation.
    Begin,
    /// Whether the workspace directory exists.
    WorkspaceChecked(bool),
    /// The clone finished; on failure, its error output.
    Cloned(Result<(), String>),
    /// The notes file is in place at the path given, or the error.
    NotesReady(Result<String, String>),
    /// Whether the session is already running.
    SessionChecked(bool),
    /// The session was created, or the error.
    SessionCreated(Result<(), String>),
    /// The user left the attached session.
    Detached,
}

/// What an activation asks the outside world to do next.
#[derive(Debug)]
pub enum Action {
    /// Report whether the workspace directory `dir` (under the projects root) exists.
    CheckWorkspace { dir: String },
    /// Clone `url` into `dir`, from the projects root.
    Clone { url: String, dir: String },
    /// Create the per-project data directory `dir` if needed, and in it the
    /// notes file of the project `name` if it is absent (see `notes_seed`).
    EnsureNotes { dir: String, name: String },
    /// Report whether `session` is running.
    CheckSession { session: String },
    /// Create `session` in the workspace `dir`, editing `notes`.
    CreateSession { session: String, dir: String, notes: String },
    /// Attach to `session` in the foreground.
    Attach { session: String },
    /// The activation is over.
    Done,
    /// The activation failed.
    Fail(RegistryError),
    /// The event answered nothing that was asked; nothing to do.
    Wait,
}

/// The open workflow of one project, as a state machine: each event moves
/// it on and yields the next action.
pub struct Activation {
    pub name: String,
    pub url: String,
    pub dir: String,
    pub session: String,
    pub notes: String,
    pub phase: Phase,
}

/// The phase after `e` arrives in phase `p`.
pub open spec fn next_phase(p: Phase, e: Event) -> Phase {
    match (p, e) {
        (Phase::Start, Event::Begin) => Phase::AwaitWorkspace,
        (Phase::AwaitWorkspace, Event::WorkspaceChecked(exists)) => if exists {
            Phase::AwaitNotes
        } else {
            Phase::AwaitClone
        },
        (Phase::AwaitClone, Event::Cloned(res)) => if res is Ok {
            Phase::AwaitNotes
        } else {
            Phase::Failed
        },
        (Phase::AwaitNotes, Event::NotesReady(res)) => if res is Ok {
            Phase::AwaitSession
        } else {
            Phase::Failed
        },
        (Phase::AwaitSession, Event::SessionChecked(running)) => if running {
            Phase::AwaitDetach
        } else {
            Phase::AwaitSessionCreated
        },
        (Phase::AwaitSessionCreated, Event::SessionCreated(res)) => if res is Ok {
            Phase::AwaitDetach
        } else {
            Phase::Failed
        },
        (Phase::AwaitDetach, Event::Detached) => Phase::Finished,
        _ => p,
    }
}

/// The step from `p` on `e` asks for a clone: the workspace was found absent.
pub open spec fn clones_on(p: Phase, e: Event) -> bool {
    p == Phase::AwaitWorkspace && e == Event::WorkspaceChecked(false)
}

/// Some step of the run from `p` through `events` asks for a clone.
pub open spec fn run_clones(p: Phase, events: Seq<Event>) -> bool
    decreases events.len(),
{
    if events.len() == 0 {
        false
    } else {
        clones_on(p, events[0]) || run_clones(next_phase(p, events[0]), events.drop_first())
    }
}

/// The action that `a` (before the step) yields on `e`.
pub open spec fn action_of(a: &Activation, e: Event, r: Action) -> bool {
    match (a.phase, e) {
        (Phase::Start, Event::Begin) => r == Action::CheckWorkspace { dir: a.dir },
        (Phase::AwaitWorkspace, Event::WorkspaceChecked(exists)) => if exists {
            r == Action::EnsureNotes { dir: a.dir, name: a.name }
        } else {
            r == Action::Clone { url: a.url, dir: a.dir }
        },
        (Phase::AwaitClone, Event::Cloned(res)) => match res {
            Ok(_) => r == Action::EnsureNotes { dir: a.dir, name: a.name },
            Err(msg) => r == Action::Fail(RegistryError::CloneFailed(msg)),
        },
        (Phase::AwaitNotes, Event::NotesReady(res)) => match res {
            Ok(_) => r == Action::CheckSession { session: a.session },
            Err(msg) => r == Action::Fail(RegistryError::IoError(msg)),
        },
        (Phase::AwaitSession, Event::SessionChecked(running)) => if running {
            r == Action::Attach { session: a.session }
        } else {
            r == Action::CreateSession { session: a.session, dir: a.dir, notes: a.notes }
        },
        (Phase::AwaitSessionCreated, Event::SessionCreated(res)) => match res {
            Ok(_) => r == Action::Attach { session: a.session },
            Err(msg) => r == Action::Fail(RegistryError::SubprocessError(msg)),
        },
        (Phase::AwaitDetach, Event::Detached) => r == Action::Done,
        _ => r == Action::Wait,
    }
}

impl Activation {
    /// An activation of `project`, before its first step.
    pub fn start(project: &Project) -> (r: Activation)
        ensures
            r.name@ == project.name@,
            r.url@ == repo_url(project.repo@),
            r.dir@ == project.dir@,
            r.session@ == session_of(project.name@),
            r.notes@ == Seq::<char>::empty(),
            r.phase == Phase::Start,
    {
        Activation {
            name: project.name.clone(),
            url: repo_to_url(project.repo.as_str()),
            dir: project.dir.clone(),
            session: session_name(project.name.as_str()),
            notes: String::new(),
            phase: Phase::Start,
        }
    }

    /// Takes in what the outside world reports and says what to do next.
    pub fn step(&mut self, event: Event) -> (r: Action)
        ensures
            final(self).phase == next_phase(old(self).phase, event),
            action_of(old(self), event, r),
            (r is Clone) == clones_on(old(self).phase, event),
            final(self).name == old(self).name,
            final(self).url == old(self).url,
            final(self).dir == old(self).dir,
            final(self).session == old(self).session,
            match (old(self).phase, event) {
                (Phase::AwaitNotes, Event::NotesReady(Ok(path))) => final(self).notes == path,
                _ => final(self).notes == old(self).notes,
            },
    {
        let phase = self.phase;
        match (phase, event) {
            (Phase::Start, Event::Begin) => {
                self.phase = Phase::AwaitWorkspace;
                Action::CheckWorkspace { dir: self.dir.clone() }
            },
            (Phase::AwaitWorkspace, Event::WorkspaceChecked(exists)) => {
                if exists {
                    self.phase = Phase::AwaitNotes;
                    Action::EnsureNotes { dir: self.dir.clone(), name: self.name.clone() }
                } else {
                    self.phase = Phase::AwaitClone;
                    Action::Clone { url: self.url.clone(), dir: self.dir.clone() }
                }
            },
            (Phase::AwaitClone, Event::Cloned(res)) => match res {
                Ok(_) => {
                    self.phase = Phase::AwaitNotes;
                    Action::EnsureNotes { dir: self.dir.clone(), name: self.name.clone() }
                },
                Err(msg) => {
                    self.phase = Phase::Failed;
                    Action::Fail(RegistryError::CloneFailed(msg))
                },
            },
            (Phase::AwaitNotes, Event::NotesReady(res)) => match res {
                Ok(path) => {
                    self.phase = Phase::AwaitSession;
                    self.notes = path;
                    Action::CheckSession { session: self.session.clone() }
                },
                Err(msg) => {
                    self.phase = Phase::Failed;
                    Action::Fail(RegistryError::IoError(msg))
                },
            },
            (Phase::AwaitSession, Event::SessionChecked(running)) => {
                if running {
                    self.phase = Phase::AwaitDetach;
                    Action::Attach { session: self.session.clone() }
                } else {
                    self.phase = Phase::AwaitSessionCreated;
                    Action::CreateSession {
                        session: self.session.clone(),
                        dir: self.dir.clone(),
                        notes: self.notes.clone(),
                    }
                }
            },
            (Phase::AwaitSessionCreated, Event::SessionCreated(res)) => match res {
                Ok(_) => {
                    self.phase = Phase::AwaitDetach;
                    Action::Attach { session: self.session.clone() }
                },
                Err(msg) => {
                    self.phase = Phase::Failed;
                    Action::Fail(RegistryError::SubprocessError(msg))
                },
            },
            (Phase::AwaitDetach, Event::Detached) => {
                self.phase = Phase::Finished;
                Action::Done
            },
            _ => Action::Wait,
        }
    }
}

/// When every workspace check reports that the workspace exists, no step
/// of the activation, from any phase and through any events, asks for a
/// clone.
pub proof fn lemma_existing_workspace_never_cloned(p: Phase, events: Seq<Event>)
    requires
        forall|i: int| 0 <= i < events.len() ==> #[trigger] events[i] != Event::WorkspaceChecked(false),
    ensures
        !run_clones(p, events),
    decreases events.len(),
{
    if events.len() > 0 {
        assert(events[0] != Event::WorkspaceChecked(false));
        let rest = events.drop_first();
        assert forall|i: int| 0 <= i < rest.len() implies #[trigger] rest[i] != Event::WorkspaceChecked(false) by {
            assert(rest[i] == events[i + 1]);
        }
        lemma_existing_workspace_never_cloned(next_phase(p, events[0]), rest);
    }
}

} // verus!
