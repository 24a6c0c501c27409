//! One invocation of the tool as a state machine.
//!
//! The caller creates a [`Session`] from the parsed arguments and performs
//! the [`Action`] that the session asks for: it looks at the path, prompts
//! for confirmation, or hands the path to the trash service. It reports what
//! came of it as an [`Event`], and the session decides what happens next,
//! until it asks for [`Action::Finish`].
use vstd::prelude::*;
use crate::answer::{accepts, is_affirmative};

verus! {

/// The arguments of one invocation.
#[derive(Clone, Debug, PartialEq, Eq)]
pub struct InvocationArgs {
    /// Directories may be moved only with this flag.
    pub recursive: bool,
    /// Directories are moved without asking for confirmation.
    pub force: bool,
    /// The path to move to the trash.
    pub path: String,
}

/// What the file system holds at the path.
#[derive(Clone, Copy, Debug, PartialEq, Eq)]
pub enum PathKind {
    Missing,
    File,
    Directory,
}

/// Why an invocation failed.
#[derive(Clone, Debug, PartialEq, Eq)]
pub enum TrashError {
    /// Nothing exists at the path.
    NotFound(String),
    /// The path is a directory and the recursive flag was not given.
    RecursiveRequired,
    /// The path cannot be written as text for the trash service.
    EncodingError,
    /// The trash service failed, with its own description of why.
    PlatformError(String),
}

/// How the trash service failed to take the path.
#[derive(Clone, Debug, PartialEq, Eq)]
pub enum TrashFailure {
    /// The path is not valid text.
    NotText,
    /// The service refused, with this description.
    Platform(String),
}

/// What the caller reports back after performing an action.
#[derive(Debug, PartialEq, Eq)]
pub enum Event {
    /// The path was looked at.
    Inspected(PathKind),
    /// The user typed this line at the confirmation prompt.
    Answered(String),
    /// The trash service was asked to move the path.
    Trashed(Result<(), TrashFailure>),
}

/// What the caller is asked to do next.
#[derive(Clone, Copy, Debug, PartialEq, Eq)]
pub enum Action {
    /// Find out what kind of thing is at the path.
    Inspect,
    /// Ask the user whether to move the directory, and read one line.
    Prompt,
    /// Hand the path to the trash service.
    Trash,
    /// Nothing more: report the phase reached and exit.
    Finish,
}

/// Where an invocation stands.
#[derive(Clone, Debug, PartialEq, Eq)]
pub enum Phase {
    /// The path has not been looked at yet.
    Start,
    /// A directory is to be moved once the user confirms.
    AwaitingAnswer,
    /// The path is to be moved.
    Confirmed,
    /// The user declined; nothing was moved.
    Cancelled,
    /// The path was moved to the trash.
    Succeeded,
    /// The invocation failed.
    Failed(TrashError),
}

/// The action that a phase asks for.
pub open spec fn pending(p: Phase) -> Action {
    match p {
        Phase::Start => Action::Inspect,
        Phase::AwaitingAnswer => Action::Prompt,
        Phase::Confirmed => Action::Trash,
        _ => Action::Finish,
    }
}

/// The exit status of a phase: none while the invocation runs, zero once it
/// succeeded or was cancelled, one once it failed.
pub open spec fn exit_status_of(p: Phase) -> Option<i32> {
    match p {
        Phase::Cancelled => Some(0i32),
        Phase::Succeeded => Some(0i32),
        Phase::Failed(_) => Some(1i32),
        _ => None,
    }
}

/// The phase reached once the path was found to be of kind `k`: a missing
/// path fails, a directory needs the recursive flag and, without the force
/// flag, a confirmation; anything else is moved at once.
pub open spec fn after_inspection(args: InvocationArgs, k: PathKind) -> Phase {
    match k {
        PathKind::Missing => Phase::Failed(TrashError::NotFound(args.path)),
        PathKind::File => Phase::Confirmed,
        PathKind::Directory => if !args.recursive {
            Phase::Failed(TrashError::RecursiveRequired)
        } else if args.force {
            Phase::Confirmed
        } else {
            Phase::AwaitingAnswer
        },
    }
}

/// The phase reached once the user typed `line` at the prompt.
pub open spec fn after_answer(line: Seq<char>) -> Phase {
    if accepts(line) {
        Phase::Confirmed
    } else {
        Phase::Cancelled
    }
}

/// The phase reached once the trash service answered `o`.
pub open spec fn after_trash(o: Result<(), TrashFailure>) -> Phase {
    match o {
        Ok(()) => Phase::Succeeded,
        Err(TrashFailure::NotText) => Phase::Failed(TrashError::EncodingError),
        Err(TrashFailure::Platform(d)) => Phase::Failed(TrashError::PlatformError(d)),
    }
}

/// The phase that follows `p` on event `e`. An event that `p` does not wait
/// for changes nothing.
pub open spec fn next_phase(args: InvocationArgs, p: Phase, e: Event) -> Phase {
    match (p, e) {
        (Phase::Start, Event::Inspected(k)) => after_inspection(args, k),
        (Phase::AwaitingAnswer, Event::Answered(line)) => after_answer(line@),
        (Phase::Confirmed, Event::Trashed(o)) => after_trash(o),
        _ => p,
    }
}

/// One invocation: its arguments and the phase it has reached.
pub struct Session {
    pub args: InvocationArgs,
    pub phase: Phase,
}

impl Session {
    /// A session that has done nothing yet.
    pub fn new(args: InvocationArgs) -> (s: Session)
        ensures
            s.args == args,
            s.phase == Phase::Start,
    {
        Session { args, phase: Phase::Start }
    }

    /// The action that the session waits for.
    pub fn next_action(&self) -> (a: Action)
        ensures
            a == pending(self.phase),
    {
        match self.phase {
            Phase::Start => Action::Inspect,
            Phase::AwaitingAnswer => Action::Prompt,
            Phase::Confirmed => Action::Trash,
            _ => Action::Finish,
        }
    }

    /// Takes in what came of the last action and returns the next one.
    pub fn step(&mut self, e: Event) -> (a: Action)
        ensures
            final(self).args == old(self).args,
            final(self).phase == next_phase(old(self).args, old(self).phase, e),
            a == pending(final(self).phase),
    {
        let p = match (&self.phase, e) {
            (Phase::Start, Event::Inspected(k)) => Some(self.inspected(k)),
            (Phase::AwaitingAnswer, Event::Answered(line)) => {
                if is_affirmative(line.as_str()) {
                    Some(Phase::Confirmed)
                } else {
                    Some(Phase::Cancelled)
                }
            },
            (Phase::Confirmed, Event::Trashed(o)) => Some(match o {
                Ok(()) => Phase::Succeeded,
                Err(TrashFailure::NotText) => Phase::Failed(TrashError::EncodingError),
                Err(TrashFailure::Platform(d)) => Phase::Failed(TrashError::PlatformError(d)),
            }),
            _ => None,
        };
        if let Some(p) = p {
            self.phase = p;
        }
        self.next_action()
    }

    /// The phase that follows once the path was found to be of kind `k`.
    fn inspected(&self, k: PathKind) -> (p: Phase)
        ensures
            p == after_inspection(self.args, k),
    {
        match k {
            PathKind::Missing => Phase::Failed(TrashError::NotFound(self.args.path.clone())),
            PathKind::File => Phase::Confirmed,
            PathKind::Directory => {
                if !self.args.recursive {
                    Phase::Failed(TrashError::RecursiveRequired)
                } else if self.args.force {
                    Phase::Confirmed
                } else {
                    Phase::AwaitingAnswer
                }
            },
        }
    }

    /// The exit status: none while the session runs, zero once it succeeded
    /// or was cancelled, one once it failed.
    pub fn exit_status(&self) -> (r: Option<i32>)
        ensures
            r == exit_status_of(self.phase),
    {
        match self.phase {
            Phase::Cancelled => Some(0),
            Phase::Succeeded => Some(0),
            Phase::Failed(_) => Some(1),
            _ => None,
        }
    }
}

} // verus!
