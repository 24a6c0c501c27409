//! What holds of every invocation, stated over the transitions of
//! [`Session::step`](crate::session::Session::step).
use vstd::prelude::*;
use crate::answer::accepts;
use crate::session::{
    Action, Event, InvocationArgs, PathKind, Phase, TrashError, TrashFailure, exit_status_of,
    next_phase, pending,
};

verus! {

/// A path that does not exist fails with `NotFound`, whatever the flags, and
/// the invocation ends with a non-zero status without moving anything.
pub proof fn missing_path_is_not_found(args: InvocationArgs)
    ensures
        ({
            let p = next_phase(args, Phase::Start, Event::Inspected(PathKind::Missing));
            &&& p == Phase::Failed(TrashError::NotFound(args.path))
            &&& pending(p) == Action::Finish
            &&& exit_status_of(p) matches Some(c) && c != 0
        }),
{
}

/// A directory without the recursive flag fails with `RecursiveRequired`:
/// the user is not asked and the trash service is not called.
pub proof fn directory_requires_recursive(args: InvocationArgs)
    requires
        !args.recursive,
    ensures
        ({
            let p = next_phase(args, Phase::Start, Event::Inspected(PathKind::Directory));
            &&& p == Phase::Failed(TrashError::RecursiveRequired)
            &&& pending(p) == Action::Finish
            &&& exit_status_of(p) matches Some(c) && c != 0
        }),
{
}

/// A directory with the recursive flag and without the force flag is moved
/// only after a confirmation: the session asks for one line, goes on to the
/// trash service when that line is a `y` or `Y` with white space around it,
/// and otherwise ends cancelled, with status zero and nothing moved.
pub proof fn directory_waits_for_confirmation(args: InvocationArgs, line: String)
    requires
        args.recursive,
        !args.force,
    ensures
        ({
            let p = next_phase(args, Phase::Start, Event::Inspected(PathKind::Directory));
            let q = next_phase(args, p, Event::Answered(line));
            &&& p == Phase::AwaitingAnswer
            &&& pending(p) == Action::Prompt
            &&& accepts(line@) ==> q == Phase::Confirmed && pending(q) == Action::Trash
            &&& !accepts(line@) ==> q == Phase::Cancelled && pending(q) == Action::Finish
                && exit_status_of(q) == Some(0i32)
        }),
{
}

/// A directory with both the recursive and the force flag goes to the trash
/// service at once, with no prompt.
pub proof fn forced_directory_is_trashed(args: InvocationArgs)
    requires
        args.recursive,
        args.force,
    ensures
        ({
            let p = next_phase(args, Phase::Start, Event::Inspected(PathKind::Directory));
            &&& p == Phase::Confirmed
            &&& pending(p) == Action::Trash
        }),
{
}

/// A path that is not a directory goes to the trash service at once, whatever
/// the flags, with no prompt.
pub proof fn file_is_trashed(args: InvocationArgs)
    ensures
        ({
            let p = next_phase(args, Phase::Start, Event::Inspected(PathKind::File));
            &&& p == Phase::Confirmed
            &&& pending(p) == Action::Trash
        }),
{
}

/// When the trash service fails, the invocation fails with the service's own
/// description and a non-zero status; it does not succeed.
pub proof fn platform_failure_is_reported(args: InvocationArgs, description: String)
    ensures
        ({
            let p = next_phase(
                args,
                Phase::Confirmed,
                Event::Trashed(Err(TrashFailure::Platform(description))),
            );
            &&& p == Phase::Failed(TrashError::PlatformError(description))
            &&& p != Phase::Succeeded
            &&& pending(p) == Action::Finish
            &&& exit_status_of(p) matches Some(c) && c != 0
        }),
{
}

/// A finished invocation stays finished: no event changes a phase that asks
/// for nothing more.
pub proof fn finished_is_final(args: InvocationArgs, p: Phase, e: Event)
    requires
        pending(p) == Action::Finish,
    ensures
        next_phase(args, p, e) == p,
{
}

} // verus!
