use trash_cli::answer::is_affirmative;
use trash_cli::session::{
    Action, Event, InvocationArgs, PathKind, Phase, Session, TrashError, TrashFailure,
};

fn args(recursive: bool, force: bool, path: &str) -> InvocationArgs {
    InvocationArgs { recursive, force, path: path.to_string() }
}

#[test]
fn missing_path_fails_not_found() {
    let mut s = Session::new(args(false, false, "/tmp/missing.txt"));
    assert_eq!(s.next_action(), Action::Inspect);
    assert_eq!(s.exit_status(), None);
    let a = s.step(Event::Inspected(PathKind::Missing));
    assert_eq!(a, Action::Finish);
    assert_eq!(s.phase, Phase::Failed(TrashError::NotFound("/tmp/missing.txt".to_string())));
    assert_eq!(s.exit_status(), Some(1));
}

#[test]
fn missing_path_fails_whatever_the_flags() {
    for (r, f) in [(false, false), (true, false), (false, true), (true, true)] {
        let mut s = Session::new(args(r, f, "gone"));
        assert_eq!(s.step(Event::Inspected(PathKind::Missing)), Action::Finish);
        assert_eq!(s.phase, Phase::Failed(TrashError::NotFound("gone".to_string())));
        assert_ne!(s.exit_status(), Some(0));
    }
}

#[test]
fn file_is_trashed_at_once() {
    let mut s = Session::new(args(false, false, "somefile.txt"));
    assert_eq!(s.step(Event::Inspected(PathKind::File)), Action::Trash);
    assert_eq!(s.phase, Phase::Confirmed);
    assert_eq!(s.step(Event::Trashed(Ok(()))), Action::Finish);
    assert_eq!(s.phase, Phase::Succeeded);
    assert_eq!(s.exit_status(), Some(0));
}

#[test]
fn file_never_prompts_whatever_the_flags() {
    for (r, f) in [(false, false), (true, false), (false, true), (true, true)] {
        let mut s = Session::new(args(r, f, "somefile.txt"));
        assert_eq!(s.step(Event::Inspected(PathKind::File)), Action::Trash);
    }
}

#[test]
fn directory_without_recursive_fails() {
    let mut s = Session::new(args(false, false, "somedir/"));
    assert_eq!(s.step(Event::Inspected(PathKind::Directory)), Action::Finish);
    assert_eq!(s.phase, Phase::Failed(TrashError::RecursiveRequired));
    assert_eq!(s.exit_status(), Some(1));
}

#[test]
fn directory_without_recursive_fails_even_forced() {
    let mut s = Session::new(args(false, true, "somedir/"));
    assert_eq!(s.step(Event::Inspected(PathKind::Directory)), Action::Finish);
    assert_eq!(s.phase, Phase::Failed(TrashError::RecursiveRequired));
}

#[test]
fn recursive_directory_confirmed_with_y() {
    let mut s = Session::new(args(true, false, "somedir/"));
    assert_eq!(s.step(Event::Inspected(PathKind::Directory)), Action::Prompt);
    assert_eq!(s.phase, Phase::AwaitingAnswer);
    assert_eq!(s.exit_status(), None);
    assert_eq!(s.step(Event::Answered("y\n".to_string())), Action::Trash);
    assert_eq!(s.step(Event::Trashed(Ok(()))), Action::Finish);
    assert_eq!(s.phase, Phase::Succeeded);
    assert_eq!(s.exit_status(), Some(0));
}

#[test]
fn recursive_directory_cancelled_with_n() {
    let mut s = Session::new(args(true, false, "somedir/"));
    assert_eq!(s.step(Event::Inspected(PathKind::Directory)), Action::Prompt);
    assert_eq!(s.step(Event::Answered("n\n".to_string())), Action::Finish);
    assert_eq!(s.phase, Phase::Cancelled);
    assert_eq!(s.exit_status(), Some(0));
}

#[test]
fn forced_recursive_directory_is_trashed_at_once() {
    let mut s = Session::new(args(true, true, "somedir/"));
    assert_eq!(s.step(Event::Inspected(PathKind::Directory)), Action::Trash);
    assert_eq!(s.step(Event::Trashed(Ok(()))), Action::Finish);
    assert_eq!(s.exit_status(), Some(0));
}

#[test]
fn answers_that_accept() {
    for line in ["y", "Y", "  y  ", "y\n", "\tY\r\n", "\u{3000}y\u{a0}"] {
        assert!(is_affirmative(line), "{:?}", line);
    }
}

#[test]
fn answers_that_decline() {
    for line in ["n", "", "yes", "\n", "N", "y y", "yy", "ｙ"] {
        assert!(!is_affirmative(line), "{:?}", line);
    }
}

#[test]
fn each_answer_decides_the_phase() {
    for (line, accepted) in [("y", true), ("Y", true), ("  y  ", true), ("n", false), ("", false), ("yes", false)] {
        let mut s = Session::new(args(true, false, "d"));
        s.step(Event::Inspected(PathKind::Directory));
        let a = s.step(Event::Answered(line.to_string()));
        if accepted {
            assert_eq!(a, Action::Trash);
            assert_eq!(s.phase, Phase::Confirmed);
        } else {
            assert_eq!(a, Action::Finish);
            assert_eq!(s.phase, Phase::Cancelled);
            assert_eq!(s.exit_status(), Some(0));
        }
    }
}

#[test]
fn platform_failure_keeps_its_description() {
    let mut s = Session::new(args(false, false, "f"));
    s.step(Event::Inspected(PathKind::File));
    let a = s.step(Event::Trashed(Err(TrashFailure::Platform("permission denied".to_string()))));
    assert_eq!(a, Action::Finish);
    assert_eq!(s.phase, Phase::Failed(TrashError::PlatformError("permission denied".to_string())));
    assert_eq!(s.exit_status(), Some(1));
}

#[test]
fn path_that_is_not_text_fails_with_encoding_error() {
    let mut s = Session::new(args(false, false, "f"));
    s.step(Event::Inspected(PathKind::File));
    assert_eq!(s.step(Event::Trashed(Err(TrashFailure::NotText))), Action::Finish);
    assert_eq!(s.phase, Phase::Failed(TrashError::EncodingError));
    assert_eq!(s.exit_status(), Some(1));
}

#[test]
fn second_invocation_on_a_moved_path_is_not_found() {
    let mut first = Session::new(args(false, false, "once.txt"));
    first.step(Event::Inspected(PathKind::File));
    first.step(Event::Trashed(Ok(())));
    assert_eq!(first.exit_status(), Some(0));
    let mut second = Session::new(args(false, false, "once.txt"));
    assert_eq!(second.step(Event::Inspected(PathKind::Missing)), Action::Finish);
    assert_eq!(second.phase, Phase::Failed(TrashError::NotFound("once.txt".to_string())));
}

#[test]
fn unexpected_event_changes_nothing() {
    let mut s = Session::new(args(true, false, "d"));
    assert_eq!(s.step(Event::Answered("y".to_string())), Action::Inspect);
    assert_eq!(s.phase, Phase::Start);
    s.step(Event::Inspected(PathKind::Directory));
    assert_eq!(s.step(Event::Trashed(Ok(()))), Action::Prompt);
    assert_eq!(s.phase, Phase::AwaitingAnswer);
}

#[test]
fn finished_session_stays_finished() {
    let mut s = Session::new(args(false, false, "d"));
    s.step(Event::Inspected(PathKind::Directory));
    assert_eq!(s.step(Event::Inspected(PathKind::File)), Action::Finish);
    assert_eq!(s.phase, Phase::Failed(TrashError::RecursiveRequired));
}
