use runnable::{
    Color, ExecutionError, ExecutionResult, ExitStatus, RunnableHandle, RunnableTerminated,
    StatusIconTracker,
};

fn handle() -> RunnableHandle {
    RunnableHandle::new(None).0
}

fn success() -> Result<ExecutionResult, RunnableTerminated> {
    Ok(ExecutionResult { status: Ok(ExitStatus::new(Some(0))), output: None })
}

fn failure() -> Result<ExecutionResult, RunnableTerminated> {
    Ok(ExecutionResult {
        status: Err(ExecutionError { message: "boom".to_string() }),
        output: None,
    })
}

#[test]
fn no_handles_never_started() {
    let tracker = StatusIconTracker::new(Vec::new());
    assert_eq!(tracker.color(), None);
    assert_eq!(tracker.current_status(), None);
    assert_eq!(tracker.outstanding(), 0);
}

#[test]
fn events_without_registration_keep_it_idle() {
    let mut tracker = StatusIconTracker::new(Vec::new());
    tracker.finished(0, &success());
    tracker.finished(3, &failure());
    assert_eq!(tracker.color(), None);
}

#[test]
fn one_success_is_all_succeeded() {
    let mut tracker = StatusIconTracker::new(Vec::new());
    tracker.push(5, handle());
    assert_eq!(tracker.color(), Some(Color::Modified));
    assert_eq!(tracker.outstanding(), 1);
    tracker.finished(5, &success());
    assert_eq!(tracker.color(), Some(Color::Success));
    assert_eq!(tracker.current_status(), Some(true));
    assert_eq!(tracker.outstanding(), 0);
}

#[test]
fn failure_is_sticky() {
    let mut tracker = StatusIconTracker::new(vec![(1, handle()), (2, handle())]);
    assert_eq!(tracker.color(), Some(Color::Modified));
    tracker.finished(2, &failure());
    assert_eq!(tracker.color(), Some(Color::Error));
    assert_eq!(tracker.current_status(), Some(false));
    tracker.finished(1, &success());
    assert_eq!(tracker.color(), Some(Color::Error));
    tracker.push(3, handle());
    assert_eq!(tracker.color(), Some(Color::Error));
    tracker.finished(3, &success());
    tracker.finished(1, &success());
    assert_eq!(tracker.current_status(), Some(false));
}

#[test]
fn success_with_others_outstanding_changes_nothing() {
    let mut tracker = StatusIconTracker::new(vec![(1, handle()), (2, handle()), (3, handle())]);
    assert_eq!(tracker.outstanding(), 3);
    tracker.finished(2, &success());
    assert_eq!(tracker.color(), Some(Color::Modified));
    tracker.finished(3, &success());
    assert_eq!(tracker.current_status(), None);
    assert_eq!(tracker.outstanding(), 1);
    tracker.finished(1, &success());
    assert_eq!(tracker.color(), Some(Color::Success));
}

#[test]
fn registration_clears_success() {
    let mut tracker = StatusIconTracker::new(vec![(1, handle())]);
    tracker.finished(1, &success());
    assert_eq!(tracker.color(), Some(Color::Success));
    tracker.push(2, handle());
    assert_eq!(tracker.color(), Some(Color::Modified));
    tracker.finished(2, &failure());
    assert_eq!(tracker.color(), Some(Color::Error));
}

#[test]
fn termination_is_neither_success_nor_failure() {
    let mut tracker = StatusIconTracker::new(vec![(1, handle())]);
    tracker.finished(1, &Err(RunnableTerminated));
    assert_eq!(tracker.color(), Some(Color::Modified));
    assert_eq!(tracker.outstanding(), 0);
    tracker.push(2, handle());
    tracker.finished(2, &success());
    assert_eq!(tracker.color(), Some(Color::Success));
}

#[test]
fn failing_exit_status_is_a_failure() {
    let mut tracker = StatusIconTracker::new(vec![(1, handle()), (2, handle())]);
    let exited =
        Ok(ExecutionResult { status: Ok(ExitStatus::new(Some(1))), output: None });
    tracker.finished(1, &exited);
    assert_eq!(tracker.color(), Some(Color::Error));
    assert_eq!(tracker.current_status(), Some(false));
    tracker.finished(2, &success());
    assert_eq!(tracker.color(), Some(Color::Error));
}

#[test]
fn exit_without_a_code_is_a_failure() {
    let mut tracker = StatusIconTracker::new(vec![(1, handle())]);
    let killed = Ok(ExecutionResult { status: Ok(ExitStatus::new(None)), output: None });
    tracker.finished(1, &killed);
    assert_eq!(tracker.color(), Some(Color::Error));
}

#[test]
fn unknown_id_is_ignored() {
    let mut tracker = StatusIconTracker::new(vec![(1, handle())]);
    tracker.finished(9, &failure());
    assert_eq!(tracker.color(), Some(Color::Modified));
    assert_eq!(tracker.outstanding(), 1);
    tracker.finished(1, &success());
    tracker.finished(1, &failure());
    assert_eq!(tracker.color(), Some(Color::Success));
}

#[test]
fn of_equal_ids_one_settles_at_a_time() {
    let mut tracker = StatusIconTracker::new(vec![(4, handle()), (4, handle())]);
    tracker.finished(4, &success());
    assert_eq!(tracker.color(), Some(Color::Modified));
    assert_eq!(tracker.outstanding(), 1);
    tracker.finished(4, &success());
    assert_eq!(tracker.color(), Some(Color::Success));
}
