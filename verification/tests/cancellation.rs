use futures::future::{pending, Abortable};
use runnable::{ExitStatus, RunnableHandle, RunnableTerminated};

fn fresh() -> RunnableHandle {
    RunnableHandle::new(None).0
}

#[test]
fn new_handle_is_unsettled() {
    let handle = fresh();
    assert!(!handle.is_settled());
    assert!(handle.result().is_none());
    assert!(handle.output.is_none());
    assert!(!handle.termination_handle().is_aborted());
}

#[test]
fn aborted_handle_resolves_to_terminated() {
    let mut handle = fresh();
    assert!(handle.poll(None).is_none());
    assert!(handle.poll(None).is_none());
    handle.termination_handle().abort();
    // Cancellation wins even where the process has completed by the poll.
    let settled = handle.poll(Some(Ok(ExitStatus::new(Some(0))))).unwrap();
    assert_eq!(settled.err(), Some(RunnableTerminated));
    for _ in 0..5 {
        let replay = handle.poll(Some(Ok(ExitStatus::new(Some(0))))).unwrap();
        assert_eq!(replay.err(), Some(RunnableTerminated));
    }
    assert_eq!(handle.result().unwrap().err(), Some(RunnableTerminated));
}

#[test]
fn abort_while_running_settles_at_next_poll() {
    let mut handle = fresh();
    let canceller = handle.termination_handle();
    assert!(handle.poll(None).is_none());
    canceller.abort();
    canceller.abort();
    let settled = handle.poll(None).unwrap();
    assert_eq!(settled.err(), Some(RunnableTerminated));
    assert!(handle.is_settled());
}

#[test]
fn abort_after_completion_changes_nothing() {
    let mut handle = fresh();
    let settled = handle.poll(Some(Ok(ExitStatus::new(Some(0))))).unwrap().unwrap();
    assert_eq!(settled.status, Ok(ExitStatus::new(Some(0))));
    handle.termination_handle().abort();
    let replay = handle.poll(None).unwrap().unwrap();
    assert_eq!(replay.status, Ok(ExitStatus::new(Some(0))));
}

#[test]
fn settle_follows_the_flag_it_is_given() {
    let mut handle = fresh();
    assert!(handle.settle(false, None).is_none());
    let settled = handle.settle(true, None).unwrap();
    assert_eq!(settled.err(), Some(RunnableTerminated));
    let replay = handle.settle(false, Some(Ok(ExitStatus::new(Some(1))))).unwrap();
    assert_eq!(replay.err(), Some(RunnableTerminated));

    let mut other = fresh();
    let done = other.settle(false, Some(Ok(ExitStatus::new(None)))).unwrap().unwrap();
    assert_eq!(done.status, Ok(ExitStatus::new(None)));
    assert!(done.failed());

    let mut third = fresh();
    let clean = third.settle(false, Some(Ok(ExitStatus::new(Some(0))))).unwrap().unwrap();
    assert!(!clean.failed());
}

#[test]
fn clones_keep_outcome_and_token() {
    let mut handle = fresh();
    handle.settle(false, Some(Ok(ExitStatus::new(Some(2)))));
    let copy = handle.clone();
    assert_eq!(copy.result().unwrap().unwrap().status, Ok(ExitStatus::new(Some(2))));
    copy.termination_handle().abort();
    assert!(handle.termination_handle().is_aborted());
}

#[test]
fn exit_status_success_is_code_zero() {
    assert!(ExitStatus::new(Some(0)).success());
    assert!(!ExitStatus::new(Some(1)).success());
    assert!(!ExitStatus::new(Some(-1)).success());
    assert!(!ExitStatus::new(None).success());
    assert_eq!(ExitStatus::new(Some(9)).code, Some(9));
}

#[test]
fn registration_belongs_to_the_token() {
    let (handle, registration) = RunnableHandle::new(None);
    let task = Abortable::new(pending::<()>(), registration);
    assert!(!task.is_aborted());
    handle.termination_handle().abort();
    assert!(task.is_aborted());

    let (other, other_registration) = RunnableHandle::new(None);
    let other_task = Abortable::new(pending::<()>(), other_registration);
    assert!(!other_task.is_aborted());
    assert!(!other.termination_handle().is_aborted());
}
