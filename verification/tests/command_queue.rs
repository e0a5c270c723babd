use merger::command_queue::{CommandQueue, QueueState, QueuedAction};
use merger::error::{callback_outcome, process_outcome, ActionError, ErrorKind, ProcessEnd};

type Step = fn() -> Result<(), String>;

fn step_ok() -> Result<(), String> {
    Ok(())
}

fn step_err() -> Result<(), String> {
    Err("no".to_string())
}

fn queue_of(labels: &[&str]) -> CommandQueue<Step> {
    let mut queue: CommandQueue<Step> = CommandQueue::new();
    for label in labels {
        queue.enqueue_simple_external(label, "git", vec![label.to_string()], "/t/src");
    }
    queue
}

#[test]
fn a_new_queue_is_empty() {
    let queue: CommandQueue<Step> = CommandQueue::new();
    assert_eq!(queue.len(), 0);
    assert_eq!(queue.state(), QueueState::Empty);
    assert!(queue.get(0).is_none());
    assert!(queue.labels().is_empty());
}

#[test]
fn the_queue_keeps_the_order_of_insertion() {
    let mut queue = queue_of(&["one", "two"]);
    queue.enqueue_function("three", step_ok as Step);
    queue.enqueue(QueuedAction::External {
        program: "true".to_string(),
        args: Vec::new(),
        working_dir: "/".to_string(),
        label: "four".to_string(),
    });
    assert_eq!(queue.state(), QueueState::Building);
    assert_eq!(queue.len(), 4);
    assert_eq!(queue.labels(), ["one", "two", "three", "four"]);
    assert_eq!(queue.get(0).unwrap().label(), "one");
    assert_eq!(queue.get(3).unwrap().label(), "four");
    assert!(queue.get(4).is_none());
    match queue.get(1).unwrap() {
        QueuedAction::External { program, args, working_dir, label } => {
            assert_eq!(program, "git");
            assert_eq!(args, &["two"]);
            assert_eq!(working_dir, "/t/src");
            assert_eq!(label, "two");
        },
        QueuedAction::Callback { .. } => panic!("a process was expected"),
    }
    match queue.get(2).unwrap() {
        QueuedAction::Callback { label, run } => {
            assert_eq!(label, "three");
            assert_eq!(run(), Ok(()));
        },
        QueuedAction::External { .. } => panic!("a step was expected"),
    }
}

#[test]
fn draining_hands_out_each_action_once_and_in_order() {
    let mut drain = queue_of(&["one", "two", "three"]).start();
    let mut seen: Vec<String> = Vec::new();
    assert_eq!(drain.state(), QueueState::Draining);
    assert!(drain.result().is_none());
    while let Some(action) = drain.next_action() {
        seen.push(action.label().clone());
        drain.report(Ok(()));
    }
    assert_eq!(seen, ["one", "two", "three"]);
    assert_eq!(drain.state(), QueueState::Completed);
    assert_eq!(drain.completed(), 3);
    assert!(matches!(drain.result(), Some(Ok(()))));
}

#[test]
fn the_same_action_is_due_until_its_outcome_is_reported() {
    let mut drain = queue_of(&["one", "two"]).start();
    assert_eq!(drain.next_action().unwrap().label(), "one");
    assert_eq!(drain.next_action().unwrap().label(), "one");
    assert_eq!(drain.completed(), 0);
    drain.report(Ok(()));
    assert_eq!(drain.next_action().unwrap().label(), "two");
    assert_eq!(drain.completed(), 1);
}

#[test]
fn an_empty_queue_completes_at_once() {
    let queue: CommandQueue<Step> = CommandQueue::new();
    let mut drain = queue.start();
    assert_eq!(drain.state(), QueueState::Completed);
    assert!(drain.next_action().is_none());
    assert!(matches!(drain.result(), Some(Ok(()))));
    drain.report(Err(ActionError::new(ErrorKind::SpawnError, "late")));
    assert_eq!(drain.state(), QueueState::Completed);
    assert!(matches!(drain.result(), Some(Ok(()))));
}

#[test]
fn the_first_failure_ends_the_drain() {
    let mut drain = queue_of(&["one", "two", "three", "four"]).start();
    let mut seen: Vec<String> = Vec::new();
    while let Some(action) = drain.next_action() {
        seen.push(action.label().clone());
        if seen.len() == 2 {
            drain.report(Err(ActionError::new(ErrorKind::ProcessFailure, "exit status: 1")));
        } else {
            drain.report(Ok(()));
        }
    }
    assert_eq!(seen, ["one", "two"]);
    assert_eq!(drain.state(), QueueState::Failed);
    assert_eq!(drain.completed(), 1);
    let error = drain.result().unwrap().unwrap_err();
    assert_eq!(error.kind, ErrorKind::ProcessFailure);
    assert_eq!(error.label, "two");
    assert_eq!(error.detail, "exit status: 1");
    assert_eq!(error.message(), "two: the process failed: exit status: 1");
}

#[test]
fn a_failed_drain_takes_no_more_reports() {
    let mut drain = queue_of(&["one", "two", "three"]).start();
    drain.report(Err(ActionError::new(ErrorKind::SpawnError, "no such file")));
    assert_eq!(drain.state(), QueueState::Failed);
    assert!(drain.next_action().is_none());
    drain.report(Ok(()));
    drain.report(Err(ActionError::new(ErrorKind::CallbackFailure, "later")));
    assert_eq!(drain.state(), QueueState::Failed);
    assert!(drain.next_action().is_none());
    assert_eq!(drain.completed(), 0);
    let error = drain.result().unwrap().unwrap_err();
    assert_eq!(error.kind, ErrorKind::SpawnError);
    assert_eq!(error.label, "one");
    assert_eq!(error.detail, "no such file");
}

#[test]
fn a_failing_callback_ends_the_drain_under_its_label() {
    let mut queue: CommandQueue<Step> = CommandQueue::new();
    queue.enqueue_function("announce", step_ok as Step);
    queue.enqueue_function("check", step_err as Step);
    queue.enqueue_function("never", step_ok as Step);
    let mut drain = queue.start();
    let mut ran = 0;
    while let Some(action) = drain.next_action() {
        let outcome = match action {
            QueuedAction::Callback { run, .. } => callback_outcome(run()),
            QueuedAction::External { .. } => panic!("a step was expected"),
        };
        ran += 1;
        drain.report(outcome);
    }
    assert_eq!(ran, 2);
    let error = drain.result().unwrap().unwrap_err();
    assert_eq!(error.kind, ErrorKind::CallbackFailure);
    assert_eq!(error.label, "check");
    assert_eq!(error.detail, "no");
    assert_eq!(error.message(), "check: the step failed: no");
}

#[test]
fn every_kind_of_failure_is_reported_alike() {
    let kinds = [
        (ErrorKind::SpawnError, "x: could not start the process: d"),
        (ErrorKind::ProcessFailure, "x: the process failed: d"),
        (ErrorKind::RegistryFailure, "x: could not set up the remote: d"),
        (ErrorKind::CallbackFailure, "x: the step failed: d"),
    ];
    for (kind, message) in kinds {
        let mut drain = queue_of(&["x", "y"]).start();
        drain.report(Err(ActionError::new(kind, "d")));
        assert_eq!(drain.state(), QueueState::Failed);
        assert!(drain.next_action().is_none());
        let error = drain.result().unwrap().unwrap_err();
        assert_eq!(error.kind, kind);
        assert_eq!(error.label, "x");
        assert_eq!(error.message(), message);
        let copy = error.clone();
        assert_eq!(copy.kind, kind);
        assert_eq!(copy.label, "x");
        assert_eq!(copy.detail, "d");
    }
}

#[test]
fn a_failure_gets_the_label_it_is_given() {
    let error = ActionError::new(ErrorKind::RegistryFailure, "locked").labelled("add-remote(A)");
    assert_eq!(error.kind, ErrorKind::RegistryFailure);
    assert_eq!(error.label, "add-remote(A)");
    assert_eq!(error.detail, "locked");
}

#[test]
fn a_process_fails_if_it_cannot_start_or_ends_without_success() {
    let ended = ProcessEnd::Exited { success: true, status: "exit status: 0".to_string() };
    assert!(process_outcome(ended).is_ok());
    let failed = ProcessEnd::Exited { success: false, status: "exit status: 1".to_string() };
    let error = process_outcome(failed).unwrap_err();
    assert_eq!(error.kind, ErrorKind::ProcessFailure);
    assert_eq!(error.detail, "exit status: 1");
    let missing = ProcessEnd::NotStarted { reason: "No such file or directory".to_string() };
    let error = process_outcome(missing).unwrap_err();
    assert_eq!(error.kind, ErrorKind::SpawnError);
    assert_eq!(error.detail, "No such file or directory");
}

#[test]
fn a_callback_fails_if_it_returns_an_error() {
    assert!(callback_outcome(Ok(())).is_ok());
    let error = callback_outcome(Err("bad state".to_string())).unwrap_err();
    assert_eq!(error.kind, ErrorKind::CallbackFailure);
    assert_eq!(error.detail, "bad state");
}
