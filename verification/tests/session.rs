use keylogger::event::{EventTime, KeyEvent, KeyEventCause};
use keylogger::session::{capture_result, classify_outcome, require_devices, run_task};
use keylogger::{ErrDecision, KeyCode, KeyloggerError, TaskAction, TaskEvent};

fn press(code: KeyCode) -> KeyEvent {
    KeyEvent { ts: EventTime { secs: 0, nsecs: 0 }, cause: KeyEventCause::Press, code }
}

fn release(code: KeyCode) -> KeyEvent {
    KeyEvent { ts: EventTime { secs: 0, nsecs: 0 }, cause: KeyEventCause::Release, code }
}

#[test]
fn classify_delivers_nonempty_batches_only() {
    assert_eq!(classify_outcome(TaskEvent::Batch(vec![])), TaskAction::Skip);
    let batch = vec![press(KeyCode::KEY_A)];
    assert_eq!(
        classify_outcome(TaskEvent::Batch(batch.clone())),
        TaskAction::Deliver(batch)
    );
    assert_eq!(
        classify_outcome(TaskEvent::Failed(KeyloggerError::Io("eio".to_string()))),
        TaskAction::Consult(KeyloggerError::Io("eio".to_string()))
    );
}

#[test]
fn handler_receives_exactly_the_fed_batches_in_order() {
    // Two fixed batches with empty batches interleaved: the handler sees
    // exactly the two batches, in this order, and no empty-batch call.
    let first = vec![press(KeyCode::KEY_1), release(KeyCode::KEY_1)];
    let second = vec![
        press(KeyCode::KEY_A),
        press(KeyCode::KEY_A),
        release(KeyCode::KEY_A),
    ];
    let script = vec![
        TaskEvent::Batch(vec![]),
        TaskEvent::Batch(first.clone()),
        TaskEvent::Batch(vec![]),
        TaskEvent::Batch(second.clone()),
        TaskEvent::Batch(vec![]),
    ];
    let log = run_task(script, vec![]);
    assert_eq!(log.delivered, vec![first, second]);
    assert!(log.errors.is_empty());
    assert!(!log.aborted);
}

#[test]
fn continue_verdict_keeps_polling_and_delivers_next_batch() {
    let next = vec![press(KeyCode::KEY_Z)];
    let script = vec![
        TaskEvent::Failed(KeyloggerError::Io("transient".to_string())),
        TaskEvent::Batch(next.clone()),
    ];
    let log = run_task(script, vec![ErrDecision::Continue]);
    assert_eq!(log.delivered, vec![next]);
    assert_eq!(log.errors, vec![KeyloggerError::Io("transient".to_string())]);
    assert!(!log.aborted);
}

#[test]
fn abort_verdict_ends_task_immediately() {
    let script = vec![
        TaskEvent::Failed(KeyloggerError::Io("fatal".to_string())),
        TaskEvent::Batch(vec![press(KeyCode::KEY_A)]),
        TaskEvent::Failed(KeyloggerError::Io("never seen".to_string())),
    ];
    let log = run_task(script, vec![ErrDecision::Abort]);
    assert!(log.delivered.is_empty());
    assert_eq!(log.errors, vec![KeyloggerError::Io("fatal".to_string())]);
    assert!(log.aborted);
}

#[test]
fn call_event_handler() {
    let expected_events: Vec<Result<Vec<KeyEvent>, KeyloggerError>> = vec![
        Ok(vec![press(KeyCode::KEY_1), release(KeyCode::KEY_1)]),
        Ok(vec![
            press(KeyCode::KEY_A),
            press(KeyCode::KEY_A),
            press(KeyCode::KEY_A),
            release(KeyCode::KEY_A),
            release(KeyCode::KEY_B),
        ]),
        Err(KeyloggerError::Io("test event".to_string())),
        Ok(vec![release(KeyCode::KEY_Z)]),
        Err(KeyloggerError::Io("test event2".to_string())),
    ];

    let script = expected_events
        .iter()
        .map(|b| match b {
            Ok(evs) => TaskEvent::Batch(evs.clone()),
            Err(e) => TaskEvent::Failed(e.clone()),
        })
        .collect();

    // The handler of the scripted session ignores every error, as the
    // default error handler does.
    let log = run_task(script, vec![ErrDecision::Continue, ErrDecision::Continue]);

    let mut expected_batches = vec![];
    let mut expected_errors = vec![];
    for batch in expected_events {
        match batch {
            Ok(evs) => expected_batches.push(evs),
            Err(e) => expected_errors.push(e),
        }
    }
    assert_eq!(log.delivered, expected_batches);
    assert_eq!(log.errors, expected_errors);
    assert!(!log.aborted);
}

#[test]
fn zero_devices_is_rejected_before_any_task_starts() {
    let none: Vec<u32> = vec![];
    assert_eq!(require_devices(none), Err(KeyloggerError::NoDevicesFound));
}

#[test]
fn nonempty_device_set_passes_through() {
    let devices = vec!["/dev/input/event3".to_string(), "/dev/input/event5".to_string()];
    assert_eq!(require_devices(devices.clone()), Ok(devices));
}

#[test]
fn finished_session_reports_all_tasks_exited() {
    assert_eq!(capture_result(), Err(KeyloggerError::KeyloggerTasksExited));
}
