use keylogger::event::{EventTime, KeyEvent, KeyEventCause};
use keylogger::stream::{drain_script, EventBuffer, ReadOutcome, StreamStep};
use keylogger::{KeyCode, KeyloggerError};

fn press(code: KeyCode) -> KeyEvent {
    KeyEvent { ts: EventTime { secs: 0, nsecs: 0 }, cause: KeyEventCause::Press, code }
}

fn release(code: KeyCode) -> KeyEvent {
    KeyEvent { ts: EventTime { secs: 0, nsecs: 0 }, cause: KeyEventCause::Release, code }
}

#[test]
fn buffer_replays_batch_one_event_at_a_time() {
    let mut buf = EventBuffer::new();
    assert!(!buf.has_buffered());
    let batch = vec![press(KeyCode::KEY_1), release(KeyCode::KEY_1)];
    let step = buf.accept_read(ReadOutcome::Batch(batch));
    assert_eq!(step, StreamStep::Event(press(KeyCode::KEY_1)));
    assert_eq!(buf.next_buffered(), Some(release(KeyCode::KEY_1)));
    assert_eq!(buf.next_buffered(), None);
    assert!(!buf.has_buffered());
}

#[test]
fn spurious_wake_and_empty_batch_suspend_without_ending_stream() {
    let mut buf = EventBuffer::new();
    assert_eq!(buf.accept_read(ReadOutcome::WouldBlock), StreamStep::Suspend);
    assert_eq!(buf.accept_read(ReadOutcome::Batch(vec![])), StreamStep::Suspend);
    // The stream is still usable afterwards.
    let step = buf.accept_read(ReadOutcome::Batch(vec![press(KeyCode::KEY_A)]));
    assert_eq!(step, StreamStep::Event(press(KeyCode::KEY_A)));
}

#[test]
fn failure_is_one_step_and_keeps_buffer() {
    let mut buf = EventBuffer::new();
    let step = buf.accept_read(ReadOutcome::Failed(KeyloggerError::Io("boom".to_string())));
    assert_eq!(step, StreamStep::Failure(KeyloggerError::Io("boom".to_string())));
    // A later read still delivers.
    let step = buf.accept_read(ReadOutcome::Batch(vec![release(KeyCode::KEY_B)]));
    assert_eq!(step, StreamStep::Event(release(KeyCode::KEY_B)));
}

#[test]
fn empty_batches_never_appear_in_stream_history() {
    // A script of batches with empty batches and spurious wakes interleaved:
    // the consumer sees only the events, in order, and no terminal state.
    let script = vec![
        ReadOutcome::Batch(vec![]),
        ReadOutcome::Batch(vec![press(KeyCode::KEY_1)]),
        ReadOutcome::WouldBlock,
        ReadOutcome::Batch(vec![]),
        ReadOutcome::Batch(vec![release(KeyCode::KEY_1)]),
        ReadOutcome::Batch(vec![]),
    ];
    let seen = drain_script(script);
    assert_eq!(seen, vec![Ok(press(KeyCode::KEY_1)), Ok(release(KeyCode::KEY_1))]);
}

#[test]
fn stream_with_errors() {
    let expected_event_batches: Vec<Result<Vec<KeyEvent>, KeyloggerError>> = vec![
        Ok(vec![press(KeyCode::KEY_1), release(KeyCode::KEY_1)]),
        Ok(vec![
            press(KeyCode::KEY_A),
            press(KeyCode::KEY_A),
            press(KeyCode::KEY_A),
            release(KeyCode::KEY_A),
            release(KeyCode::KEY_B),
        ]),
        Err(KeyloggerError::Io("test event".to_string())),
        Ok(vec![release(KeyCode::KEY_Z)]),
        Err(KeyloggerError::Io("test event2".to_string())),
    ];

    let script = expected_event_batches
        .iter()
        .map(|b| match b {
            Ok(evs) => ReadOutcome::Batch(evs.clone()),
            Err(e) => ReadOutcome::Failed(e.clone()),
        })
        .collect();

    let recorded_events = drain_script(script);

    let mut expected_events = vec![];
    for batch in expected_event_batches {
        match batch {
            Ok(evs) => expected_events.extend(evs.into_iter().map(Ok)),
            Err(e) => expected_events.push(Err(e)),
        }
    }

    assert_eq!(recorded_events, expected_events);
}
