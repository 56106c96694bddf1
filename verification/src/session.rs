//! The dispatcher: one task per discovered device, each looping on its
//! stream, handing non-empty batches to the caller's handler and obeying the
//! handler's continue-or-abort verdict on every failure. The loop itself is
//! modelled as a transition function and a replay driver over a script of
//! poll outcomes; the surrounding concurrency owns no logic of its own.

use crate::error::KeyloggerError;
use crate::event::KeyEvent;
use vstd::prelude::*;

verus! {

/// What one await of a device's stream produced, at the batch level.
#[derive(Debug)]
pub enum TaskEvent {
    /// The poll succeeded and decoded to this batch (possibly empty).
    Batch(Vec<KeyEvent>),
    /// The poll failed with an error.
    Failed(KeyloggerError),
}

/// The handler's verdict on a capture error.
#[derive(Copy, Clone, Debug, PartialEq, Eq, Structural)]
pub enum ErrDecision {
    /// Ignore the error and keep polling the device.
    Continue,
    /// End this device's task, propagating the error as its result.
    Abort,
}

/// What a device task does next with one stream outcome.
#[derive(Debug, PartialEq)]
pub enum TaskAction {
    /// Hand this non-empty batch to the handler.
    Deliver(Vec<KeyEvent>),
    /// Put this error to the handler's error path and await its verdict.
    Consult(KeyloggerError),
    /// An empty batch: nothing for the handler, keep polling.
    Skip,
}

/// Route one stream outcome: a non-empty batch is delivered, an empty batch
/// never reaches the handler, and a failure is put to the handler's error
/// path.
pub fn classify_outcome(ev: TaskEvent) -> (a: TaskAction)
    ensures
        ev matches TaskEvent::Batch(b) ==> ((b@.len() == 0 ==> a == TaskAction::Skip) && (b@.len()
            > 0 ==> a == TaskAction::Deliver(b))),
        ev matches TaskEvent::Failed(e) ==> a == TaskAction::Consult(e),
{
    match ev {
        TaskEvent::Batch(b) => {
            if b.len() == 0 {
                TaskAction::Skip
            } else {
                TaskAction::Deliver(b)
            }
        },
        TaskEvent::Failed(e) => TaskAction::Consult(e),
    }
}

/// Everything one device task did over its lifetime, as the handler saw it.
pub struct TaskTrace {
    /// The batches handed to the handler, in order; none of them empty.
    pub delivered: Seq<Seq<KeyEvent>>,
    /// The errors put to the handler's error path, in order.
    pub errors: Seq<KeyloggerError>,
    /// Whether the task ended on a handler verdict to abort; the aborting
    /// error is then the last element of `errors`.
    pub aborted: bool,
}

/// The trace a device task produces on a script of poll outcomes, when the
/// handler answers the `i`-th error with the `i`-th decision (and continues
/// once decisions run out): empty batches are skipped, non-empty batches
/// delivered in order, and the first abort verdict ends the task at once.
pub open spec fn task_trace(script: Seq<TaskEvent>, decisions: Seq<ErrDecision>) -> TaskTrace
    decreases script.len(),
{
    if script.len() == 0 {
        TaskTrace { delivered: Seq::empty(), errors: Seq::empty(), aborted: false }
    } else {
        match script[0] {
            TaskEvent::Batch(b) => {
                let t = task_trace(script.drop_first(), decisions);
                if b@.len() == 0 {
                    t
                } else {
                    TaskTrace { delivered: seq![b@] + t.delivered, errors: t.errors, aborted: t.aborted }
                }
            },
            TaskEvent::Failed(e) => {
                let decision = if decisions.len() == 0 {
                    ErrDecision::Continue
                } else {
                    decisions[0]
                };
                let rest_ds = if decisions.len() == 0 {
                    decisions
                } else {
                    decisions.drop_first()
                };
                match decision {
                    ErrDecision::Continue => {
                        let t = task_trace(script.drop_first(), rest_ds);
                        TaskTrace { delivered: t.delivered, errors: seq![e] + t.errors, aborted: t.aborted }
                    },
                    ErrDecision::Abort => TaskTrace {
                        delivered: Seq::empty(),
                        errors: seq![e],
                        aborted: true,
                    },
                }
            },
        }
    }
}

/// The record a replayed device task leaves behind.
#[derive(Debug)]
pub struct TaskLog {
    /// The batches handed to the handler, in order.
    pub delivered: Vec<Vec<KeyEvent>>,
    /// The errors put to the handler, in order.
    pub errors: Vec<KeyloggerError>,
    /// Whether the task ended on an abort verdict.
    pub aborted: bool,
}

impl View for TaskLog {
    type V = TaskTrace;

    open spec fn view(&self) -> TaskTrace {
        TaskTrace {
            delivered: self.delivered@.map_values(|b: Vec<KeyEvent>| b@),
            errors: self.errors@,
            aborted: self.aborted,
        }
    }
}

/// Run one device task to completion over a fixed script of poll outcomes,
/// with the handler's error verdicts given up front; the log is exactly the
/// task's trace.
pub fn run_task(script: Vec<TaskEvent>, decisions: Vec<ErrDecision>) -> (log: TaskLog)
    ensures
        log@ == task_trace(script@, decisions@),
    decreases script@.len(),
{
    let ghost s0 = script@;
    let ghost d0 = decisions@;
    let mut script = script;
    let mut decisions = decisions;
    if script.len() == 0 {
        let log = TaskLog { delivered: Vec::new(), errors: Vec::new(), aborted: false };
        proof {
            assert(log@.delivered =~= task_trace(s0, d0).delivered);
            assert(log@.errors =~= task_trace(s0, d0).errors);
        }
        return log;
    }
    let ev = script.remove(0);
    proof {
        assert(script@ =~= s0.drop_first());
    }
    match ev {
        TaskEvent::Batch(b) => {
            if b.len() == 0 {
                let log = run_task(script, decisions);
                return log;
            } else {
                let mut log = run_task(script, decisions);
                let ghost prev = log.delivered@;
                let ghost bview = b@;
                log.delivered.insert(0, b);
                proof {
                    let f = |bb: Vec<KeyEvent>| bb@;
                    let t = task_trace(script@, d0);
                    assert(log.delivered@ == prev.insert(0, b));
                    assert forall|i: int| 0 <= i < log.delivered@.len() implies
                        log.delivered@.map_values(f)[i] == (seq![bview] + t.delivered)[i] by {
                        if i == 0 {
                            assert(log.delivered@[0] == b);
                        } else {
                            assert(log.delivered@[i] == prev[i - 1]);
                        }
                    }
                    assert(log.delivered@.map_values(f) =~= seq![bview] + t.delivered);
                }
                return log;
            }
        },
        TaskEvent::Failed(e) => {
            let decision = if decisions.len() == 0 {
                ErrDecision::Continue
            } else {
                let d = decisions.remove(0);
                proof {
                    assert(decisions@ =~= d0.drop_first());
                }
                d
            };
            match decision {
                ErrDecision::Continue => {
                    let mut log = run_task(script, decisions);
                    let ghost preverrs = log.errors@;
                    log.errors.insert(0, e);
                    proof {
                        assert(log.errors@ =~= seq![e] + preverrs);
                    }
                    return log;
                },
                ErrDecision::Abort => {
                    let mut errors: Vec<KeyloggerError> = Vec::new();
                    errors.push(e);
                    let log = TaskLog { delivered: Vec::new(), errors, aborted: true };
                    proof {
                        assert(log@.delivered =~= task_trace(s0, d0).delivered);
                        assert(log@.errors =~= task_trace(s0, d0).errors);
                    }
                    return log;
                },
            }
        },
    }
}

/// Law: an empty batch is invisible to the handler. Removing it from any
/// position of a script changes nothing of the task's trace: it triggers no
/// delivery, no error, and no end of the task.
pub proof fn lemma_empty_batch_invisible(
    script: Seq<TaskEvent>,
    decisions: Seq<ErrDecision>,
    i: int,
)
    requires
        0 <= i < script.len(),
        script[i] matches TaskEvent::Batch(b) && b@.len() == 0,
    ensures
        task_trace(script, decisions) == task_trace(script.remove(i), decisions),
    decreases i,
{
    if i == 0 {
        assert(script.remove(0) =~= script.drop_first());
    } else {
        assert(script.remove(i)[0] == script[0]);
        assert(script.remove(i).drop_first() =~= script.drop_first().remove(i - 1));
        assert(script.drop_first()[i - 1] == script[i]);
        match script[0] {
            TaskEvent::Batch(_) => {
                lemma_empty_batch_invisible(script.drop_first(), decisions, i - 1);
            },
            TaskEvent::Failed(_) => {
                let rest_ds = if decisions.len() == 0 {
                    decisions
                } else {
                    decisions.drop_first()
                };
                lemma_empty_batch_invisible(script.drop_first(), rest_ds, i - 1);
            },
        }
    }
}

/// Whether every batch of a delivery history holds at least one event.
pub open spec fn no_empty_batches(batches: Seq<Seq<KeyEvent>>) -> bool {
    forall|i: int| 0 <= i < batches.len() ==> #[trigger] batches[i].len() > 0
}

/// Law: the handler is never invoked with an empty batch. Whatever the
/// script and the verdicts, every batch of the trace holds at least one
/// event.
pub proof fn lemma_no_empty_delivery(script: Seq<TaskEvent>, decisions: Seq<ErrDecision>)
    ensures
        no_empty_batches(task_trace(script, decisions).delivered),
    decreases script.len(),
{
    if script.len() == 0 {
    } else {
        match script[0] {
            TaskEvent::Batch(b) => {
                lemma_no_empty_delivery(script.drop_first(), decisions);
                let t = task_trace(script.drop_first(), decisions);
                let d = task_trace(script, decisions).delivered;
                if b@.len() > 0 {
                    assert forall|i: int| 0 <= i < d.len() implies #[trigger] d[i].len() > 0 by {
                        if i > 0 {
                            assert(d[i] == t.delivered[i - 1]);
                        } else {
                            assert(d[0] == b@);
                        }
                    }
                }
            },
            TaskEvent::Failed(_) => {
                let rest_ds = if decisions.len() == 0 {
                    decisions
                } else {
                    decisions.drop_first()
                };
                lemma_no_empty_delivery(script.drop_first(), rest_ds);
                match (if decisions.len() == 0 { ErrDecision::Continue } else { decisions[0] }) {
                    ErrDecision::Continue => {
                        assert(task_trace(script, decisions).delivered == task_trace(
                            script.drop_first(),
                            rest_ds,
                        ).delivered);
                    },
                    ErrDecision::Abort => {
                        assert(task_trace(script, decisions).delivered.len() == 0);
                    },
                }
            },
        }
    }
}

/// Law: a continue verdict keeps the task polling. After an error answered
/// with continue, the task delivers exactly the batches of the remaining
/// script, in order — in particular the next successful batch — and merely
/// records the error first.
pub proof fn lemma_continue_keeps_polling(
    e: KeyloggerError,
    script: Seq<TaskEvent>,
    decisions: Seq<ErrDecision>,
)
    ensures
        ({
            let t = task_trace(
                seq![TaskEvent::Failed(e)] + script,
                seq![ErrDecision::Continue] + decisions,
            );
            let rest = task_trace(script, decisions);
            t.delivered == rest.delivered && t.errors == seq![e] + rest.errors && t.aborted
                == rest.aborted
        }),
{
    let s = seq![TaskEvent::Failed(e)] + script;
    let d = seq![ErrDecision::Continue] + decisions;
    assert(s[0] == TaskEvent::Failed(e));
    assert(s.drop_first() =~= script);
    assert(d[0] == ErrDecision::Continue);
    assert(d.drop_first() =~= decisions);
}

/// Law: an abort verdict ends the task immediately. After an error answered
/// with abort, nothing further of the script is polled: no batch is ever
/// delivered, the aborting error is the only one recorded, and the task is
/// marked ended.
pub proof fn lemma_abort_stops_task(
    e: KeyloggerError,
    script: Seq<TaskEvent>,
    decisions: Seq<ErrDecision>,
)
    ensures
        ({
            let t = task_trace(
                seq![TaskEvent::Failed(e)] + script,
                seq![ErrDecision::Abort] + decisions,
            );
            t.delivered == Seq::<Seq<KeyEvent>>::empty() && t.errors == seq![e] && t.aborted
        }),
{
    let s = seq![TaskEvent::Failed(e)] + script;
    let d = seq![ErrDecision::Abort] + decisions;
    assert(s[0] == TaskEvent::Failed(e));
    assert(d[0] == ErrDecision::Abort);
}

/// Gate a capture session on its device set: zero qualifying devices is the
/// distinguished no-devices failure and no session (and so no task) is ever
/// started; otherwise the devices pass through unchanged.
pub fn require_devices<D>(devices: Vec<D>) -> (r: Result<Vec<D>, KeyloggerError>)
    ensures
        devices@.len() == 0 ==> r == Err::<Vec<D>, KeyloggerError>(KeyloggerError::NoDevicesFound),
        devices@.len() > 0 ==> r == Ok::<Vec<D>, KeyloggerError>(devices),
{
    if devices.len() == 0 {
        Err(KeyloggerError::NoDevicesFound)
    } else {
        Ok(devices)
    }
}

/// The result a finished capture session reports once every device task has
/// ended: the distinguished all-tasks-exited condition, never a silent
/// success.
pub fn capture_result() -> (r: Result<(), KeyloggerError>)
    ensures
        r == Err::<(), KeyloggerError>(KeyloggerError::KeyloggerTasksExited),
{
    Err(KeyloggerError::KeyloggerTasksExited)
}

} // verus!
