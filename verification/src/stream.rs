//! The buffering core of an async input stream: one underlying read yields a
//! batch of zero or more decoded events, while the consumer expects one
//! event per step. The buffer replays each batch one event at a time, in
//! kernel emission order, and a drained buffer demands a new underlying read
//! before any further event is yielded.

use crate::error::KeyloggerError;
use crate::event::KeyEvent;
use vstd::prelude::*;

verus! {

/// What one attempt to read a readable descriptor produced.
#[derive(Debug)]
pub enum ReadOutcome {
    /// The readiness wake was spurious: the read would have blocked.
    WouldBlock,
    /// The read succeeded and decoded to these events (possibly none).
    Batch(Vec<KeyEvent>),
    /// The read failed with an I/O error.
    Failed(KeyloggerError),
}

/// What the stream hands its consumer after one poll.
#[derive(Debug, PartialEq)]
pub enum StreamStep {
    /// No progress: wait for the descriptor to report readability again.
    /// Never a terminal state; the stream stays open.
    Suspend,
    /// The next key event.
    Event(KeyEvent),
    /// The underlying read failed: one failed step, after which the stream
    /// may be polled again.
    Failure(KeyloggerError),
}

/// The buffered batch and replay cursor of an async input stream.
#[derive(Debug)]
pub struct EventBuffer {
    /// The batch produced by the most recent underlying read.
    pub events: Vec<KeyEvent>,
    /// How many events of the batch were already replayed.
    pub pos: usize,
}

impl EventBuffer {
    /// The cursor never runs past the end of the batch.
    pub open spec fn wf(self) -> bool {
        self.pos <= self.events@.len()
    }

    /// The events of the current batch not yet replayed.
    pub open spec fn remaining(self) -> Seq<KeyEvent> {
        self.events@.skip(self.pos as int)
    }

    /// A fresh, drained buffer.
    pub fn new() -> (b: EventBuffer)
        ensures
            b.wf(),
            b.remaining() == Seq::<KeyEvent>::empty(),
    {
        let b = EventBuffer { events: Vec::new(), pos: 0 };
        proof {
            assert(b.remaining() =~= Seq::<KeyEvent>::empty());
        }
        b
    }

    /// Whether a buffered event is still waiting to be replayed.
    pub fn has_buffered(&self) -> (r: bool)
        requires
            self.wf(),
        ensures
            r == (self.remaining().len() > 0),
    {
        self.pos < self.events.len()
    }

    /// Replay the next buffered event without touching the device, or report
    /// that the batch is drained and a new read is due.
    pub fn next_buffered(&mut self) -> (r: Option<KeyEvent>)
        requires
            old(self).wf(),
        ensures
            final(self).wf(),
            old(self).remaining().len() > 0 ==> r == Some(old(self).remaining()[0])
                && final(self).remaining() == old(self).remaining().drop_first(),
            old(self).remaining().len() == 0 ==> r is None && *final(self) == *old(self),
    {
        if self.pos < self.events.len() {
            let ev = self.events[self.pos];
            self.pos = self.pos + 1;
            proof {
                assert(self.remaining() =~= old(self).remaining().drop_first());
            }
            Some(ev)
        } else {
            None
        }
    }

    /// Accept the outcome of one underlying read and produce the step the
    /// consumer sees: a spurious wake and an empty batch both suspend the
    /// stream without ending it, a non-empty batch is buffered and its first
    /// event yielded at once, and a failure is surfaced as one failed step
    /// that leaves the buffer as it was.
    pub fn accept_read(&mut self, outcome: ReadOutcome) -> (step: StreamStep)
        requires
            old(self).wf(),
        ensures
            final(self).wf(),
            outcome is WouldBlock ==> step == StreamStep::Suspend && *final(self) == *old(self),
            outcome matches ReadOutcome::Batch(b) ==> ((b@.len() == 0 ==> step
                == StreamStep::Suspend && *final(self) == *old(self)) && (b@.len() > 0 ==> step
                == StreamStep::Event(b@[0]) && final(self).remaining() == b@.drop_first())),
            outcome matches ReadOutcome::Failed(e) ==> step == StreamStep::Failure(e)
                && *final(self) == *old(self),
    {
        match outcome {
            ReadOutcome::WouldBlock => StreamStep::Suspend,
            ReadOutcome::Batch(b) => {
                if b.len() == 0 {
                    StreamStep::Suspend
                } else {
                    let first = b[0];
                    self.events = b;
                    self.pos = 1;
                    proof {
                        assert(self.remaining() =~= self.events@.drop_first());
                    }
                    StreamStep::Event(first)
                }
            },
            ReadOutcome::Failed(e) => StreamStep::Failure(e),
        }
    }
}

/// The whole history a consumer sees when a stream is fed a script of read
/// outcomes and polled to exhaustion between reads: batches are flattened
/// one event at a time in kernel order, failures appear in place as single
/// failed steps, and spurious wakes contribute nothing.
pub open spec fn stream_flatten(script: Seq<ReadOutcome>) -> Seq<
    Result<KeyEvent, KeyloggerError>,
>
    decreases script.len(),
{
    if script.len() == 0 {
        Seq::empty()
    } else {
        let rest = stream_flatten(script.drop_first());
        match script[0] {
            ReadOutcome::WouldBlock => rest,
            ReadOutcome::Batch(b) => b@.map_values(
                |ev: KeyEvent| Ok::<KeyEvent, KeyloggerError>(ev),
            ) + rest,
            ReadOutcome::Failed(e) => seq![Err::<KeyEvent, KeyloggerError>(e)] + rest,
        }
    }
}

/// Law: a spurious wake and an empty batch are invisible to the consumer.
/// Inserting either anywhere into a script changes nothing of the stream's
/// history: no event is delivered for them and no terminal state appears;
/// the stream simply keeps waiting.
pub proof fn lemma_empty_read_invisible(script: Seq<ReadOutcome>, outcome: ReadOutcome, i: int)
    requires
        0 <= i <= script.len(),
        outcome is WouldBlock || (outcome matches ReadOutcome::Batch(b) && b@.len() == 0),
    ensures
        stream_flatten(script.insert(i, outcome)) == stream_flatten(script),
    decreases i,
{
    let p = script.insert(i, outcome);
    if i == 0 {
        assert(p[0] == outcome);
        assert(p.drop_first() =~= script);
        match outcome {
            ReadOutcome::Batch(b) => {
                assert(b@.map_values(|ev: KeyEvent| Ok::<KeyEvent, KeyloggerError>(ev))
                    + stream_flatten(script) =~= stream_flatten(script));
            },
            _ => {},
        }
    } else {
        lemma_empty_read_invisible(script.drop_first(), outcome, i - 1);
        assert(p[0] == script[0]);
        assert(p.drop_first() =~= script.drop_first().insert(i - 1, outcome));
    }
}

/// Drain every event still buffered, appending each to `out` as a
/// successful element, in order.
fn drain_buffer(buf: &mut EventBuffer, out: &mut Vec<Result<KeyEvent, KeyloggerError>>)
    requires
        old(buf).wf(),
    ensures
        final(buf).wf(),
        final(buf).remaining().len() == 0,
        final(out)@ == old(out)@ + old(buf).remaining().map_values(
            |ev: KeyEvent| Ok::<KeyEvent, KeyloggerError>(ev),
        ),
{
    let ghost orig = buf.remaining();
    let ghost base = out@;
    let ghost mut k: int = 0;
    while buf.has_buffered()
        invariant
            buf.wf(),
            0 <= k <= orig.len(),
            buf.remaining() == orig.skip(k),
            out@ == base + orig.take(k).map_values(|ev: KeyEvent| Ok::<KeyEvent, KeyloggerError>(ev)),
        decreases orig.len() - k,
    {
        let ev = match buf.next_buffered() {
            Some(ev) => ev,
            None => {
                proof {
                    assert(false);
                }
                return ;
            },
        };
        out.push(Ok(ev));
        proof {
            assert(orig.skip(k)[0] == orig[k]);
            assert(orig.skip(k).drop_first() =~= orig.skip(k + 1));
            assert(orig.take(k).push(orig[k]) =~= orig.take(k + 1));
            assert(orig.take(k).map_values(|e: KeyEvent| Ok::<KeyEvent, KeyloggerError>(e)).push(
                Ok(orig[k]),
            ) =~= orig.take(k + 1).map_values(|e: KeyEvent| Ok::<KeyEvent, KeyloggerError>(e)));
            k = k + 1;
        }
    }
    proof {
        assert(k == orig.len());
        assert(orig.take(k) =~= orig);
    }
}

/// Feed a script of read outcomes through a fresh stream buffer, polling the
/// stream to exhaustion between reads, and collect everything the consumer
/// would see.
fn run_script(
    script: Vec<ReadOutcome>,
    buf: &mut EventBuffer,
    out: &mut Vec<Result<KeyEvent, KeyloggerError>>,
)
    requires
        old(buf).wf(),
        old(buf).remaining().len() == 0,
    ensures
        final(buf).wf(),
        final(buf).remaining().len() == 0,
        final(out)@ == old(out)@ + stream_flatten(script@),
    decreases script@.len(),
{
    let ghost orig = script@;
    let mut script = script;
    if script.len() == 0 {
        return ;
    }
    let outcome = script.remove(0);
    proof {
        assert(script@ =~= orig.drop_first());
        assert(orig[0] == outcome);
    }
    match buf.accept_read(outcome) {
        StreamStep::Suspend => {},
        StreamStep::Event(ev) => {
            out.push(Ok(ev));
            drain_buffer(buf, out);
            proof {
                match orig[0] {
                    ReadOutcome::Batch(b) => {
                        assert(seq![Ok::<KeyEvent, KeyloggerError>(b@[0])]
                            + b@.drop_first().map_values(
                            |e: KeyEvent| Ok::<KeyEvent, KeyloggerError>(e),
                        ) =~= b@.map_values(|e: KeyEvent| Ok::<KeyEvent, KeyloggerError>(e)));
                    },
                    _ => {},
                }
            }
        },
        StreamStep::Failure(e) => {
            out.push(Err(e));
        },
    }
    run_script(script, buf, out);
}

/// The consumer-visible history of a stream fed a fixed script of read
/// outcomes: exactly `stream_flatten` of the script.
pub fn drain_script(script: Vec<ReadOutcome>) -> (out: Vec<Result<KeyEvent, KeyloggerError>>)
    ensures
        out@ == stream_flatten(script@),
{
    let mut buf = EventBuffer::new();
    let mut out: Vec<Result<KeyEvent, KeyloggerError>> = Vec::new();
    run_script(script, &mut buf, &mut out);
    out
}

} // verus!
