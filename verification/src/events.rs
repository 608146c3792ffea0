//! Output events of the supervised child and their classification into log
//! records.
//!
//! The child's I/O plumbing produces a stream of `OutputEvent`s; a background
//! drain task consumes them one by one, forwards each to the host's log sink
//! as a leveled `LogRecord`, and ends on the first `Terminated` event.
//! `dispatch` is the decision taken for a single event; `run_drain_loop` is
//! the whole loop over a materialized event sequence.

use vstd::prelude::*;
use vstd::string::StringExecFns;

verus! {

/// One event from the child's I/O plumbing, in the order the operating
/// system delivered the corresponding bytes (no cross-stream ordering between
/// standard output and standard error is promised).
#[derive(Debug, PartialEq, Eq)]
pub enum OutputEvent {
    /// One line the child wrote to its standard output.
    StdoutLine(String),
    /// One line the child wrote to its standard error.
    StderrLine(String),
    /// A fault in the plumbing that carries the child's output.
    ProcessError(String),
    /// The child exited, with its exit code where the OS reported one.
    Terminated(Option<i32>),
}

/// Severity of a forwarded log record: child output lines and termination are
/// informational; standard-error lines and plumbing faults are errors.
#[derive(Debug, PartialEq, Eq, Structural, Clone, Copy)]
pub enum LogLevel {
    Info,
    Error,
}

/// What a log record reports: a line of child output, a fault message, or the
/// child's exit (with its code where known).
#[derive(Debug, PartialEq, Eq)]
pub enum LogBody {
    ChildLine(String),
    Fault(String),
    Exited(Option<i32>),
}

/// One leveled record for the host's log sink, tagged with the fixed
/// component label that identifies it as backend output.
#[derive(Debug, PartialEq, Eq)]
pub struct LogRecord {
    pub level: LogLevel,
    pub tag: String,
    pub body: LogBody,
}

/// The level an event is classified under: standard error and plumbing
/// faults are errors, everything else is informational.
pub open spec fn event_level(ev: OutputEvent) -> LogLevel {
    match ev {
        OutputEvent::StdoutLine(_) => LogLevel::Info,
        OutputEvent::StderrLine(_) => LogLevel::Error,
        OutputEvent::ProcessError(_) => LogLevel::Error,
        OutputEvent::Terminated(_) => LogLevel::Info,
    }
}

/// The record that forwards an event: its level is the event's
/// classification, its tag is the fixed component label, and its body carries
/// the event's own text or exit code unchanged.
pub open spec fn record_forwards(rec: LogRecord, ev: OutputEvent) -> bool {
    &&& rec.level == event_level(ev)
    &&& rec.tag@ == "backend"@
    &&& match ev {
        OutputEvent::StdoutLine(line) => rec.body matches LogBody::ChildLine(t) && t@ == line@,
        OutputEvent::StderrLine(line) => rec.body matches LogBody::ChildLine(t) && t@ == line@,
        OutputEvent::ProcessError(msg) => rec.body matches LogBody::Fault(t) && t@ == msg@,
        OutputEvent::Terminated(code) => rec.body == LogBody::Exited(code),
    }
}

/// The fixed component label carried by every forwarded record.
pub fn component_tag() -> (tag: String)
    ensures
        tag@ == "backend"@,
{
    String::from_str("backend")
}

/// What the drain task does with one event: the record to forward, and
/// whether the loop is over.
pub struct DrainStep {
    pub record: LogRecord,
    pub done: bool,
}

/// Classifies one event into the record forwarded to the log sink. The
/// event's classification is preserved: a standard-error line never comes out
/// informational, and the payload is carried unchanged. `done` is set exactly
/// on `Terminated`, the one event that ends the drain loop.
pub fn dispatch(ev: OutputEvent) -> (step: DrainStep)
    ensures
        record_forwards(step.record, ev),
        step.done == (ev is Terminated),
{
    match ev {
        OutputEvent::StdoutLine(line) => DrainStep {
            record: LogRecord {
                level: LogLevel::Info,
                tag: component_tag(),
                body: LogBody::ChildLine(line),
            },
            done: false,
        },
        OutputEvent::StderrLine(line) => DrainStep {
            record: LogRecord {
                level: LogLevel::Error,
                tag: component_tag(),
                body: LogBody::ChildLine(line),
            },
            done: false,
        },
        OutputEvent::ProcessError(msg) => DrainStep {
            record: LogRecord {
                level: LogLevel::Error,
                tag: component_tag(),
                body: LogBody::Fault(msg),
            },
            done: false,
        },
        OutputEvent::Terminated(code) => DrainStep {
            record: LogRecord {
                level: LogLevel::Info,
                tag: component_tag(),
                body: LogBody::Exited(code),
            },
            done: true,
        },
    }
}

/// How many events the drain loop reads from a stream: everything up to and
/// including the first `Terminated` event, or the whole stream if none
/// terminates it.
pub open spec fn drained_count(evs: Seq<OutputEvent>) -> int
    decreases evs.len(),
{
    if evs.len() == 0 {
        0
    } else if evs[0] is Terminated {
        1
    } else {
        1 + drained_count(evs.skip(1))
    }
}

/// A stream with no `Terminated` event is drained whole.
pub proof fn lemma_drained_count_no_terminated(evs: Seq<OutputEvent>)
    requires
        forall|i: int| 0 <= i < evs.len() ==> !((#[trigger] evs[i]) is Terminated),
    ensures
        drained_count(evs) == evs.len(),
    decreases evs.len(),
{
    if evs.len() > 0 {
        assert forall|i: int| 0 <= i < evs.skip(1).len() implies !((#[trigger] evs.skip(
            1,
        )[i]) is Terminated) by {
            assert(evs.skip(1)[i] == evs[i + 1]);
        }
        lemma_drained_count_no_terminated(evs.skip(1));
    }
}

/// Observing a `Terminated` event ends the drain loop: of a stream whose
/// first `Terminated` event stands at position `k`, exactly the `k + 1`
/// events up to and including it are read, and none after it. Draining
/// clears no supervisor state: neither `dispatch` nor `run_drain_loop`
/// touches the state cell, so a handle installed at launch stays in place
/// until an explicit shutdown.
pub proof fn lemma_terminated_ends_drain(evs: Seq<OutputEvent>, k: int)
    requires
        0 <= k < evs.len(),
        evs[k] is Terminated,
        forall|i: int| 0 <= i < k ==> !((#[trigger] evs[i]) is Terminated),
    ensures
        drained_count(evs) == k + 1,
    decreases evs.len(),
{
    if k > 0 {
        assert(evs.skip(1)[k - 1] == evs[k]);
        assert forall|i: int| 0 <= i < k - 1 implies !((#[trigger] evs.skip(
            1,
        )[i]) is Terminated) by {
            assert(evs.skip(1)[i] == evs[i + 1]);
        }
        lemma_terminated_ends_drain(evs.skip(1), k - 1);
    }
}

/// The drain loop over a materialized event stream: reads events in order,
/// forwards each as a log record with its classification preserved, and
/// stops after the first `Terminated` event (or at the end of the stream).
/// Every event read is forwarded, and no event after the first `Terminated`
/// is read.
pub fn run_drain_loop(events: Vec<OutputEvent>) -> (log: Vec<LogRecord>)
    ensures
        log@.len() == drained_count(events@),
        forall|i: int| 0 <= i < log@.len() ==> record_forwards(#[trigger] log@[i], events@[i]),
{
    let ghost all = events@;
    let mut rest = events;
    let mut log: Vec<LogRecord> = Vec::new();
    let mut done = false;
    while !done && rest.len() > 0
        invariant
            log@.len() <= all.len(),
            rest@ == all.skip(log@.len() as int),
            forall|i: int| 0 <= i < log@.len() ==> record_forwards(#[trigger] log@[i], all[i]),
            !done ==> forall|i: int|
                0 <= i < log@.len() ==> !((#[trigger] all[i]) is Terminated),
            done ==> log@.len() > 0 && all[log@.len() - 1] is Terminated,
            done ==> forall|i: int|
                0 <= i < log@.len() - 1 ==> !((#[trigger] all[i]) is Terminated),
        decreases rest@.len(),
    {
        let ghost k = log@.len() as int;
        assert(rest@[0] == all[k]);
        let ev = rest.remove(0);
        let step = dispatch(ev);
        done = step.done;
        log.push(step.record);
        proof {
            assert(rest@ =~= all.skip(k + 1));
        }
    }
    proof {
        if done {
            lemma_terminated_ends_drain(all, log@.len() - 1);
        } else {
            assert(all.skip(log@.len() as int).len() == 0);
            assert(log@.len() == all.len());
            lemma_drained_count_no_terminated(all);
        }
    }
    log
}

} // verus!
