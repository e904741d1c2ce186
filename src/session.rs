//! A session: the dispatch guard that lets one operation be in flight at a
//! time, and the append-only log of the records that finished.

use vstd::prelude::*;
use crate::executor::{Execution, op_outcome, run_allowed_op};
use crate::operation::{AllowedOperation, ExecError, RemoteOp, record_finished};

verus! {

/// The records of finished operations, in the order in which they finished.
/// Entries are only ever added at the end.
pub struct OperationLog {
    entries: Vec<RemoteOp>,
}

/// The log after `rec` is appended to `log`.
pub open spec fn log_append(log: Seq<RemoteOp>, rec: RemoteOp) -> Seq<RemoteOp> {
    log.push(rec)
}

/// The log after each record of `recs` is appended to `log`, in turn.
pub open spec fn log_append_all(log: Seq<RemoteOp>, recs: Seq<RemoteOp>) -> Seq<RemoteOp>
    decreases recs.len(),
{
    if recs.len() == 0 {
        log
    } else {
        log_append(log_append_all(log, recs.drop_last()), recs.last())
    }
}

impl View for OperationLog {
    type V = Seq<RemoteOp>;

    closed spec fn view(&self) -> Seq<RemoteOp> {
        self.entries@
    }
}

impl OperationLog {
    /// An empty log.
    pub fn new() -> (r: OperationLog)
        ensures
            r@ == Seq::<RemoteOp>::empty(),
    {
        OperationLog { entries: Vec::new() }
    }

    /// Adds `rec` at the end of the log.
    pub fn append(&mut self, rec: RemoteOp)
        ensures
            final(self)@ == log_append(old(self)@, rec),
    {
        self.entries.push(rec);
    }

    /// The records, in the order in which they were appended.
    pub fn snapshot(&self) -> (r: &Vec<RemoteOp>)
        ensures
            r@ == self@,
    {
        &self.entries
    }

    /// The number of records.
    pub fn len(&self) -> (r: usize)
        ensures
            r == self@.len(),
    {
        self.entries.len()
    }
}

/// Appending records one by one leaves them at the end of the log, in the
/// order of appending, and nothing before them changes: after `n` appends the
/// log holds exactly `n` more records.
pub proof fn lemma_appends_kept_in_order(log: Seq<RemoteOp>, recs: Seq<RemoteOp>)
    ensures
        log_append_all(log, recs) == log + recs,
        log_append_all(log, recs).len() == log.len() + recs.len(),
    decreases recs.len(),
{
    if recs.len() == 0 {
        assert(log + recs =~= log);
    } else {
        lemma_appends_kept_in_order(log, recs.drop_last());
        assert(log + recs.drop_last() + seq![recs.last()] =~= log + recs);
        assert(log_append(log + recs.drop_last(), recs.last()) =~= log + recs);
    }
}

/// The state of a session, as its contracts see it.
pub struct SessionView {
    pub current: AllowedOperation,
    pub pending: bool,
    pub log: Seq<RemoteOp>,
}

/// One session's dispatch guard and operation log.
pub struct Session {
    current: AllowedOperation,
    pending: bool,
    log: OperationLog,
}

/// A session in which nothing has been dispatched.
pub open spec fn idle_session() -> SessionView {
    SessionView { current: AllowedOperation::Noop, pending: false, log: Seq::empty() }
}

/// The session after a dispatch of `op`, and whether the dispatch was taken:
/// refused, with nothing changed, while an operation is in flight.
pub open spec fn dispatch_step(s: SessionView, op: AllowedOperation) -> (SessionView, bool) {
    if s.pending {
        (s, false)
    } else {
        (SessionView { current: op, pending: true, log: s.log }, true)
    }
}

/// The session after the operation in flight ends with `outcome`, and whether
/// one was in flight. The guard is released whatever the outcome; a record is
/// logged only where the operation produced one.
pub open spec fn complete_step(s: SessionView, outcome: Result<RemoteOp, ExecError>) -> (
    SessionView,
    bool,
) {
    if !s.pending {
        (s, false)
    } else {
        match outcome {
            Ok(rec) => (
                SessionView { current: s.current, pending: false, log: log_append(s.log, rec) },
                true,
            ),
            Err(_) => (SessionView { current: s.current, pending: false, log: s.log }, true),
        }
    }
}

/// An event that reaches a session's guard.
pub enum SessionEvent {
    Dispatch(AllowedOperation),
    Complete(Result<RemoteOp, ExecError>),
}

/// The session after one event, and whether the event was taken.
pub open spec fn session_step(s: SessionView, e: SessionEvent) -> (SessionView, bool) {
    match e {
        SessionEvent::Dispatch(op) => dispatch_step(s, op),
        SessionEvent::Complete(outcome) => complete_step(s, outcome),
    }
}

/// The session after the events, in turn.
pub open spec fn replay(s: SessionView, events: Seq<SessionEvent>) -> SessionView
    decreases events.len(),
{
    if events.len() == 0 {
        s
    } else {
        session_step(replay(s, events.drop_last()), events.last()).0
    }
}

/// How many of the events were dispatches that the guard took.
pub open spec fn started(s: SessionView, events: Seq<SessionEvent>) -> nat
    decreases events.len(),
{
    if events.len() == 0 {
        0
    } else {
        let before = replay(s, events.drop_last());
        let n = started(s, events.drop_last());
        if events.last() is Dispatch && session_step(before, events.last()).1 {
            n + 1
        } else {
            n
        }
    }
}

/// How many of the events were completions that released the guard.
pub open spec fn finished(s: SessionView, events: Seq<SessionEvent>) -> nat
    decreases events.len(),
{
    if events.len() == 0 {
        0
    } else {
        let before = replay(s, events.drop_last());
        let n = finished(s, events.drop_last());
        if events.last() is Complete && session_step(before, events.last()).1 {
            n + 1
        } else {
            n
        }
    }
}

/// Whatever events reach a session that starts idle, at most one operation is
/// in flight: the dispatches taken outnumber the completions that released the
/// guard by one while an operation is pending, and by none otherwise.
pub proof fn lemma_one_in_flight(events: Seq<SessionEvent>)
    ensures
        finished(idle_session(), events) <= started(idle_session(), events) <= finished(
            idle_session(),
            events,
        ) + 1,
        replay(idle_session(), events).pending <==> started(idle_session(), events) == finished(
            idle_session(),
            events,
        ) + 1,
{
    lemma_in_flight_count(idle_session(), events);
}

proof fn lemma_in_flight_count(s: SessionView, events: Seq<SessionEvent>)
    ensures
        started(s, events) + (if s.pending { 1int } else { 0 }) == finished(s, events) + (if replay(
            s,
            events,
        ).pending {
            1int
        } else {
            0
        }),
    decreases events.len(),
{
    if events.len() > 0 {
        lemma_in_flight_count(s, events.drop_last());
    }
}

/// Whether an outcome may end an operation: an error, or the record of a
/// finished operation.
pub open spec fn outcome_finished(outcome: Result<RemoteOp, ExecError>) -> bool {
    outcome matches Ok(rec) ==> record_finished(rec)
}

/// Whether every completion among the events carries a permitted outcome.
pub open spec fn completions_finished(events: Seq<SessionEvent>) -> bool {
    forall|i: int|
        0 <= i < events.len() ==> (#[trigger] events[i] matches SessionEvent::Complete(outcome)
            ==> outcome_finished(outcome))
}

/// Whether every record of a log holds the result of a finished operation.
pub open spec fn log_finished(log: Seq<RemoteOp>) -> bool {
    forall|i: int| 0 <= i < log.len() ==> record_finished(#[trigger] log[i])
}

/// A session that starts idle never logs a partial record: whatever the
/// events, each record in its log holds an output and a status.
pub proof fn lemma_log_holds_finished_records(events: Seq<SessionEvent>)
    requires
        completions_finished(events),
    ensures
        log_finished(replay(idle_session(), events).log),
    decreases events.len(),
{
    if events.len() > 0 {
        let init = events.drop_last();
        assert forall|i: int| 0 <= i < init.len() implies (#[trigger] init[i] matches SessionEvent::Complete(outcome)
            ==> outcome_finished(outcome)) by {
            assert(init[i] == events[i]);
        }
        lemma_log_holds_finished_records(init);
        assert(events[events.len() - 1] == events.last());
    }
}

impl View for Session {
    type V = SessionView;

    closed spec fn view(&self) -> SessionView {
        SessionView { current: self.current, pending: self.pending, log: self.log@ }
    }
}

impl Session {
    /// A session with nothing in flight and an empty log.
    pub fn new() -> (r: Session)
        ensures
            r@ == idle_session(),
    {
        Session { current: AllowedOperation::Noop, pending: false, log: OperationLog::new() }
    }

    /// Whether an operation is in flight.
    pub fn is_pending(&self) -> (r: bool)
        ensures
            r == self@.pending,
    {
        self.pending
    }

    /// The operation dispatched last.
    pub fn current(&self) -> (r: AllowedOperation)
        ensures
            r == self@.current,
    {
        self.current
    }

    /// The records of the finished operations, in the order in which they
    /// finished.
    pub fn snapshot(&self) -> (r: &Vec<RemoteOp>)
        ensures
            r@ == self@.log,
    {
        self.log.snapshot()
    }

    /// Takes `op` as the operation in flight, unless one already is: then
    /// the request is dropped, nothing changes, and `false` is returned.
    pub fn try_dispatch(&mut self, op: AllowedOperation) -> (r: bool)
        ensures
            (final(self)@, r) == dispatch_step(old(self)@, op),
            r == !old(self)@.pending,
    {
        if self.pending {
            false
        } else {
            self.pending = true;
            self.current = op;
            true
        }
    }

    /// Takes `op` as the operation in flight and says what is left to do for
    /// it; `None`, with nothing changed and nothing to launch, while another
    /// operation is in flight.
    pub fn dispatch(&mut self, op: AllowedOperation) -> (r: Option<Execution>)
        ensures
            final(self)@ == dispatch_step(old(self)@, op).0,
            old(self)@.pending ==> r is None && final(self)@ == old(self)@,
            !old(self)@.pending ==> (r matches Some(x) && op_outcome(op, x)),
    {
        if self.try_dispatch(op) {
            Some(run_allowed_op(op))
        } else {
            None
        }
    }

    /// Ends the operation in flight with `outcome`: the guard is released
    /// whatever the outcome, and a record it carries is logged. Without an
    /// operation in flight nothing changes and `false` is returned.
    pub fn complete(&mut self, outcome: Result<RemoteOp, ExecError>) -> (r: bool)
        requires
            outcome_finished(outcome),
        ensures
            (final(self)@, r) == complete_step(old(self)@, outcome),
            r == old(self)@.pending,
            !final(self)@.pending,
    {
        if !self.pending {
            return false;
        }
        self.pending = false;
        match outcome {
            Ok(rec) => self.log.append(rec),
            Err(_) => {},
        }
        true
    }
}

} // verus!
