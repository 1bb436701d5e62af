//! Operations: their identity and kind, per-operation statistics, the
//! outcome a finished operation reports, and the dispatcher decision that
//! accepts requests until the terminal `End` sentinel.

use crate::events::{CallbackEvent, NativeError, NativeErrorKind, OperationDone, Severity};
use crate::runtime::{now_micros, send_callback_event, uuid_of_text};
use crate::text::uuid_chars;
use crate::tracker::{live_remove, live_stat_of, Tracker};
use crate::OperationId;
use tokio::sync::mpsc::UnboundedSender;
use tokio_util::sync::CancellationToken;
use vstd::prelude::*;

verus! {

/// A snapshot of one operation's bookkeeping: its id and display name,
/// when it started (microseconds since the epoch) and, once finished,
/// how long it ran.
#[derive(Debug, Clone, PartialEq, Eq)]
pub struct OperationStat {
    pub uuid: String,
    pub name: String,
    pub duration: u64,
    pub started: u64,
}

/// The stat after the clock read `timestamp` at its finish: the duration
/// becomes the elapsed time, unless the clock stands at or before the
/// start.
pub open spec fn spec_done_at(st: OperationStat, timestamp: u64) -> OperationStat {
    if timestamp > st.started {
        OperationStat { duration: (timestamp - st.started) as u64, ..st }
    } else {
        st
    }
}

impl OperationStat {
    /// A fresh stat for a just-registered operation: it starts now and
    /// has no duration yet.
    pub fn new(uuid: String, name: String) -> (r: Self)
        ensures
            r.uuid == uuid,
            r.name == name,
            r.duration == 0,
    {
        let timestamp = now_micros();
        OperationStat { uuid, name, started: timestamp, duration: 0 }
    }

    /// Finalizes the duration against the given clock value.
    pub fn done_at(&mut self, timestamp: u64)
        ensures
            *final(self) == spec_done_at(*old(self), timestamp),
    {
        if timestamp > self.started {
            self.duration = timestamp - self.started;
        }
    }

    /// Finalizes the duration against the clock: some clock value
    /// decides the new duration.
    pub fn done(&mut self)
        ensures
            exists|ts: u64| *final(self) == spec_done_at(*old(self), ts),
    {
        let timestamp = now_micros();
        self.done_at(timestamp);
        proof {
            assert(*final(self) == spec_done_at(*old(self), timestamp));
        }
    }
}

/// What an operation asks the session to do.
#[derive(Debug)]
pub enum OperationKind {
    /// Request cancellation of another operation.
    Cancel { target: OperationId },
    /// Load a shared library and call its two entry points.
    ExternalLibCall(String, u64, u64, Vec<String>),
    /// Wait the given number of milliseconds.
    Sleep(u64),
    /// Terminal sentinel: orderly session-wide teardown.
    End,
}

/// The display label of an operation kind.
pub open spec fn kind_label(k: OperationKind) -> Seq<char> {
    match k {
        OperationKind::Sleep(_) => "Sleeping"@,
        OperationKind::ExternalLibCall(_, _, _, _) => "ExternalLibCall"@,
        OperationKind::Cancel { .. } => "Canceling"@,
        OperationKind::End => "End"@,
    }
}

impl OperationKind {
    /// The display label of the kind.
    pub fn name(&self) -> (r: &'static str)
        ensures
            r@ == kind_label(*self),
    {
        match self {
            OperationKind::Sleep(_) => "Sleeping",
            OperationKind::ExternalLibCall(_, _, _, _) => "ExternalLibCall",
            OperationKind::Cancel { .. } => "Canceling",
            OperationKind::End => "End",
        }
    }
}

/// One schedulable unit of work: an id and a kind.
#[derive(Debug)]
pub struct Operation {
    kind: OperationKind,
    id: OperationId,
}

impl Operation {
    /// An operation from its id and kind.
    pub fn new(id: OperationId, kind: OperationKind) -> (r: Self)
        ensures
            r.id_spec() == id,
            r.kind_spec() == kind,
    {
        Operation { kind, id }
    }

    /// The operation's id.
    pub closed spec fn id_spec(self) -> OperationId {
        self.id
    }

    /// The operation's kind.
    pub closed spec fn kind_spec(self) -> OperationKind {
        self.kind
    }

    /// The operation's id.
    pub fn id(&self) -> (r: OperationId)
        ensures
            r == self.id_spec(),
    {
        self.id
    }

    /// The operation's kind, by reference.
    pub fn kind(&self) -> (r: &OperationKind)
        ensures
            *r == self.kind_spec(),
    {
        &self.kind
    }

    /// Takes the operation apart, for whoever runs its handler.
    pub fn into_parts(self) -> (r: (OperationId, OperationKind))
        ensures
            r.0 == self.id_spec(),
            r.1 == self.kind_spec(),
    {
        let Operation { kind, id } = self;
        (id, kind)
    }
}

/// Marker for operations that produce no result payload.
#[derive(Debug, Clone, PartialEq, Eq)]
pub struct NoOperationResults;

/// What a handler hands back: an optional result, or a native error.
pub type OperationResult<T> = Result<Option<T>, NativeError>;

/// The terminal outcome of one operation, as handed to `finish`: success
/// with an optional already-serialized JSON payload, a failure of the
/// serialization itself, or the handler's own error.
#[derive(Debug, Clone, PartialEq, Eq)]
pub enum OperationOutcome {
    Success(Option<String>),
    SerializationFailed(String),
    Failure(NativeError),
}

/// The event `finish` reports for an outcome: success becomes
/// `OperationDone` with the payload; a serialization failure is
/// downgraded to an `OperationError` of kind `ComputationFailed`; a
/// handler error is reported as it stands.
pub open spec fn finish_event_spec(id: OperationId, outcome: OperationOutcome) -> CallbackEvent {
    match outcome {
        OperationOutcome::Success(result) => CallbackEvent::OperationDone(
            OperationDone { uuid: id, result },
        ),
        OperationOutcome::SerializationFailed(msg) => CallbackEvent::OperationError {
            uuid: id,
            error: NativeError {
                severity: Severity::ERROR,
                kind: NativeErrorKind::ComputationFailed,
                message: Some(msg),
            },
        },
        OperationOutcome::Failure(error) => CallbackEvent::OperationError { uuid: id, error },
    }
}

/// Builds the terminal event for an operation's outcome.
pub fn finish_event(id: OperationId, outcome: OperationOutcome) -> (r: CallbackEvent)
    ensures
        r == finish_event_spec(id, outcome),
{
    match outcome {
        OperationOutcome::Success(result) => CallbackEvent::OperationDone(
            OperationDone { uuid: id, result },
        ),
        OperationOutcome::SerializationFailed(msg) => CallbackEvent::OperationError {
            uuid: id,
            error: NativeError {
                severity: Severity::ERROR,
                kind: NativeErrorKind::ComputationFailed,
                message: Some(msg),
            },
        },
        OperationOutcome::Failure(error) => CallbackEvent::OperationError { uuid: id, error },
    }
}

/// Law: an operation's terminal event is always scoped to that
/// operation — never the session-terminal `SessionDestroyed`, which
/// only the session boundary reports, once, after every loop exited.
pub proof fn lemma_finish_event_is_operation_scoped(id: OperationId, outcome: OperationOutcome)
    ensures
        !(finish_event_spec(id, outcome) is SessionDestroyed),
        match finish_event_spec(id, outcome) {
            CallbackEvent::OperationDone(info) => info.uuid == id,
            CallbackEvent::OperationError { uuid, .. } => uuid == id,
            _ => false,
        },
{
}

/// The message reported when a cancel request names an id the tracker
/// does not know.
pub open spec fn cancel_not_found_text(target: OperationId) -> Seq<char> {
    "Fail to cancel operation "@ + uuid_chars(target) + "; operation isn't found"@
}

/// The outcome of a cancel operation: plain success when the target was
/// found, and a warning of kind `Io` naming the missing target
/// otherwise.
pub fn cancel_outcome(target: OperationId, canceled: bool) -> (r: OperationOutcome)
    ensures
        canceled ==> r == OperationOutcome::Success(None::<String>),
        !canceled ==> (r matches OperationOutcome::Failure(e) && e.severity == Severity::WARNING
            && e.kind == NativeErrorKind::Io && (e.message matches Some(m) && m@
            == cancel_not_found_text(target))),
{
    if canceled {
        OperationOutcome::Success(None)
    } else {
        let mut msg = String::from_str("Fail to cancel operation ");
        let id_text = crate::text::uuid_string(target);
        msg.append(id_text.as_str());
        msg.append("; operation isn't found");
        proof {
            assert(msg@ =~= cancel_not_found_text(target));
        }
        OperationOutcome::Failure(
            NativeError {
                severity: Severity::WARNING,
                kind: NativeErrorKind::Io,
                message: Some(msg),
            },
        )
    }
}

/// Parses an operation id from its textual form; an unparsable text is
/// reported as a processing error naming the text itself (the parser's
/// own diagnostic is not carried along).
pub fn uuid_from_str(operation_id: &str) -> (r: Result<
    OperationId,
    crate::events::ComputationError,
>)
    ensures
        uuid_of_text(operation_id@) matches Some(id) ==> r == Ok::<
            OperationId,
            crate::events::ComputationError,
        >(id),
        uuid_of_text(operation_id@) is None ==> (r matches Err(
            crate::events::ComputationError::Process(m),
        ) && m@ == "Fail to parse operation uuid from "@ + operation_id@),
{
    match crate::runtime::parse_uuid_text(operation_id) {
        Some(id) => Ok(id),
        None => {
            let mut msg = String::from_str("Fail to parse operation uuid from ");
            msg.append(operation_id);
            Err(crate::events::ComputationError::Process(msg))
        },
    }
}

/// The message reported when an operation's id is already registered.
pub open spec fn already_exists_text(id: OperationId) -> Seq<char> {
    "Operation "@ + uuid_chars(id) + " already exists"@
}

/// The per-operation capability handed to a running handler: it is
/// bound to one operation id and carries the event-emission channel and
/// the operation's two tokens.  All clones share the same tokens.
#[derive(Clone)]
pub struct OperationAPI {
    tx_callback_events: UnboundedSender<CallbackEvent>,
    operation_id: OperationId,
    // Used to force cancellation
    cancellation_token: CancellationToken,
    // Used to confirm cancellation / done state of operation
    done_token: CancellationToken,
}

impl OperationAPI {
    /// The id the capability is bound to.
    pub closed spec fn id_spec(self) -> OperationId {
        self.operation_id
    }

    /// A capability for one operation, with a fresh done token.
    pub fn new(
        tx_callback_events: UnboundedSender<CallbackEvent>,
        operation_id: OperationId,
        cancellation_token: CancellationToken,
    ) -> (r: Self)
        ensures
            r.id_spec() == operation_id,
    {
        OperationAPI {
            tx_callback_events,
            operation_id,
            cancellation_token,
            done_token: CancellationToken::new(),
        }
    }

    /// The operation's stable identity.
    pub fn id(&self) -> (r: OperationId)
        ensures
            r == self.id_spec(),
    {
        self.operation_id
    }

    /// A clone of the done token: set exactly once, by `finish`, when
    /// the operation is truly over.
    pub fn done_token(&self) -> CancellationToken {
        self.done_token.clone()
    }

    /// A clone of the cooperative-cancel signal; handlers must observe
    /// it during long work and stop early when it is set.
    pub fn cancellation_token(&self) -> CancellationToken {
        self.cancellation_token.clone()
    }

    /// Best-effort send into the session event stream; a send failure
    /// is not escalated.
    pub fn emit(&self, event: CallbackEvent) {
        let _ = send_callback_event(&self.tx_callback_events, event);
    }

    /// Emits `OperationStarted` for this operation.
    pub fn started(&self) {
        self.emit(CallbackEvent::OperationStarted(self.id()));
    }

    /// Emits `OperationProcessing` for this operation.
    pub fn processing(&self) {
        self.emit(CallbackEvent::OperationProcessing(self.id()));
    }

    /// Terminal call, once per operation: unless the session is already
    /// closing or this operation's own cancellation is under way, the
    /// tracker entry is removed; then the outcome's event is emitted
    /// and the done token is signalled — the sole rendezvous other
    /// components use to know the operation is truly finished.  The
    /// tracker is touched in no other way: at most this operation's own
    /// entry moves, finalized, to the finished stats.
    pub fn finish(&self, tracker: &mut Tracker, closing: bool, outcome: OperationOutcome)
        requires
            old(tracker).wf(),
        ensures
            final(tracker).wf(),
            closing ==> final(tracker).live() == old(tracker).live() && final(tracker).finished()
                == old(tracker).finished(),
            !closing ==> (final(tracker).live() == old(tracker).live() && final(tracker).finished()
                == old(tracker).finished()) || (final(tracker).live() == live_remove(
                old(tracker).live(),
                self.id_spec(),
            ) && !final(tracker).has(self.id_spec()) && (!old(tracker).has(self.id_spec())
                ==> final(tracker).live() == old(tracker).live() && final(tracker).finished()
                    == old(tracker).finished()) && (old(tracker).has(self.id_spec())
                ==> final(tracker).finished().len() == old(tracker).finished().len() + 1
                    && final(tracker).finished().drop_last() == old(tracker).finished() && (exists|
                    ts: u64,
                |
                    final(tracker).finished().last() == #[trigger] spec_done_at(
                        live_stat_of(old(tracker).live(), self.id_spec()),
                        ts,
                    )))),
    {
        if !closing && !self.cancellation_token.is_cancelled() {
            tracker.remove_operation(self.operation_id);
        }
        let event = finish_event(self.operation_id, outcome);
        self.emit(event);
        // Confirm finishing of operation.
        self.done_token.cancel();
    }

    /// Registers the operation with the tracker and reports whether it
    /// may be scheduled: a refused registration (the id already exists)
    /// is a `ComputationFailed` error and the handler must not run.
    /// `Ok` means "scheduled", not "succeeded".
    pub fn execute(&self, tracker: &mut Tracker, operation: &Operation) -> (r: Result<
        (),
        NativeError,
    >)
        requires
            old(tracker).wf(),
        ensures
            final(tracker).wf(),
            r is Ok <==> !old(tracker).has(self.id_spec()),
            r is Ok ==> final(tracker).live().len() == old(tracker).live().len() + 1
                && final(tracker).live().drop_last() == old(tracker).live()
                && final(tracker).live().last().0 == self.id_spec()
                && final(tracker).live().last().1.uuid@ == uuid_chars(self.id_spec())
                && final(tracker).live().last().1.name@ == kind_label(operation.kind_spec())
                && final(tracker).live().last().1.duration == 0
                && final(tracker).finished() == old(tracker).finished(),
            r matches Err(e) ==> (final(tracker).live() == old(tracker).live()
                && final(tracker).finished() == old(tracker).finished()
                && e.severity == Severity::ERROR
                && e.kind == NativeErrorKind::ComputationFailed
                && (e.message matches Some(m) && m@ == already_exists_text(self.id_spec()))),
    {
        let name = operation.kind().name();
        let added = tracker.add_operation(
            self.id(),
            String::from_str(name),
            self.cancellation_token(),
            self.done_token(),
        );
        if !added {
            let mut msg = String::from_str("Operation ");
            let id_text = crate::text::uuid_string(self.id());
            msg.append(id_text.as_str());
            msg.append(" already exists");
            proof {
                assert(msg@ =~= already_exists_text(self.id_spec()));
            }
            Err(
                NativeError {
                    severity: Severity::ERROR,
                    kind: NativeErrorKind::ComputationFailed,
                    message: Some(msg),
                },
            )
        } else {
            Ok(())
        }
    }

    /// Runs a `Cancel` operation: asks the tracker to set the target's
    /// cancellation token and finishes at once — with plain success
    /// when the target was found, and with the "isn't found" warning
    /// otherwise.  Cancellation is advisory: the target decides how and
    /// when to stop.  Like `finish`, this touches at most this
    /// operation's own entry.
    pub fn run_cancel(&self, tracker: &mut Tracker, closing: bool, target: OperationId)
        requires
            old(tracker).wf(),
        ensures
            final(tracker).wf(),
            closing ==> final(tracker).live() == old(tracker).live() && final(tracker).finished()
                == old(tracker).finished(),
            !closing ==> (final(tracker).live() == old(tracker).live() && final(tracker).finished()
                == old(tracker).finished()) || (final(tracker).live() == live_remove(
                old(tracker).live(),
                self.id_spec(),
            ) && !final(tracker).has(self.id_spec()) && (!old(tracker).has(self.id_spec())
                ==> final(tracker).live() == old(tracker).live() && final(tracker).finished()
                    == old(tracker).finished()) && (old(tracker).has(self.id_spec())
                ==> final(tracker).finished().len() == old(tracker).finished().len() + 1
                    && final(tracker).finished().drop_last() == old(tracker).finished() && (exists|
                    ts: u64,
                |
                    final(tracker).finished().last() == #[trigger] spec_done_at(
                        live_stat_of(old(tracker).live(), self.id_spec()),
                        ts,
                    )))),
    {
        let canceled = tracker.cancel_operation(target);
        let outcome = cancel_outcome(target, canceled);
        self.finish(tracker, closing, outcome);
    }
}

/// The dispatcher's acceptance state: it takes requests one at a time,
/// in arrival order, until the terminal sentinel stops it for good.
pub struct Dispatcher {
    stopped: bool,
}

/// Whether the dispatcher is stopped after seeing the given requests in
/// order: exactly when some request was the `End` sentinel.
pub open spec fn stopped_after(kinds: Seq<OperationKind>) -> bool
    decreases kinds.len(),
{
    if kinds.len() == 0 {
        false
    } else {
        stopped_after(kinds.drop_last()) || kinds.last() matches OperationKind::End
    }
}

/// Whether the request at position `j` of a stream is accepted for
/// execution: only when no earlier request stopped the dispatcher and
/// the request itself is not the sentinel.
pub open spec fn accepts_at(kinds: Seq<OperationKind>, j: int) -> bool
    recommends
        0 <= j < kinds.len(),
{
    !stopped_after(kinds.subrange(0, j)) && !(kinds[j] matches OperationKind::End)
}

/// A stream that holds an `End` leaves the dispatcher stopped.
pub proof fn lemma_end_stops(kinds: Seq<OperationKind>, i: int)
    requires
        0 <= i < kinds.len(),
        kinds[i] matches OperationKind::End,
    ensures
        stopped_after(kinds),
    decreases kinds.len(),
{
    if i == kinds.len() - 1 {
    } else {
        lemma_end_stops(kinds.drop_last(), i);
    }
}

/// Law: after an `End` request is received, no later request is
/// accepted by the dispatcher, whatever it is.
pub proof fn lemma_no_acceptance_after_end(kinds: Seq<OperationKind>, i: int, j: int)
    requires
        0 <= i < j < kinds.len(),
        kinds[i] matches OperationKind::End,
    ensures
        !accepts_at(kinds, j),
{
    let prefix = kinds.subrange(0, j);
    assert(prefix[i] matches OperationKind::End);
    lemma_end_stops(prefix, i);
}

impl Dispatcher {
    /// Whether the terminal sentinel has been seen.
    pub closed spec fn is_stopped(self) -> bool {
        self.stopped
    }

    /// A dispatcher that still accepts requests.
    pub fn new() -> (r: Self)
        ensures
            !r.is_stopped(),
    {
        Dispatcher { stopped: false }
    }

    /// Decides one request: `true` means "execute it"; the `End`
    /// sentinel and everything after it are refused.
    pub fn accept(&mut self, kind: &OperationKind) -> (r: bool)
        ensures
            r == (!old(self).is_stopped() && !(*kind matches OperationKind::End)),
            final(self).is_stopped() == (old(self).is_stopped() || *kind
                matches OperationKind::End),
    {
        if self.stopped {
            false
        } else {
            match kind {
                OperationKind::End => {
                    self.stopped = true;
                    false
                },
                _ => true,
            }
        }
    }
}

} // verus!
