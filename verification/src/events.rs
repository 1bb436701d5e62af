//! Event and error vocabulary shared by every component: severities,
//! structured native errors, the callback-event stream, lifecycle
//! transitions and progress reporting.

use crate::runtime::send_progress_ticks;
use crate::OperationId;
use vstd::prelude::*;

verus! {

/// Severity of a reported error or notification.
#[derive(Debug, Clone, PartialEq, Eq, Structural)]
pub enum Severity {
    WARNING,
    ERROR,
}

impl Severity {
    /// Human-readable name of the severity.
    pub fn as_str(&self) -> (r: &'static str)
        ensures
            self is WARNING ==> r@ == "WARNING"@,
            self is ERROR ==> r@ == "ERROR"@,
    {
        match self {
            Severity::WARNING => "WARNING",
            Severity::ERROR => "ERROR",
        }
    }
}

/// Category of a boundary-facing error.
#[derive(Debug, Clone, PartialEq, Eq, Structural)]
pub enum NativeErrorKind {
    /// The file in question does not exist
    FileNotFound,
    /// The file type is not currently supported
    UnsupportedFileType,
    ComputationFailed,
    Configuration,
    Interrupted,
    OperationSearch,
    NotYetImplemented,
    ChannelError,
    Io,
    Grabber,
}

/// The terminal, serializable error shape surfaced to callers.
#[derive(Debug, Clone, PartialEq, Eq)]
pub struct NativeError {
    pub severity: Severity,
    pub kind: NativeErrorKind,
    pub message: Option<String>,
}

impl NativeError {
    /// A channel-failure error with the given message.
    pub fn channel(msg: &str) -> (r: NativeError)
        ensures
            r.severity == Severity::ERROR,
            r.kind == NativeErrorKind::ChannelError,
            r.message matches Some(m) && m@ == msg@,
    {
        NativeError {
            severity: Severity::ERROR,
            kind: NativeErrorKind::ChannelError,
            message: Some(msg.to_owned()),
        }
    }

    /// The boundary form of an internal computation error: severity
    /// `ERROR`, kind `Io`, and the error's own text as message.
    pub fn from_computation(err: &ComputationError) -> (r: NativeError)
        ensures
            r.severity == Severity::ERROR,
            r.kind == NativeErrorKind::Io,
            r.message matches Some(m) && m@ == computation_error_text(*err),
    {
        NativeError {
            severity: Severity::ERROR,
            kind: NativeErrorKind::Io,
            message: Some(err.to_text()),
        }
    }
}

/// Progress ticks: how much of a known total has been processed.
#[derive(Debug, Clone)]
pub struct Ticks {
    pub count: u64,
    pub state: Option<String>,
    pub total: Option<u64>,
}

impl Ticks {
    /// Whether the counted work has reached its total; without a total
    /// nothing is ever done.
    pub fn done(&self) -> (r: bool)
        ensures
            r == (self.total matches Some(t) && self.count == t),
    {
        match self.total {
            Some(total) => self.count == total,
            None => false,
        }
    }

    /// Fresh ticks: nothing counted, no total, no state.
    pub fn new() -> (r: Self)
        ensures
            r.count == 0,
            r.state is None,
            r.total is None,
    {
        Ticks { count: 0, state: None, total: None }
    }
}

impl Default for Ticks {
    /// Fresh ticks, as `new` gives them.
    fn default() -> (r: Self)
        ensures
            r.count == 0,
            r.state is None,
            r.total is None,
    {
        Ticks::new()
    }
}

/// A progress notification for the consumer of an indexing channel.
#[derive(Debug)]
pub struct Notification {
    pub severity: Severity,
    pub content: String,
    pub line: Option<usize>,
}

/// One progress message: ticks, a notification, or a stop.
pub enum Progress {
    Ticks(Ticks),
    Notification(Notification),
    Stopped,
}

impl Progress {
    /// A ticks message from its three parts.
    pub fn ticks(count: u64, total: Option<u64>, state: Option<String>) -> (r: Self)
        ensures
            r matches Progress::Ticks(t) && t.count == count && t.total == total && t.state
                == state,
    {
        Self::Ticks(Ticks { count, total, state })
    }
}

/// Progress of an indexing-style operation, as sent over a channel.
#[derive(Debug)]
pub enum IndexingProgress<T> {
    /// GotItem called once per operation. It reflects results of operation, but
    /// not a progress
    GotItem { item: T },
    /// Progress indicates how many ticks of the total amount have been processed
    /// the first number indicates the actual amount, the second the presumed total
    Progress { ticks: (u64, u64) },
    Stopped,
    Finished,
}

/// What an indexing channel carries: progress or a notification.
pub type IndexingResults<T> = Result<IndexingProgress<T>, Notification>;

/// An internal propagation error: process, protocol, argument or
/// communication failures, converted into a `NativeError` at the
/// boundary.
#[derive(Debug, Clone, PartialEq, Eq)]
pub enum ComputationError {
    DestinationPath,
    Communication(String),
    OperationNotSupported(String),
    IoOperation(String),
    InvalidData,
    InvalidArgs(String),
    Process(String),
    Protocol(String),
    MultipleInitCall,
    SessionUnavailable,
    NativeError(NativeError),
    Sde(String),
}

/// The text of an internal computation error.
pub open spec fn computation_error_text(e: ComputationError) -> Seq<char> {
    match e {
        ComputationError::DestinationPath => {
            "Destination path should be defined to stream from MassageProducer"@
        },
        ComputationError::Communication(s) => "Native communication error ("@ + s@ + ")"@,
        ComputationError::OperationNotSupported(s) => "Operation not supported ("@ + s@ + ")"@,
        ComputationError::IoOperation(s) => "IO error ("@ + s@ + ")"@,
        ComputationError::InvalidData => "Invalid data error"@,
        ComputationError::InvalidArgs(_) => "Invalid arguments"@,
        ComputationError::Process(s) => "Error during processing: ("@ + s@ + ")"@,
        ComputationError::Protocol(s) => "Wrong usage of API: ("@ + s@ + ")"@,
        ComputationError::MultipleInitCall => "start method canbe called just once"@,
        ComputationError::SessionUnavailable => "Session is destroyed or not inited yet"@,
        ComputationError::NativeError(err) => "Native error: "@ + match err.message {
            Some(m) => m@,
            None => Seq::empty(),
        },
        ComputationError::Sde(s) => "Sending data to source error: "@ + s@,
    }
}

impl ComputationError {
    /// The error's text, as shown to a caller.  The wrapped-native-error
    /// and data-send variants render in a plain form: the carried
    /// message as it is, without debug-style quoting or struct syntax.
    pub fn to_text(&self) -> (r: String)
        ensures
            r@ == computation_error_text(*self),
    {
        match self {
            ComputationError::DestinationPath => String::from_str(
                "Destination path should be defined to stream from MassageProducer",
            ),
            ComputationError::Communication(s) => {
                let r = String::from_str("Native communication error (").concat(s.as_str()).concat(
                    ")",
                );
                proof {
                    assert(r@ =~= computation_error_text(*self));
                }
                r
            },
            ComputationError::OperationNotSupported(s) => {
                let r = String::from_str("Operation not supported (").concat(s.as_str()).concat(
                    ")",
                );
                proof {
                    assert(r@ =~= computation_error_text(*self));
                }
                r
            },
            ComputationError::IoOperation(s) => {
                let r = String::from_str("IO error (").concat(s.as_str()).concat(")");
                proof {
                    assert(r@ =~= computation_error_text(*self));
                }
                r
            },
            ComputationError::InvalidData => String::from_str("Invalid data error"),
            ComputationError::InvalidArgs(_) => String::from_str("Invalid arguments"),
            ComputationError::Process(s) => {
                let r = String::from_str("Error during processing: (").concat(s.as_str()).concat(
                    ")",
                );
                proof {
                    assert(r@ =~= computation_error_text(*self));
                }
                r
            },
            ComputationError::Protocol(s) => {
                let r = String::from_str("Wrong usage of API: (").concat(s.as_str()).concat(")");
                proof {
                    assert(r@ =~= computation_error_text(*self));
                }
                r
            },
            ComputationError::MultipleInitCall => String::from_str(
                "start method canbe called just once",
            ),
            ComputationError::SessionUnavailable => String::from_str(
                "Session is destroyed or not inited yet",
            ),
            ComputationError::NativeError(err) => {
                let mut r = String::from_str("Native error: ");
                match &err.message {
                    Some(m) => {
                        r.append(m.as_str());
                    },
                    None => {},
                }
                proof {
                    assert(r@ =~= computation_error_text(*self));
                }
                r
            },
            ComputationError::Sde(s) => {
                let r = String::from_str("Sending data to source error: ").concat(s.as_str());
                proof {
                    assert(r@ =~= computation_error_text(*self));
                }
                r
            },
        }
    }
}

/// Terminal success report of one operation, with an optional
/// JSON-serialized result payload.
#[derive(Debug, Clone, PartialEq, Eq)]
pub struct OperationDone {
    pub uuid: OperationId,
    pub result: Option<String>,
}

/// The externally observed, per-session ordered event stream.
#[derive(Debug, Clone, PartialEq, Eq)]
pub enum CallbackEvent {
    /// An error in the scope of the whole session.
    SessionError(NativeError),
    /// An error in the scope of one asynchronous operation.
    OperationError { uuid: OperationId, error: NativeError },
    /// The operation is created and its task is spawned.
    OperationStarted(OperationId),
    /// The operation is past initialization and processing; emitted
    /// zero or more times, at the handler's discretion.
    OperationProcessing(OperationId),
    /// The operation finished with an optional result payload.
    OperationDone(OperationDone),
    /// The session is destroyed; once, last in the stream.
    SessionDestroyed,
}

/// A lifecycle transition of one operation.
#[derive(Debug, Clone)]
pub enum LifecycleTransition {
    Started { uuid: OperationId, alias: String },
    Ticks { uuid: OperationId, ticks: Ticks },
    Stopped(OperationId),
}

impl LifecycleTransition {
    /// The id of the operation the transition belongs to.
    pub fn uuid(&self) -> (r: OperationId)
        ensures
            r == match *self {
                LifecycleTransition::Started { uuid, .. } => uuid,
                LifecycleTransition::Ticks { uuid, .. } => uuid,
                LifecycleTransition::Stopped(uuid) => uuid,
            },
    {
        match self {
            Self::Started { uuid, alias: _ } => *uuid,
            Self::Ticks { uuid, ticks: _ } => *uuid,
            Self::Stopped(uuid) => *uuid,
        }
    }

    /// A start transition for the given operation and alias.
    pub fn started(uuid: &OperationId, alias: &str) -> (r: Self)
        ensures
            r matches LifecycleTransition::Started { uuid: u, alias: a } && u == uuid && a@
                == alias@,
    {
        LifecycleTransition::Started { uuid: *uuid, alias: alias.to_owned() }
    }

    /// A stop transition for the given operation.
    pub fn stopped(uuid: &OperationId) -> (r: Self)
        ensures
            r == LifecycleTransition::Stopped(*uuid),
    {
        LifecycleTransition::Stopped(*uuid)
    }

    /// A ticks transition for the given operation.
    pub fn ticks(uuid: &OperationId, ticks: Ticks) -> (r: Self)
        ensures
            r matches LifecycleTransition::Ticks { uuid: u, ticks: t } && u == uuid && t == ticks,
    {
        LifecycleTransition::Ticks { uuid: *uuid, ticks }
    }
}

/// The percentage of `total` that `processed` covers, rounded to the
/// nearest integer and capped at what a counter can hold.
pub open spec fn rounded_percent(processed: nat, total: nat) -> nat
    recommends
        total > 0,
{
    let exact = (processed * 200 + total) / (2 * total);
    if exact > u64::MAX {
        u64::MAX as nat
    } else {
        exact
    }
}

/// Accumulates consumed-byte counts against a known total and emits a
/// progress message only when the rounded percentage changes, to bound
/// event volume.  A total of zero means no progress events at all.
#[verifier::reject_recursive_types(T)]
pub struct ProgressReporter<T> {
    update_channel: crossbeam_channel::Sender<IndexingResults<T>>,
    processed_bytes: u64,
    progress_percentage: u64,
    total: u64,
}

impl<T> ProgressReporter<T> {
    /// Bytes counted so far.
    pub closed spec fn processed(self) -> u64 {
        self.processed_bytes
    }

    /// The last emitted (or initial) rounded percentage.
    pub closed spec fn percentage(self) -> u64 {
        self.progress_percentage
    }

    /// The known total of bytes.
    pub closed spec fn total_bytes(self) -> u64 {
        self.total
    }

    /// A reporter for `total` bytes that sends its messages into
    /// `update_channel`.
    pub fn new(total: u64, update_channel: crossbeam_channel::Sender<IndexingResults<T>>) -> (r:
        ProgressReporter<T>)
        ensures
            r.processed() == 0,
            r.percentage() == 0,
            r.total_bytes() == total,
    {
        ProgressReporter { update_channel, processed_bytes: 0, progress_percentage: 0, total }
    }

    /// Counts `consumed` more bytes and emits a progress message
    /// carrying `(processed, total)` exactly when that moves the
    /// rounded percentage; a total of zero emits nothing at all.  The
    /// result says whether a message was handed to the channel; a
    /// failed send (receiver gone) is not escalated.
    pub fn make_progress(&mut self, consumed: usize) -> (emitted: bool)
        requires
            old(self).processed() + consumed <= u64::MAX,
        ensures
            final(self).total_bytes() == old(self).total_bytes(),
            final(self).processed() == old(self).processed() + consumed,
            emitted == (old(self).total_bytes() > 0 && rounded_percent(
                (old(self).processed() + consumed) as nat,
                old(self).total_bytes() as nat,
            ) != old(self).percentage()),
            old(self).total_bytes() == 0 ==> final(self).percentage() == old(self).percentage(),
            old(self).total_bytes() > 0 ==> final(self).percentage() == rounded_percent(
                (old(self).processed() + consumed) as nat,
                old(self).total_bytes() as nat,
            ),
    {
        self.processed_bytes = self.processed_bytes + (consumed as u64);
        if self.total == 0 {
            // An unknown or empty total emits nothing: guards the
            // division below.
            return false;
        }
        let wide: u128 = ((self.processed_bytes as u128) * 200 + (self.total as u128)) / (2 * (
        self.total as u128));
        let new_percentage: u64 = if wide > (u64::MAX as u128) {
            u64::MAX
        } else {
            wide as u64
        };
        if new_percentage != self.progress_percentage {
            self.progress_percentage = new_percentage;
            let _ = send_progress_ticks(&self.update_channel, self.processed_bytes, self.total);
            true
        } else {
            false
        }
    }
}

} // verus!
