//! Trusted boundary to the asynchronous runtime and to the other outside
//! crates the library leans on: cancellation tokens, channel senders, the
//! system clock, id parsing and result serialization.  Every item here is
//! believed, not proved; each doc comment names the outside function it
//! relies on.

use crate::events::{CallbackEvent, IndexingProgress, Notification};
use vstd::prelude::*;

verus! {

/// Cooperative-stop signal shared by all clones of one token
/// (tokio_util's `CancellationToken`).  The token's state is shared
/// mutable memory, so nothing is stated about it here: a reader learns
/// what it holds only by asking, and two calls may answer differently.
#[verifier::external_type_specification]
#[verifier::external_body]
pub struct ExCancellationToken(tokio_util::sync::CancellationToken);

/// Relies on CancellationToken::new: a fresh, independent token.
pub assume_specification[ tokio_util::sync::CancellationToken::new ]() -> (t:
    tokio_util::sync::CancellationToken);

/// Relies on CancellationToken::cancel: sets the shared signal and wakes
/// every waiter; idempotent.
pub assume_specification[ tokio_util::sync::CancellationToken::cancel ](
    t: &tokio_util::sync::CancellationToken,
);

/// Relies on CancellationToken::is_cancelled: observes the shared signal.
pub assume_specification[ tokio_util::sync::CancellationToken::is_cancelled ](
    t: &tokio_util::sync::CancellationToken,
) -> (r: bool);

/// Relies on CancellationToken's Clone impl: the clone observes and sets
/// the same shared signal as the original.
pub assume_specification[ <tokio_util::sync::CancellationToken as Clone>::clone ](
    t: &tokio_util::sync::CancellationToken,
) -> (r: tokio_util::sync::CancellationToken);

/// Producer half of tokio's unbounded channel.
#[verifier::external_type_specification]
#[verifier::external_body]
#[verifier::reject_recursive_types(T)]
pub struct ExUnboundedSender<T>(tokio::sync::mpsc::UnboundedSender<T>);

/// Relies on UnboundedSender's Clone impl: the clone feeds the same
/// receiver.
pub assume_specification<T>[ <tokio::sync::mpsc::UnboundedSender<T> as Clone>::clone ](
    t: &tokio::sync::mpsc::UnboundedSender<T>,
) -> (r: tokio::sync::mpsc::UnboundedSender<T>);

/// Relies on UnboundedSender::send: enqueues the event unless the
/// receiving side is gone.  Whether the receiver is still there depends
/// on the rest of the process, so only the shape of the outcome is
/// stated: `true` when the event was accepted.
#[verifier::external_body]
pub fn send_callback_event(
    tx: &tokio::sync::mpsc::UnboundedSender<CallbackEvent>,
    event: CallbackEvent,
) -> bool {
    tx.send(event).is_ok()
}

/// Producer half of a crossbeam channel.
#[verifier::external_type_specification]
#[verifier::external_body]
#[verifier::reject_recursive_types(T)]
pub struct ExCrossbeamSender<T>(crossbeam_channel::Sender<T>);

/// Relies on crossbeam_channel::Sender::send: delivers a progress
/// message built from the two tick counters, unless the receiving side
/// is gone.  Returns `true` when the message was accepted.
#[verifier::external_body]
pub fn send_progress_ticks<T>(
    tx: &crossbeam_channel::Sender<Result<IndexingProgress<T>, Notification>>,
    count: u64,
    total: u64,
) -> bool {
    tx.send(Ok(IndexingProgress::Progress { ticks: (count, total) })).is_ok()
}

/// Relies on std's SystemTime::now and duration_since: microseconds
/// since the epoch, or 0 when the clock stands before it.  The clock is
/// outside the program, so nothing is stated about the value.
#[verifier::external_body]
pub fn now_micros() -> u64 {
    match std::time::SystemTime::now().duration_since(std::time::UNIX_EPOCH) {
        Ok(elapsed) => elapsed.as_micros() as u64,
        Err(_) => 0,
    }
}

/// The id encoded by a piece of text, if it is a well-formed id in any
/// of the accepted textual forms; `None` otherwise.
pub uninterp spec fn uuid_of_text(s: Seq<char>) -> Option<u128>;

/// Relies on uuid's Uuid::parse_str: the outcome depends on the text
/// alone.
#[verifier::external_body]
pub fn parse_uuid_text(s: &str) -> (r: Option<u128>)
    ensures
        r == uuid_of_text(s@),
{
    match uuid::Uuid::parse_str(s) {
        Ok(parsed) => Some(parsed.as_u128()),
        Err(_) => None,
    }
}

/// The JSON text that serialization produces for the pair of an
/// external call's two results: a two-element array of the plain
/// decimal and either `null` or a quoted string, escaped as
/// serde_json escapes (quote, backslash, and control characters; the
/// same convention `json_escape_char` states).
pub open spec fn json_of_call(sum: u64, found: Option<Seq<char>>) -> Seq<char> {
    seq!['['] + crate::text::dec_chars(sum as nat) + seq![','] + (match found {
        Some(s) => seq!['"'] + crate::text::json_escaped(s) + seq!['"'],
        None => seq!['n', 'u', 'l', 'l'],
    }) + seq![']']
}

/// Relies on serde_json::to_string: serializes the pair of results of an
/// external library call; the text depends on the two values alone.  It
/// fails only when a `Serialize` impl reports an error or a map key is
/// not a string; a pair of an integer and an optional string can do
/// neither, so the call succeeds.
#[verifier::external_body]
pub fn call_result_to_json(sum: u64, found: &Option<String>) -> (r: Result<String, String>)
    ensures
        r is Ok,
        r matches Ok(s) ==> s@ == json_of_call(sum, found.deep_view()),
{
    match serde_json::to_string(&(sum, found)) {
        Ok(text) => Ok(text),
        Err(err) => Err(err.to_string()),
    }
}

} // verus!
