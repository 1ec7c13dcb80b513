//! The one-shot channel that carries an answer to the caller who waits for
//! it: `tokio::sync::oneshot`.
//!
//! Nothing in this file is proved. A channel is shared between its two ends,
//! so nothing is stated here of what a receiver will yield; the doc comments
//! say what the library relies on.

use vstd::prelude::*;

verus! {

/// `tokio::sync::oneshot::Sender`, the end of a channel that takes the one
/// value.
#[verifier::external_type_specification]
#[verifier::external_body]
#[verifier::reject_recursive_types(T)]
pub struct ExSender<T>(tokio::sync::oneshot::Sender<T>);

/// `tokio::sync::oneshot::Receiver`, the end of a channel that is awaited.
#[verifier::external_type_specification]
#[verifier::external_body]
#[verifier::reject_recursive_types(T)]
pub struct ExReceiver<T>(tokio::sync::oneshot::Receiver<T>);

/// `tokio::sync::oneshot::error::RecvError`, what awaiting a receiver fails
/// with once its sender is gone without having sent.
#[verifier::external_type_specification]
#[verifier::external_body]
pub struct ExRecvError(tokio::sync::oneshot::error::RecvError);

/// Calls `tokio::sync::oneshot::channel`, which makes a fresh channel and
/// returns its two ends.
#[verifier::external_body]
pub(crate) fn open() -> (ends: (
    tokio::sync::oneshot::Sender<serde_json::Value>,
    tokio::sync::oneshot::Receiver<serde_json::Value>,
)) {
    tokio::sync::oneshot::channel()
}

/// Calls `tokio::sync::oneshot::Sender::send`, which hands the value to the
/// receiver of the same channel, or hands it back where that receiver is
/// gone.
#[verifier::external_body]
pub(crate) fn send(
    sender: tokio::sync::oneshot::Sender<serde_json::Value>,
    value: serde_json::Value,
) -> (sent: Result<(), serde_json::Value>)
    ensures
        sent matches Err(returned) ==> returned == value,
{
    sender.send(value)
}

} // verus!
