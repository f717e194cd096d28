//! The progress channel: the boundary to std's mpsc queue.
//!
//! A worker thread owns the sending end, the interactive thread the
//! receiving end.  std documents the queue as ordered — messages arrive in
//! the order they were sent — with unbounded capacity, and `send` failing
//! exactly when the receiving end has been dropped.  What a call returns
//! still depends on the other thread, so these wrappers promise nothing
//! about individual outcomes; the verified worker and consumer are correct
//! for every value that comes back.

use crate::types::{OperationState, WorkerMessage};
use vstd::prelude::*;

verus! {

#[verifier::external_type_specification]
#[verifier::external_body]
#[verifier::reject_recursive_types(T)]
pub struct ExSender<T>(std::sync::mpsc::Sender<T>);

#[verifier::external_type_specification]
#[verifier::external_body]
#[verifier::reject_recursive_types(T)]
pub struct ExReceiver<T>(std::sync::mpsc::Receiver<T>);

/// Relies on std::sync::mpsc::channel: a fresh asynchronous channel with
/// unbounded buffering; what is sent on the first end arrives at the second,
/// in send order.
#[verifier::external_body]
pub fn progress_channel() -> (
    std::sync::mpsc::Sender<WorkerMessage>,
    std::sync::mpsc::Receiver<WorkerMessage>,
) {
    std::sync::mpsc::channel()
}

/// Relies on std::sync::mpsc::Sender::send: queues the message for the
/// receiver, returning Ok exactly when the receiving end still exists.
/// Returns whether the message was accepted; on `false` the consumer is
/// gone and the worker must stop.
#[verifier::external_body]
pub fn send_message(sender: &std::sync::mpsc::Sender<WorkerMessage>, msg: WorkerMessage) -> bool {
    sender.send(msg).is_ok()
}

/// Relies on std::sync::mpsc::Sender::send, as `send_message`: sends one log
/// line.
#[verifier::external_body]
pub fn send_log(sender: &std::sync::mpsc::Sender<WorkerMessage>, message: String) -> bool {
    sender.send(WorkerMessage::Log(message)).is_ok()
}

/// Relies on std::sync::mpsc::Sender::send, as `send_message`: sends one
/// state transition.
#[verifier::external_body]
pub fn send_state(sender: &std::sync::mpsc::Sender<WorkerMessage>, state: OperationState) -> bool {
    sender.send(WorkerMessage::StateChange(state)).is_ok()
}

/// Relies on std::sync::mpsc::Sender::send, as `send_message`: sends one
/// error description.
#[verifier::external_body]
pub fn send_error(sender: &std::sync::mpsc::Sender<WorkerMessage>, error: String) -> bool {
    sender.send(WorkerMessage::Error(error)).is_ok()
}

/// Relies on std::sync::mpsc::Receiver::try_recv: a non-blocking poll that
/// hands back the oldest queued message; messages arrive in send order.
/// `None` when nothing is queued right now or the sender is gone.
#[verifier::external_body]
pub fn try_recv_message(
    receiver: &std::sync::mpsc::Receiver<WorkerMessage>,
) -> Option<WorkerMessage> {
    receiver.try_recv().ok()
}

} // verus!
