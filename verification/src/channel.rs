//! The channels between a probe's job and its owner. What comes out of a
//! channel depends on what the other side has done, so nothing is claimed of
//! it: each caller states what holds whatever came back.

use vstd::prelude::*;

verus! {

/// The consumer end of tokio's bounded channel.
#[verifier::external_type_specification]
#[verifier::external_body]
#[verifier::reject_recursive_types(T)]
pub struct ExDataReceiver<T>(tokio::sync::mpsc::Receiver<T>);

/// The producer end of tokio's bounded channel.
#[verifier::external_type_specification]
#[verifier::external_body]
#[verifier::reject_recursive_types(T)]
pub struct ExDataSender<T>(tokio::sync::mpsc::Sender<T>);

/// The receiving end of tokio's single-shot channel.
#[verifier::external_type_specification]
#[verifier::external_body]
#[verifier::reject_recursive_types(T)]
pub struct ExSignalReceiver<T>(tokio::sync::oneshot::Receiver<T>);

/// The sending end of tokio's single-shot channel.
#[verifier::external_type_specification]
#[verifier::external_body]
#[verifier::reject_recursive_types(T)]
pub struct ExSignalSender<T>(tokio::sync::oneshot::Sender<T>);

/// tokio's handle on a job and its eventual outcome.
#[verifier::external_type_specification]
#[verifier::external_body]
#[verifier::reject_recursive_types(T)]
pub struct ExJoinHandle<T>(tokio::task::JoinHandle<T>);

/// What awaiting a single-shot channel fails with. It is declared because
/// the receiving end names it; nothing here handles one.
#[verifier::external_type_specification]
#[verifier::external_body]
pub struct ExRecvError(tokio::sync::oneshot::error::RecvError);

/// What awaiting a job fails with. It is declared because the handle names
/// it; nothing here handles one.
#[verifier::external_type_specification]
#[verifier::external_body]
pub struct ExJoinError(tokio::task::JoinError);

/// Whether what a look at the cancellation signal brought calls the probe
/// off: it does where the signal was sent and says so. A signal that was not
/// sent, was taken before, says no, or whose sender is gone does not.
pub open spec fn called_off(polled: Option<bool>) -> bool {
    polled == Some(true)
}

/// Whether what a look at the cancellation signal brought calls the probe
/// off.
pub fn is_called_off(polled: Option<bool>) -> (c: bool)
    ensures
        c == called_off(polled),
{
    match polled {
        Some(flag) => flag,
        None => false,
    }
}

/// The value that is sent to call a probe off.
pub fn stop_flag() -> (flag: bool)
    ensures
        called_off(Some(flag)),
{
    true
}

/// What one look into a data channel found.
pub enum Polled<T> {
    /// An item was waiting.
    Item(T),
    /// Nothing is waiting, but a sender is still there.
    Empty,
    /// Nothing is waiting and every sender is gone.
    Disconnected,
}

/// Calls `Receiver::try_recv` of tokio's bounded channel, which never blocks.
/// Nothing is claimed of the outcome.
#[verifier::external_body]
pub(crate) fn poll_channel<T>(rx: &mut tokio::sync::mpsc::Receiver<T>) -> (out: Polled<T>) {
    match rx.try_recv() {
        Ok(item) => Polled::Item(item),
        Err(tokio::sync::mpsc::error::TryRecvError::Empty) => Polled::Empty,
        Err(tokio::sync::mpsc::error::TryRecvError::Disconnected) => Polled::Disconnected,
    }
}

/// Calls `Receiver::len` of tokio's bounded channel: the number of items that
/// wait in it at this moment. Nothing is claimed of the number.
#[verifier::external_body]
pub(crate) fn waiting<T>(rx: &tokio::sync::mpsc::Receiver<T>) -> (n: usize) {
    rx.len()
}

/// Calls `Receiver::try_recv` of tokio's single-shot channel, which never
/// blocks: the value if one has been sent and not yet taken. Nothing is
/// claimed of the outcome.
#[verifier::external_body]
pub(crate) fn poll_signal(rx: &mut tokio::sync::oneshot::Receiver<bool>) -> (out: Option<bool>) {
    rx.try_recv().ok()
}

/// Calls `Sender::send` of tokio's single-shot channel, which uses the sender
/// up. The answer is whether the receiver was still there; nothing is claimed
/// of it.
#[verifier::external_body]
pub(crate) fn send_signal(tx: tokio::sync::oneshot::Sender<bool>, flag: bool) -> (sent: bool) {
    tx.send(flag).is_ok()
}

/// The largest capacity that a bounded channel can be made with.
pub open spec fn max_capacity() -> nat {
    (usize::MAX / 8) as nat
}

/// Calls `channel` of tokio's `mpsc`, which makes a bounded channel and
/// panics where the capacity is zero or above the number of permits that a
/// semaphore of tokio can hold, an eighth of the largest `usize`. Nothing is
/// claimed of the two ends.
#[verifier::external_body]
pub(crate) fn data_channel<T>(capacity: usize) -> (ends: (
    tokio::sync::mpsc::Sender<T>,
    tokio::sync::mpsc::Receiver<T>,
))
    requires
        0 < capacity <= max_capacity(),
{
    tokio::sync::mpsc::channel(capacity)
}

/// Calls `channel` of tokio's `oneshot`, which makes a single-shot channel.
/// Nothing is claimed of the two ends.
#[verifier::external_body]
pub(crate) fn signal_channel() -> (ends: (
    tokio::sync::oneshot::Sender<bool>,
    tokio::sync::oneshot::Receiver<bool>,
)) {
    tokio::sync::oneshot::channel()
}

/// Calls `JoinHandle::is_finished` of tokio: whether the job has run to its
/// end. Nothing is claimed of the answer.
#[verifier::external_body]
pub(crate) fn job_is_finished<T>(handle: &tokio::task::JoinHandle<T>) -> (done: bool) {
    handle.is_finished()
}

} // verus!
