//! The tokio primitives that tie a background task to its owner: the
//! shutdown signal (a watch channel of one `bool`), the log bus (a bounded
//! mpsc channel), the send queue (a broadcast channel) and the lock of a
//! listener's registry.
//!
//! What these hold at any moment depends on what other tasks have done, so
//! the functions here promise little: most only make the call.

use crate::log::{DataPacket, Log};
use std::sync::Arc;
use tokio::sync::{broadcast, mpsc, watch, RwLock, RwLockReadGuard, RwLockWriteGuard};
use vstd::prelude::*;

verus! {

/// `tokio::sync::watch::Sender`: the end of a shutdown signal that sets it.
/// Nothing of what is inside it is known here.
#[verifier::external_type_specification]
#[verifier::external_body]
#[verifier::reject_recursive_types(T)]
pub struct ExWatchSender<T>(watch::Sender<T>);

/// `tokio::sync::watch::Receiver`: a listener on a shutdown signal.
/// Nothing of what is inside it is known here.
#[verifier::external_type_specification]
#[verifier::external_body]
#[verifier::reject_recursive_types(T)]
pub struct ExWatchReceiver<T>(watch::Receiver<T>);

/// `tokio::sync::mpsc::Sender`: a producer's end of a log bus.
/// Nothing of what is inside it is known here.
#[verifier::external_type_specification]
#[verifier::external_body]
#[verifier::reject_recursive_types(T)]
pub struct ExMpscSender<T>(mpsc::Sender<T>);

/// `tokio::sync::mpsc::Receiver`: the consumer's end of a log bus.
/// Nothing of what is inside it is known here.
#[verifier::external_type_specification]
#[verifier::external_body]
#[verifier::reject_recursive_types(T)]
pub struct ExMpscReceiver<T>(mpsc::Receiver<T>);

/// `tokio::sync::broadcast::Sender`: the owner's end of a send queue.
/// Nothing of what is inside it is known here.
#[verifier::external_type_specification]
#[verifier::external_body]
#[verifier::reject_recursive_types(T)]
pub struct ExBroadcastSender<T>(broadcast::Sender<T>);

/// `tokio::sync::broadcast::Receiver`: a subscriber of a send queue.
/// Nothing of what is inside it is known here.
#[verifier::external_type_specification]
#[verifier::external_body]
#[verifier::reject_recursive_types(T)]
pub struct ExBroadcastReceiver<T>(broadcast::Receiver<T>);

/// `tokio::sync::RwLock`: the lock of a registry.
/// Nothing of what is inside it is known here.
#[verifier::external_type_specification]
#[verifier::external_body]
#[verifier::reject_recursive_types(T)]
pub struct ExRwLock<T: ?Sized>(RwLock<T>);

/// `tokio::sync::RwLockReadGuard`: shared access to what a lock holds.
/// Nothing of what is inside it is known here.
#[verifier::external_type_specification]
#[verifier::external_body]
#[verifier::reject_recursive_types(T)]
pub struct ExRwLockReadGuard<'a, T: ?Sized>(RwLockReadGuard<'a, T>);

/// `tokio::sync::RwLockWriteGuard`: exclusive access to what a lock holds.
/// Nothing of what is inside it is known here.
#[verifier::external_type_specification]
#[verifier::external_body]
#[verifier::reject_recursive_types(T)]
pub struct ExRwLockWriteGuard<'a, T: ?Sized>(RwLockWriteGuard<'a, T>);

/// The most entries that a log bus or a send queue holds.
pub const QUEUE_CAPACITY: usize = 1024;

/// `tokio::sync::watch::channel`, with the signal lowered: a new shutdown
/// signal and its first listener.
#[verifier::external_body]
pub(crate) fn shutdown_signal() -> (ends: (watch::Sender<bool>, watch::Receiver<bool>)) {
    watch::channel(false)
}

/// `tokio::sync::mpsc::channel`: a new log bus for `capacity` entries.
/// tokio panics on a capacity of zero or above its semaphore's limit, which
/// is `usize::MAX >> 3`.
#[verifier::external_body]
pub(crate) fn log_bus(capacity: usize) -> (ends: (mpsc::Sender<Log>, mpsc::Receiver<Log>))
    requires
        0 < capacity <= usize::MAX / 8,
{
    mpsc::channel(capacity)
}

/// `tokio::sync::broadcast::channel`: a new send queue for `capacity`
/// packets, and its first subscriber. tokio panics on a capacity of zero or
/// above `usize::MAX / 2`.
#[verifier::external_body]
pub(crate) fn send_queue(capacity: usize) -> (ends: (
    broadcast::Sender<DataPacket>,
    broadcast::Receiver<DataPacket>,
))
    requires
        0 < capacity <= usize::MAX / 2,
{
    broadcast::channel(capacity)
}

/// `tokio::sync::watch::Sender::send`: sets the signal to `raised` and wakes
/// its listeners. The result says whether a listener was there to be told.
#[verifier::external_body]
pub(crate) fn signal(shutdown: &watch::Sender<bool>, raised: bool) -> (heard: bool) {
    shutdown.send(raised).is_ok()
}

/// `Clone` of `tokio::sync::watch::Sender`: one more handle on the same
/// signal.
#[verifier::external_body]
pub(crate) fn share_signal(shutdown: &watch::Sender<bool>) -> (shared: watch::Sender<bool>) {
    shutdown.clone()
}

/// `Clone` of `tokio::sync::watch::Receiver`: one more listener on the same
/// signal.
#[verifier::external_body]
pub(crate) fn share_listener(listener: &watch::Receiver<bool>) -> (shared: watch::Receiver<bool>) {
    listener.clone()
}

/// `Clone` of `tokio::sync::mpsc::Sender`: one more producer on the same log
/// bus.
#[verifier::external_body]
pub(crate) fn share_sink(sink: &mpsc::Sender<Log>) -> (shared: mpsc::Sender<Log>) {
    sink.clone()
}

/// `tokio::sync::mpsc::Receiver::try_recv`: the next entry that waits on the
/// bus, if one does. tokio tells an empty bus from one whose producers are
/// gone; both come back as `None`.
#[verifier::external_body]
pub(crate) fn poll_bus(bus: &mut mpsc::Receiver<Log>) -> (entry: Option<Log>) {
    bus.try_recv().ok()
}

/// `tokio::sync::broadcast::Sender::send`: queues the packet for every
/// subscriber and gives their number, which is then at least one. Without a
/// subscriber nothing is queued and the packet comes back.
#[verifier::external_body]
pub(crate) fn publish(queue: &broadcast::Sender<DataPacket>, packet: DataPacket) -> (queued:
    Result<usize, DataPacket>)
    ensures
        match queued {
            Ok(subscribers) => subscribers > 0,
            Err(returned) => returned == packet,
        },
{
    match queue.send(packet) {
        Ok(subscribers) => Ok(subscribers),
        Err(broadcast::error::SendError(returned)) => Err(returned),
    }
}

/// `tokio::sync::broadcast::Sender::subscribe`: a subscriber that gets what
/// is published from now on.
#[verifier::external_body]
pub(crate) fn subscribe(queue: &broadcast::Sender<DataPacket>) -> (subscriber: broadcast::Receiver<
    DataPacket,
>) {
    queue.subscribe()
}

/// `Clone` of `std::sync::Arc`: one more handle on the same value.
#[verifier::external_body]
pub(crate) fn share<T>(handle: &Arc<T>) -> (shared: Arc<T>)
    ensures
        shared == handle,
{
    handle.clone()
}

} // verus!
