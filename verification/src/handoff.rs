use vstd::prelude::*;
use tokio::sync::mpsc::Sender;
use tokio::sync::mpsc::error::TrySendError;
use crate::update::Update;

verus! {

/// `tokio::sync::mpsc::Sender`, a worker's end of the hand-off channel.
#[verifier::external_type_specification]
#[verifier::external_body]
#[verifier::reject_recursive_types(T)]
pub struct ExSender<T>(tokio::sync::mpsc::Sender<T>);

/// How a send without blocking ended.
#[derive(Clone, Copy, Debug, PartialEq, Eq, Structural)]
pub enum SendOutcome {
    /// The channel took the update.
    Sent,
    /// The channel is at capacity; the update comes back.
    Full(Update),
    /// The receiving side is gone; the update comes back.
    Closed(Update),
}

/// What happened to one pending update of a flush.
#[derive(Clone, Copy, Debug, PartialEq, Eq, Structural)]
pub enum Routed {
    /// Nothing was pending.
    Idle,
    /// The shared cache held it: counted as filtered and dropped.
    Filtered(Update),
    /// It was marked in the cache and the channel took it.
    Forwarded(Update),
    /// It was marked in the cache and the channel is full: the caller sends
    /// it with a blocking send before it goes on.
    Blocked(Update),
    /// It was marked in the cache and the channel is closed: the worker stops.
    Closed(Update),
}

impl Routed {
    /// The update that the step was about.
    pub open spec fn subject(self) -> Option<Update> {
        match self {
            Routed::Idle => None,
            Routed::Filtered(u) => Some(u),
            Routed::Forwarded(u) => Some(u),
            Routed::Blocked(u) => Some(u),
            Routed::Closed(u) => Some(u),
        }
    }
}

/// The number of updates that the hand-off channel buffers.
pub fn channel_capacity(batch_size: usize, slots_per_worker: usize) -> (capacity: usize)
    requires
        batch_size * slots_per_worker <= usize::MAX,
    ensures
        capacity == batch_size * slots_per_worker,
{
    batch_size * slots_per_worker
}

/// `Sender::try_send`: a send that does not wait. Whether the channel takes
/// the update depends on the other tasks; where it does not, the error hands
/// back the update that was passed in.
#[verifier::external_body]
pub(crate) fn try_send(channel: &Sender<Update>, update: Update) -> (outcome: SendOutcome)
    ensures
        outcome == SendOutcome::Sent || outcome == SendOutcome::Full(update) || outcome
            == SendOutcome::Closed(update),
{
    match channel.try_send(update) {
        Ok(()) => SendOutcome::Sent,
        Err(TrySendError::Full(u)) => SendOutcome::Full(u),
        Err(TrySendError::Closed(u)) => SendOutcome::Closed(u),
    }
}

/// The overflow policy: what becomes of `update` once the send without
/// blocking has ended in `outcome`. A full channel never drops the update
/// and is no error: the update is handed back to be sent with a blocking
/// send. A closed channel ends the worker.
pub fn after_try_send(update: Update, outcome: SendOutcome) -> (routed: Routed)
    ensures
        routed == match outcome {
            SendOutcome::Sent => Routed::Forwarded(update),
            SendOutcome::Full(u) => Routed::Blocked(u),
            SendOutcome::Closed(u) => Routed::Closed(u),
        },
{
    match outcome {
        SendOutcome::Sent => Routed::Forwarded(update),
        SendOutcome::Full(u) => Routed::Blocked(u),
        SendOutcome::Closed(u) => Routed::Closed(u),
    }
}

} // verus!
