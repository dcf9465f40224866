//! The two primitive substrates the channel is built from: a bounded
//! multi-producer queue (`async_std::channel`) and a single-use reply slot
//! (`futures::channel::oneshot`). Everything here only declares those outside
//! types and states contracts for the operations the core calls; the
//! request-response protocol itself is built and verified on top of them.

use vstd::prelude::*;

verus! {

/// The sending half of the shared queue (`async_std::channel::Sender`).
#[verifier::external_type_specification]
#[verifier::external_body]
#[verifier::reject_recursive_types(T)]
pub struct ExQueueSender<T>(async_std::channel::Sender<T>);

/// The receiving half of the shared queue (`async_std::channel::Receiver`).
#[verifier::external_type_specification]
#[verifier::external_body]
#[verifier::reject_recursive_types(T)]
pub struct ExQueueReceiver<T>(async_std::channel::Receiver<T>);

/// The error of `async_std::channel::Sender::try_send`; both variants carry
/// the message that could not be enqueued.
#[verifier::external_type_specification]
#[verifier::reject_recursive_types(T)]
pub struct ExTrySendError<T>(async_std::channel::TrySendError<T>);

/// The error of `async_std::channel::Receiver::try_recv`.
#[verifier::external_type_specification]
pub struct ExTryRecvError(async_std::channel::TryRecvError);

/// The sending half of the single-use reply slot
/// (`futures::channel::oneshot::Sender`).
#[verifier::external_type_specification]
#[verifier::external_body]
#[verifier::reject_recursive_types(T)]
pub struct ExReplySender<T>(futures::channel::oneshot::Sender<T>);

/// The receiving half of the single-use reply slot
/// (`futures::channel::oneshot::Receiver`).
#[verifier::external_type_specification]
#[verifier::external_body]
#[verifier::reject_recursive_types(T)]
pub struct ExReplyReceiver<T>(futures::channel::oneshot::Receiver<T>);

/// The error of `futures::channel::oneshot::Receiver::try_recv`: the sending
/// half was dropped without ever sending.
#[verifier::external_type_specification]
pub struct ExCanceled(futures::channel::oneshot::Canceled);

/// Relies on `async_std::channel::bounded`: creates a queue that holds at
/// most `cap` messages. It panics when `cap` is zero, so that input is
/// excluded here.
#[verifier::external_body]
pub(crate) fn queue_bounded<T>(cap: usize) -> (r: (
    async_std::channel::Sender<T>,
    async_std::channel::Receiver<T>,
))
    requires
        1 <= cap,
{
    async_std::channel::bounded(cap)
}

/// Relies on `async_std::channel::unbounded`: creates a queue with no
/// capacity limit.
#[verifier::external_body]
pub(crate) fn queue_unbounded<T>() -> (r: (
    async_std::channel::Sender<T>,
    async_std::channel::Receiver<T>,
))
{
    async_std::channel::unbounded()
}

/// Relies on `async_std::channel::Sender::try_send`: on success the message
/// is enqueued; on failure the very message passed in comes back, inside
/// `Full` when the queue is at capacity and inside `Closed` when the
/// receiving half is gone.
pub assume_specification<T>[ async_std::channel::Sender::<T>::try_send ](
    this: &async_std::channel::Sender<T>,
    msg: T,
) -> (r: Result<(), async_std::channel::TrySendError<T>>)
    ensures
        r matches Err(e) ==> (e == async_std::channel::TrySendError::Full(msg) || e
            == async_std::channel::TrySendError::Closed(msg)),
;

/// Relies on `async_std::channel::Receiver::try_recv`: yields the next queued
/// message in FIFO order, `Empty` when none is queued yet, and `Closed` once
/// every sender is gone and the queue has drained. Which message comes out is
/// shared, hidden state, so nothing is stated of the value.
pub assume_specification<T>[ async_std::channel::Receiver::<T>::try_recv ](
    this: &async_std::channel::Receiver<T>,
) -> (r: Result<T, async_std::channel::TryRecvError>);

/// Relies on `async_std::channel::Sender::clone`: a clone shares the same
/// queue, so requesters may be duplicated.
pub assume_specification<T>[ <async_std::channel::Sender<T> as Clone>::clone ](
    this: &async_std::channel::Sender<T>,
) -> (r: async_std::channel::Sender<T>);

/// Relies on `futures::channel::oneshot::channel`: creates a linked pair of a
/// single-use sender and receiver. The linkage is hidden state, so nothing is
/// stated of it.
pub assume_specification<T>[ futures::channel::oneshot::channel::<T> ]() -> (r: (
    futures::channel::oneshot::Sender<T>,
    futures::channel::oneshot::Receiver<T>,
));

/// Relies on `futures::channel::oneshot::Sender::send`: either the value is
/// enqueued for the receiving half (`Ok`), or that half was already dropped
/// and the very value passed in is handed back (`Err`).
pub assume_specification<T>[ futures::channel::oneshot::Sender::<T>::send ](
    this: futures::channel::oneshot::Sender<T>,
    t: T,
) -> (r: Result<(), T>)
    ensures
        r matches Err(v) ==> v == t,
;

/// Relies on `futures::channel::oneshot::Receiver::try_recv`: `Ok(Some(v))`
/// once the sender has sent `v`, `Ok(None)` while the sender is still alive
/// and silent, `Err(Canceled)` when the sender was dropped without sending.
/// The value comes from hidden shared state, so nothing is stated of it.
pub assume_specification<T>[ futures::channel::oneshot::Receiver::<T>::try_recv ](
    this: &mut futures::channel::oneshot::Receiver<T>,
) -> (r: Result<Option<T>, futures::channel::oneshot::Canceled>);

} // verus!
