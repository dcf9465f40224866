//! The request-response pairing protocol: a request is wrapped together with a
//! single-use reply obligation, travels the shared queue once, and the
//! obligation is discharged exactly once — or its loss surfaces as a typed
//! failure. Every function here is verified; the two primitive substrates are
//! behind the contracts in [`crate::primitives`].

use vstd::prelude::*;

verus! {

/// Error returned when sending a request.
pub enum SendRequestError<Req> {
    /// The [`Responder`] for this channel was dropped before the request
    /// could be enqueued. Ownership of the request that failed to send is
    /// handed back.
    Closed(Req),
    /// The [`UnRespondedRequest`] for this request was dropped without being
    /// discharged: someone received the request but never answered.
    Ignored,
}

impl<Req> SendRequestError<Req> {
    /// A human-readable description of the failure.
    pub fn describe(&self) -> (r: &'static str)
        ensures
            self is Closed ==> r@ == "The Responder was dropped before the message was sent"@,
            self is Ignored ==> r@ == "The UnRespondedRequest was dropped, not responded to"@,
    {
        match self {
            SendRequestError::Closed(_) => "The Responder was dropped before the message was sent",
            SendRequestError::Ignored => "The UnRespondedRequest was dropped, not responded to",
        }
    }
}

/// Represents that the [`Requester`] associated with this communication is
/// still waiting for a response: a reply is still owed. Discharging it
/// consumes it, so a reply can be delivered at most once.
#[must_use]
#[verifier::reject_recursive_types(Resp)]
pub struct UnRespondedRequest<Resp> {
    response_sender: futures::channel::oneshot::Sender<Resp>,
}

impl<Resp> UnRespondedRequest<Resp> {
    /// Respond to the [`Requester`]'s request, consuming the obligation.
    /// Fails if the associated requester already vanished, and hands the
    /// undelivered response back so no value is silently lost.
    pub fn respond(self, response: Resp) -> (r: Result<(), Resp>)
        ensures
            r matches Err(v) ==> v == response,
    {
        self.response_sender.send(response)
    }
}

/// A request paired with the obligation to respond to it. Produced one-to-one
/// with each submission on the requester side; the only way to obtain an
/// [`UnRespondedRequest`].
#[must_use]
#[verifier::reject_recursive_types(Resp)]
pub struct ReceivedRequest<Req, Resp> {
    /// The request itself.
    pub request: Req,
    /// Handle to respond to the [`Requester`].
    pub unresponded: UnRespondedRequest<Resp>,
}

impl<Req, Resp> ReceivedRequest<Req, Resp> {
    /// Respond to the [`Requester`]'s request and take ownership of the
    /// request value. Fails if the associated requester was dropped, handing
    /// back both the request and the undelivered response.
    pub fn respond(self, response: Resp) -> (r: Result<Req, (Req, Resp)>)
        ensures
            r matches Ok(q) ==> q == self.request,
            r matches Err(p) ==> p == (self.request, response),
    {
        let ReceivedRequest { request, unresponded } = self;
        match unresponded.respond(response) {
            Ok(()) => Ok(request),
            Err(response) => Err((request, response)),
        }
    }

    /// Split into the request value and the bare obligation.
    pub fn into_parts(self) -> (r: (Req, UnRespondedRequest<Resp>))
        ensures
            r == (self.request, self.unresponded),
    {
        let ReceivedRequest { request, unresponded } = self;
        (request, unresponded)
    }
}

/// The requester side's handle on one in-flight exchange: resolves exactly
/// once, either with the reply or with the news that the obligation was
/// dropped undischarged.
#[must_use]
#[verifier::reject_recursive_types(Resp)]
pub struct PendingReply<Resp> {
    receiver: futures::channel::oneshot::Receiver<Resp>,
}

/// What one poll of a [`PendingReply`] found.
#[verifier::reject_recursive_types(Resp)]
pub enum ReplyProgress<Resp> {
    /// The obligation was discharged with this reply; the exchange is over.
    Ready(Resp),
    /// The obligation is still live and undischarged; the handle comes back
    /// so the exchange can be polled again.
    Pending(PendingReply<Resp>),
    /// The obligation was dropped without being discharged; the exchange is
    /// over and no reply will ever come.
    Ignored,
}

impl<Resp> PendingReply<Resp> {
    /// Poll the exchange once, without suspending. The handle is consumed;
    /// only the `Pending` outcome hands it back, so a resolved exchange can
    /// never be observed twice.
    pub fn try_recv(self) -> (r: ReplyProgress<Resp>) {
        let PendingReply { mut receiver } = self;
        match receiver.try_recv() {
            Ok(Some(response)) => ReplyProgress::Ready(response),
            Ok(None) => ReplyProgress::Pending(PendingReply { receiver }),
            Err(_) => ReplyProgress::Ignored,
        }
    }

    /// The raw reply slot, for a caller that wants to suspend on it.
    pub fn into_raw(self) -> futures::channel::oneshot::Receiver<Resp> {
        self.receiver
    }
}

/// A fresh, linked obligation/pending-reply pair: the return path of one
/// exchange. [`Requester::try_send`] creates one per call.
pub fn reply_slot<Resp>() -> (UnRespondedRequest<Resp>, PendingReply<Resp>) {
    let (response_sender, receiver) = futures::channel::oneshot::channel();
    (UnRespondedRequest { response_sender }, PendingReply { receiver })
}

/// The decision of the suspending send when its enqueue is refused: the queue
/// hands the whole exchange back, and the caller gets `Closed` with its
/// request un-consumed.
pub fn enqueue_refused<Req, Resp>(returned: ReceivedRequest<Req, Resp>) -> (e: SendRequestError<
    Req,
>)
    ensures
        e == SendRequestError::Closed(returned.request),
{
    let (request, _unresponded) = returned.into_parts();
    SendRequestError::Closed(request)
}

/// The decision of the suspending send once the reply slot settles: a value
/// means the obligation was discharged with exactly that reply; no value
/// means it was dropped undischarged, which the caller sees as `Ignored`.
pub fn reply_settled<Req, Resp>(outcome: Option<Resp>) -> (r: Result<Resp, SendRequestError<Req>>)
    ensures
        outcome matches Some(v) ==> r == Ok::<Resp, SendRequestError<Req>>(v),
        outcome is None ==> r == Err::<Resp, SendRequestError<Req>>(SendRequestError::Ignored),
{
    match outcome {
        Some(response) => Ok(response),
        None => Err(SendRequestError::Ignored),
    }
}

/// Error returned when an enqueue attempt does not go through; both variants
/// hand the request back to the caller un-consumed.
pub enum TrySendRequestError<Req> {
    /// The queue is at capacity; the request may be retried once the
    /// responder side drains it.
    Full(Req),
    /// The responder side is gone; no request will ever be delivered again.
    Closed(Req),
}

/// Represents the initiator of the request-response exchange.
#[verifier::reject_recursive_types(Req)]
#[verifier::reject_recursive_types(Resp)]
pub struct Requester<Req, Resp> {
    outgoing: async_std::channel::Sender<ReceivedRequest<Req, Resp>>,
}

impl<Req, Resp> Requester<Req, Resp> {
    /// Make a request without suspending: allocate a fresh reply slot, pair
    /// the request with the obligation, and attempt the enqueue. On success
    /// the pending reply is the handle to the eventual response; on failure
    /// the original request comes back intact.
    pub fn try_send(&self, request: Req) -> (r: Result<
        PendingReply<Resp>,
        TrySendRequestError<Req>,
    >)
        ensures
            r matches Err(e) ==> (e == TrySendRequestError::Full(request) || e
                == TrySendRequestError::Closed(request)),
    {
        let (unresponded, pending) = reply_slot();
        match self.outgoing.try_send(ReceivedRequest { request, unresponded }) {
            Ok(()) => Ok(pending),
            Err(async_std::channel::TrySendError::Full(returned)) => Err(
                TrySendRequestError::Full(returned.request),
            ),
            Err(async_std::channel::TrySendError::Closed(returned)) => Err(
                TrySendRequestError::Closed(returned.request),
            ),
        }
    }

    /// The raw sending half of the shared queue, for a caller that wants the
    /// suspending enqueue.
    pub fn raw_queue(&self) -> &async_std::channel::Sender<ReceivedRequest<Req, Resp>> {
        &self.outgoing
    }
}

impl<Req, Resp> Clone for Requester<Req, Resp> {
    /// A clone shares the same queue: multiple independent callers may
    /// request over one channel.
    fn clone(&self) -> Self {
        Requester { outgoing: self.outgoing.clone() }
    }
}

/// What one non-suspending receive attempt on the [`Responder`] found.
pub enum TryRecvRequestError {
    /// Nothing is queued right now, but a requester may still enqueue.
    Empty,
    /// Every requester is gone and the queue has drained; no request will
    /// ever arrive again.
    Closed,
}

/// The receiving side of the channel, consumed by whoever services requests.
#[verifier::reject_recursive_types(Req)]
#[verifier::reject_recursive_types(Resp)]
pub struct Responder<Req, Resp> {
    incoming: async_std::channel::Receiver<ReceivedRequest<Req, Resp>>,
}

impl<Req, Resp> Responder<Req, Resp> {
    /// Pull the next queued request, without suspending. Requests come out in
    /// the order their enqueues succeeded.
    pub fn try_recv(&self) -> Result<ReceivedRequest<Req, Resp>, TryRecvRequestError> {
        match self.incoming.try_recv() {
            Ok(received) => Ok(received),
            Err(async_std::channel::TryRecvError::Empty) => Err(TryRecvRequestError::Empty),
            Err(async_std::channel::TryRecvError::Closed) => Err(TryRecvRequestError::Closed),
        }
    }

    /// The raw receiving half of the shared queue, for a caller that wants
    /// the suspending receive.
    pub fn raw_queue(&self) -> &async_std::channel::Receiver<ReceivedRequest<Req, Resp>> {
        &self.incoming
    }
}

/// Create a bounded [`Requester`]-[`Responder`] pair: once `capacity`
/// exchanges are queued and undrained, further enqueues report `Full` (or, on
/// the suspending path, wait for space). The capacity must be positive.
pub fn bounded<Req, Resp>(capacity: usize) -> (Requester<Req, Resp>, Responder<Req, Resp>)
    requires
        1 <= capacity,
{
    let (sender, receiver) = crate::primitives::queue_bounded(capacity);
    (Requester { outgoing: sender }, Responder { incoming: receiver })
}

/// Create an unbounded [`Requester`]-[`Responder`] pair: enqueues never
/// report `Full`.
pub fn unbounded<Req, Resp>() -> (Requester<Req, Resp>, Responder<Req, Resp>) {
    let (sender, receiver) = crate::primitives::queue_unbounded();
    (Requester { outgoing: sender }, Responder { incoming: receiver })
}

} // verus!
