//! An async channel with request-response semantics.
//!
//! A [`Requester`] submits a request and holds a [`PendingReply`] for the
//! matching response; the [`Responder`] side receives each request paired
//! with a single-use [`UnRespondedRequest`] obligation, and discharges that
//! obligation to deliver the reply. Every way the obligation can go
//! unfulfilled surfaces as a distinct, typed failure rather than silent loss.

pub mod channel;
pub mod lifecycle;
pub mod primitives;

pub use channel::bounded;
pub use channel::unbounded;
pub use channel::enqueue_refused;
pub use channel::reply_settled;
pub use channel::reply_slot;
pub use channel::PendingReply;
pub use channel::ReceivedRequest;
pub use channel::ReplyProgress;
pub use channel::Requester;
pub use channel::Responder;
pub use channel::SendRequestError;
pub use channel::TryRecvRequestError;
pub use channel::TrySendRequestError;
pub use channel::UnRespondedRequest;
