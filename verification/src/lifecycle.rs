//! The lifecycle of a single request-response exchange, as a state machine:
//! which events may follow which phase, and what every complete exchange is
//! therefore guaranteed to look like. The proofs here state the protocol-wide
//! laws: an exchange resolves at most once, a reply can only come from a
//! discharge carrying that very value, a rejected enqueue keeps the request
//! intact, and a forfeited obligation can only end in `Unanswered`.

use vstd::prelude::*;

verus! {

/// The phase one exchange is in, from construction to resolution.
pub enum Phase<Req, Resp> {
    /// Request and fresh obligation constructed, not yet visible to the
    /// responder side.
    Created(Req),
    /// Pushed into the shared queue; the requester awaits the reply.
    Enqueued(Req),
    /// Terminal: the queue was closed at enqueue; the request went back to
    /// the caller.
    Rejected(Req),
    /// Popped by a responder-side receive; the obligation is owned by the
    /// servicer.
    Delivered(Req),
    /// Terminal: the obligation was discharged with this reply.
    Responded(Resp),
    /// Terminal: the obligation was dropped without discharge, or the
    /// responder side closed while the request was in flight.
    Unanswered,
}

/// An observable event in the life of one exchange.
///
/// A `Full` outcome of [`crate::channel::Requester::try_send`] is no event of
/// the exchange: the request never left the caller, and a retry starts a
/// fresh exchange with a fresh reply slot.
pub enum Event<Resp> {
    /// The enqueue succeeded ([`crate::channel::Requester::try_send`]
    /// returned the pending reply).
    Accept,
    /// The enqueue failed because the responder side is gone (`try_send`
    /// reported `Closed`).
    Reject,
    /// A responder-side receive pulled the request off the queue
    /// ([`crate::channel::Responder::try_recv`] yielded it).
    Deliver,
    /// The obligation was discharged with this reply
    /// ([`crate::channel::UnRespondedRequest::respond`]).
    Discharge(Resp),
    /// The obligation was dropped without being discharged.
    Forfeit,
}

/// The phases in which the exchange is resolved and nothing further may
/// happen to it.
pub open spec fn is_terminal<Req, Resp>(p: Phase<Req, Resp>) -> bool {
    ||| p is Rejected
    ||| p is Responded
    ||| p is Unanswered
}

/// The one-step transition relation: which event may follow which phase, and
/// where it leads. `None` means the event is impossible in that phase.
pub open spec fn step<Req, Resp>(p: Phase<Req, Resp>, e: Event<Resp>) -> Option<
    Phase<Req, Resp>,
> {
    match (p, e) {
        (Phase::Created(q), Event::Accept) => Some(Phase::Enqueued(q)),
        (Phase::Created(q), Event::Reject) => Some(Phase::Rejected(q)),
        (Phase::Enqueued(q), Event::Deliver) => Some(Phase::Delivered(q)),
        (Phase::Enqueued(q), Event::Forfeit) => Some(Phase::Unanswered),
        (Phase::Delivered(q), Event::Discharge(v)) => Some(Phase::Responded(v)),
        (Phase::Delivered(q), Event::Forfeit) => Some(Phase::Unanswered),
        _ => None,
    }
}

/// Run a sequence of events from a starting phase; `None` as soon as an event
/// is impossible in the phase it meets.
pub open spec fn run<Req, Resp>(p: Phase<Req, Resp>, es: Seq<Event<Resp>>) -> Option<
    Phase<Req, Resp>,
>
    decreases es.len(),
{
    if es.len() == 0 {
        Some(p)
    } else {
        match step(p, es.first()) {
            Some(next) => run(next, es.drop_first()),
            None => None,
        }
    }
}

/// The request value an unresolved (or rejected) exchange still carries.
pub open spec fn carried<Req, Resp>(p: Phase<Req, Resp>) -> Option<Req> {
    match p {
        Phase::Created(q) => Some(q),
        Phase::Enqueued(q) => Some(q),
        Phase::Rejected(q) => Some(q),
        Phase::Delivered(q) => Some(q),
        Phase::Responded(_) => None,
        Phase::Unanswered => None,
    }
}

/// A reply can only appear through a discharge of that very value, and only
/// once the request was delivered: no step reaches `Responded(v)` except
/// `Discharge(v)` taken from `Delivered`.
pub proof fn lemma_reply_only_by_discharge<Req, Resp>(p: Phase<Req, Resp>, e: Event<Resp>, v: Resp)
    ensures
        step(p, e) == Some(Phase::<Req, Resp>::Responded(v)) <==> (e == Event::<Resp>::Discharge(v)
            && p matches Phase::Delivered(_)),
{
}

/// A resolved exchange is final: no event is possible in a terminal phase, so
/// an exchange resolves at most once — in particular, a second discharge is
/// impossible.
pub proof fn lemma_terminal_is_final<Req, Resp>(p: Phase<Req, Resp>, e: Event<Resp>)
    ensures
        is_terminal(p) ==> step(p, e) is None,
{
}

/// No valid event sequence continues past resolution: once a run reaches a
/// terminal phase, every strict extension of it is impossible.
pub proof fn lemma_resolution_happens_once<Req, Resp>(
    p: Phase<Req, Resp>,
    es: Seq<Event<Resp>>,
    more: Seq<Event<Resp>>,
)
    requires
        run(p, es) matches Some(t) && is_terminal(t),
        more.len() > 0,
    ensures
        run(p, es + more) is None,
    decreases es.len(),
{
    if es.len() == 0 {
        assert(es + more =~= more);
        assert(run(p, more) is None);
    } else {
        let next = step(p, es.first()).unwrap();
        assert((es + more).drop_first() =~= es.drop_first() + more);
        lemma_resolution_happens_once(next, es.drop_first(), more);
    }
}

/// The request value is never altered in flight: every step either keeps the
/// carried request or resolves the exchange.
pub proof fn lemma_request_carried_intact<Req, Resp>(p: Phase<Req, Resp>, e: Event<Resp>)
    ensures
        step(p, e) matches Some(next) ==> (carried(next) is None || carried(next) == carried(p)),
{
}

/// A rejected enqueue hands back exactly the request the exchange started
/// with.
pub proof fn lemma_rejection_returns_the_request<Req, Resp>(
    q: Req,
    es: Seq<Event<Resp>>,
    q2: Req,
)
    requires
        run(Phase::<Req, Resp>::Created(q), es) == Some(Phase::<Req, Resp>::Rejected(q2)),
    ensures
        q2 == q,
{
    lemma_run_keeps_carried(Phase::<Req, Resp>::Created(q), es);
}

/// Along any run whose final phase still carries a request, that request is
/// the one the run started with.
pub proof fn lemma_run_keeps_carried<Req, Resp>(p: Phase<Req, Resp>, es: Seq<Event<Resp>>)
    ensures
        run(p, es) matches Some(t) ==> (carried(t) is None || carried(t) == carried(p)),
    decreases es.len(),
{
    if es.len() > 0 {
        match step(p, es.first()) {
            Some(next) => {
                lemma_request_carried_intact(p, es.first());
                lemma_run_keeps_carried(next, es.drop_first());
            },
            None => {},
        }
    }
}

/// A complete exchange that ends in a reply ends exactly at its discharge:
/// the last event carried the very value the requester resolves with.
pub proof fn lemma_reply_is_the_discharged_value<Req, Resp>(
    q: Req,
    es: Seq<Event<Resp>>,
    v: Resp,
)
    requires
        run(Phase::<Req, Resp>::Created(q), es) == Some(Phase::<Req, Resp>::Responded(v)),
    ensures
        es.len() > 0,
        es.last() == Event::<Resp>::Discharge(v),
    decreases es.len(),
{
    lemma_last_step_reaches(Phase::<Req, Resp>::Created(q), es);
}

/// A run of positive length that reaches phase `t` takes its last step into
/// `t`: there is a phase from which the final event leads to `t`.
pub proof fn lemma_last_step_reaches<Req, Resp>(p: Phase<Req, Resp>, es: Seq<Event<Resp>>)
    ensures
        run(p, es) matches Some(t) ==> (if es.len() == 0 {
            t == p
        } else {
            exists|prev: Phase<Req, Resp>| step(prev, es.last()) == Some(t)
        }),
    decreases es.len(),
{
    if es.len() > 0 {
        match step(p, es.first()) {
            Some(next) => {
                lemma_last_step_reaches(next, es.drop_first());
                if run(p, es) is Some {
                    if es.len() == 1 {
                        assert(es.drop_first().len() == 0);
                        assert(step(p, es.last()) == Some(run(p, es).unwrap()));
                    } else {
                        assert(es.drop_first().last() == es.last());
                    }
                }
            },
            None => {},
        }
    }
}

/// An exchange in which the obligation was ever forfeited can only resolve
/// `Unanswered`: the requester sees `Ignored`, never a reply.
pub proof fn lemma_forfeit_means_unanswered<Req, Resp>(
    p: Phase<Req, Resp>,
    es: Seq<Event<Resp>>,
    i: int,
)
    requires
        run(p, es) matches Some(t) && is_terminal(t),
        0 <= i < es.len(),
        es[i] == Event::<Resp>::Forfeit,
    ensures
        run(p, es) == Some(Phase::<Req, Resp>::Unanswered),
    decreases es.len(),
{
    let next = step(p, es.first()).unwrap();
    if i == 0 {
        assert(next is Unanswered);
        if es.len() > 1 {
            lemma_terminal_is_final(next, es.drop_first().first());
        }
    } else {
        lemma_forfeit_means_unanswered(next, es.drop_first(), i - 1);
    }
}

} // verus!
