use bidirectional_channel::{
    bounded, enqueue_refused, reply_settled, reply_slot, unbounded, ReceivedRequest,
    ReplyProgress, SendRequestError, TryRecvRequestError, TrySendRequestError,
};

#[test]
fn request_response() {
    let (requester, responder) = bounded::<&str, usize>(1);
    let pending = requester.try_send("hello").ok().expect("enqueue must be accepted");
    let received = responder.try_recv().ok().expect("one request is queued");
    assert_eq!(received.request, "hello");
    let len: usize = received.request.len();
    let request = received.respond(len).ok().expect("requester is still waiting");
    assert_eq!(request, "hello");
    match pending.try_recv() {
        ReplyProgress::Ready(reply) => assert_eq!(reply, 5),
        _ => panic!("the reply must be ready once the obligation is discharged"),
    }
}

#[test]
fn closed_returns_the_request() {
    let (requester, responder) = bounded::<&str, usize>(1);
    drop(responder);
    match requester.try_send("x") {
        Err(TrySendRequestError::Closed(request)) => assert_eq!(request, "x"),
        _ => panic!("a send after the responder is gone must report Closed"),
    }
}

#[test]
fn ignored_when_obligation_dropped() {
    let (requester, responder) = bounded::<&str, usize>(1);
    let pending = requester.try_send("hello").ok().expect("enqueue must be accepted");
    let received = responder.try_recv().ok().expect("one request is queued");
    drop(received);
    assert!(matches!(pending.try_recv(), ReplyProgress::Ignored));
}

#[test]
fn ignored_when_responder_dropped_in_flight() {
    let (requester, responder) = bounded::<&str, usize>(1);
    let pending = requester.try_send("hello").ok().expect("enqueue must be accepted");
    drop(responder);
    let pending = match pending.try_recv() {
        ReplyProgress::Pending(handle) => handle,
        _ => panic!("the queued obligation is alive while the queue itself is"),
    };
    drop(requester);
    assert!(matches!(pending.try_recv(), ReplyProgress::Ignored));
}

#[test]
fn backpressure_until_drained() {
    let (requester, responder) = bounded::<&str, usize>(1);
    let first = requester.try_send("first").ok().expect("space for one request");
    let second_request = match requester.try_send("second") {
        Err(TrySendRequestError::Full(request)) => request,
        _ => panic!("a second enqueue on a full capacity-1 queue must report Full"),
    };
    assert_eq!(second_request, "second");
    let received = responder.try_recv().ok().expect("first request is queued");
    assert_eq!(received.request, "first");
    let second = requester.try_send(second_request).ok().expect("space again after the drain");
    let received = responder.try_recv().ok().expect("second request is queued");
    assert_eq!(received.request, "second");
    let request = received.respond(6).ok().expect("second requester handle is waiting");
    assert_eq!(request, "second");
    match second.try_recv() {
        ReplyProgress::Ready(reply) => assert_eq!(reply, 6),
        _ => panic!("the second exchange must resolve with its own reply"),
    }
    drop(first);
}

#[test]
fn pairing_is_per_call() {
    let (requester, responder) = unbounded::<u32, u32>();
    let mut pendings = Vec::new();
    let mut i: u32 = 0;
    while i < 10 {
        pendings.push(requester.try_send(i).ok().expect("unbounded enqueue is accepted"));
        i += 1;
    }
    loop {
        match responder.try_recv() {
            Ok(received) => {
                let doubled: u32 = received.request * 2;
                received.respond(doubled).ok().expect("every requester handle is held");
            }
            Err(TryRecvRequestError::Empty) => break,
            Err(TryRecvRequestError::Closed) => panic!("the requester is still alive"),
        }
    }
    let mut expected: u32 = 0;
    for pending in pendings {
        match pending.try_recv() {
            ReplyProgress::Ready(reply) => assert_eq!(reply, expected * 2),
            _ => panic!("every discharged exchange must be ready"),
        }
        expected += 1;
    }
}

#[test]
fn pending_until_discharged() {
    let (requester, responder) = bounded::<&str, u8>(1);
    let pending = requester.try_send("hello").ok().expect("enqueue must be accepted");
    let pending = match pending.try_recv() {
        ReplyProgress::Pending(handle) => handle,
        _ => panic!("nothing was discharged yet"),
    };
    let received = responder.try_recv().ok().expect("one request is queued");
    let pending = match pending.try_recv() {
        ReplyProgress::Pending(handle) => handle,
        _ => panic!("the obligation is still live"),
    };
    received.respond(9).ok().expect("requester is still waiting");
    match pending.try_recv() {
        ReplyProgress::Ready(reply) => assert_eq!(reply, 9),
        _ => panic!("the reply must be ready once the obligation is discharged"),
    }
}

#[test]
fn respond_after_requester_gone() {
    let (requester, responder) = bounded::<&str, u8>(1);
    let pending = requester.try_send("hello").ok().expect("enqueue must be accepted");
    drop(pending);
    let received = responder.try_recv().ok().expect("one request is queued");
    match received.respond(7) {
        Err((request, reply)) => {
            assert_eq!(request, "hello");
            assert_eq!(reply, 7);
        }
        Ok(_) => panic!("nobody is waiting, so the reply must come back"),
    }
}

#[test]
fn obligation_hands_reply_back_when_abandoned() {
    let (obligation, pending) = reply_slot::<u8>();
    drop(pending);
    assert_eq!(obligation.respond(9), Err(9));
}

#[test]
fn reply_slot_roundtrip() {
    let (obligation, pending) = reply_slot::<u8>();
    assert_eq!(obligation.respond(9), Ok(()));
    match pending.try_recv() {
        ReplyProgress::Ready(reply) => assert_eq!(reply, 9),
        _ => panic!("the slot was filled"),
    }
}

#[test]
fn into_parts_keeps_the_pairing() {
    let (requester, responder) = bounded::<&str, u8>(1);
    let pending = requester.try_send("hello").ok().expect("enqueue must be accepted");
    let received = responder.try_recv().ok().expect("one request is queued");
    let (request, obligation) = received.into_parts();
    assert_eq!(request, "hello");
    obligation.respond(4).ok().expect("requester is still waiting");
    match pending.try_recv() {
        ReplyProgress::Ready(reply) => assert_eq!(reply, 4),
        _ => panic!("the reply must be ready once the obligation is discharged"),
    }
}

#[test]
fn empty_then_closed() {
    let (requester, responder) = bounded::<&str, u8>(1);
    assert!(matches!(responder.try_recv(), Err(TryRecvRequestError::Empty)));
    drop(requester);
    assert!(matches!(responder.try_recv(), Err(TryRecvRequestError::Closed)));
}

#[test]
fn unbounded_never_reports_full() {
    let (requester, responder) = unbounded::<u32, u32>();
    let mut i: u32 = 0;
    while i < 100 {
        assert!(requester.try_send(i).is_ok());
        i += 1;
    }
    let mut drained: u32 = 0;
    while responder.try_recv().is_ok() {
        drained += 1;
    }
    assert_eq!(drained, 100);
}

#[test]
fn describe_names_the_failure() {
    assert_eq!(
        SendRequestError::Closed(1u8).describe(),
        "The Responder was dropped before the message was sent"
    );
    assert_eq!(
        SendRequestError::<u8>::Ignored.describe(),
        "The UnRespondedRequest was dropped, not responded to"
    );
}

#[test]
fn cloned_requester_shares_the_queue() {
    let (requester, responder) = bounded::<&str, u8>(2);
    let twin = requester.clone();
    let pending_a = requester.try_send("a").ok().expect("enqueue must be accepted");
    let pending_b = twin.try_send("b").ok().expect("the clone feeds the same queue");
    let received = responder.try_recv().ok().expect("first request is queued");
    assert_eq!(received.request, "a");
    received.respond(1).ok().expect("requester is still waiting");
    let received = responder.try_recv().ok().expect("second request is queued");
    assert_eq!(received.request, "b");
    received.respond(2).ok().expect("requester is still waiting");
    match (pending_a.try_recv(), pending_b.try_recv()) {
        (ReplyProgress::Ready(a), ReplyProgress::Ready(b)) => {
            assert_eq!(a, 1);
            assert_eq!(b, 2);
        }
        _ => panic!("both exchanges were discharged"),
    }
    drop(requester);
    drop(twin);
    assert!(matches!(responder.try_recv(), Err(TryRecvRequestError::Closed)));
}

#[test]
fn counter_of_pings() {
    let (requester, responder) = bounded::<(), ()>(1);
    let mut count: usize = 0;
    let mut sent: usize = 0;
    while sent < 5 {
        let pending = requester.try_send(()).ok().expect("capacity for one ping");
        let received = responder.try_recv().ok().expect("one ping is queued");
        count += 1;
        received.respond(()).ok().expect("requester is still waiting");
        assert!(matches!(pending.try_recv(), ReplyProgress::Ready(())));
        sent += 1;
    }
    assert_eq!(count, 5);
}

#[test]
fn send_decisions() {
    let (obligation, pending) = reply_slot::<u8>();
    let returned = ReceivedRequest { request: "q", unresponded: obligation };
    match enqueue_refused(returned) {
        SendRequestError::Closed(request) => assert_eq!(request, "q"),
        SendRequestError::Ignored => panic!("a refused enqueue reports Closed"),
    }
    assert!(matches!(pending.try_recv(), ReplyProgress::Ignored));
    assert!(matches!(reply_settled::<&str, u8>(Some(5)), Ok(5)));
    assert!(matches!(
        reply_settled::<&str, u8>(None),
        Err(SendRequestError::Ignored)
    ));
}
