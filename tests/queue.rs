use inspect_server::{
    CompletionStatus, InspectError, InspectQueue, InspectRequest, InspectStateResponse, Next,
    Phase, Report,
};

fn request(payload: &[u8], slot: u32) -> InspectRequest<u32> {
    InspectRequest { payload: payload.to_vec(), response_slot: slot }
}

fn serve(q: &mut InspectQueue<u32>) -> InspectRequest<u32> {
    match q.take_next() {
        Next::Serve(r) => r,
        Next::Wait => panic!("expected a request, got Wait"),
        Next::Stop => panic!("expected a request, got Stop"),
    }
}

fn sample_response() -> InspectStateResponse {
    InspectStateResponse {
        status: CompletionStatus::Accepted,
        reports: vec![Report { payload: vec![1, 2, 3] }, Report { payload: vec![] }],
    }
}

#[test]
fn third_submit_overloaded_with_queue_of_two() {
    let mut q = InspectQueue::new(2);
    assert_eq!(q.submit(request(b"p1", 1)), Ok(()));
    assert_eq!(q.submit(request(b"p2", 2)), Ok(()));
    assert_eq!(q.submit(request(b"p3", 3)), Err(InspectError::Overloaded));
    assert_eq!(q.len(), 2);
    let first = serve(&mut q);
    assert_eq!(first.payload, b"p1".to_vec());
    assert_eq!(first.response_slot, 1);
}

#[test]
fn full_queue_refuses_while_worker_is_busy() {
    let mut q = InspectQueue::new(1);
    assert_eq!(q.submit(request(b"a", 1)), Ok(()));
    let _held = serve(&mut q);
    assert_eq!(q.phase(), Phase::Connecting);
    assert_eq!(q.submit(request(b"b", 2)), Ok(()));
    assert_eq!(q.submit(request(b"c", 3)), Err(InspectError::Overloaded));
    assert_eq!(q.len(), 1);
}

#[test]
fn requests_served_in_arrival_order_one_at_a_time() {
    let mut q = InspectQueue::new(4);
    for slot in 1..=3u32 {
        assert_eq!(q.submit(request(&[slot as u8], slot)), Ok(()));
    }
    for slot in 1..=3u32 {
        let r = serve(&mut q);
        assert_eq!(r.response_slot, slot);
        assert_eq!(r.payload, vec![slot as u8]);
        assert!(matches!(q.take_next(), Next::Wait));
        assert_eq!(q.connected(Ok(())), Ok(()));
        assert!(matches!(q.take_next(), Next::Wait));
        assert_eq!(q.called(Ok(sample_response())), Ok(sample_response()));
        assert!(matches!(q.take_next(), Next::Wait));
        q.responded(true);
        assert_eq!(q.phase(), Phase::Idle);
    }
    assert!(matches!(q.take_next(), Next::Wait));
}

#[test]
fn connection_failure_answers_only_that_request() {
    let mut q = InspectQueue::new(2);
    assert_eq!(q.submit(request(b"a", 1)), Ok(()));
    assert_eq!(q.submit(request(b"b", 2)), Ok(()));
    let a = serve(&mut q);
    assert_eq!(a.response_slot, 1);
    let answer = q.connected(Err("transport error: connection refused".to_string()));
    assert_eq!(
        answer,
        Err(InspectError::ConnectionFailed {
            message: "transport error: connection refused".to_string()
        })
    );
    assert_eq!(q.phase(), Phase::Responding);
    q.responded(true);
    let b = serve(&mut q);
    assert_eq!(b.response_slot, 2);
    assert_eq!(b.payload, b"b".to_vec());
}

#[test]
fn call_failure_carries_message() {
    let mut q = InspectQueue::new(1);
    assert_eq!(q.submit(request(b"x", 7)), Ok(()));
    let _ = serve(&mut q);
    assert_eq!(q.connected(Ok(())), Ok(()));
    assert_eq!(q.phase(), Phase::Calling);
    assert_eq!(
        q.called(Err("session not found".to_string())),
        Err(InspectError::CallFailed { message: "session not found".to_string() })
    );
    assert_eq!(q.phase(), Phase::Responding);
}

#[test]
fn successful_reply_passed_on_unmodified() {
    let mut q = InspectQueue::new(1);
    assert_eq!(q.submit(request(b"query", 9)), Ok(()));
    let _ = serve(&mut q);
    assert_eq!(q.connected(Ok(())), Ok(()));
    let reply = InspectStateResponse {
        status: CompletionStatus::Exception,
        reports: vec![Report { payload: b"r1".to_vec() }, Report { payload: b"r2".to_vec() }],
    };
    assert_eq!(q.called(Ok(reply.clone())), Ok(reply));
}

#[test]
fn abandoned_response_slot_does_not_stop_the_worker() {
    let mut q = InspectQueue::new(2);
    assert_eq!(q.submit(request(b"gone", 1)), Ok(()));
    assert_eq!(q.submit(request(b"next", 2)), Ok(()));
    let _ = serve(&mut q);
    assert_eq!(q.connected(Ok(())), Ok(()));
    let _ = q.called(Ok(sample_response()));
    q.responded(false);
    assert_eq!(q.phase(), Phase::Idle);
    let next = serve(&mut q);
    assert_eq!(next.response_slot, 2);
}

#[test]
fn closed_queue_refuses_and_drains_then_stops() {
    let mut q = InspectQueue::new(2);
    assert!(matches!(q.take_next(), Next::Wait));
    assert_eq!(q.submit(request(b"a", 1)), Ok(()));
    q.close();
    assert!(q.is_closed());
    assert_eq!(q.submit(request(b"b", 2)), Err(InspectError::Closed));
    let a = serve(&mut q);
    assert_eq!(a.response_slot, 1);
    assert!(matches!(q.take_next(), Next::Wait));
    assert_eq!(q.connected(Ok(())), Ok(()));
    let _ = q.called(Ok(sample_response()));
    q.responded(true);
    assert!(matches!(q.take_next(), Next::Stop));
}
