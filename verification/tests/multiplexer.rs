use lnbits_rs::api::paid_invoice_stream::{ReadOutcome, SseIngestor, StreamVerdict};
use lnbits_rs::api::webhook::{
    handle_body, handle_invoice, WebhookRequest, STATUS_OK, STATUS_UNPROCESSABLE_ENTITY,
};
use lnbits_rs::api::websocket::{on_socket_read, SocketMessage, SocketRead};
use lnbits_rs::channel::{NotificationChannel, SendError, CHANNEL_CAPACITY};
use lnbits_rs::multiplexer::{
    handling, ConnectionState, Handling, LinkAction, LinkEvent, Multiplexer, PipelineError,
    PullTransport,
};

fn text(s: &str) -> String {
    s.to_string()
}

#[test]
fn new_channel_is_empty_and_open() {
    let channel = NotificationChannel::new();
    assert_eq!(channel.len(), 0);
    assert!(channel.is_empty());
    assert!(!channel.is_full());
    assert!(!channel.is_closed());
    assert_eq!(channel.capacity(), 8);
    assert_eq!(CHANNEL_CAPACITY, 8);
}

#[test]
fn channel_needs_a_slot() {
    assert!(NotificationChannel::with_capacity(0).is_none());
    let channel = NotificationChannel::with_capacity(3).unwrap();
    assert_eq!(channel.capacity(), 3);
    assert!(channel.is_empty());
}

#[test]
fn channel_is_first_in_first_out() {
    let mut channel = NotificationChannel::new();
    assert!(channel.try_send(text("a")).is_ok());
    assert!(channel.try_send(text("b")).is_ok());
    assert!(channel.try_send(text("c")).is_ok());
    assert_eq!(channel.len(), 3);
    assert_eq!(channel.recv(), Some(text("a")));
    assert_eq!(channel.recv(), Some(text("b")));
    assert_eq!(channel.recv(), Some(text("c")));
    assert_eq!(channel.recv(), None);
}

#[test]
fn channel_keeps_duplicates() {
    let mut channel = NotificationChannel::new();
    assert!(channel.try_send(text("same")).is_ok());
    assert!(channel.try_send(text("same")).is_ok());
    assert_eq!(channel.len(), 2);
    assert_eq!(channel.recv(), Some(text("same")));
    assert_eq!(channel.recv(), Some(text("same")));
}

#[test]
fn full_channel_hands_the_hash_back() {
    let mut channel = NotificationChannel::with_capacity(2).unwrap();
    assert!(channel.try_send(text("a")).is_ok());
    assert!(channel.try_send(text("b")).is_ok());
    assert!(channel.is_full());
    let rejected = channel.try_send(text("c")).err().unwrap();
    assert_eq!(rejected.reason, SendError::Full);
    assert_eq!(rejected.hash, "c");
    assert_eq!(channel.len(), 2);
    assert_eq!(channel.recv(), Some(text("a")));
    assert!(channel.try_send(rejected.hash).is_ok());
    assert_eq!(channel.recv(), Some(text("b")));
    assert_eq!(channel.recv(), Some(text("c")));
}

#[test]
fn closed_channel_takes_nothing_but_can_be_drained() {
    let mut channel = NotificationChannel::new();
    assert!(channel.try_send(text("a")).is_ok());
    channel.close();
    assert!(channel.is_closed());
    let rejected = channel.try_send(text("b")).err().unwrap();
    assert_eq!(rejected.reason, SendError::Closed);
    assert_eq!(rejected.hash, "b");
    assert_eq!(channel.recv(), Some(text("a")));
    assert_eq!(channel.recv(), None);
}

#[test]
fn closed_is_reported_before_full() {
    let mut channel = NotificationChannel::with_capacity(1).unwrap();
    assert!(channel.try_send(text("a")).is_ok());
    channel.close();
    assert_eq!(channel.try_send(text("b")).err().unwrap().reason, SendError::Closed);
}

#[test]
fn send_all_takes_what_fits_in_order() {
    let mut channel = NotificationChannel::with_capacity(3).unwrap();
    assert!(channel.try_send(text("a")).is_ok());
    let rest = channel.send_all(vec![text("b"), text("c"), text("d"), text("e")]);
    assert_eq!(rest, vec![text("d"), text("e")]);
    assert_eq!(channel.recv(), Some(text("a")));
    assert_eq!(channel.recv(), Some(text("b")));
    assert_eq!(channel.recv(), Some(text("c")));
    assert_eq!(channel.send_all(rest), Vec::<String>::new());
    assert_eq!(channel.recv(), Some(text("d")));
    assert_eq!(channel.recv(), Some(text("e")));
}

#[test]
fn send_all_on_closed_channel_returns_everything() {
    let mut channel = NotificationChannel::new();
    channel.close();
    assert_eq!(channel.send_all(vec![text("a"), text("b")]), vec![text("a"), text("b")]);
    assert!(channel.is_empty());
}

#[test]
fn send_all_of_nothing() {
    let mut channel = NotificationChannel::new();
    assert!(channel.send_all(Vec::new()).is_empty());
    assert!(channel.is_empty());
}

#[test]
fn failures_are_handled_by_kind() {
    assert_eq!(handling(PipelineError::Malformed), Handling::Absorb);
    assert_eq!(handling(PipelineError::ConnectFailed), Handling::Reconnect);
    assert_eq!(handling(PipelineError::StreamRead), Handling::Reconnect);
    assert_eq!(handling(PipelineError::ChannelClosed), Handling::Exit);
}

#[test]
fn subscription_connects_then_streams() {
    let state = ConnectionState::Disconnected;
    let (state, action) = state.on_event(LinkEvent::Subscribe);
    assert_eq!((state, action), (ConnectionState::Connecting, LinkAction::Connect));
    let (state, action) = state.on_event(LinkEvent::Connected);
    assert_eq!((state, action), (ConnectionState::Streaming, LinkAction::Read));
}

#[test]
fn failed_connect_faults_and_retries_after_one_second() {
    let (state, action) =
        ConnectionState::Connecting.on_event(LinkEvent::Failure(PipelineError::ConnectFailed));
    assert_eq!((state, action), (ConnectionState::Faulted, LinkAction::RetryAfter(1000)));
    assert!(state.is_down());
    let (state, action) = state.on_event(LinkEvent::RetryElapsed);
    assert_eq!((state, action), (ConnectionState::Connecting, LinkAction::Connect));
    assert!(!state.is_down());
}

#[test]
fn retries_never_run_out() {
    let mut state = ConnectionState::Connecting;
    for _ in 0..1000 {
        let (faulted, action) = state.on_event(LinkEvent::Failure(PipelineError::ConnectFailed));
        assert_eq!((faulted, action), (ConnectionState::Faulted, LinkAction::RetryAfter(1000)));
        let (again, action) = faulted.on_event(LinkEvent::RetryElapsed);
        assert_eq!((again, action), (ConnectionState::Connecting, LinkAction::Connect));
        state = again;
    }
}

#[test]
fn malformed_frame_changes_no_state() {
    for state in [
        ConnectionState::Disconnected,
        ConnectionState::Connecting,
        ConnectionState::Streaming,
        ConnectionState::Faulted,
    ] {
        assert_eq!(
            state.on_event(LinkEvent::Failure(PipelineError::Malformed)),
            (state, LinkAction::Idle)
        );
    }
}

#[test]
fn closed_channel_ends_the_transport() {
    assert_eq!(
        ConnectionState::Streaming.on_event(LinkEvent::Failure(PipelineError::ChannelClosed)),
        (ConnectionState::Disconnected, LinkAction::Close)
    );
}

#[test]
fn cancel_closes_and_stops_retries() {
    for state in [ConnectionState::Connecting, ConnectionState::Streaming, ConnectionState::Faulted] {
        assert_eq!(
            state.on_event(LinkEvent::Cancel),
            (ConnectionState::Disconnected, LinkAction::Close)
        );
    }
    let idle = (ConnectionState::Disconnected, LinkAction::Idle);
    assert_eq!(ConnectionState::Disconnected.on_event(LinkEvent::Cancel), idle);
    assert_eq!(ConnectionState::Disconnected.on_event(LinkEvent::RetryElapsed), idle);
    assert_eq!(ConnectionState::Disconnected.on_event(LinkEvent::Connected), idle);
    assert_eq!(
        ConnectionState::Disconnected.on_event(LinkEvent::Failure(PipelineError::StreamRead)),
        idle
    );
}

#[test]
fn events_that_do_not_apply_change_nothing() {
    assert_eq!(
        ConnectionState::Streaming.on_event(LinkEvent::Subscribe),
        (ConnectionState::Streaming, LinkAction::Idle)
    );
    assert_eq!(
        ConnectionState::Streaming.on_event(LinkEvent::RetryElapsed),
        (ConnectionState::Streaming, LinkAction::Idle)
    );
    assert_eq!(
        ConnectionState::Faulted.on_event(LinkEvent::Connected),
        (ConnectionState::Faulted, LinkAction::Idle)
    );
    assert_eq!(
        ConnectionState::Faulted.on_event(LinkEvent::Failure(PipelineError::StreamRead)),
        (ConnectionState::Faulted, LinkAction::Idle)
    );
}

#[test]
fn new_multiplexer_is_disconnected_and_empty() {
    let multiplexer = Multiplexer::new();
    assert_eq!(multiplexer.state(PullTransport::Sse), ConnectionState::Disconnected);
    assert_eq!(multiplexer.state(PullTransport::WebSocket), ConnectionState::Disconnected);
    assert_eq!(multiplexer.queued(), 0);
    assert!(!multiplexer.is_down(PullTransport::Sse));
}

#[test]
fn transports_do_not_touch_each_other() {
    let mut multiplexer = Multiplexer::new();
    assert_eq!(multiplexer.handle(PullTransport::Sse, LinkEvent::Subscribe), LinkAction::Connect);
    assert_eq!(multiplexer.state(PullTransport::Sse), ConnectionState::Connecting);
    assert_eq!(multiplexer.state(PullTransport::WebSocket), ConnectionState::Disconnected);
    assert_eq!(
        multiplexer.handle(PullTransport::WebSocket, LinkEvent::Subscribe),
        LinkAction::Connect
    );
    assert_eq!(
        multiplexer.handle(PullTransport::WebSocket, LinkEvent::Failure(PipelineError::ConnectFailed)),
        LinkAction::RetryAfter(1000)
    );
    assert!(multiplexer.is_down(PullTransport::WebSocket));
    assert_eq!(multiplexer.state(PullTransport::Sse), ConnectionState::Connecting);
}

#[test]
fn sse_event_reaches_the_channel() {
    let mut multiplexer = Multiplexer::new();
    let mut ingestor = SseIngestor::new();
    multiplexer.handle(PullTransport::Sse, LinkEvent::Subscribe);
    multiplexer.handle(PullTransport::Sse, LinkEvent::Connected);
    let mut hashes = ingestor.feed(b"event: payment-received\n");
    hashes.extend(ingestor.feed(b"data: {\"payment_hash\":\"abc123\"}\n"));
    assert!(multiplexer.deliver_all(hashes).is_empty());
    assert_eq!(multiplexer.take(), Some(text("abc123")));
    assert_eq!(multiplexer.take(), None);
}

#[test]
fn websocket_frame_reaches_the_channel() {
    let mut multiplexer = Multiplexer::new();
    let paid = text("{\"payment\":{\"payment_hash\":\"def456\",\"amount\":1000}}");
    let unpaid = text("{\"payment\":{\"payment_hash\":\"def456\",\"amount\":0}}");
    for frame in [paid, unpaid] {
        let step = on_socket_read(&SocketRead::Message(SocketMessage::Text(frame)));
        if let Some(hash) = step.hash {
            assert!(multiplexer.deliver(hash).is_ok());
        }
    }
    assert_eq!(multiplexer.queued(), 1);
    assert_eq!(multiplexer.take(), Some(text("def456")));
    assert_eq!(multiplexer.take(), None);
}

#[test]
fn webhook_call_reaches_the_channel() {
    let mut multiplexer = Multiplexer::new();
    let reply = handle_body("{\"checking_id\":\"ghi789\"}");
    assert_eq!(reply.status, 200);
    assert_eq!(reply.forward, Some(text("ghi789")));
    assert!(multiplexer.deliver(reply.forward.unwrap()).is_ok());
    assert_eq!(multiplexer.take(), Some(text("ghi789")));
}

#[test]
fn webhook_call_without_checking_id_is_unprocessable() {
    let reply = handle_body("{}");
    assert_eq!(reply.status, 422);
    assert_eq!(reply.forward, None);
}

#[test]
fn webhook_call_with_malformed_body_is_unprocessable() {
    for body in ["", "{", "checking_id=ghi789"] {
        let reply = handle_body(body);
        assert_eq!(reply.status, STATUS_UNPROCESSABLE_ENTITY);
        assert_eq!(reply.forward, None);
    }
}

#[test]
fn webhook_payload_is_answered() {
    let payload: serde_json::Value =
        serde_json::from_str("{\"checking_id\":\"ghi789\",\"amount\":3}").unwrap();
    let reply = handle_invoice(&payload);
    assert_eq!(reply.status, STATUS_OK);
    assert_eq!(reply.forward, Some(text("ghi789")));
    let request = WebhookRequest::from_document(&payload).unwrap();
    assert_eq!(request.checking_id, "ghi789");
    let other: serde_json::Value = serde_json::from_str("{\"checking_id\":null}").unwrap();
    assert!(WebhookRequest::from_document(&other).is_none());
    assert_eq!(handle_invoice(&other).status, 422);
}

#[test]
fn failed_stream_reconnects_without_losing_notifications() {
    let mut multiplexer = Multiplexer::new();
    let mut ingestor = SseIngestor::new();
    multiplexer.handle(PullTransport::Sse, LinkEvent::Subscribe);
    multiplexer.handle(PullTransport::Sse, LinkEvent::Connected);
    let step = ingestor.on_read(ReadOutcome::Chunk(
        b"event: payment-received\ndata: {\"payment_hash\":\"abc123\"}\n".to_vec(),
    ));
    assert!(multiplexer.deliver_all(step.hashes).is_empty());
    let step = ingestor.on_read(ReadOutcome::Failed);
    assert_eq!(step.verdict, StreamVerdict::End);
    let action = multiplexer.handle(PullTransport::Sse, LinkEvent::Failure(PipelineError::StreamRead));
    assert_eq!(action, LinkAction::RetryAfter(1000));
    assert_eq!(multiplexer.state(PullTransport::Sse), ConnectionState::Faulted);
    assert!(multiplexer.is_down(PullTransport::Sse));
    assert_eq!(multiplexer.queued(), 1);
    let action = multiplexer.handle(PullTransport::Sse, LinkEvent::RetryElapsed);
    assert_eq!(action, LinkAction::Connect);
    assert_eq!(multiplexer.state(PullTransport::Sse), ConnectionState::Connecting);
    assert_eq!(multiplexer.queued(), 1);
    assert_eq!(multiplexer.take(), Some(text("abc123")));
}

#[test]
fn same_payment_from_two_transports_is_delivered_twice() {
    let mut multiplexer = Multiplexer::new();
    assert!(multiplexer.deliver(text("p")).is_ok());
    assert!(multiplexer.deliver(text("p")).is_ok());
    assert_eq!(multiplexer.queued(), 2);
    assert_eq!(multiplexer.take(), Some(text("p")));
    assert_eq!(multiplexer.take(), Some(text("p")));
}

#[test]
fn multiplexer_pushes_back_when_full() {
    let mut multiplexer = Multiplexer::new();
    let hashes: Vec<String> = (0..10).map(|i| format!("h{}", i)).collect();
    let rest = multiplexer.deliver_all(hashes);
    assert_eq!(rest, vec![text("h8"), text("h9")]);
    assert_eq!(multiplexer.queued(), 8);
    let rejected = multiplexer.deliver(text("late")).err().unwrap();
    assert_eq!(rejected.reason, SendError::Full);
    assert_eq!(rejected.hash, "late");
    assert_eq!(multiplexer.take(), Some(text("h0")));
    let rest = multiplexer.deliver_all(rest);
    assert_eq!(rest, vec![text("h9")]);
}

#[test]
fn cancellation_leaves_the_channel_for_draining() {
    let mut multiplexer = Multiplexer::new();
    multiplexer.handle(PullTransport::WebSocket, LinkEvent::Subscribe);
    multiplexer.handle(PullTransport::WebSocket, LinkEvent::Connected);
    assert!(multiplexer.deliver(text("kept")).is_ok());
    assert_eq!(multiplexer.handle(PullTransport::WebSocket, LinkEvent::Cancel), LinkAction::Close);
    assert_eq!(multiplexer.state(PullTransport::WebSocket), ConnectionState::Disconnected);
    assert_eq!(multiplexer.handle(PullTransport::WebSocket, LinkEvent::RetryElapsed), LinkAction::Idle);
    assert_eq!(multiplexer.take(), Some(text("kept")));
}

#[test]
fn closing_the_channel_keeps_what_is_queued() {
    let mut multiplexer = Multiplexer::new();
    assert!(multiplexer.deliver(text("kept")).is_ok());
    multiplexer.close_channel();
    let rejected = multiplexer.deliver(text("lost")).err().unwrap();
    assert_eq!(rejected.reason, SendError::Closed);
    assert_eq!(multiplexer.take(), Some(text("kept")));
}
