use revolt::event::ClientToServerEvent;
use revolt::event::ServerToClientEvent;
use revolt::gateway::default_url;
use revolt::gateway::heartbeat_event;
use revolt::gateway::GatewayCore;
use revolt::gateway::GatewayError;
use revolt::gateway::InboundInput;
use revolt::gateway::InboundStep;
use revolt::gateway::NextEvent;
use revolt::gateway::HEARTBEAT_PERIOD_SECS;

fn poll_item(core: &mut GatewayCore) -> Result<ServerToClientEvent, GatewayError> {
    match core.poll_next() {
        NextEvent::Item(item) => item,
        other => panic!("expected a queued item, got {:?}", other),
    }
}

#[test]
fn authenticate_handshake_scenario() {
    let mut core = GatewayCore::new();
    core.send(ClientToServerEvent::Authenticate {
        token: "abc".to_string(),
    })
    .unwrap();
    assert_eq!(
        core.next_outbound().as_deref(),
        Some("{\"type\":\"Authenticate\",\"token\":\"abc\"}")
    );
    core.feed(InboundInput::Frame("{\"type\":\"Authenticated\"}".to_string()));
    assert_eq!(poll_item(&mut core), Ok(ServerToClientEvent::Authenticated));
}

#[test]
fn pong_scenario() {
    let mut core = GatewayCore::new();
    core.feed(InboundInput::Frame(
        "{\"type\":\"Pong\",\"data\":7}".to_string(),
    ));
    assert_eq!(
        poll_item(&mut core),
        Ok(ServerToClientEvent::Pong { data: 7 })
    );
}

#[test]
fn unknown_event_keeps_the_stream_alive() {
    let mut core = GatewayCore::new();
    core.feed(InboundInput::Frame(
        "{\"type\":\"NewFutureEvent\",\"foo\":1}".to_string(),
    ));
    core.feed(InboundInput::Frame(
        "{\"type\":\"Pong\",\"data\":1}".to_string(),
    ));
    assert_eq!(poll_item(&mut core), Ok(ServerToClientEvent::Unknown));
    assert_eq!(
        poll_item(&mut core),
        Ok(ServerToClientEvent::Pong { data: 1 })
    );
    assert!(matches!(core.poll_next(), NextEvent::Pending));
}

#[test]
fn decode_error_does_not_block_later_frames() {
    let mut core = GatewayCore::new();
    core.feed(InboundInput::Frame("{broken".to_string()));
    core.feed(InboundInput::Frame(
        "{\"type\":\"Pong\",\"data\":2}".to_string(),
    ));
    assert!(poll_item(&mut core).is_err());
    assert_eq!(
        poll_item(&mut core),
        Ok(ServerToClientEvent::Pong { data: 2 })
    );
    assert!(matches!(core.poll_next(), NextEvent::Pending));
}

#[test]
fn inbound_items_arrive_in_frame_order() {
    let mut core = GatewayCore::new();
    for k in 0..5u32 {
        core.feed(InboundInput::Frame(format!(
            "{{\"type\":\"Pong\",\"data\":{}}}",
            k
        )));
    }
    for k in 0..5u32 {
        assert_eq!(
            poll_item(&mut core),
            Ok(ServerToClientEvent::Pong { data: k })
        );
    }
}

#[test]
fn outbound_frames_keep_enqueue_order_across_heartbeats() {
    let mut core = GatewayCore::new();
    core.send(ClientToServerEvent::BeginTyping {
        channel: "c1".to_string(),
    })
    .unwrap();
    core.heartbeat().unwrap();
    core.send(ClientToServerEvent::EndTyping {
        channel: "c1".to_string(),
    })
    .unwrap();
    assert_eq!(
        core.next_outbound().as_deref(),
        Some("{\"type\":\"BeginTyping\",\"channel\":\"c1\"}")
    );
    assert_eq!(
        core.next_outbound().as_deref(),
        Some("{\"type\":\"Ping\",\"data\":0}")
    );
    assert_eq!(
        core.next_outbound().as_deref(),
        Some("{\"type\":\"EndTyping\",\"channel\":\"c1\"}")
    );
    assert_eq!(core.next_outbound(), None);
}

#[test]
fn one_heartbeat_tick_writes_one_ping() {
    let mut core = GatewayCore::new();
    core.feed(InboundInput::Frame(
        "{\"type\":\"Pong\",\"data\":9}".to_string(),
    ));
    core.heartbeat().unwrap();
    assert_eq!(
        core.next_outbound().as_deref(),
        Some("{\"type\":\"Ping\",\"data\":0}")
    );
    assert_eq!(core.next_outbound(), None);
}

#[test]
fn clean_close_ends_the_stream_without_an_error() {
    let mut core = GatewayCore::new();
    core.feed(InboundInput::Frame(
        "{\"type\":\"Authenticated\"}".to_string(),
    ));
    core.feed(InboundInput::Closed);
    assert_eq!(poll_item(&mut core), Ok(ServerToClientEvent::Authenticated));
    assert!(matches!(core.poll_next(), NextEvent::End));
    assert!(matches!(core.poll_next(), NextEvent::End));
}

#[test]
fn transport_error_is_delivered_then_the_stream_ends() {
    let mut core = GatewayCore::new();
    core.feed(InboundInput::TransportError("connection reset".to_string()));
    match poll_item(&mut core) {
        Err(GatewayError::Transport { detail }) => assert_eq!(detail, "connection reset"),
        other => panic!("expected a transport error, got {:?}", other),
    }
    assert!(matches!(core.poll_next(), NextEvent::End));
}

#[test]
fn send_fails_once_the_outbound_side_is_torn_down() {
    let mut core = GatewayCore::new();
    core.close_outbound();
    let r = core.send(ClientToServerEvent::Ping { data: 1 });
    assert!(matches!(r, Err(GatewayError::Transport { .. })));
    assert_eq!(core.next_outbound(), None);
}

#[test]
fn inbound_step_decisions() {
    match revolt::gateway::inbound_step(InboundInput::Frame(
        "{\"type\":\"Authenticated\"}".to_string(),
    )) {
        InboundStep::Deliver(item) => {
            assert_eq!(item, Ok(ServerToClientEvent::Authenticated));
        }
        other => panic!("expected delivery, got {:?}", other),
    }
    match revolt::gateway::inbound_step(InboundInput::TransportError("gone".to_string())) {
        InboundStep::DeliverStop(GatewayError::Transport { detail }) => {
            assert_eq!(detail, "gone");
        }
        other => panic!("expected a fatal delivery, got {:?}", other),
    }
    assert!(matches!(
        revolt::gateway::inbound_step(InboundInput::Closed),
        InboundStep::Stop
    ));
}

#[test]
fn heartbeat_constants() {
    assert_eq!(heartbeat_event(), ClientToServerEvent::Ping { data: 0 });
    assert_eq!(HEARTBEAT_PERIOD_SECS, 15);
    assert_eq!(default_url(), "wss://ws.revolt.chat");
}

#[test]
fn gateway_error_messages() {
    let e = GatewayError::Transport {
        detail: "boom".to_string(),
    };
    assert_eq!(e.message(), "boom");
    let e = revolt::gateway::GatewayError::Decode {
        reason: revolt::gateway::DecodeReason::Malformed,
    };
    assert_eq!(e.message(), "malformed frame");
}
