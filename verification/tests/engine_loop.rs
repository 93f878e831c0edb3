use binance::config::Config;
use binance::engine::{
    handle_event, run_script, DecimalEvent, Frame, LoopAction, LoopEvent, LoopExit, Phase,
    ScriptRun, ScriptStep, StreamEvent, StreamingSession,
};
use binance::errors::Error;

fn text(payload: &[u8]) -> ScriptStep {
    ScriptStep { running: true, event: LoopEvent::Received(Frame::Text(payload.to_vec())) }
}

fn ping(payload: &[u8]) -> ScriptStep {
    ScriptStep { running: true, event: LoopEvent::Received(Frame::Ping(payload.to_vec())) }
}

fn run(steps: Vec<ScriptStep>) -> ScriptRun<DecimalEvent> {
    run_script::<DecimalEvent>(&steps)
}

#[test]
fn decode_decimal_payloads() {
    assert_eq!(DecimalEvent::decode(b"0"), Some(DecimalEvent { value: 0 }));
    assert_eq!(DecimalEvent::decode(b"42"), Some(DecimalEvent { value: 42 }));
    assert_eq!(
        DecimalEvent::decode(b"9999999999999999999"),
        Some(DecimalEvent { value: 9999999999999999999 })
    );
    assert_eq!(DecimalEvent::decode(b""), None);
    assert_eq!(DecimalEvent::decode(b"12a"), None);
    assert_eq!(DecimalEvent::decode(b"12345678901234567890"), None);
}

#[test]
fn empty_text_frame_is_graceful_end() {
    let a = handle_event(LoopEvent::Received(Frame::Text(Vec::new())));
    assert!(matches!(a, LoopAction::ExitOk));
}

#[test]
fn text_frame_is_forwarded_unchanged() {
    let a = handle_event(LoopEvent::Received(Frame::Text(b"137".to_vec())));
    match a {
        LoopAction::Forward(p) => assert_eq!(p, b"137".to_vec()),
        _ => panic!("expected a forward action"),
    }
}

#[test]
fn ping_frame_demands_matching_pong() {
    let a = handle_event(LoopEvent::Received(Frame::Ping(b"probe".to_vec())));
    match a {
        LoopAction::Pong(p) => assert_eq!(p, b"probe".to_vec()),
        _ => panic!("expected a pong action"),
    }
}

#[test]
fn ignored_frames_continue_the_loop() {
    assert!(matches!(
        handle_event(LoopEvent::Received(Frame::Pong(b"x".to_vec()))),
        LoopAction::Continue
    ));
    assert!(matches!(
        handle_event(LoopEvent::Received(Frame::Binary(b"x".to_vec()))),
        LoopAction::Continue
    ));
    assert!(matches!(
        handle_event(LoopEvent::Received(Frame::Continuation(b"x".to_vec()))),
        LoopAction::Continue
    ));
}

#[test]
fn close_frame_is_fatal_and_carries_the_reason() {
    let a = handle_event(LoopEvent::Received(Frame::Close(Some("going away".to_string()))));
    match a {
        LoopAction::ExitErr(Error::ProtocolViolation(m)) => assert_eq!(m, "going away"),
        _ => panic!("expected a protocol-violation exit"),
    }
}

#[test]
fn read_failure_is_a_transport_error() {
    let a = handle_event(LoopEvent::ReadFailure("connection reset".to_string()));
    match a {
        LoopAction::ExitErr(Error::TransportFailure(m)) => assert_eq!(m, "connection reset"),
        _ => panic!("expected a transport-failure exit"),
    }
}

#[test]
fn exhausted_stream_is_a_protocol_violation() {
    let a = handle_event(LoopEvent::Exhausted);
    assert!(matches!(a, LoopAction::ExitErr(Error::ProtocolViolation(_))));
}

#[test]
fn scripted_graceful_end_delivers_nothing() {
    let r = run(vec![text(b"")]);
    assert!(r.delivered.is_empty());
    assert!(r.pongs.is_empty());
    assert!(matches!(r.exit, LoopExit::GracefulEnd));
}

#[test]
fn scripted_events_arrive_in_order() {
    let r = run(vec![text(b"1"), text(b"2"), text(b"3")]);
    assert_eq!(
        r.delivered,
        vec![
            DecimalEvent { value: 1 },
            DecimalEvent { value: 2 },
            DecimalEvent { value: 3 }
        ]
    );
    assert!(matches!(r.exit, LoopExit::StillRunning));
}

#[test]
fn scripted_ping_is_answered_and_loop_continues() {
    let r = run(vec![ping(b"keep-alive"), text(b"5")]);
    assert_eq!(r.pongs, vec![b"keep-alive".to_vec()]);
    assert_eq!(r.delivered, vec![DecimalEvent { value: 5 }]);
    assert!(matches!(r.exit, LoopExit::StillRunning));
}

#[test]
fn scripted_close_frame_faults() {
    let r = run(vec![
        text(b"8"),
        ScriptStep {
            running: true,
            event: LoopEvent::Received(Frame::Close(Some("bye".to_string()))),
        },
        text(b"9"),
    ]);
    assert_eq!(r.delivered, vec![DecimalEvent { value: 8 }]);
    match r.exit {
        LoopExit::Fault(Error::ProtocolViolation(m)) => assert_eq!(m, "bye"),
        _ => panic!("expected a protocol-violation fault"),
    }
}

#[test]
fn scripted_malformed_payload_faults_without_delivering() {
    let r = run(vec![text(b"1"), text(b"not a number"), text(b"2")]);
    assert_eq!(r.delivered, vec![DecimalEvent { value: 1 }]);
    assert!(matches!(r.exit, LoopExit::Fault(Error::DecodeFailure(_))));
}

#[test]
fn scripted_read_failure_faults() {
    let r = run(vec![ScriptStep {
        running: true,
        event: LoopEvent::ReadFailure("reset".to_string()),
    }]);
    match r.exit {
        LoopExit::Fault(Error::TransportFailure(m)) => assert_eq!(m, "reset"),
        _ => panic!("expected a transport-failure fault"),
    }
}

#[test]
fn scripted_exhausted_stream_faults() {
    let r = run(vec![ScriptStep { running: true, event: LoopEvent::Exhausted }]);
    assert!(matches!(r.exit, LoopExit::Fault(Error::ProtocolViolation(_))));
}

#[test]
fn stop_condition_halts_before_the_next_receive() {
    let r = run(vec![
        text(b"1"),
        ScriptStep {
            running: false,
            event: LoopEvent::Received(Frame::Text(b"2".to_vec())),
        },
        text(b"3"),
        ping(b"late"),
    ]);
    assert_eq!(r.delivered, vec![DecimalEvent { value: 1 }]);
    assert!(r.pongs.is_empty());
    assert!(matches!(r.exit, LoopExit::CleanStop));
}

#[test]
fn end_to_end_scenario() {
    // Connect, subscribe, then feed three valid text frames and one ping:
    // three decoded events in order, one pong, and the loop still running.
    let mut session = StreamingSession::new_with_options(Config::default());
    assert_eq!(session.phase, Phase::Idle);
    session.on_connect(true);
    assert_eq!(session.phase, Phase::Connected);
    assert!(session.can_subscribe());
    assert_eq!(
        session.ws_url("btcusdt@ticker"),
        "wss://stream.binance.com:9443/ws/btcusdt@ticker"
    );
    let steps = vec![text(b"10"), text(b"20"), ping(b"k"), text(b"30")];
    let r: ScriptRun<DecimalEvent> = session.run_event_loop(&steps);
    assert_eq!(
        r.delivered,
        vec![
            DecimalEvent { value: 10 },
            DecimalEvent { value: 20 },
            DecimalEvent { value: 30 }
        ]
    );
    assert_eq!(r.pongs, vec![b"k".to_vec()]);
    assert!(matches!(r.exit, LoopExit::StillRunning));
    assert_eq!(session.phase, Phase::Running);

    assert!(session.on_disconnect().is_ok());
    assert_eq!(session.phase, Phase::Disconnected);
}

#[test]
fn fatal_frame_stops_the_session() {
    let mut session = StreamingSession::new();
    session.on_connect(true);
    let steps = vec![ScriptStep {
        running: true,
        event: LoopEvent::Received(Frame::Close(None)),
    }];
    let r: ScriptRun<DecimalEvent> = session.run_event_loop(&steps);
    assert!(matches!(r.exit, LoopExit::Fault(Error::ProtocolViolation(_))));
    assert_eq!(session.phase, Phase::Stopped);
}

#[test]
fn stopped_session_enters_the_loop_via_begin_and_end() {
    let mut session = StreamingSession::new();
    session.on_connect(true);
    session.begin_loop();
    assert_eq!(session.phase, Phase::Running);
    session.end_loop();
    assert_eq!(session.phase, Phase::Stopped);
}

#[test]
fn connect_failure_leaves_the_session_idle() {
    let mut session = StreamingSession::new();
    session.on_connect(false);
    assert_eq!(session.phase, Phase::Idle);
}

#[test]
fn disconnect_without_a_connection_fails() {
    let mut session = StreamingSession::new();
    assert!(matches!(
        session.on_disconnect(),
        Err(Error::ProtocolViolation(_))
    ));
    assert_eq!(session.phase, Phase::Idle);
}
