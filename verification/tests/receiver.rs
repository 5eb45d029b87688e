use ws_transport::client::{ClientRequest, WebSocketClient};
use ws_transport::codec::WebSocketIO;
use ws_transport::connect::{AttemptOutcome, ConnectStep};
use ws_transport::error::{Incident, IoErrorKind, ProtocolFault, Severity, TransportError};
use ws_transport::message::{CloseFrame, Frame, FrameHeader, FrameKind, Message};
use ws_transport::receiver::{
    interpret, Inbound, ReceiverAction, ReceiverEvent, ReceiverLoop, ReceiverStep,
    IDLE_TIMEOUT_SECS,
};

struct Words;

impl WebSocketIO for Words {
    type Input = Vec<u8>;
    type Output = String;

    fn to_input(data: Vec<u8>) -> Vec<u8> {
        data
    }

    fn to_message(input: Vec<u8>) -> Message {
        Message::Binary(input)
    }

    /// Text frames hold a word, unless they are empty. Binary frames hold
    /// nothing for the consumer.
    fn from_message(msg: Message) -> Option<String> {
        match msg {
            Message::Text(text) if !text.is_empty() => Some(text),
            _ => None,
        }
    }
}

fn receiver() -> ReceiverLoop<Words> {
    let client = WebSocketClient::new(ClientRequest {
        uri: "ws://localhost/listen".to_string(),
        headers: vec![],
        subprotocols: vec![],
    });
    match client.from_audio::<Words>().on_outcome(AttemptOutcome::Connected) {
        ConnectStep::Established(session) => session.split().1,
        _ => panic!("the session must be established"),
    }
}

fn text(word: &str) -> ReceiverEvent {
    ReceiverEvent::Frame(Message::Text(word.to_string()))
}

fn raw_frame() -> Message {
    Message::Frame(Frame {
        header: FrameHeader {
            is_final: true,
            rsv1: false,
            rsv2: false,
            rsv3: false,
            opcode: 2,
            mask: None,
        },
        payload: vec![1, 2],
    })
}

fn quiet(action: ReceiverAction<String>) -> ReceiverStep<String> {
    ReceiverStep { action, incident: None }
}

/// Feeds the events to the loop, as a caller would, until the loop answers
/// `End`, and returns the results it yields.
fn results_of(receiver: &mut ReceiverLoop<Words>, events: Vec<ReceiverEvent>) -> Vec<String> {
    let mut results = Vec::new();
    for event in events {
        match receiver.step(event).action {
            ReceiverAction::Yield(result) => results.push(result),
            ReceiverAction::Continue => {}
            ReceiverAction::End => break,
        }
    }
    results
}

#[test]
fn idle_timeout_constant() {
    assert_eq!(IDLE_TIMEOUT_SECS, 30);
}

#[test]
fn frame_kinds() {
    assert_eq!(Message::Text("a".to_string()).kind(), FrameKind::Text);
    assert_eq!(Message::Binary(vec![1]).kind(), FrameKind::Binary);
    assert_eq!(Message::Ping(vec![]).kind(), FrameKind::Ping);
    assert_eq!(Message::Pong(vec![]).kind(), FrameKind::Pong);
    assert_eq!(Message::Close(None).kind(), FrameKind::Close);
    assert_eq!(raw_frame().kind(), FrameKind::Other);
    assert!(FrameKind::Text.is_data());
    assert!(FrameKind::Binary.is_data());
    assert!(!FrameKind::Ping.is_data());
    assert!(!FrameKind::Pong.is_data());
    assert!(!FrameKind::Close.is_data());
    assert!(!FrameKind::Other.is_data());
}

#[test]
fn two_results_then_close_yields_exactly_those_two() {
    let mut receiver = receiver();
    let events = vec![
        text("hello"),
        text("world"),
        ReceiverEvent::Frame(Message::Close(None)),
        text("late"),
    ];
    assert_eq!(results_of(&mut receiver, events), vec!["hello".to_string(), "world".to_string()]);
    assert!(receiver.has_ended());
    assert_eq!(receiver.step(text("later")), quiet(ReceiverAction::End));
}

#[test]
fn close_with_a_close_frame_ends_the_sequence() {
    let mut receiver = receiver();
    let close = Message::Close(Some(CloseFrame { code: 1000, reason: "done".to_string() }));
    assert_eq!(receiver.step(ReceiverEvent::Frame(close)), quiet(ReceiverAction::End));
    assert!(receiver.has_ended());
}

#[test]
fn idle_timeout_ends_an_empty_sequence_without_error() {
    let mut receiver = receiver();
    let step = receiver.step(ReceiverEvent::IdleTimeout);
    assert_eq!(
        step,
        ReceiverStep { action: ReceiverAction::End, incident: Some(Incident::IdleTimeout) }
    );
    assert_eq!(Incident::IdleTimeout.severity(), Severity::Warn);
    assert!(receiver.has_ended());
}

#[test]
fn idle_timeout_after_results_keeps_them() {
    let mut receiver = receiver();
    let events = vec![text("one"), ReceiverEvent::IdleTimeout, text("two")];
    assert_eq!(results_of(&mut receiver, events), vec!["one".to_string()]);
}

#[test]
fn end_of_stream_ends_the_sequence() {
    let mut receiver = receiver();
    assert_eq!(receiver.step(ReceiverEvent::EndOfStream), quiet(ReceiverAction::End));
    assert!(receiver.has_ended());
}

#[test]
fn data_frame_is_decoded_and_yielded() {
    let mut receiver = receiver();
    assert_eq!(receiver.step(text("word")), quiet(ReceiverAction::Yield("word".to_string())));
    assert!(!receiver.has_ended());
}

#[test]
fn data_frame_without_result_is_passed_over() {
    let mut receiver = receiver();
    assert_eq!(receiver.step(text("")), quiet(ReceiverAction::Continue));
    assert_eq!(
        receiver.step(ReceiverEvent::Frame(Message::Binary(vec![1, 2, 3]))),
        quiet(ReceiverAction::Continue)
    );
    assert!(!receiver.has_ended());
}

#[test]
fn control_frames_are_ignored() {
    let mut receiver = receiver();
    let events = vec![
        ReceiverEvent::Frame(Message::Ping(vec![1])),
        text("a"),
        ReceiverEvent::Frame(Message::Pong(vec![])),
        ReceiverEvent::Frame(raw_frame()),
        text("b"),
    ];
    assert_eq!(results_of(&mut receiver, events), vec!["a".to_string(), "b".to_string()]);
    assert!(!receiver.has_ended());
}

#[test]
fn reset_without_handshake_is_a_low_incident() {
    let mut receiver = receiver();
    let reset = TransportError::Protocol(ProtocolFault::ResetWithoutClosingHandshake);
    let step = receiver.step(ReceiverEvent::Failed(reset));
    assert_eq!(
        step,
        ReceiverStep { action: ReceiverAction::End, incident: Some(Incident::ReceiveReset) }
    );
    assert_eq!(Incident::ReceiveReset.severity(), Severity::Debug);
    assert!(receiver.has_ended());
}

#[test]
fn other_receive_error_is_a_high_incident() {
    for error in [
        TransportError::Other,
        TransportError::ConnectionClosed,
        TransportError::AlreadyClosed,
        TransportError::Io(IoErrorKind::BrokenPipe),
        TransportError::Protocol(ProtocolFault::SendAfterClosing),
    ] {
        let mut receiver = receiver();
        let step = receiver.step(ReceiverEvent::Failed(error));
        assert_eq!(
            step,
            ReceiverStep { action: ReceiverAction::End, incident: Some(Incident::ReceiveFailed) }
        );
        assert_eq!(Incident::ReceiveFailed.severity(), Severity::Error);
        assert!(receiver.has_ended());
    }
}

#[test]
fn ended_receiver_does_not_decode() {
    let mut receiver = receiver();
    receiver.step(ReceiverEvent::EndOfStream);
    let later =
        [text("x"), ReceiverEvent::IdleTimeout, ReceiverEvent::Failed(TransportError::Other)];
    for event in later {
        assert_eq!(receiver.step(event), quiet(ReceiverAction::End));
    }
}

#[test]
fn interpret_tells_events_apart() {
    assert_eq!(interpret::<Words>(text("w")), Inbound::Data(Some("w".to_string())));
    assert_eq!(interpret::<Words>(text("")), Inbound::Data(None));
    assert_eq!(
        interpret::<Words>(ReceiverEvent::Frame(Message::Binary(vec![]))),
        Inbound::Data(None)
    );
    assert_eq!(interpret::<Words>(ReceiverEvent::Frame(Message::Ping(vec![]))), Inbound::Control);
    assert_eq!(interpret::<Words>(ReceiverEvent::Frame(Message::Pong(vec![]))), Inbound::Control);
    assert_eq!(interpret::<Words>(ReceiverEvent::Frame(raw_frame())), Inbound::Control);
    assert_eq!(interpret::<Words>(ReceiverEvent::Frame(Message::Close(None))), Inbound::Close);
    assert_eq!(
        interpret::<Words>(ReceiverEvent::Failed(TransportError::Other)),
        Inbound::Failed(TransportError::Other)
    );
    assert_eq!(interpret::<Words>(ReceiverEvent::EndOfStream), Inbound::EndOfStream);
    assert_eq!(interpret::<Words>(ReceiverEvent::IdleTimeout), Inbound::IdleTimeout);
}

#[test]
fn settle_follows_the_rules() {
    let mut receiver = receiver();
    assert_eq!(
        receiver.settle(Inbound::Data(Some("a".to_string()))),
        quiet(ReceiverAction::Yield("a".to_string()))
    );
    assert_eq!(receiver.settle(Inbound::Data(None)), quiet(ReceiverAction::Continue));
    assert_eq!(receiver.settle(Inbound::Control), quiet(ReceiverAction::Continue));
    assert!(!receiver.has_ended());
    assert_eq!(receiver.settle(Inbound::Close), quiet(ReceiverAction::End));
    assert!(receiver.has_ended());
    assert_eq!(receiver.settle(Inbound::Data(Some("b".to_string()))), quiet(ReceiverAction::End));
}

#[test]
fn transport_error_classes() {
    assert!(TransportError::AlreadyClosed.is_normal_close());
    assert!(TransportError::ConnectionClosed.is_normal_close());
    assert!(TransportError::Protocol(ProtocolFault::SendAfterClosing).is_normal_close());
    assert!(TransportError::Io(IoErrorKind::BrokenPipe).is_normal_close());
    assert!(!TransportError::Io(IoErrorKind::Other).is_normal_close());
    assert!(!TransportError::Protocol(ProtocolFault::Other).is_normal_close());
    assert!(!TransportError::Protocol(ProtocolFault::ResetWithoutClosingHandshake)
        .is_normal_close());
    assert!(!TransportError::Other.is_normal_close());
    assert!(TransportError::Protocol(ProtocolFault::ResetWithoutClosingHandshake)
        .is_abrupt_reset());
    assert!(!TransportError::Protocol(ProtocolFault::SendAfterClosing).is_abrupt_reset());
    assert!(!TransportError::ConnectionClosed.is_abrupt_reset());
    assert_eq!(TransportError::AlreadyClosed.classify_send(), Incident::SendClosed);
    assert_eq!(TransportError::Other.classify_send(), Incident::SendFailed);
    assert_eq!(
        TransportError::Protocol(ProtocolFault::ResetWithoutClosingHandshake).classify_receive(),
        Incident::ReceiveReset
    );
    assert_eq!(TransportError::AlreadyClosed.classify_receive(), Incident::ReceiveFailed);
}

fn inbound_of(code: usize) -> (ReceiverEvent, Option<&'static str>, bool) {
    match code {
        0 => (text("a"), Some("a"), false),
        1 => (text("b"), Some("b"), false),
        2 => (text(""), None, false),
        3 => (ReceiverEvent::Frame(Message::Ping(vec![])), None, false),
        4 => (ReceiverEvent::Frame(Message::Close(None)), None, true),
        5 => (ReceiverEvent::Failed(TransportError::Other), None, true),
        6 => (ReceiverEvent::EndOfStream, None, true),
        _ => (ReceiverEvent::IdleTimeout, None, true),
    }
}

#[test]
fn every_short_run_yields_the_results_before_the_first_end() {
    let length = 5;
    for code in 0..8usize.pow(length) {
        let mut receiver = receiver();
        let mut rest = code;
        let mut expected = Vec::new();
        let mut yielded = Vec::new();
        let mut over = false;
        for _ in 0..length {
            let (event, result, ends) = inbound_of(rest % 8);
            rest /= 8;
            if !over {
                if let Some(result) = result {
                    expected.push(result.to_string());
                }
            }
            over = over || ends;
            match receiver.step(event).action {
                ReceiverAction::Yield(result) => yielded.push(result),
                ReceiverAction::Continue => assert!(!over),
                ReceiverAction::End => assert!(over),
            }
            assert_eq!(receiver.has_ended(), over);
        }
        assert_eq!(yielded, expected);
    }
}
