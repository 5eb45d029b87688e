use ws_transport::client::{ClientRequest, WebSocketClient};
use ws_transport::codec::WebSocketIO;
use ws_transport::connect::{
    AttemptOutcome, ConnectStep, ConnectionError, Establisher, CONNECT_TIMEOUT_SECS, MAX_ATTEMPTS,
    RETRY_DELAY_MS,
};
use ws_transport::error::{Incident, IoErrorKind, Severity, TransportError};
use ws_transport::message::Message;

struct Plain;

impl WebSocketIO for Plain {
    type Input = Vec<u8>;
    type Output = Vec<u8>;

    fn to_input(data: Vec<u8>) -> Vec<u8> {
        data
    }

    fn to_message(input: Vec<u8>) -> Message {
        Message::Binary(input)
    }

    fn from_message(msg: Message) -> Option<Vec<u8>> {
        match msg {
            Message::Binary(data) => Some(data),
            _ => None,
        }
    }
}

fn client() -> WebSocketClient {
    WebSocketClient::new(ClientRequest {
        uri: "ws://localhost:8080/listen".to_string(),
        headers: vec![("Authorization".to_string(), "Bearer token".to_string())],
        subprotocols: vec![],
    })
}

/// Reports the outcomes one after the other, as a caller would, and returns
/// the last answer with the number of attempts made and the delays waited.
fn run(outcomes: &[AttemptOutcome]) -> (Option<ConnectStep<Plain>>, usize, Vec<u64>) {
    let mut establisher: Establisher<Plain> = client().from_audio();
    let mut attempts = 0;
    let mut delays = Vec::new();
    for outcome in outcomes {
        attempts += 1;
        assert_eq!(establisher.attempt_number(), attempts);
        match establisher.on_outcome(*outcome) {
            ConnectStep::Retry { establisher: next, delay_ms } => {
                delays.push(delay_ms);
                establisher = next;
            }
            last => return (Some(last), attempts, delays),
        }
    }
    (None, attempts, delays)
}

fn refused() -> AttemptOutcome {
    AttemptOutcome::Failed(TransportError::Io(IoErrorKind::Other))
}

#[test]
fn timing_constants() {
    assert_eq!(MAX_ATTEMPTS, 20);
    assert_eq!(RETRY_DELAY_MS, 500);
    assert_eq!(CONNECT_TIMEOUT_SECS, 8);
}

#[test]
fn client_keeps_its_request() {
    let request = ClientRequest {
        uri: "wss://example.org/stream".to_string(),
        headers: vec![("X-Key".to_string(), "1".to_string())],
        subprotocols: vec!["v1".to_string()],
    };
    let client = WebSocketClient::new(request.clone());
    assert_eq!(client.get_request(), &request);
}

#[test]
fn first_attempt_connects() {
    let (last, attempts, delays) = run(&[AttemptOutcome::Connected]);
    assert!(matches!(last, Some(ConnectStep::Established(_))));
    assert_eq!(attempts, 1);
    assert!(delays.is_empty());
}

#[test]
fn establishes_on_the_twentieth_attempt() {
    let mut outcomes = vec![refused(); 19];
    outcomes.push(AttemptOutcome::Connected);
    // A twenty-first outcome that must never be asked for.
    outcomes.push(AttemptOutcome::Connected);
    let (last, attempts, delays) = run(&outcomes);
    assert!(matches!(last, Some(ConnectStep::Established(_))));
    assert_eq!(attempts, 20);
    assert_eq!(delays, vec![500; 19]);
}

#[test]
fn fails_after_twenty_failures() {
    let mut outcomes = vec![refused(); 19];
    outcomes.push(AttemptOutcome::TimedOut);
    outcomes.push(AttemptOutcome::Connected);
    let (last, attempts, delays) = run(&outcomes);
    match last {
        Some(ConnectStep::Failed(error)) => assert_eq!(error, ConnectionError::TimedOut),
        _ => panic!("the operation must fail"),
    }
    assert_eq!(attempts, 20);
    assert_eq!(delays, vec![500; 19]);
}

#[test]
fn fails_with_the_error_of_the_last_attempt() {
    let mut outcomes = vec![AttemptOutcome::TimedOut; 19];
    outcomes.push(AttemptOutcome::Failed(TransportError::ConnectionClosed));
    let (last, attempts, _) = run(&outcomes);
    match last {
        Some(ConnectStep::Failed(error)) => {
            assert_eq!(error, ConnectionError::Transport(TransportError::ConnectionClosed))
        }
        _ => panic!("the operation must fail"),
    }
    assert_eq!(attempts, 20);
}

#[test]
fn nineteen_failures_leave_the_course_open() {
    let (last, attempts, delays) = run(&vec![AttemptOutcome::TimedOut; 19]);
    assert!(last.is_none());
    assert_eq!(attempts, 19);
    assert_eq!(delays.len(), 19);
}

#[test]
fn retries_after_a_timeout_and_after_a_failure() {
    let (last, attempts, delays) =
        run(&[AttemptOutcome::TimedOut, refused(), AttemptOutcome::Connected]);
    assert!(matches!(last, Some(ConnectStep::Established(_))));
    assert_eq!(attempts, 3);
    assert_eq!(delays, vec![500, 500]);
}

#[test]
fn invalid_request_fails_at_once() {
    let (last, attempts, delays) =
        run(&[AttemptOutcome::InvalidRequest, AttemptOutcome::Connected]);
    match last {
        Some(ConnectStep::Failed(error)) => assert_eq!(error, ConnectionError::InvalidRequest),
        _ => panic!("the operation must fail"),
    }
    assert_eq!(attempts, 1);
    assert!(delays.is_empty());
}

#[test]
fn invalid_request_fails_after_retries_too() {
    let (last, attempts, delays) =
        run(&[refused(), AttemptOutcome::TimedOut, AttemptOutcome::InvalidRequest]);
    match last {
        Some(ConnectStep::Failed(error)) => assert_eq!(error, ConnectionError::InvalidRequest),
        _ => panic!("the operation must fail"),
    }
    assert_eq!(attempts, 3);
    assert_eq!(delays, vec![500, 500]);
}

#[test]
fn failed_attempts_are_incidents() {
    assert_eq!(AttemptOutcome::Connected.to_incident(), None);
    assert_eq!(AttemptOutcome::TimedOut.to_incident(), Some(Incident::ConnectFailed));
    assert_eq!(refused().to_incident(), Some(Incident::ConnectFailed));
    assert_eq!(AttemptOutcome::InvalidRequest.to_incident(), Some(Incident::ConnectFailed));
    assert_eq!(Incident::ConnectFailed.severity(), Severity::Error);
}

#[test]
fn established_session_starts_both_loops() {
    let establisher: Establisher<Plain> = client().from_audio();
    match establisher.on_outcome(AttemptOutcome::Connected) {
        ConnectStep::Established(session) => {
            let (sender, receiver) = session.split();
            assert!(!sender.is_over());
            assert!(!receiver.has_ended());
        }
        _ => panic!("the session must be established"),
    }
}

#[test]
fn every_course_ends_within_twenty_attempts() {
    // The first success comes at attempt `k`; all attempts before it fail.
    for k in 1..=25usize {
        let mut outcomes = vec![AttemptOutcome::TimedOut; k - 1];
        outcomes.push(AttemptOutcome::Connected);
        let (last, attempts, delays) = run(&outcomes);
        if k <= MAX_ATTEMPTS {
            assert!(matches!(last, Some(ConnectStep::Established(_))));
            assert_eq!(attempts, k);
            assert_eq!(delays, vec![RETRY_DELAY_MS; k - 1]);
        } else {
            assert!(matches!(last, Some(ConnectStep::Failed(ConnectionError::TimedOut))));
            assert_eq!(attempts, MAX_ATTEMPTS);
            assert_eq!(delays, vec![RETRY_DELAY_MS; MAX_ATTEMPTS - 1]);
        }
    }
}
