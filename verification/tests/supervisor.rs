use comfyui_client::errors::{ClientError, ClientResult};
use comfyui_client::frame::Frame;
use comfyui_client::json::Json;
use comfyui_client::meta::{
    ComfyEvent, ConnectionEvent, Event, ExecutionStartEventData, ExecutionSuccessEventData,
};
use comfyui_client::supervisor::{Action, Resume, Signal, State, Supervisor, BACKOFF_SECS};
use tokio::sync::mpsc::error::{TryRecvError, TrySendError};
use tokio_tungstenite::tungstenite::Error as SocketError;

fn text(frame: &str) -> Signal {
    Signal::Frame(Frame::Text(frame.to_string()))
}

fn active(reconnect: bool) -> Supervisor {
    let mut supervisor = Supervisor::new(reconnect);
    assert!(matches!(supervisor.step(Signal::Connected), Action::Read));
    assert_eq!(supervisor.state, State::Active);
    supervisor
}

fn comfy(item: ClientResult<Event>) -> ComfyEvent {
    match item {
        Ok(Event::Comfy(event)) => event,
        other => panic!("no notification: {:?}", other),
    }
}

fn all_states() -> Vec<State> {
    vec![
        State::Connecting,
        State::Active,
        State::Sending(Resume::Active),
        State::Sending(Resume::Waiting),
        State::Sending(Resume::Closed),
        State::Waiting,
        State::Reconnecting,
        State::Closed,
    ]
}

#[test]
fn new_supervisor_is_connecting() {
    let supervisor = Supervisor::new(true);
    assert_eq!(supervisor, Supervisor { reconnect: true, state: State::Connecting });
    assert!(!supervisor.is_closed());
    assert_eq!(BACKOFF_SECS, 1);
}

#[test]
fn first_connection_failure_is_reported_to_the_caller() {
    for reconnect in [true, false] {
        let mut supervisor = Supervisor::new(reconnect);
        let action = supervisor.step(Signal::ConnectFailed(SocketError::ConnectionClosed));
        assert!(matches!(
            action,
            Action::Fail(ClientError::Tungstenite(SocketError::ConnectionClosed))
        ));
        assert!(supervisor.is_closed());
    }
}

#[test]
fn mock_session_delivers_two_notifications_then_ends() {
    let mut supervisor = active(false);
    let mut received = Vec::new();
    let frames = [
        r#"{"type":"execution_start","data":{"prompt_id":"p1","timestamp":1}}"#,
        r#"{"type":"execution_success","data":{"prompt_id":"p1"}}"#,
    ];
    for frame in frames {
        match supervisor.step(text(frame)) {
            Action::Deliver(item) => received.push(comfy(item)),
            other => panic!("not delivered: {:?}", other),
        }
        assert_eq!(supervisor.state, State::Sending(Resume::Active));
        assert!(matches!(supervisor.step(Signal::Delivered), Action::Read));
        assert_eq!(supervisor.state, State::Active);
    }
    assert!(matches!(supervisor.step(Signal::SocketEnded), Action::Stop));
    assert!(supervisor.is_closed());
    assert_eq!(
        received,
        vec![
            ComfyEvent::ExecutionStart {
                data: ExecutionStartEventData { prompt_id: "p1".to_string(), timestamp: 1 },
            },
            ComfyEvent::ExecutionSuccess {
                data: ExecutionSuccessEventData { prompt_id: "p1".to_string() },
            },
        ]
    );
}

#[test]
fn unrecognized_frame_is_delivered_as_unknown() {
    let mut supervisor = active(true);
    let frame = r#"{"type":"crystools.monitor","data":{}}"#;
    match supervisor.step(text(frame)) {
        Action::Deliver(item) => {
            assert_eq!(comfy(item), ComfyEvent::Unknown(Json::parse(frame).unwrap()));
        }
        other => panic!("not delivered: {:?}", other),
    }
}

#[test]
fn frames_without_text_are_skipped() {
    let mut supervisor = active(true);
    for frame in [Frame::Ping(vec![1]), Frame::Pong(vec![]), Frame::Binary(vec![0]), Frame::Close] {
        assert!(matches!(supervisor.step(Signal::Frame(frame)), Action::Read));
        assert_eq!(supervisor.state, State::Active);
    }
}

#[test]
fn malformed_frame_is_delivered_and_reading_goes_on() {
    let mut supervisor = active(false);
    let action = supervisor.step(text("not json"));
    assert!(matches!(action, Action::Deliver(Err(ClientError::SerdeJson(_)))));
    assert_eq!(supervisor.state, State::Sending(Resume::Active));
    assert!(matches!(supervisor.step(Signal::Delivered), Action::Read));
    assert_eq!(supervisor.state, State::Active);
}

#[test]
fn reconnect_reports_each_failure_then_success() {
    let n = 3;
    let mut supervisor = active(true);
    let mut observed = Vec::new();
    match supervisor.step(Signal::ReadFailed(SocketError::AlreadyClosed)) {
        Action::Deliver(Ok(Event::Connection(ConnectionEvent::WSReceiveError(
            SocketError::AlreadyClosed,
        )))) => {}
        other => panic!("unexpected: {:?}", other),
    }
    assert!(matches!(supervisor.step(Signal::Delivered), Action::Sleep(1)));
    for _ in 0..n {
        assert_eq!(supervisor.state, State::Waiting);
        assert!(matches!(supervisor.step(Signal::BackoffElapsed), Action::Connect));
        assert_eq!(supervisor.state, State::Reconnecting);
        match supervisor.step(Signal::ConnectFailed(SocketError::ConnectionClosed)) {
            Action::Deliver(Ok(Event::Connection(event))) => observed.push(event),
            other => panic!("unexpected: {:?}", other),
        }
        assert!(matches!(supervisor.step(Signal::Delivered), Action::Sleep(1)));
    }
    assert!(matches!(supervisor.step(Signal::BackoffElapsed), Action::Connect));
    match supervisor.step(Signal::Connected) {
        Action::Deliver(Ok(Event::Connection(event))) => observed.push(event),
        other => panic!("unexpected: {:?}", other),
    }
    assert!(matches!(supervisor.step(Signal::Delivered), Action::Read));
    assert_eq!(supervisor.state, State::Active);
    assert_eq!(observed.len(), n + 1);
    for event in &observed[..n] {
        assert!(matches!(
            event,
            ConnectionEvent::WSReconnectError(ClientError::Tungstenite(
                SocketError::ConnectionClosed
            ))
        ));
    }
    assert!(matches!(observed[n], ConnectionEvent::WSReconnectSuccess));
    let frame = r#"{"type":"execution_success","data":{"prompt_id":"p2"}}"#;
    match supervisor.step(text(frame)) {
        Action::Deliver(item) => assert_eq!(
            comfy(item),
            ComfyEvent::ExecutionSuccess {
                data: ExecutionSuccessEventData { prompt_id: "p2".to_string() },
            }
        ),
        other => panic!("not delivered: {:?}", other),
    }
}

#[test]
fn socket_end_with_reconnect_waits_without_a_signal() {
    let mut supervisor = active(true);
    assert!(matches!(supervisor.step(Signal::SocketEnded), Action::Sleep(1)));
    assert_eq!(supervisor.state, State::Waiting);
}

#[test]
fn failure_without_reconnect_ends_the_stream_with_one_error() {
    let mut supervisor = active(false);
    let action = supervisor.step(Signal::ReadFailed(SocketError::ConnectionClosed));
    assert!(matches!(
        action,
        Action::Deliver(Err(ClientError::Tungstenite(SocketError::ConnectionClosed)))
    ));
    assert_eq!(supervisor.state, State::Sending(Resume::Closed));
    assert!(matches!(supervisor.step(Signal::Delivered), Action::Stop));
    assert!(supervisor.is_closed());
    for signal in [
        Signal::BackoffElapsed,
        Signal::Connected,
        Signal::Delivered,
        Signal::SocketEnded,
        text(r#"{"type":"execution_success","data":{"prompt_id":"p"}}"#),
    ] {
        assert!(matches!(supervisor.step(signal), Action::Stop));
        assert!(supervisor.is_closed());
    }
}

#[test]
fn consumer_gone_stops_in_every_state() {
    for reconnect in [true, false] {
        for state in all_states() {
            let mut supervisor = Supervisor { reconnect, state };
            assert!(matches!(supervisor.step(Signal::ConsumerGone), Action::Stop));
            assert_eq!(supervisor, Supervisor { reconnect, state: State::Closed });
        }
    }
}

#[test]
fn signals_that_are_not_awaited_change_nothing() {
    let mut supervisor = Supervisor { reconnect: true, state: State::Waiting };
    assert!(matches!(supervisor.step(Signal::Delivered), Action::Nothing));
    assert!(matches!(supervisor.step(Signal::Connected), Action::Nothing));
    assert!(matches!(supervisor.step(text("{}")), Action::Nothing));
    assert_eq!(supervisor.state, State::Waiting);
    let mut supervisor = Supervisor { reconnect: true, state: State::Sending(Resume::Active) };
    assert!(matches!(supervisor.step(Signal::BackoffElapsed), Action::Nothing));
    assert!(matches!(supervisor.step(Signal::SocketEnded), Action::Nothing));
    assert_eq!(supervisor.state, State::Sending(Resume::Active));
    let mut supervisor = Supervisor { reconnect: true, state: State::Active };
    assert!(matches!(supervisor.step(Signal::Delivered), Action::Nothing));
    assert_eq!(supervisor.state, State::Active);
}

#[test]
fn full_channel_holds_the_producer_back_without_drops() {
    let (tx, mut rx) = tokio::sync::mpsc::channel::<ClientResult<Event>>(1);
    let mut supervisor = active(true);
    let frames = [
        r#"{"type":"execution_start","data":{"prompt_id":"p1","timestamp":1}}"#,
        r#"{"type":"execution_success","data":{"prompt_id":"p1"}}"#,
        r#"{"type":"execution_start","data":{"prompt_id":"p2","timestamp":2}}"#,
    ];
    let mut received = Vec::new();
    let mut suspensions = 0;
    for (index, frame) in frames.iter().enumerate() {
        assert_eq!(supervisor.state, State::Active);
        let mut pending = match supervisor.step(text(frame)) {
            Action::Deliver(item) => item,
            other => panic!("not delivered: {:?}", other),
        };
        loop {
            match tx.try_send(pending) {
                Ok(()) => break,
                Err(TrySendError::Full(item)) => {
                    assert!(index >= 1);
                    assert_eq!(supervisor.state, State::Sending(Resume::Active));
                    suspensions += 1;
                    pending = item;
                    received.push(comfy(rx.try_recv().unwrap()));
                }
                Err(TrySendError::Closed(_)) => panic!("closed"),
            }
        }
        assert!(matches!(supervisor.step(Signal::Delivered), Action::Read));
    }
    assert_eq!(suspensions, 2);
    assert_eq!(received.len(), 2);
    received.push(comfy(rx.try_recv().unwrap()));
    assert!(matches!(rx.try_recv(), Err(TryRecvError::Empty)));
    let ids: Vec<(String, u64)> = received
        .iter()
        .map(|event| match event {
            ComfyEvent::ExecutionStart { data } => (data.prompt_id.clone(), data.timestamp),
            ComfyEvent::ExecutionSuccess { data } => (data.prompt_id.clone(), 0),
            other => panic!("unexpected: {:?}", other),
        })
        .collect();
    assert_eq!(
        ids,
        vec![("p1".to_string(), 1), ("p1".to_string(), 0), ("p2".to_string(), 2)]
    );
}

#[test]
fn dropped_stream_stops_a_producer_that_waits_for_room() {
    let (tx, rx) = tokio::sync::mpsc::channel::<ClientResult<Event>>(1);
    let mut supervisor = active(true);
    let first = match supervisor
        .step(text(r#"{"type":"execution_success","data":{"prompt_id":"p1"}}"#))
    {
        Action::Deliver(item) => item,
        other => panic!("not delivered: {:?}", other),
    };
    tx.try_send(first).unwrap();
    assert!(matches!(supervisor.step(Signal::Delivered), Action::Read));
    let second = match supervisor
        .step(text(r#"{"type":"execution_success","data":{"prompt_id":"p2"}}"#))
    {
        Action::Deliver(item) => item,
        other => panic!("not delivered: {:?}", other),
    };
    let second = match tx.try_send(second) {
        Err(TrySendError::Full(item)) => item,
        other => panic!("not full: {:?}", other),
    };
    drop(rx);
    assert!(tx.is_closed());
    assert!(matches!(tx.try_send(second), Err(TrySendError::Closed(_))));
    assert!(matches!(supervisor.step(Signal::ConsumerGone), Action::Stop));
    assert!(supervisor.is_closed());
}
