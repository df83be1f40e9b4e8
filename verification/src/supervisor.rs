//! The connection supervisor: one connection at a time, kept alive across
//! failures, its frames decoded and handed on in order.
//!
//! The supervisor is a state machine. Whoever runs it performs the action it
//! asks for (connect, read, hand an item to the channel, sleep) and reports
//! what came of it as the next signal.

use crate::errors::{ClientError, ClientErrorView, ClientResult};
use crate::frame::{
    Frame, FrameView, ItemView, decode_frame, handle_message, item_view, stream_event_well_formed,
};
use crate::meta::{ConnectionEvent, ConnectionEventView, Event, EventView};
use vstd::prelude::*;

verus! {

/// The seconds to wait before each attempt to connect again.
pub const BACKOFF_SECS: u64 = 1;

/// Where the supervisor goes on once the channel has taken an item.
#[derive(Clone, Copy, Debug, PartialEq, Eq, Structural)]
pub enum Resume {
    /// Read the next frame.
    Active,
    /// Wait, then connect again.
    Waiting,
    /// Stop.
    Closed,
}

/// The states of the supervisor.
#[derive(Clone, Copy, Debug, PartialEq, Eq, Structural)]
pub enum State {
    /// The first attempt to connect is under way.
    Connecting,
    /// The connection is up and the next frame is awaited.
    Active,
    /// An item is offered to the channel, which may be full; nothing is read
    /// or attempted until the channel has taken it.
    Sending(Resume),
    /// The connection is down and the backoff interval runs.
    Waiting,
    /// The connection is down and an attempt to connect again is under way.
    Reconnecting,
    /// Nothing more is read or attempted.
    Closed,
}

/// The supervisor of one connection.
#[derive(Clone, Copy, Debug, PartialEq, Eq, Structural)]
pub struct Supervisor {
    /// Whether a lost connection is established again.
    pub reconnect: bool,
    /// The state it is in.
    pub state: State,
}

/// What happened while the supervisor waited.
#[derive(Debug)]
pub enum Signal {
    /// The attempt to connect succeeded.
    Connected,
    /// The attempt to connect failed.
    ConnectFailed(tokio_tungstenite::tungstenite::Error),
    /// A frame was read.
    Frame(Frame),
    /// Reading failed.
    ReadFailed(tokio_tungstenite::tungstenite::Error),
    /// The connection ended without an error.
    SocketEnded,
    /// The channel has taken the item.
    Delivered,
    /// The backoff interval is over.
    BackoffElapsed,
    /// The consumer has dropped the stream: the channel is closed.
    ConsumerGone,
}

/// What the supervisor asks for next.
#[derive(Debug)]
pub enum Action {
    /// Attempt to connect to the handshake address.
    Connect,
    /// Await the next frame.
    Read,
    /// Hand this item to the channel and await that it is taken.
    Deliver(ClientResult<Event>),
    /// Wait this many seconds.
    Sleep(u64),
    /// Release the connection and the channel: the stream ends.
    Stop,
    /// The first connection failed: report this error to the caller.
    Fail(ClientError),
    /// The signal was not awaited: go on waiting as before.
    Nothing,
}

/// Model of [`Signal`].
pub enum SignalView {
    Connected,
    ConnectFailed(tokio_tungstenite::tungstenite::Error),
    Frame(FrameView),
    ReadFailed(tokio_tungstenite::tungstenite::Error),
    SocketEnded,
    Delivered,
    BackoffElapsed,
    ConsumerGone,
}

/// Model of [`Action`].
pub enum ActionView {
    Connect,
    Read,
    Deliver(ItemView),
    Sleep(u64),
    Stop,
    Fail(ClientErrorView),
    Nothing,
}

impl DeepView for Signal {
    type V = SignalView;

    open spec fn deep_view(&self) -> SignalView {
        match self {
            Signal::Connected => SignalView::Connected,
            Signal::ConnectFailed(e) => SignalView::ConnectFailed(*e),
            Signal::Frame(frame) => SignalView::Frame(frame.deep_view()),
            Signal::ReadFailed(e) => SignalView::ReadFailed(*e),
            Signal::SocketEnded => SignalView::SocketEnded,
            Signal::Delivered => SignalView::Delivered,
            Signal::BackoffElapsed => SignalView::BackoffElapsed,
            Signal::ConsumerGone => SignalView::ConsumerGone,
        }
    }
}

impl DeepView for Action {
    type V = ActionView;

    open spec fn deep_view(&self) -> ActionView {
        match self {
            Action::Connect => ActionView::Connect,
            Action::Read => ActionView::Read,
            Action::Deliver(item) => ActionView::Deliver(item_view(*item)),
            Action::Sleep(secs) => ActionView::Sleep(*secs),
            Action::Stop => ActionView::Stop,
            Action::Fail(error) => ActionView::Fail(error.deep_view()),
            Action::Nothing => ActionView::Nothing,
        }
    }
}

/// The signal that an attempt to connect again failed.
pub open spec fn reconnect_failed(e: tokio_tungstenite::tungstenite::Error) -> ItemView {
    Ok(
        EventView::Connection(
            ConnectionEventView::WSReconnectError(ClientErrorView::Tungstenite(e)),
        ),
    )
}

/// The signal that the connection was established again.
pub open spec fn reconnect_succeeded() -> ItemView {
    Ok(EventView::Connection(ConnectionEventView::WSReconnectSuccess))
}

/// The signal that reading failed.
pub open spec fn receive_failed(e: tokio_tungstenite::tungstenite::Error) -> ItemView {
    Ok(EventView::Connection(ConnectionEventView::WSReceiveError(e)))
}

/// What the supervisor asks for when it enters a state from a delivery.
pub open spec fn resume(to: Resume) -> (State, ActionView) {
    match to {
        Resume::Active => (State::Active, ActionView::Read),
        Resume::Waiting => (State::Waiting, ActionView::Sleep(BACKOFF_SECS)),
        Resume::Closed => (State::Closed, ActionView::Stop),
    }
}

/// The transition function: the next state and the action asked for.
pub open spec fn next(reconnect: bool, state: State, signal: SignalView) -> (State, ActionView) {
    match (state, signal) {
        (State::Closed, _) => (State::Closed, ActionView::Stop),
        (_, SignalView::ConsumerGone) => (State::Closed, ActionView::Stop),
        (State::Connecting, SignalView::Connected) => (State::Active, ActionView::Read),
        (State::Connecting, SignalView::ConnectFailed(e)) => (
            State::Closed,
            ActionView::Fail(ClientErrorView::Tungstenite(e)),
        ),
        (State::Active, SignalView::Frame(frame)) => match decode_frame(frame) {
            Ok(None) => (State::Active, ActionView::Read),
            Ok(Some(event)) => (State::Sending(Resume::Active), ActionView::Deliver(Ok(event))),
            Err(error) => (State::Sending(Resume::Active), ActionView::Deliver(Err(error))),
        },
        (State::Active, SignalView::ReadFailed(e)) => if reconnect {
            (State::Sending(Resume::Waiting), ActionView::Deliver(receive_failed(e)))
        } else {
            (
                State::Sending(Resume::Closed),
                ActionView::Deliver(Err(ClientErrorView::Tungstenite(e))),
            )
        },
        (State::Active, SignalView::SocketEnded) => if reconnect {
            (State::Waiting, ActionView::Sleep(BACKOFF_SECS))
        } else {
            (State::Closed, ActionView::Stop)
        },
        (State::Sending(to), SignalView::Delivered) => resume(to),
        (State::Waiting, SignalView::BackoffElapsed) => (State::Reconnecting, ActionView::Connect),
        (State::Reconnecting, SignalView::Connected) => (
            State::Sending(Resume::Active),
            ActionView::Deliver(reconnect_succeeded()),
        ),
        (State::Reconnecting, SignalView::ConnectFailed(e)) => (
            State::Sending(Resume::Waiting),
            ActionView::Deliver(reconnect_failed(e)),
        ),
        _ => (state, ActionView::Nothing),
    }
}

impl Supervisor {
    /// The supervisor as it starts: the first attempt to connect under way.
    pub open spec fn connecting(reconnect: bool) -> Supervisor {
        Supervisor { reconnect, state: State::Connecting }
    }

    /// A supervisor whose first attempt to connect is under way.
    pub fn new(reconnect: bool) -> (supervisor: Supervisor)
        ensures
            supervisor == Supervisor::connecting(reconnect),
    {
        Supervisor { reconnect, state: State::Connecting }
    }

    /// Whether the supervisor has stopped for good.
    pub fn is_closed(&self) -> (closed: bool)
        ensures
            closed == (self.state == State::Closed),
    {
        match self.state {
            State::Closed => true,
            _ => false,
        }
    }

    /// Takes a signal and says what to do next.
    pub fn step(&mut self, signal: Signal) -> (action: Action)
        ensures
            final(self).reconnect == old(self).reconnect,
            (final(self).state, action.deep_view()) == next(
                old(self).reconnect,
                old(self).state,
                signal.deep_view(),
            ),
            action matches Action::Deliver(Ok(event)) ==> stream_event_well_formed(
                event.deep_view(),
            ),
    {
        let state = self.state;
        match state {
            State::Closed => Action::Stop,
            _ => match signal {
                Signal::ConsumerGone => {
                    self.state = State::Closed;
                    Action::Stop
                },
                Signal::Connected => match state {
                    State::Connecting => {
                        self.state = State::Active;
                        Action::Read
                    },
                    State::Reconnecting => {
                        self.state = State::Sending(Resume::Active);
                        Action::Deliver(Ok(Event::Connection(ConnectionEvent::WSReconnectSuccess)))
                    },
                    _ => Action::Nothing,
                },
                Signal::ConnectFailed(e) => match state {
                    State::Connecting => {
                        self.state = State::Closed;
                        Action::Fail(ClientError::Tungstenite(e))
                    },
                    State::Reconnecting => {
                        self.state = State::Sending(Resume::Waiting);
                        Action::Deliver(
                            Ok(
                                Event::Connection(
                                    ConnectionEvent::WSReconnectError(ClientError::Tungstenite(e)),
                                ),
                            ),
                        )
                    },
                    _ => Action::Nothing,
                },
                Signal::Frame(frame) => match state {
                    State::Active => match handle_message(frame) {
                        Ok(None) => Action::Read,
                        Ok(Some(event)) => {
                            self.state = State::Sending(Resume::Active);
                            Action::Deliver(Ok(event))
                        },
                        Err(error) => {
                            self.state = State::Sending(Resume::Active);
                            Action::Deliver(Err(error))
                        },
                    },
                    _ => Action::Nothing,
                },
                Signal::ReadFailed(e) => match state {
                    State::Active => if self.reconnect {
                        self.state = State::Sending(Resume::Waiting);
                        Action::Deliver(Ok(Event::Connection(ConnectionEvent::WSReceiveError(e))))
                    } else {
                        self.state = State::Sending(Resume::Closed);
                        Action::Deliver(Err(ClientError::Tungstenite(e)))
                    },
                    _ => Action::Nothing,
                },
                Signal::SocketEnded => match state {
                    State::Active => if self.reconnect {
                        self.state = State::Waiting;
                        Action::Sleep(BACKOFF_SECS)
                    } else {
                        self.state = State::Closed;
                        Action::Stop
                    },
                    _ => Action::Nothing,
                },
                Signal::Delivered => match state {
                    State::Sending(Resume::Active) => {
                        self.state = State::Active;
                        Action::Read
                    },
                    State::Sending(Resume::Waiting) => {
                        self.state = State::Waiting;
                        Action::Sleep(BACKOFF_SECS)
                    },
                    State::Sending(Resume::Closed) => {
                        self.state = State::Closed;
                        Action::Stop
                    },
                    _ => Action::Nothing,
                },
                Signal::BackoffElapsed => match state {
                    State::Waiting => {
                        self.state = State::Reconnecting;
                        Action::Connect
                    },
                    _ => Action::Nothing,
                },
            },
        }
    }
}

} // verus!
