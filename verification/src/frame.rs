//! Frames as they come off the connection, and what each is decoded as.

use crate::decode::classify;
use crate::errors::{ClientError, ClientErrorView, ClientResult};
use crate::json::{parse_text, parsed_json};
use crate::meta::{Event, EventView};
use crate::wire::{classify_frame, event_well_formed};
use vstd::prelude::*;

verus! {

/// One message unit read from the connection.
#[derive(Debug, PartialEq, Eq)]
pub enum Frame {
    /// A text frame.
    Text(String),
    /// A binary frame.
    Binary(Vec<u8>),
    /// A ping, with its payload.
    Ping(Vec<u8>),
    /// A pong, with its payload.
    Pong(Vec<u8>),
    /// The peer closes the connection.
    Close,
    /// A raw frame that the transport did not interpret.
    Raw,
}

/// Model of [`Frame`].
pub enum FrameView {
    Text(Seq<char>),
    Binary(Seq<u8>),
    Ping(Seq<u8>),
    Pong(Seq<u8>),
    Close,
    Raw,
}

impl DeepView for Frame {
    type V = FrameView;

    open spec fn deep_view(&self) -> FrameView {
        match self {
            Frame::Text(text) => FrameView::Text(text@),
            Frame::Binary(bytes) => FrameView::Binary(bytes@),
            Frame::Ping(bytes) => FrameView::Ping(bytes@),
            Frame::Pong(bytes) => FrameView::Pong(bytes@),
            Frame::Close => FrameView::Close,
            Frame::Raw => FrameView::Raw,
        }
    }
}

/// Model of one item of the stream.
pub type ItemView = Result<EventView, ClientErrorView>;

/// The model of one item of the stream.
pub open spec fn item_view(item: ClientResult<Event>) -> ItemView {
    match item {
        Ok(event) => Ok(event.deep_view()),
        Err(error) => Err(error.deep_view()),
    }
}

/// The model of what decoding a frame gives.
pub open spec fn decoded_view(decoded: ClientResult<Option<Event>>) -> Result<
    Option<EventView>,
    ClientErrorView,
> {
    match decoded {
        Ok(event) => Ok(event.deep_view()),
        Err(error) => Err(error.deep_view()),
    }
}

/// Whether an event of the stream is well formed: a notification of the
/// service is; a signal about the connection always is.
pub open spec fn stream_event_well_formed(event: EventView) -> bool {
    match event {
        EventView::Comfy(event) => event_well_formed(event),
        EventView::Connection(_) => true,
    }
}

/// What a frame is decoded as. A text frame that is JSON gives the
/// notification that the value classifies as; a text frame that is not JSON
/// gives the parser's refusal; every other frame gives nothing.
pub open spec fn decode_frame(frame: FrameView) -> Result<Option<EventView>, ClientErrorView> {
    match frame {
        FrameView::Text(text) => match parsed_json(text) {
            Ok(value) => Ok(Some(EventView::Comfy(classify_frame(value)))),
            Err(e) => Err(ClientErrorView::SerdeJson(e)),
        },
        _ => Ok(None),
    }
}

/// Decodes one frame of the connection.
///
/// Only a text frame carries a notification. Its text is parsed as JSON; a
/// text that is not JSON is the one hard error. A value that parses is never
/// refused: it is delivered as the notification it is the wire form of, or
/// whole as [`crate::meta::ComfyEvent::Unknown`].
pub fn handle_message(frame: Frame) -> (decoded: ClientResult<Option<Event>>)
    ensures
        decoded_view(decoded) == decode_frame(frame.deep_view()),
        decoded matches Ok(Some(event)) ==> stream_event_well_formed(event.deep_view()),
{
    match frame {
        Frame::Text(text) => match parse_text(text.as_str()) {
            Ok(value) => Ok(Some(Event::Comfy(classify(value)))),
            Err(e) => Err(ClientError::SerdeJson(e)),
        },
        _ => Ok(None),
    }
}

} // verus!
