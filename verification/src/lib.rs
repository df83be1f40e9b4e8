//! The core of an event-stream client for a remote workflow-execution service.
//!
//! The service runs workflows and reports on them over a socket, frame by
//! frame. This crate holds what the client decides and computes, each part
//! with its contract:
//!
//! - [`json`], a JSON value as plain data, read and written by `serde_json`;
//! - [`meta`], the notifications and records, and [`wire`], their wire form;
//! - [`decode`] and [`encode`], which read and write that wire form, with the
//!   laws of [`roundtrip`] and [`validity`];
//! - [`frame`], which decodes one frame of the connection;
//! - [`supervisor`], the state machine that keeps the connection alive and
//!   hands the decoded frames on in order, with the laws of [`supervision`];
//! - [`address`], which derives the handshake address of the socket;
//! - [`client`], which sets a client up, plans its requests and reads the
//!   answers.
//!
//! Nothing here touches a socket, a channel or a clock. The supervisor says
//! what to do next; whoever runs it does it and reports what came of it.

pub mod address;
pub mod client;
pub mod decode;
pub mod encode;
pub mod errors;
pub mod frame;
pub mod json;
pub mod meta;
pub mod roundtrip;
pub mod supervision;
pub mod supervisor;
pub mod text;
pub mod validity;
pub mod wire;

pub use crate::client::{ClientBuilder, ComfyUIClient};
pub use crate::errors::{ClientError, ClientResult};
