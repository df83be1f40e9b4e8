//! Notifications, their payloads, and the records that the service answers with.

use crate::errors::{ClientError, ClientErrorView};
use crate::json::{Json, JsonView};
use vstd::prelude::*;
use vstd::std_specs::convert::FromSpecImpl;

verus! {

/// What the service reports about its queue.
#[derive(Debug, Clone, Copy, PartialEq, Eq)]
pub struct PromptInfo {
    /// Execution information of the queue.
    pub exec_info: ExecInfo,
}

/// Execution details of the queue.
#[derive(Debug, Clone, Copy, PartialEq, Eq)]
pub struct ExecInfo {
    /// The number of tasks that wait in the queue.
    pub queue_remaining: usize,
}

/// Names a file held by the service.
#[derive(Debug, PartialEq, Eq)]
pub struct FileInfo {
    /// The name of the file.
    pub filename: String,
    /// The folder below the root of its kind.
    pub subfolder: String,
    /// The kind of storage; on the wire this member is called `type`.
    pub kind: String,
}

/// The service's answer to a submitted workflow.
#[derive(Debug, PartialEq, Eq)]
pub struct PromptStatus {
    /// Identifier of the submitted work.
    pub prompt_id: String,
    /// Its number in the queue.
    pub number: usize,
    /// Node identifiers with the errors found for them.
    pub node_errors: Vec<(String, Json)>,
}

/// The recorded outputs of one piece of work.
#[derive(Debug, PartialEq, Eq)]
pub struct History {
    /// Node identifiers with the images they produced.
    pub outputs: Vec<(String, Images)>,
}

/// A list of images, if there is one.
#[derive(Debug, PartialEq, Eq)]
pub struct Images {
    /// The files, if the node produced any.
    pub images: Option<Vec<FileInfo>>,
}

/// One item of the stream: a notification of the service, or a signal about
/// the connection that the client adds itself.
#[derive(Debug)]
#[non_exhaustive]
pub enum Event {
    /// A notification sent by the service.
    Comfy(ComfyEvent),
    /// A signal about the connection.
    Connection(ConnectionEvent),
}

/// A notification of the service.
#[derive(Debug, PartialEq, Eq)]
#[non_exhaustive]
#[allow(inconsistent_fields)]
pub enum ComfyEvent {
    /// The state of the queue.
    Status {
        /// The queue state.
        data: StatusEventData,
        /// The session identifier, if the service sent one.
        sid: Option<String>,
    },
    /// Progress of the running node.
    Progress {
        /// Steps done and steps in all.
        data: ProgressEventData,
    },
    /// A node has finished and produced output.
    Executed {
        /// The node and what it produced.
        data: ExecutedEventData,
    },
    /// A node is running.
    Executing {
        /// The node that is running.
        data: ExecutingEventData,
    },
    /// Work on a prompt has started.
    ExecutionStart {
        /// The prompt and the time.
        data: ExecutionStartEventData,
    },
    /// Work on a prompt has failed.
    ExecutionError {
        /// The failure and its context.
        data: ExecutionErrorEventData,
    },
    /// Nodes whose results came from the cache.
    ExecutionCached {
        /// The cached nodes.
        data: ExecutionCachedEventData,
    },
    /// Work on a prompt was interrupted.
    ExecutionInterrupted {
        /// Where the work was interrupted.
        data: ExecutionInterruptedEventData,
    },
    /// Work on a prompt has finished.
    ExecutionSuccess {
        /// The prompt.
        data: ExecutionSuccessEventData,
    },
    /// A frame of no known shape, kept whole.
    Unknown(Json),
}

/// A signal about the connection, added by the client.
#[derive(Debug)]
#[non_exhaustive]
pub enum ConnectionEvent {
    /// The connection was established again.
    WSReconnectSuccess,
    /// An attempt to establish the connection again failed.
    WSReconnectError(ClientError),
    /// Reading from the connection failed.
    WSReceiveError(tokio_tungstenite::tungstenite::Error),
}

/// Payload of a status notification.
#[derive(Debug, Clone, Copy, PartialEq, Eq)]
pub struct StatusEventData {
    /// The queue state.
    pub status: StatusEventStatus,
}

/// The queue state inside a status notification.
#[derive(Debug, Clone, Copy, PartialEq, Eq)]
pub struct StatusEventStatus {
    /// Execution details of the queue.
    pub exec_info: ExecInfo,
}

/// Payload of a progress notification.
#[derive(Debug, Clone, Copy, PartialEq, Eq)]
pub struct ProgressEventData {
    /// Steps done.
    pub value: usize,
    /// Steps in all.
    pub max: usize,
}

/// What a node produced.
#[derive(Debug, PartialEq, Eq)]
pub struct ExecutedOutput {
    /// The images, if any.
    pub images: Option<Vec<FileInfo>>,
    /// Every other member of the output, by name.
    pub others: Vec<(String, Json)>,
}

/// Payload of a notification that a node has finished.
#[derive(Debug, PartialEq, Eq)]
pub struct ExecutedEventData {
    /// The node that has finished.
    pub node: String,
    /// The prompt that the node belongs to.
    pub prompt_id: String,
    /// What the node produced, if anything.
    pub output: Option<ExecutedOutput>,
}

/// Payload of a notification that a node is running.
#[derive(Debug, PartialEq, Eq)]
pub struct ExecutingEventData {
    /// The node that is running, if one is.
    pub node: Option<String>,
    /// The node to show in its place, if there is one.
    pub display_node: Option<String>,
    /// The prompt that the node belongs to.
    pub prompt_id: String,
}

/// Payload of a notification that work has started.
#[derive(Debug, PartialEq, Eq)]
pub struct ExecutionStartEventData {
    /// The prompt whose work has started.
    pub prompt_id: String,
    /// When it started.
    pub timestamp: u64,
}

/// Payload of a notification that work has failed.
#[derive(Debug, PartialEq, Eq)]
pub struct ExecutionErrorEventData {
    /// The prompt whose work has failed.
    pub prompt_id: String,
    /// The node that failed.
    pub node_id: String,
    /// The type of that node.
    pub node_type: String,
    /// The nodes that had finished before.
    pub executed: Vec<String>,
    /// The message of the exception.
    pub exception_message: String,
    /// The type of the exception.
    pub exception_type: String,
    /// The traceback, line by line.
    pub traceback: Vec<String>,
    /// The inputs of the node at the time, by name.
    pub current_inputs: Vec<(String, Json)>,
    /// The outputs at the time, by node.
    pub current_outputs: Vec<(String, Json)>,
}

/// Payload of a notification about cached nodes.
#[derive(Debug, PartialEq, Eq)]
pub struct ExecutionCachedEventData {
    /// The nodes whose results came from the cache.
    pub nodes: Vec<String>,
    /// The prompt that the nodes belong to.
    pub prompt_id: String,
    /// When the results were taken.
    pub timestamp: u64,
}

/// Payload of a notification that work was interrupted.
#[derive(Debug, PartialEq, Eq)]
pub struct ExecutionInterruptedEventData {
    /// The prompt whose work was interrupted.
    pub prompt_id: String,
    /// The node that was running.
    pub node_id: String,
    /// The type of that node.
    pub node_type: String,
    /// The nodes that had finished before.
    pub executed: Vec<String>,
}

/// Payload of a notification that work has finished.
#[derive(Debug, PartialEq, Eq)]
pub struct ExecutionSuccessEventData {
    /// The prompt whose work has finished.
    pub prompt_id: String,
}

/// A workflow to submit: as JSON text, or as a value.
pub enum Prompt<'a> {
    /// The workflow as JSON text.
    Str(&'a str),
    /// The workflow as a value.
    Value(&'a Json),
}

impl<'a> From<&'a str> for Prompt<'a> {
    fn from(value: &'a str) -> (prompt: Self) {
        Prompt::Str(value)
    }
}

impl<'a> FromSpecImpl<&'a str> for Prompt<'a> {
    open spec fn obeys_from_spec() -> bool {
        true
    }

    open spec fn from_spec(value: &'a str) -> Self {
        Prompt::Str(value)
    }
}

impl<'a> From<&'a String> for Prompt<'a> {
    fn from(value: &'a String) -> (prompt: Self)
        ensures
            prompt matches Prompt::Str(text) && text@ == value@,
    {
        Prompt::Str(value.as_str())
    }
}

impl<'a> FromSpecImpl<&'a String> for Prompt<'a> {
    open spec fn obeys_from_spec() -> bool {
        false
    }

    open spec fn from_spec(value: &'a String) -> Self {
        arbitrary()
    }
}

impl<'a> From<&'a Json> for Prompt<'a> {
    fn from(value: &'a Json) -> (prompt: Self) {
        Prompt::Value(value)
    }
}

impl<'a> FromSpecImpl<&'a Json> for Prompt<'a> {
    open spec fn obeys_from_spec() -> bool {
        true
    }

    open spec fn from_spec(value: &'a Json) -> Self {
        Prompt::Value(value)
    }
}

/// Model of [`FileInfo`].
pub struct FileInfoView {
    pub filename: Seq<char>,
    pub subfolder: Seq<char>,
    pub kind: Seq<char>,
}

/// Model of [`PromptStatus`].
pub struct PromptStatusView {
    pub prompt_id: Seq<char>,
    pub number: usize,
    pub node_errors: Seq<(Seq<char>, JsonView)>,
}

/// Model of [`Images`].
pub struct ImagesView {
    pub images: Option<Seq<FileInfoView>>,
}

/// Model of [`History`].
pub struct HistoryView {
    pub outputs: Seq<(Seq<char>, ImagesView)>,
}

/// Model of [`ExecutedOutput`].
pub struct ExecutedOutputView {
    pub images: Option<Seq<FileInfoView>>,
    pub others: Seq<(Seq<char>, JsonView)>,
}

/// Model of [`ExecutedEventData`].
pub struct ExecutedEventDataView {
    pub node: Seq<char>,
    pub prompt_id: Seq<char>,
    pub output: Option<ExecutedOutputView>,
}

/// Model of [`ExecutingEventData`].
pub struct ExecutingEventDataView {
    pub node: Option<Seq<char>>,
    pub display_node: Option<Seq<char>>,
    pub prompt_id: Seq<char>,
}

/// Model of [`ExecutionStartEventData`].
pub struct ExecutionStartEventDataView {
    pub prompt_id: Seq<char>,
    pub timestamp: u64,
}

/// Model of [`ExecutionErrorEventData`].
pub struct ExecutionErrorEventDataView {
    pub prompt_id: Seq<char>,
    pub node_id: Seq<char>,
    pub node_type: Seq<char>,
    pub executed: Seq<Seq<char>>,
    pub exception_message: Seq<char>,
    pub exception_type: Seq<char>,
    pub traceback: Seq<Seq<char>>,
    pub current_inputs: Seq<(Seq<char>, JsonView)>,
    pub current_outputs: Seq<(Seq<char>, JsonView)>,
}

/// Model of [`ExecutionCachedEventData`].
pub struct ExecutionCachedEventDataView {
    pub nodes: Seq<Seq<char>>,
    pub prompt_id: Seq<char>,
    pub timestamp: u64,
}

/// Model of [`ExecutionInterruptedEventData`].
pub struct ExecutionInterruptedEventDataView {
    pub prompt_id: Seq<char>,
    pub node_id: Seq<char>,
    pub node_type: Seq<char>,
    pub executed: Seq<Seq<char>>,
}

/// Model of [`ExecutionSuccessEventData`].
pub struct ExecutionSuccessEventDataView {
    pub prompt_id: Seq<char>,
}

/// Model of [`ComfyEvent`].
#[allow(inconsistent_fields)]
pub enum ComfyEventView {
    Status { data: StatusEventData, sid: Option<Seq<char>> },
    Progress { data: ProgressEventData },
    Executed { data: ExecutedEventDataView },
    Executing { data: ExecutingEventDataView },
    ExecutionStart { data: ExecutionStartEventDataView },
    ExecutionError { data: ExecutionErrorEventDataView },
    ExecutionCached { data: ExecutionCachedEventDataView },
    ExecutionInterrupted { data: ExecutionInterruptedEventDataView },
    ExecutionSuccess { data: ExecutionSuccessEventDataView },
    Unknown(JsonView),
}

/// Model of [`ConnectionEvent`].
pub enum ConnectionEventView {
    WSReconnectSuccess,
    WSReconnectError(ClientErrorView),
    WSReceiveError(tokio_tungstenite::tungstenite::Error),
}

/// Model of [`Event`].
pub enum EventView {
    Comfy(ComfyEventView),
    Connection(ConnectionEventView),
}

impl DeepView for ExecInfo {
    type V = ExecInfo;

    open spec fn deep_view(&self) -> ExecInfo {
        *self
    }
}

impl DeepView for PromptInfo {
    type V = PromptInfo;

    open spec fn deep_view(&self) -> PromptInfo {
        *self
    }
}

impl DeepView for StatusEventStatus {
    type V = StatusEventStatus;

    open spec fn deep_view(&self) -> StatusEventStatus {
        *self
    }
}

impl DeepView for StatusEventData {
    type V = StatusEventData;

    open spec fn deep_view(&self) -> StatusEventData {
        *self
    }
}

impl DeepView for ProgressEventData {
    type V = ProgressEventData;

    open spec fn deep_view(&self) -> ProgressEventData {
        *self
    }
}

impl DeepView for FileInfo {
    type V = FileInfoView;

    open spec fn deep_view(&self) -> FileInfoView {
        FileInfoView { filename: self.filename@, subfolder: self.subfolder@, kind: self.kind@ }
    }
}

impl DeepView for PromptStatus {
    type V = PromptStatusView;

    open spec fn deep_view(&self) -> PromptStatusView {
        PromptStatusView {
            prompt_id: self.prompt_id@,
            number: self.number,
            node_errors: self.node_errors.deep_view(),
        }
    }
}

impl DeepView for Images {
    type V = ImagesView;

    open spec fn deep_view(&self) -> ImagesView {
        ImagesView { images: self.images.deep_view() }
    }
}

impl DeepView for History {
    type V = HistoryView;

    open spec fn deep_view(&self) -> HistoryView {
        HistoryView { outputs: self.outputs.deep_view() }
    }
}

impl DeepView for ExecutedOutput {
    type V = ExecutedOutputView;

    open spec fn deep_view(&self) -> ExecutedOutputView {
        ExecutedOutputView { images: self.images.deep_view(), others: self.others.deep_view() }
    }
}

impl DeepView for ExecutedEventData {
    type V = ExecutedEventDataView;

    open spec fn deep_view(&self) -> ExecutedEventDataView {
        ExecutedEventDataView {
            node: self.node@,
            prompt_id: self.prompt_id@,
            output: self.output.deep_view(),
        }
    }
}

impl DeepView for ExecutingEventData {
    type V = ExecutingEventDataView;

    open spec fn deep_view(&self) -> ExecutingEventDataView {
        ExecutingEventDataView {
            node: self.node.deep_view(),
            display_node: self.display_node.deep_view(),
            prompt_id: self.prompt_id@,
        }
    }
}

impl DeepView for ExecutionStartEventData {
    type V = ExecutionStartEventDataView;

    open spec fn deep_view(&self) -> ExecutionStartEventDataView {
        ExecutionStartEventDataView { prompt_id: self.prompt_id@, timestamp: self.timestamp }
    }
}

impl DeepView for ExecutionErrorEventData {
    type V = ExecutionErrorEventDataView;

    open spec fn deep_view(&self) -> ExecutionErrorEventDataView {
        ExecutionErrorEventDataView {
            prompt_id: self.prompt_id@,
            node_id: self.node_id@,
            node_type: self.node_type@,
            executed: self.executed.deep_view(),
            exception_message: self.exception_message@,
            exception_type: self.exception_type@,
            traceback: self.traceback.deep_view(),
            current_inputs: self.current_inputs.deep_view(),
            current_outputs: self.current_outputs.deep_view(),
        }
    }
}

impl DeepView for ExecutionCachedEventData {
    type V = ExecutionCachedEventDataView;

    open spec fn deep_view(&self) -> ExecutionCachedEventDataView {
        ExecutionCachedEventDataView {
            nodes: self.nodes.deep_view(),
            prompt_id: self.prompt_id@,
            timestamp: self.timestamp,
        }
    }
}

impl DeepView for ExecutionInterruptedEventData {
    type V = ExecutionInterruptedEventDataView;

    open spec fn deep_view(&self) -> ExecutionInterruptedEventDataView {
        ExecutionInterruptedEventDataView {
            prompt_id: self.prompt_id@,
            node_id: self.node_id@,
            node_type: self.node_type@,
            executed: self.executed.deep_view(),
        }
    }
}

impl DeepView for ExecutionSuccessEventData {
    type V = ExecutionSuccessEventDataView;

    open spec fn deep_view(&self) -> ExecutionSuccessEventDataView {
        ExecutionSuccessEventDataView { prompt_id: self.prompt_id@ }
    }
}

impl DeepView for ComfyEvent {
    type V = ComfyEventView;

    open spec fn deep_view(&self) -> ComfyEventView {
        match self {
            ComfyEvent::Status { data, sid } => ComfyEventView::Status {
                data: *data,
                sid: sid.deep_view(),
            },
            ComfyEvent::Progress { data } => ComfyEventView::Progress { data: *data },
            ComfyEvent::Executed { data } => ComfyEventView::Executed { data: data.deep_view() },
            ComfyEvent::Executing { data } => ComfyEventView::Executing { data: data.deep_view() },
            ComfyEvent::ExecutionStart { data } => ComfyEventView::ExecutionStart {
                data: data.deep_view(),
            },
            ComfyEvent::ExecutionError { data } => ComfyEventView::ExecutionError {
                data: data.deep_view(),
            },
            ComfyEvent::ExecutionCached { data } => ComfyEventView::ExecutionCached {
                data: data.deep_view(),
            },
            ComfyEvent::ExecutionInterrupted { data } => ComfyEventView::ExecutionInterrupted {
                data: data.deep_view(),
            },
            ComfyEvent::ExecutionSuccess { data } => ComfyEventView::ExecutionSuccess {
                data: data.deep_view(),
            },
            ComfyEvent::Unknown(raw) => ComfyEventView::Unknown(raw.deep_view()),
        }
    }
}

impl DeepView for ConnectionEvent {
    type V = ConnectionEventView;

    open spec fn deep_view(&self) -> ConnectionEventView {
        match self {
            ConnectionEvent::WSReconnectSuccess => ConnectionEventView::WSReconnectSuccess,
            ConnectionEvent::WSReconnectError(e) => ConnectionEventView::WSReconnectError(
                e.deep_view(),
            ),
            ConnectionEvent::WSReceiveError(e) => ConnectionEventView::WSReceiveError(*e),
        }
    }
}

impl DeepView for Event {
    type V = EventView;

    open spec fn deep_view(&self) -> EventView {
        match self {
            Event::Comfy(ev) => EventView::Comfy(ev.deep_view()),
            Event::Connection(ev) => EventView::Connection(ev.deep_view()),
        }
    }
}

} // verus!
