//! The wire form of notifications and records: which JSON values are read as
//! which record, and which value each record is written as.

use crate::json::{JsonView, NumberView, distinct_keys, entries_well_formed, lookup};
use crate::meta::{
    ComfyEventView, ExecInfo, ExecutedEventDataView, ExecutedOutputView, ExecutingEventDataView,
    ExecutionCachedEventDataView, ExecutionErrorEventDataView, ExecutionInterruptedEventDataView,
    ExecutionStartEventDataView, ExecutionSuccessEventDataView, FileInfoView, HistoryView,
    ImagesView, ProgressEventData, PromptInfo, PromptStatusView, StatusEventData, StatusEventStatus,
};
use vstd::prelude::*;

verus! {

/// The entries of a list whose key is not the given one, in their order.
pub open spec fn without_key(entries: Seq<(Seq<char>, JsonView)>, key: Seq<char>) -> Seq<
    (Seq<char>, JsonView),
>
    decreases entries.len(),
{
    if entries.len() == 0 {
        entries
    } else {
        let rest = without_key(entries.drop_last(), key);
        if entries.last().0 == key {
            rest
        } else {
            rest.push(entries.last())
        }
    }
}

/// Whether no entry of a list has the given key.
pub open spec fn lacks_key(entries: Seq<(Seq<char>, JsonView)>, key: Seq<char>) -> bool {
    forall|i: int| 0 <= i < entries.len() ==> (#[trigger] entries[i]).0 != key
}

/// A string value's text.
pub open spec fn text_of(value: JsonView) -> Option<Seq<char>> {
    match value {
        JsonView::String(text) => Some(text),
        _ => None,
    }
}

/// A member that must be a string.
pub open spec fn text_member(value: JsonView, key: Seq<char>) -> Option<Seq<char>> {
    match value.field(key) {
        Some(member) => text_of(member),
        None => None,
    }
}

/// A member that is a string, or is null or missing.
pub open spec fn optional_text_member(value: JsonView, key: Seq<char>) -> Option<
    Option<Seq<char>>,
> {
    match value.field(key) {
        None => Some(None),
        Some(JsonView::Null) => Some(None),
        Some(JsonView::String(text)) => Some(Some(text)),
        Some(_) => None,
    }
}

/// A non-negative integer value.
pub open spec fn u64_of(value: JsonView) -> Option<u64> {
    match value {
        JsonView::Number(NumberView::Unsigned(n)) => Some(n),
        _ => None,
    }
}

/// A member that must be a non-negative integer.
pub open spec fn u64_member(value: JsonView, key: Seq<char>) -> Option<u64> {
    match value.field(key) {
        Some(member) => u64_of(member),
        None => None,
    }
}

/// A member that must be a non-negative integer within `usize`.
pub open spec fn usize_member(value: JsonView, key: Seq<char>) -> Option<usize> {
    match u64_member(value, key) {
        Some(n) => if n <= usize::MAX {
            Some(n as usize)
        } else {
            None
        },
        None => None,
    }
}

/// An array of strings.
pub open spec fn texts_of(value: JsonView) -> Option<Seq<Seq<char>>> {
    match value {
        JsonView::Array(items) => if forall|i: int|
            0 <= i < items.len() ==> (#[trigger] items[i]) is String {
            Some(Seq::new(items.len(), |i: int| items[i]->String_0))
        } else {
            None
        },
        _ => None,
    }
}

/// A member that must be an array of strings.
pub open spec fn texts_member(value: JsonView, key: Seq<char>) -> Option<Seq<Seq<char>>> {
    match value.field(key) {
        Some(member) => texts_of(member),
        None => None,
    }
}

/// A member that must be an object, by its entries.
pub open spec fn entries_member(value: JsonView, key: Seq<char>) -> Option<
    Seq<(Seq<char>, JsonView)>,
> {
    match value.field(key) {
        Some(JsonView::Object(entries)) => Some(entries),
        _ => None,
    }
}

/// The array of strings that a list of texts is written as.
pub open spec fn texts_json(texts: Seq<Seq<char>>) -> JsonView {
    JsonView::Array(Seq::new(texts.len(), |i: int| JsonView::String(texts[i])))
}

/// What an optional text is written as.
pub open spec fn optional_text_json(text: Option<Seq<char>>) -> JsonView {
    match text {
        Some(text) => JsonView::String(text),
        None => JsonView::Null,
    }
}

/// What an unsigned number is written as.
pub open spec fn u64_json(n: u64) -> JsonView {
    JsonView::Number(NumberView::Unsigned(n))
}

/// An object of one member.
pub open spec fn object1(k0: Seq<char>, v0: JsonView) -> JsonView {
    JsonView::Object(Seq::empty().push((k0, v0)))
}

/// Reads the queue details.
pub open spec fn decode_exec_info(value: JsonView) -> Option<ExecInfo> {
    match usize_member(value, "queue_remaining"@) {
        Some(n) => Some(ExecInfo { queue_remaining: n }),
        None => None,
    }
}

/// Writes the queue details.
pub open spec fn encode_exec_info(info: ExecInfo) -> JsonView {
    object1("queue_remaining"@, u64_json(info.queue_remaining as u64))
}

/// Reads the answer to a question about the queue.
pub open spec fn decode_prompt_info(value: JsonView) -> Option<PromptInfo> {
    match value.field("exec_info"@) {
        Some(member) => match decode_exec_info(member) {
            Some(exec_info) => Some(PromptInfo { exec_info }),
            None => None,
        },
        None => None,
    }
}

/// Reads the queue state of a status notification.
pub open spec fn decode_status_status(value: JsonView) -> Option<StatusEventStatus> {
    match value.field("exec_info"@) {
        Some(member) => match decode_exec_info(member) {
            Some(exec_info) => Some(StatusEventStatus { exec_info }),
            None => None,
        },
        None => None,
    }
}

/// Reads the payload of a status notification.
pub open spec fn decode_status_data(value: JsonView) -> Option<StatusEventData> {
    match value.field("status"@) {
        Some(member) => match decode_status_status(member) {
            Some(status) => Some(StatusEventData { status }),
            None => None,
        },
        None => None,
    }
}

/// Writes the payload of a status notification.
pub open spec fn encode_status_data(data: StatusEventData) -> JsonView {
    object1("status"@, object1("exec_info"@, encode_exec_info(data.status.exec_info)))
}

/// Reads the payload of a progress notification.
pub open spec fn decode_progress(value: JsonView) -> Option<ProgressEventData> {
    match (usize_member(value, "value"@), usize_member(value, "max"@)) {
        (Some(value), Some(max)) => Some(ProgressEventData { value, max }),
        _ => None,
    }
}

/// Writes the payload of a progress notification.
pub open spec fn encode_progress(data: ProgressEventData) -> JsonView {
    JsonView::Object(
        Seq::empty().push(("value"@, u64_json(data.value as u64))).push(
            ("max"@, u64_json(data.max as u64)),
        ),
    )
}

/// The file name of a file record: the member `filename`, or `name` in its
/// place; a record with both is not read.
pub open spec fn file_name_member(value: JsonView) -> Option<Seq<char>> {
    match (value.field("filename"@), value.field("name"@)) {
        (Some(member), None) => text_of(member),
        (None, Some(member)) => text_of(member),
        _ => None,
    }
}

/// Reads a file record.
pub open spec fn decode_file_info(value: JsonView) -> Option<FileInfoView> {
    match (
        file_name_member(value),
        text_member(value, "subfolder"@),
        text_member(value, "type"@),
    ) {
        (Some(filename), Some(subfolder), Some(kind)) => Some(
            FileInfoView { filename, subfolder, kind },
        ),
        _ => None,
    }
}

/// Writes a file record.
pub open spec fn encode_file_info(file: FileInfoView) -> JsonView {
    JsonView::Object(
        Seq::empty().push(("filename"@, JsonView::String(file.filename))).push(
            ("subfolder"@, JsonView::String(file.subfolder)),
        ).push(("type"@, JsonView::String(file.kind))),
    )
}

/// Reads an array of file records.
pub open spec fn decode_files(value: JsonView) -> Option<Seq<FileInfoView>> {
    match value {
        JsonView::Array(items) => if forall|i: int|
            0 <= i < items.len() ==> decode_file_info(#[trigger] items[i]) is Some {
            Some(Seq::new(items.len(), |i: int| decode_file_info(items[i])->Some_0))
        } else {
            None
        },
        _ => None,
    }
}

/// Writes an array of file records.
pub open spec fn encode_files(files: Seq<FileInfoView>) -> JsonView {
    JsonView::Array(Seq::new(files.len(), |i: int| encode_file_info(files[i])))
}

/// Reads a member that is an array of file records, or is null or missing.
pub open spec fn decode_optional_files(member: Option<JsonView>) -> Option<
    Option<Seq<FileInfoView>>,
> {
    match member {
        None => Some(None),
        Some(JsonView::Null) => Some(None),
        Some(value) => match decode_files(value) {
            Some(files) => Some(Some(files)),
            None => None,
        },
    }
}

/// Writes an optional array of file records.
pub open spec fn encode_optional_files(files: Option<Seq<FileInfoView>>) -> JsonView {
    match files {
        Some(files) => encode_files(files),
        None => JsonView::Null,
    }
}

/// Reads a list of images.
pub open spec fn decode_images(value: JsonView) -> Option<ImagesView> {
    match value {
        JsonView::Object(entries) => match decode_optional_files(lookup(entries, "images"@)) {
            Some(images) => Some(ImagesView { images }),
            None => None,
        },
        _ => None,
    }
}

/// Reads what a node produced: the images, and every other member as it is.
pub open spec fn decode_output(value: JsonView) -> Option<ExecutedOutputView> {
    match value {
        JsonView::Object(entries) => match decode_optional_files(lookup(entries, "images"@)) {
            Some(images) => Some(
                ExecutedOutputView { images, others: without_key(entries, "images"@) },
            ),
            None => None,
        },
        _ => None,
    }
}

/// Writes what a node produced: the images first, then the other members.
pub open spec fn encode_output(output: ExecutedOutputView) -> JsonView {
    JsonView::Object(
        Seq::empty().push(("images"@, encode_optional_files(output.images))) + output.others,
    )
}

/// Reads a member that is a node's output, or is null or missing.
pub open spec fn decode_optional_output(member: Option<JsonView>) -> Option<
    Option<ExecutedOutputView>,
> {
    match member {
        None => Some(None),
        Some(JsonView::Null) => Some(None),
        Some(value) => match decode_output(value) {
            Some(output) => Some(Some(output)),
            None => None,
        },
    }
}

/// Writes an optional output.
pub open spec fn encode_optional_output(output: Option<ExecutedOutputView>) -> JsonView {
    match output {
        Some(output) => encode_output(output),
        None => JsonView::Null,
    }
}

/// Reads the payload of a notification that a node has finished.
pub open spec fn decode_executed(value: JsonView) -> Option<ExecutedEventDataView> {
    match (
        text_member(value, "node"@),
        text_member(value, "prompt_id"@),
        decode_optional_output(value.field("output"@)),
    ) {
        (Some(node), Some(prompt_id), Some(output)) => Some(
            ExecutedEventDataView { node, prompt_id, output },
        ),
        _ => None,
    }
}

/// Writes the payload of a notification that a node has finished.
pub open spec fn encode_executed(data: ExecutedEventDataView) -> JsonView {
    JsonView::Object(
        Seq::empty().push(("node"@, JsonView::String(data.node))).push(
            ("prompt_id"@, JsonView::String(data.prompt_id)),
        ).push(("output"@, encode_optional_output(data.output))),
    )
}

/// Reads the payload of a notification that a node is running.
pub open spec fn decode_executing(value: JsonView) -> Option<ExecutingEventDataView> {
    match (
        optional_text_member(value, "node"@),
        optional_text_member(value, "display_node"@),
        text_member(value, "prompt_id"@),
    ) {
        (Some(node), Some(display_node), Some(prompt_id)) => Some(
            ExecutingEventDataView { node, display_node, prompt_id },
        ),
        _ => None,
    }
}

/// Writes the payload of a notification that a node is running.
pub open spec fn encode_executing(data: ExecutingEventDataView) -> JsonView {
    JsonView::Object(
        Seq::empty().push(("node"@, optional_text_json(data.node))).push(
            ("display_node"@, optional_text_json(data.display_node)),
        ).push(("prompt_id"@, JsonView::String(data.prompt_id))),
    )
}

/// Reads the payload of a notification that work has started.
pub open spec fn decode_execution_start(value: JsonView) -> Option<ExecutionStartEventDataView> {
    match (text_member(value, "prompt_id"@), u64_member(value, "timestamp"@)) {
        (Some(prompt_id), Some(timestamp)) => Some(
            ExecutionStartEventDataView { prompt_id, timestamp },
        ),
        _ => None,
    }
}

/// Writes the payload of a notification that work has started.
pub open spec fn encode_execution_start(data: ExecutionStartEventDataView) -> JsonView {
    JsonView::Object(
        Seq::empty().push(("prompt_id"@, JsonView::String(data.prompt_id))).push(
            ("timestamp"@, u64_json(data.timestamp)),
        ),
    )
}

/// Reads the payload of a notification about cached nodes.
pub open spec fn decode_execution_cached(value: JsonView) -> Option<
    ExecutionCachedEventDataView,
> {
    match (
        texts_member(value, "nodes"@),
        text_member(value, "prompt_id"@),
        u64_member(value, "timestamp"@),
    ) {
        (Some(nodes), Some(prompt_id), Some(timestamp)) => Some(
            ExecutionCachedEventDataView { nodes, prompt_id, timestamp },
        ),
        _ => None,
    }
}

/// Writes the payload of a notification about cached nodes.
pub open spec fn encode_execution_cached(data: ExecutionCachedEventDataView) -> JsonView {
    JsonView::Object(
        Seq::empty().push(("nodes"@, texts_json(data.nodes))).push(
            ("prompt_id"@, JsonView::String(data.prompt_id)),
        ).push(("timestamp"@, u64_json(data.timestamp))),
    )
}

/// Reads the payload of a notification that work was interrupted.
pub open spec fn decode_execution_interrupted(value: JsonView) -> Option<
    ExecutionInterruptedEventDataView,
> {
    match (
        text_member(value, "prompt_id"@),
        text_member(value, "node_id"@),
        text_member(value, "node_type"@),
        texts_member(value, "executed"@),
    ) {
        (Some(prompt_id), Some(node_id), Some(node_type), Some(executed)) => Some(
            ExecutionInterruptedEventDataView { prompt_id, node_id, node_type, executed },
        ),
        _ => None,
    }
}

/// Writes the payload of a notification that work was interrupted.
pub open spec fn encode_execution_interrupted(
    data: ExecutionInterruptedEventDataView,
) -> JsonView {
    JsonView::Object(
        Seq::empty().push(("prompt_id"@, JsonView::String(data.prompt_id))).push(
            ("node_id"@, JsonView::String(data.node_id)),
        ).push(("node_type"@, JsonView::String(data.node_type))).push(
            ("executed"@, texts_json(data.executed)),
        ),
    )
}

/// Reads the payload of a notification that work has failed.
pub open spec fn decode_execution_error(value: JsonView) -> Option<ExecutionErrorEventDataView> {
    match (
        text_member(value, "prompt_id"@),
        text_member(value, "node_id"@),
        text_member(value, "node_type"@),
        texts_member(value, "executed"@),
    ) {
        (Some(prompt_id), Some(node_id), Some(node_type), Some(executed)) => match (
            text_member(value, "exception_message"@),
            text_member(value, "exception_type"@),
            texts_member(value, "traceback"@),
            entries_member(value, "current_inputs"@),
            entries_member(value, "current_outputs"@),
        ) {
            (
                Some(exception_message),
                Some(exception_type),
                Some(traceback),
                Some(current_inputs),
                Some(current_outputs),
            ) => Some(
                ExecutionErrorEventDataView {
                    prompt_id,
                    node_id,
                    node_type,
                    executed,
                    exception_message,
                    exception_type,
                    traceback,
                    current_inputs,
                    current_outputs,
                },
            ),
            _ => None,
        },
        _ => None,
    }
}

/// Writes the payload of a notification that work has failed.
pub open spec fn encode_execution_error(data: ExecutionErrorEventDataView) -> JsonView {
    JsonView::Object(
        Seq::empty().push(("prompt_id"@, JsonView::String(data.prompt_id))).push(
            ("node_id"@, JsonView::String(data.node_id)),
        ).push(("node_type"@, JsonView::String(data.node_type))).push(
            ("executed"@, texts_json(data.executed)),
        ).push(("exception_message"@, JsonView::String(data.exception_message))).push(
            ("exception_type"@, JsonView::String(data.exception_type)),
        ).push(("traceback"@, texts_json(data.traceback))).push(
            ("current_inputs"@, JsonView::Object(data.current_inputs)),
        ).push(("current_outputs"@, JsonView::Object(data.current_outputs))),
    )
}

/// Reads the payload of a notification that work has finished.
pub open spec fn decode_execution_success(value: JsonView) -> Option<
    ExecutionSuccessEventDataView,
> {
    match text_member(value, "prompt_id"@) {
        Some(prompt_id) => Some(ExecutionSuccessEventDataView { prompt_id }),
        None => None,
    }
}

/// Writes the payload of a notification that work has finished.
pub open spec fn encode_execution_success(data: ExecutionSuccessEventDataView) -> JsonView {
    object1("prompt_id"@, JsonView::String(data.prompt_id))
}

/// Whether a discriminator names one of the notification kinds.
pub open spec fn is_known_kind(kind: Seq<char>) -> bool {
    ||| kind == "status"@
    ||| kind == "progress"@
    ||| kind == "executed"@
    ||| kind == "executing"@
    ||| kind == "execution_start"@
    ||| kind == "execution_error"@
    ||| kind == "execution_cached"@
    ||| kind == "execution_interrupted"@
    ||| kind == "execution_success"@
}

/// Reads the payload of a frame of the given kind from its member `data`,
/// and for a status frame the member `sid` beside it.
pub open spec fn decode_kind(kind: Seq<char>, frame: JsonView) -> Option<ComfyEventView> {
    match frame.field("data"@) {
        None => None,
        Some(payload) => if kind == "status"@ {
            match (decode_status_data(payload), optional_text_member(frame, "sid"@)) {
                (Some(data), Some(sid)) => Some(ComfyEventView::Status { data, sid }),
                _ => None,
            }
        } else if kind == "progress"@ {
            match decode_progress(payload) {
                Some(data) => Some(ComfyEventView::Progress { data }),
                None => None,
            }
        } else if kind == "executed"@ {
            match decode_executed(payload) {
                Some(data) => Some(ComfyEventView::Executed { data }),
                None => None,
            }
        } else if kind == "executing"@ {
            match decode_executing(payload) {
                Some(data) => Some(ComfyEventView::Executing { data }),
                None => None,
            }
        } else if kind == "execution_start"@ {
            match decode_execution_start(payload) {
                Some(data) => Some(ComfyEventView::ExecutionStart { data }),
                None => None,
            }
        } else if kind == "execution_error"@ {
            match decode_execution_error(payload) {
                Some(data) => Some(ComfyEventView::ExecutionError { data }),
                None => None,
            }
        } else if kind == "execution_cached"@ {
            match decode_execution_cached(payload) {
                Some(data) => Some(ComfyEventView::ExecutionCached { data }),
                None => None,
            }
        } else if kind == "execution_interrupted"@ {
            match decode_execution_interrupted(payload) {
                Some(data) => Some(ComfyEventView::ExecutionInterrupted { data }),
                None => None,
            }
        } else if kind == "execution_success"@ {
            match decode_execution_success(payload) {
                Some(data) => Some(ComfyEventView::ExecutionSuccess { data }),
                None => None,
            }
        } else {
            None
        },
    }
}

/// The strict reading of a frame: the notification it is the wire form of, if
/// its member `type` is a string that names a kind and its payload has that
/// kind's shape.
pub open spec fn decode_event(frame: JsonView) -> Option<ComfyEventView> {
    match frame.field("type"@) {
        Some(JsonView::String(kind)) => decode_kind(kind, frame),
        _ => None,
    }
}

/// What a frame is delivered as: its strict reading, or the frame itself,
/// whole, where it has none.
pub open spec fn classify_frame(frame: JsonView) -> ComfyEventView {
    match decode_event(frame) {
        Some(event) => event,
        None => ComfyEventView::Unknown(frame),
    }
}

/// A frame of a kind with a payload.
pub open spec fn tagged(kind: Seq<char>, payload: JsonView) -> JsonView {
    JsonView::Object(
        Seq::empty().push(("type"@, JsonView::String(kind))).push(("data"@, payload)),
    )
}

/// The wire form of a notification; a frame of no known shape has none.
pub open spec fn encode_event(event: ComfyEventView) -> Option<JsonView> {
    match event {
        ComfyEventView::Status { data, sid } => Some(
            JsonView::Object(
                Seq::empty().push(("type"@, JsonView::String("status"@))).push(
                    ("data"@, encode_status_data(data)),
                ).push(("sid"@, optional_text_json(sid))),
            ),
        ),
        ComfyEventView::Progress { data } => Some(tagged("progress"@, encode_progress(data))),
        ComfyEventView::Executed { data } => Some(tagged("executed"@, encode_executed(data))),
        ComfyEventView::Executing { data } => Some(tagged("executing"@, encode_executing(data))),
        ComfyEventView::ExecutionStart { data } => Some(
            tagged("execution_start"@, encode_execution_start(data)),
        ),
        ComfyEventView::ExecutionError { data } => Some(
            tagged("execution_error"@, encode_execution_error(data)),
        ),
        ComfyEventView::ExecutionCached { data } => Some(
            tagged("execution_cached"@, encode_execution_cached(data)),
        ),
        ComfyEventView::ExecutionInterrupted { data } => Some(
            tagged("execution_interrupted"@, encode_execution_interrupted(data)),
        ),
        ComfyEventView::ExecutionSuccess { data } => Some(
            tagged("execution_success"@, encode_execution_success(data)),
        ),
        ComfyEventView::Unknown(_) => None,
    }
}

/// Whether a notification can be written and read back: the other members of
/// an output do not hold one called `images`.
pub open spec fn event_writable(event: ComfyEventView) -> bool {
    match event {
        ComfyEventView::Executed { data } => match data.output {
            Some(output) => lacks_key(output.others, "images"@),
            None => true,
        },
        _ => true,
    }
}

/// Whether an output is well formed: its other members are those of a
/// well-formed object, and none of them is called `images`.
pub open spec fn output_well_formed(output: ExecutedOutputView) -> bool {
    entries_well_formed(output.others) && lacks_key(output.others, "images"@)
}

/// Whether a notification is well formed: where it holds members by name,
/// they are those of a well-formed object, each name once; and a frame kept
/// whole is a well-formed value.
pub open spec fn event_well_formed(event: ComfyEventView) -> bool {
    match event {
        ComfyEventView::Executed { data } => match data.output {
            Some(output) => output_well_formed(output),
            None => true,
        },
        ComfyEventView::ExecutionError { data } => entries_well_formed(data.current_inputs)
            && entries_well_formed(data.current_outputs),
        ComfyEventView::Unknown(raw) => raw.well_formed(),
        _ => true,
    }
}

/// Whether the answer to a submitted workflow is well formed: each node is
/// named once, with a well-formed value.
pub open spec fn prompt_status_well_formed(status: PromptStatusView) -> bool {
    entries_well_formed(status.node_errors)
}

/// Whether a history is well formed: each node is named once.
pub open spec fn history_well_formed(history: HistoryView) -> bool {
    distinct_keys(history.outputs)
}

/// Reads the service's answer to a submitted workflow.
pub open spec fn decode_prompt_status(value: JsonView) -> Option<PromptStatusView> {
    match (
        text_member(value, "prompt_id"@),
        usize_member(value, "number"@),
        entries_member(value, "node_errors"@),
    ) {
        (Some(prompt_id), Some(number), Some(node_errors)) => Some(
            PromptStatusView { prompt_id, number, node_errors },
        ),
        _ => None,
    }
}

/// Reads the images of every node: each entry's value must be a list of images.
pub open spec fn decode_outputs(entries: Seq<(Seq<char>, JsonView)>) -> Option<
    Seq<(Seq<char>, ImagesView)>,
> {
    if forall|i: int| 0 <= i < entries.len() ==> decode_images((#[trigger] entries[i]).1) is Some {
        Some(
            Seq::new(entries.len(), |i: int| (entries[i].0, decode_images(entries[i].1)->Some_0)),
        )
    } else {
        None
    }
}

/// Reads the recorded outputs of one piece of work.
pub open spec fn decode_history(value: JsonView) -> Option<HistoryView> {
    match entries_member(value, "outputs"@) {
        Some(entries) => match decode_outputs(entries) {
            Some(outputs) => Some(HistoryView { outputs }),
            None => None,
        },
        None => None,
    }
}

/// Reads the histories that the service answers with, by identifier: an
/// object whose every member must be a history.
pub open spec fn decode_histories(value: JsonView) -> Option<Seq<(Seq<char>, HistoryView)>> {
    match value {
        JsonView::Object(entries) => if forall|i: int|
            0 <= i < entries.len() ==> decode_history((#[trigger] entries[i]).1) is Some {
            Some(
                Seq::new(
                    entries.len(),
                    |i: int| (entries[i].0, decode_history(entries[i].1)->Some_0),
                ),
            )
        } else {
            None
        },
        _ => None,
    }
}

/// The history recorded under an identifier: that of the last entry with it.
pub open spec fn select_history(
    histories: Seq<(Seq<char>, HistoryView)>,
    prompt_id: Seq<char>,
) -> Option<HistoryView>
    decreases histories.len(),
{
    if histories.len() == 0 {
        None
    } else if histories.last().0 == prompt_id {
        Some(histories.last().1)
    } else {
        select_history(histories.drop_last(), prompt_id)
    }
}

} // verus!
