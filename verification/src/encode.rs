//! Writing records and notifications as JSON values.

use crate::json::{Json, JsonView, Number, clone_entries, lemma_array_view, lemma_object_view};
use crate::meta::{
    ComfyEvent, ExecInfo, ExecutedEventData, ExecutedOutput, ExecutingEventData,
    ExecutionCachedEventData, ExecutionErrorEventData, ExecutionInterruptedEventData,
    ExecutionStartEventData, ExecutionSuccessEventData, FileInfo, ProgressEventData,
    StatusEventData,
};
use crate::wire::{
    encode_event, encode_exec_info, encode_executed, encode_executing, encode_execution_cached,
    encode_execution_error, encode_execution_interrupted, encode_execution_start,
    encode_execution_success, encode_file_info, encode_files, encode_optional_files,
    encode_optional_output, encode_output, encode_progress, encode_status_data, event_well_formed,
    optional_text_json, texts_json, u64_json,
};
use vstd::prelude::*;

verus! {

/// A list of entries with none in it.
pub fn no_members() -> (entries: Vec<(String, Json)>)
    ensures
        entries.deep_view() == Seq::<(Seq<char>, JsonView)>::empty(),
{
    let entries: Vec<(String, Json)> = Vec::new();
    assert(entries.deep_view() =~= Seq::<(Seq<char>, JsonView)>::empty());
    entries
}

/// Appends one member to a list of entries.
pub fn push_member(entries: &mut Vec<(String, Json)>, key: &str, value: Json)
    ensures
        final(entries).deep_view() == old(entries).deep_view().push((key@, value.deep_view())),
{
    entries.push((key.to_owned(), value));
    assert(entries.deep_view() =~= old(entries).deep_view().push((key@, value.deep_view())));
}

/// Makes an object of a list of entries.
pub fn object_of(entries: Vec<(String, Json)>) -> (value: Json)
    ensures
        value.deep_view() == JsonView::Object(entries.deep_view()),
{
    proof {
        lemma_object_view(entries);
    }
    Json::Object(entries)
}

/// Writes a text.
pub fn write_string(text: &String) -> (value: Json)
    ensures
        value.deep_view() == JsonView::String(text@),
{
    Json::String(text.clone())
}

/// Writes an optional text.
pub fn write_optional_text(text: &Option<String>) -> (value: Json)
    ensures
        value.deep_view() == optional_text_json(text.deep_view()),
{
    match text {
        Some(text) => Json::String(text.clone()),
        None => Json::Null,
    }
}

/// Writes an unsigned number.
pub fn write_u64(n: u64) -> (value: Json)
    ensures
        value.deep_view() == u64_json(n),
{
    Json::Number(Number::Unsigned(n))
}

/// Writes a list of texts.
pub fn write_texts(texts: &Vec<String>) -> (value: Json)
    ensures
        value.deep_view() == texts_json(texts.deep_view()),
{
    let mut items: Vec<Json> = Vec::new();
    let mut i: usize = 0;
    while i < texts.len()
        invariant
            i <= texts.len(),
            items.len() == i,
            forall|j: int| 0 <= j < i ==> items@[j].deep_view() == JsonView::String(texts@[j]@),
        decreases texts.len() - i,
    {
        items.push(Json::String(texts[i].clone()));
        i += 1;
    }
    proof {
        lemma_array_view(items);
        assert(items.deep_view() =~= texts_json(texts.deep_view())->Array_0);
    }
    Json::Array(items)
}

/// Writes the queue details.
pub fn write_exec_info(info: &ExecInfo) -> (value: Json)
    ensures
        value.deep_view() == encode_exec_info(*info),
{
    let mut entries = no_members();
    push_member(&mut entries, "queue_remaining", write_u64(info.queue_remaining as u64));
    object_of(entries)
}

/// Writes the payload of a status notification.
pub fn write_status_data(data: &StatusEventData) -> (value: Json)
    ensures
        value.deep_view() == encode_status_data(*data),
{
    let mut status = no_members();
    push_member(&mut status, "exec_info", write_exec_info(&data.status.exec_info));
    let mut entries = no_members();
    push_member(&mut entries, "status", object_of(status));
    object_of(entries)
}

/// Writes the payload of a progress notification.
pub fn write_progress(data: &ProgressEventData) -> (value: Json)
    ensures
        value.deep_view() == encode_progress(*data),
{
    let mut entries = no_members();
    push_member(&mut entries, "value", write_u64(data.value as u64));
    push_member(&mut entries, "max", write_u64(data.max as u64));
    object_of(entries)
}

/// Writes a file record.
pub fn write_file_info(file: &FileInfo) -> (value: Json)
    ensures
        value.deep_view() == encode_file_info(file.deep_view()),
{
    let mut entries = no_members();
    push_member(&mut entries, "filename", write_string(&file.filename));
    push_member(&mut entries, "subfolder", write_string(&file.subfolder));
    push_member(&mut entries, "type", write_string(&file.kind));
    object_of(entries)
}

/// Writes an array of file records.
pub fn write_files(files: &Vec<FileInfo>) -> (value: Json)
    ensures
        value.deep_view() == encode_files(files.deep_view()),
{
    let mut items: Vec<Json> = Vec::new();
    let mut i: usize = 0;
    while i < files.len()
        invariant
            i <= files.len(),
            items.len() == i,
            forall|j: int|
                0 <= j < i ==> items@[j].deep_view() == encode_file_info(files@[j].deep_view()),
        decreases files.len() - i,
    {
        items.push(write_file_info(&files[i]));
        i += 1;
    }
    proof {
        lemma_array_view(items);
        assert(items.deep_view() =~= encode_files(files.deep_view())->Array_0);
    }
    Json::Array(items)
}

/// Writes an optional array of file records.
pub fn write_optional_files(files: &Option<Vec<FileInfo>>) -> (value: Json)
    ensures
        value.deep_view() == encode_optional_files(files.deep_view()),
{
    match files {
        Some(files) => write_files(files),
        None => Json::Null,
    }
}

/// Writes what a node produced: the images first, then the other members.
pub fn write_output(output: &ExecutedOutput) -> (value: Json)
    ensures
        value.deep_view() == encode_output(output.deep_view()),
{
    let mut entries = no_members();
    push_member(&mut entries, "images", write_optional_files(&output.images));
    let ghost first = entries.deep_view();
    let mut others = clone_entries(&output.others);
    entries.append(&mut others);
    assert(entries.deep_view() =~= first + output.others.deep_view());
    object_of(entries)
}

/// Writes an optional output.
pub fn write_optional_output(output: &Option<ExecutedOutput>) -> (value: Json)
    ensures
        value.deep_view() == encode_optional_output(output.deep_view()),
{
    match output {
        Some(output) => write_output(output),
        None => Json::Null,
    }
}

/// Writes the payload of a notification that a node has finished.
pub fn write_executed(data: &ExecutedEventData) -> (value: Json)
    ensures
        value.deep_view() == encode_executed(data.deep_view()),
{
    let mut entries = no_members();
    push_member(&mut entries, "node", write_string(&data.node));
    push_member(&mut entries, "prompt_id", write_string(&data.prompt_id));
    push_member(&mut entries, "output", write_optional_output(&data.output));
    object_of(entries)
}

/// Writes the payload of a notification that a node is running.
pub fn write_executing(data: &ExecutingEventData) -> (value: Json)
    ensures
        value.deep_view() == encode_executing(data.deep_view()),
{
    let mut entries = no_members();
    push_member(&mut entries, "node", write_optional_text(&data.node));
    push_member(&mut entries, "display_node", write_optional_text(&data.display_node));
    push_member(&mut entries, "prompt_id", write_string(&data.prompt_id));
    object_of(entries)
}

/// Writes the payload of a notification that work has started.
pub fn write_execution_start(data: &ExecutionStartEventData) -> (value: Json)
    ensures
        value.deep_view() == encode_execution_start(data.deep_view()),
{
    let mut entries = no_members();
    push_member(&mut entries, "prompt_id", write_string(&data.prompt_id));
    push_member(&mut entries, "timestamp", write_u64(data.timestamp));
    object_of(entries)
}

/// Writes the payload of a notification about cached nodes.
pub fn write_execution_cached(data: &ExecutionCachedEventData) -> (value: Json)
    ensures
        value.deep_view() == encode_execution_cached(data.deep_view()),
{
    let mut entries = no_members();
    push_member(&mut entries, "nodes", write_texts(&data.nodes));
    push_member(&mut entries, "prompt_id", write_string(&data.prompt_id));
    push_member(&mut entries, "timestamp", write_u64(data.timestamp));
    object_of(entries)
}

/// Writes the payload of a notification that work was interrupted.
pub fn write_execution_interrupted(data: &ExecutionInterruptedEventData) -> (value: Json)
    ensures
        value.deep_view() == encode_execution_interrupted(data.deep_view()),
{
    let mut entries = no_members();
    push_member(&mut entries, "prompt_id", write_string(&data.prompt_id));
    push_member(&mut entries, "node_id", write_string(&data.node_id));
    push_member(&mut entries, "node_type", write_string(&data.node_type));
    push_member(&mut entries, "executed", write_texts(&data.executed));
    object_of(entries)
}

/// Writes the payload of a notification that work has failed.
pub fn write_execution_error(data: &ExecutionErrorEventData) -> (value: Json)
    ensures
        value.deep_view() == encode_execution_error(data.deep_view()),
{
    let mut entries = no_members();
    push_member(&mut entries, "prompt_id", write_string(&data.prompt_id));
    push_member(&mut entries, "node_id", write_string(&data.node_id));
    push_member(&mut entries, "node_type", write_string(&data.node_type));
    push_member(&mut entries, "executed", write_texts(&data.executed));
    push_member(&mut entries, "exception_message", write_string(&data.exception_message));
    push_member(&mut entries, "exception_type", write_string(&data.exception_type));
    push_member(&mut entries, "traceback", write_texts(&data.traceback));
    push_member(&mut entries, "current_inputs", object_of(clone_entries(&data.current_inputs)));
    push_member(
        &mut entries,
        "current_outputs",
        object_of(clone_entries(&data.current_outputs)),
    );
    object_of(entries)
}

/// Writes the payload of a notification that work has finished.
pub fn write_execution_success(data: &ExecutionSuccessEventData) -> (value: Json)
    ensures
        value.deep_view() == encode_execution_success(data.deep_view()),
{
    let mut entries = no_members();
    push_member(&mut entries, "prompt_id", write_string(&data.prompt_id));
    object_of(entries)
}

/// Makes a frame of a kind and a payload.
pub fn write_tagged(kind: &str, payload: Json) -> (frame: Json)
    ensures
        frame.deep_view() == crate::wire::tagged(kind@, payload.deep_view()),
{
    let mut entries = no_members();
    push_member(&mut entries, "type", Json::String(kind.to_owned()));
    push_member(&mut entries, "data", payload);
    object_of(entries)
}

/// Writes a notification in its wire form. A frame of no known shape has no
/// wire form of its own: for it the answer is `None`.
pub fn write_event(event: &ComfyEvent) -> (frame: Option<Json>)
    ensures
        frame.deep_view() == encode_event(event.deep_view()),
        event_well_formed(event.deep_view()) ==> (frame matches Some(value)
            ==> value.deep_view().well_formed()),
{
    proof {
        if event_well_formed(event.deep_view()) && event.deep_view() !is Unknown {
            crate::validity::law_encoded_is_well_formed(event.deep_view());
        }
    }
    match event {
        ComfyEvent::Status { data, sid } => {
            let mut entries = no_members();
            push_member(&mut entries, "type", Json::String("status".to_owned()));
            push_member(&mut entries, "data", write_status_data(data));
            push_member(&mut entries, "sid", write_optional_text(sid));
            Some(object_of(entries))
        },
        ComfyEvent::Progress { data } => Some(write_tagged("progress", write_progress(data))),
        ComfyEvent::Executed { data } => Some(write_tagged("executed", write_executed(data))),
        ComfyEvent::Executing { data } => Some(write_tagged("executing", write_executing(data))),
        ComfyEvent::ExecutionStart { data } => Some(
            write_tagged("execution_start", write_execution_start(data)),
        ),
        ComfyEvent::ExecutionError { data } => Some(
            write_tagged("execution_error", write_execution_error(data)),
        ),
        ComfyEvent::ExecutionCached { data } => Some(
            write_tagged("execution_cached", write_execution_cached(data)),
        ),
        ComfyEvent::ExecutionInterrupted { data } => Some(
            write_tagged("execution_interrupted", write_execution_interrupted(data)),
        ),
        ComfyEvent::ExecutionSuccess { data } => Some(
            write_tagged("execution_success", write_execution_success(data)),
        ),
        ComfyEvent::Unknown(_) => None,
    }
}

} // verus!
