//! Reading records and notifications from JSON values.

use crate::json::{Json, Number, clone_entries, find_entry, lemma_array_view, lemma_object_view};
use crate::meta::{
    ComfyEvent, ExecInfo, ExecutedEventData, ExecutedOutput, ExecutingEventData,
    ExecutionCachedEventData, ExecutionErrorEventData, ExecutionInterruptedEventData,
    ExecutionStartEventData, ExecutionSuccessEventData, FileInfo, History, Images,
    ProgressEventData, PromptInfo, PromptStatus, StatusEventData, StatusEventStatus,
};
use crate::text::str_eq;
use crate::wire::{
    classify_frame, decode_event, decode_exec_info, decode_executed, decode_executing,
    decode_execution_cached, decode_execution_error, decode_execution_interrupted,
    decode_execution_start, decode_execution_success, decode_file_info, decode_files,
    decode_histories, decode_history, decode_images, decode_optional_files, decode_optional_output,
    decode_output, decode_outputs, decode_progress, decode_prompt_info, decode_prompt_status,
    decode_status_data, entries_member, event_well_formed, optional_text_member, select_history,
    text_member, text_of, texts_member, texts_of, u64_member, usize_member, without_key,
};
use vstd::prelude::*;

verus! {

/// Reads a string value.
pub fn read_text(value: &Json) -> (text: Option<String>)
    ensures
        text.deep_view() == text_of(value.deep_view()),
{
    match value {
        Json::String(text) => Some(text.clone()),
        _ => None,
    }
}

/// Reads a member that must be a string.
pub fn read_text_member(value: &Json, key: &str) -> (text: Option<String>)
    ensures
        text.deep_view() == text_member(value.deep_view(), key@),
{
    match value.get(key) {
        Some(member) => read_text(member),
        None => None,
    }
}

/// Reads a member that is a string, or is null or missing.
pub fn read_optional_text_member(value: &Json, key: &str) -> (text: Option<Option<String>>)
    ensures
        text.deep_view() == optional_text_member(value.deep_view(), key@),
{
    match value.get(key) {
        None => Some(None),
        Some(Json::Null) => Some(None),
        Some(Json::String(text)) => Some(Some(text.clone())),
        Some(_) => None,
    }
}

/// Reads a member that must be a non-negative integer.
pub fn read_u64_member(value: &Json, key: &str) -> (n: Option<u64>)
    ensures
        n == u64_member(value.deep_view(), key@),
{
    match value.get(key) {
        Some(Json::Number(Number::Unsigned(n))) => Some(*n),
        _ => None,
    }
}

/// Reads a member that must be a non-negative integer within `usize`.
pub fn read_usize_member(value: &Json, key: &str) -> (n: Option<usize>)
    ensures
        n == usize_member(value.deep_view(), key@),
{
    match read_u64_member(value, key) {
        Some(n) => if n <= usize::MAX as u64 {
            Some(n as usize)
        } else {
            None
        },
        None => None,
    }
}

/// Reads an array of strings.
pub fn read_texts(value: &Json) -> (texts: Option<Vec<String>>)
    ensures
        texts.deep_view() == texts_of(value.deep_view()),
{
    match value {
        Json::Array(items) => {
            proof {
                lemma_array_view(*items);
            }
            let ghost views = items.deep_view();
            let mut texts: Vec<String> = Vec::new();
            let mut i: usize = 0;
            while i < items.len()
                invariant
                    i <= items.len(),
                    views == items.deep_view(),
                    value.deep_view() == crate::json::JsonView::Array(views),
                    texts.len() == i,
                    forall|j: int|
                        0 <= j < i ==> (#[trigger] views[j]) is String && texts@[j]@
                            == views[j]->String_0,
                decreases items.len() - i,
            {
                match &items[i] {
                    Json::String(text) => {
                        texts.push(text.clone());
                    },
                    _ => {
                        assert(!(views[i as int] is String));
                        return None;
                    },
                }
                i += 1;
            }
            assert(texts.deep_view() =~= texts_of(value.deep_view())->Some_0);
            Some(texts)
        },
        _ => None,
    }
}

/// Reads a member that must be an array of strings.
pub fn read_texts_member(value: &Json, key: &str) -> (texts: Option<Vec<String>>)
    ensures
        texts.deep_view() == texts_member(value.deep_view(), key@),
{
    match value.get(key) {
        Some(member) => read_texts(member),
        None => None,
    }
}

/// Reads a member that must be an object, by its entries.
pub fn read_entries_member(value: &Json, key: &str) -> (entries: Option<Vec<(String, Json)>>)
    ensures
        entries.deep_view() == entries_member(value.deep_view(), key@),
{
    match value.get(key) {
        Some(Json::Object(entries)) => {
            proof {
                lemma_object_view(*entries);
            }
            Some(clone_entries(entries))
        },
        _ => None,
    }
}

/// Reads the queue details.
pub fn read_exec_info(value: &Json) -> (info: Option<ExecInfo>)
    ensures
        info == decode_exec_info(value.deep_view()),
{
    match read_usize_member(value, "queue_remaining") {
        Some(queue_remaining) => Some(ExecInfo { queue_remaining }),
        None => None,
    }
}

/// Reads the answer to a question about the queue.
pub fn read_prompt_info(value: &Json) -> (info: Option<PromptInfo>)
    ensures
        info == decode_prompt_info(value.deep_view()),
{
    match value.get("exec_info") {
        Some(member) => match read_exec_info(member) {
            Some(exec_info) => Some(PromptInfo { exec_info }),
            None => None,
        },
        None => None,
    }
}

/// Reads the payload of a status notification.
pub fn read_status_data(value: &Json) -> (data: Option<StatusEventData>)
    ensures
        data == decode_status_data(value.deep_view()),
{
    match value.get("status") {
        Some(status) => match status.get("exec_info") {
            Some(member) => match read_exec_info(member) {
                Some(exec_info) => Some(
                    StatusEventData { status: StatusEventStatus { exec_info } },
                ),
                None => None,
            },
            None => None,
        },
        None => None,
    }
}

/// Reads the payload of a progress notification.
pub fn read_progress(value: &Json) -> (data: Option<ProgressEventData>)
    ensures
        data == decode_progress(value.deep_view()),
{
    match (read_usize_member(value, "value"), read_usize_member(value, "max")) {
        (Some(value), Some(max)) => Some(ProgressEventData { value, max }),
        _ => None,
    }
}

/// Reads a file record.
pub fn read_file_info(value: &Json) -> (file: Option<FileInfo>)
    ensures
        file.deep_view() == decode_file_info(value.deep_view()),
{
    let filename = match (value.get("filename"), value.get("name")) {
        (Some(member), None) => read_text(member),
        (None, Some(member)) => read_text(member),
        _ => None,
    };
    match (filename, read_text_member(value, "subfolder"), read_text_member(value, "type")) {
        (Some(filename), Some(subfolder), Some(kind)) => Some(
            FileInfo { filename, subfolder, kind },
        ),
        _ => None,
    }
}

/// Reads an array of file records.
pub fn read_files(value: &Json) -> (files: Option<Vec<FileInfo>>)
    ensures
        files.deep_view() == decode_files(value.deep_view()),
{
    match value {
        Json::Array(items) => {
            proof {
                lemma_array_view(*items);
            }
            let ghost views = items.deep_view();
            let mut files: Vec<FileInfo> = Vec::new();
            let mut i: usize = 0;
            while i < items.len()
                invariant
                    i <= items.len(),
                    views == items.deep_view(),
                    value.deep_view() == crate::json::JsonView::Array(views),
                    files.len() == i,
                    forall|j: int|
                        0 <= j < i ==> decode_file_info(#[trigger] views[j]) == Some(
                            files@[j].deep_view(),
                        ),
                decreases items.len() - i,
            {
                match read_file_info(&items[i]) {
                    Some(file) => {
                        files.push(file);
                    },
                    None => {
                        assert(decode_file_info(views[i as int]) is None);
                        return None;
                    },
                }
                i += 1;
            }
            assert(files.deep_view() =~= decode_files(value.deep_view())->Some_0);
            Some(files)
        },
        _ => None,
    }
}

/// Reads a member that is an array of file records, or is null or missing.
pub fn read_optional_files(member: Option<&Json>) -> (files: Option<Option<Vec<FileInfo>>>)
    ensures
        files.deep_view() == decode_optional_files(member.deep_view()),
{
    match member {
        None => Some(None),
        Some(Json::Null) => Some(None),
        Some(value) => match read_files(value) {
            Some(files) => Some(Some(files)),
            None => None,
        },
    }
}

/// Copies the entries whose key is not the given one.
pub fn entries_without(entries: &Vec<(String, Json)>, key: &str) -> (kept: Vec<(String, Json)>)
    ensures
        kept.deep_view() == without_key(entries.deep_view(), key@),
{
    let ghost all = entries.deep_view();
    let mut kept: Vec<(String, Json)> = Vec::new();
    let mut i: usize = 0;
    assert(kept.deep_view() =~= without_key(all.take(0), key@));
    while i < entries.len()
        invariant
            i <= entries.len(),
            all == entries.deep_view(),
            kept.deep_view() == without_key(all.take(i as int), key@),
        decreases entries.len() - i,
    {
        proof {
            let upto = all.take(i + 1);
            assert(upto.last() == all[i as int]);
            assert(upto.drop_last() =~= all.take(i as int));
        }
        if !str_eq(entries[i].0.as_str(), key) {
            let ghost before = kept.deep_view();
            kept.push((entries[i].0.clone(), entries[i].1.clone()));
            assert(kept.deep_view() =~= before.push(all[i as int]));
        }
        i += 1;
    }
    assert(all.take(i as int) =~= all);
    kept
}

/// Reads a list of images.
pub fn read_images(value: &Json) -> (images: Option<Images>)
    ensures
        images.deep_view() == decode_images(value.deep_view()),
{
    match value {
        Json::Object(entries) => {
            proof {
                lemma_object_view(*entries);
            }
            match read_optional_files(find_entry(entries, "images")) {
                Some(images) => Some(Images { images }),
                None => None,
            }
        },
        _ => None,
    }
}

/// Reads what a node produced.
pub fn read_output(value: &Json) -> (output: Option<ExecutedOutput>)
    ensures
        output.deep_view() == decode_output(value.deep_view()),
{
    match value {
        Json::Object(entries) => {
            proof {
                lemma_object_view(*entries);
            }
            match read_optional_files(find_entry(entries, "images")) {
                Some(images) => Some(
                    ExecutedOutput { images, others: entries_without(entries, "images") },
                ),
                None => None,
            }
        },
        _ => None,
    }
}

/// Reads a member that is a node's output, or is null or missing.
pub fn read_optional_output(member: Option<&Json>) -> (output: Option<Option<ExecutedOutput>>)
    ensures
        output.deep_view() == decode_optional_output(member.deep_view()),
{
    match member {
        None => Some(None),
        Some(Json::Null) => Some(None),
        Some(value) => match read_output(value) {
            Some(output) => Some(Some(output)),
            None => None,
        },
    }
}

/// Reads the payload of a notification that a node has finished.
pub fn read_executed(value: &Json) -> (data: Option<ExecutedEventData>)
    ensures
        data.deep_view() == decode_executed(value.deep_view()),
{
    match (
        read_text_member(value, "node"),
        read_text_member(value, "prompt_id"),
        read_optional_output(value.get("output")),
    ) {
        (Some(node), Some(prompt_id), Some(output)) => Some(
            ExecutedEventData { node, prompt_id, output },
        ),
        _ => None,
    }
}

/// Reads the payload of a notification that a node is running.
pub fn read_executing(value: &Json) -> (data: Option<ExecutingEventData>)
    ensures
        data.deep_view() == decode_executing(value.deep_view()),
{
    match (
        read_optional_text_member(value, "node"),
        read_optional_text_member(value, "display_node"),
        read_text_member(value, "prompt_id"),
    ) {
        (Some(node), Some(display_node), Some(prompt_id)) => Some(
            ExecutingEventData { node, display_node, prompt_id },
        ),
        _ => None,
    }
}

/// Reads the payload of a notification that work has started.
pub fn read_execution_start(value: &Json) -> (data: Option<ExecutionStartEventData>)
    ensures
        data.deep_view() == decode_execution_start(value.deep_view()),
{
    match (read_text_member(value, "prompt_id"), read_u64_member(value, "timestamp")) {
        (Some(prompt_id), Some(timestamp)) => Some(
            ExecutionStartEventData { prompt_id, timestamp },
        ),
        _ => None,
    }
}

/// Reads the payload of a notification about cached nodes.
pub fn read_execution_cached(value: &Json) -> (data: Option<ExecutionCachedEventData>)
    ensures
        data.deep_view() == decode_execution_cached(value.deep_view()),
{
    match (
        read_texts_member(value, "nodes"),
        read_text_member(value, "prompt_id"),
        read_u64_member(value, "timestamp"),
    ) {
        (Some(nodes), Some(prompt_id), Some(timestamp)) => Some(
            ExecutionCachedEventData { nodes, prompt_id, timestamp },
        ),
        _ => None,
    }
}

/// Reads the payload of a notification that work was interrupted.
pub fn read_execution_interrupted(value: &Json) -> (data: Option<ExecutionInterruptedEventData>)
    ensures
        data.deep_view() == decode_execution_interrupted(value.deep_view()),
{
    match (
        read_text_member(value, "prompt_id"),
        read_text_member(value, "node_id"),
        read_text_member(value, "node_type"),
        read_texts_member(value, "executed"),
    ) {
        (Some(prompt_id), Some(node_id), Some(node_type), Some(executed)) => Some(
            ExecutionInterruptedEventData { prompt_id, node_id, node_type, executed },
        ),
        _ => None,
    }
}

/// Reads the payload of a notification that work has failed.
pub fn read_execution_error(value: &Json) -> (data: Option<ExecutionErrorEventData>)
    ensures
        data.deep_view() == decode_execution_error(value.deep_view()),
{
    match (
        read_text_member(value, "prompt_id"),
        read_text_member(value, "node_id"),
        read_text_member(value, "node_type"),
        read_texts_member(value, "executed"),
    ) {
        (Some(prompt_id), Some(node_id), Some(node_type), Some(executed)) => match (
            read_text_member(value, "exception_message"),
            read_text_member(value, "exception_type"),
            read_texts_member(value, "traceback"),
            read_entries_member(value, "current_inputs"),
            read_entries_member(value, "current_outputs"),
        ) {
            (
                Some(exception_message),
                Some(exception_type),
                Some(traceback),
                Some(current_inputs),
                Some(current_outputs),
            ) => Some(
                ExecutionErrorEventData {
                    prompt_id,
                    node_id,
                    node_type,
                    executed,
                    exception_message,
                    exception_type,
                    traceback,
                    current_inputs,
                    current_outputs,
                },
            ),
            _ => None,
        },
        _ => None,
    }
}

/// Reads the payload of a notification that work has finished.
pub fn read_execution_success(value: &Json) -> (data: Option<ExecutionSuccessEventData>)
    ensures
        data.deep_view() == decode_execution_success(value.deep_view()),
{
    match read_text_member(value, "prompt_id") {
        Some(prompt_id) => Some(ExecutionSuccessEventData { prompt_id }),
        None => None,
    }
}

/// Reads the service's answer to a submitted workflow.
pub fn read_prompt_status(value: &Json) -> (status: Option<PromptStatus>)
    ensures
        status.deep_view() == decode_prompt_status(value.deep_view()),
{
    match (
        read_text_member(value, "prompt_id"),
        read_usize_member(value, "number"),
        read_entries_member(value, "node_errors"),
    ) {
        (Some(prompt_id), Some(number), Some(node_errors)) => Some(
            PromptStatus { prompt_id, number, node_errors },
        ),
        _ => None,
    }
}

/// Reads the images of every node.
pub fn read_outputs(entries: &Vec<(String, Json)>) -> (outputs: Option<Vec<(String, Images)>>)
    ensures
        outputs.deep_view() == decode_outputs(entries.deep_view()),
{
    let ghost views = entries.deep_view();
    let mut outputs: Vec<(String, Images)> = Vec::new();
    let mut i: usize = 0;
    while i < entries.len()
        invariant
            i <= entries.len(),
            views == entries.deep_view(),
            outputs.len() == i,
            forall|j: int|
                0 <= j < i ==> decode_images((#[trigger] views[j]).1) == Some(
                    outputs@[j].1.deep_view(),
                ) && outputs@[j].0@ == views[j].0,
        decreases entries.len() - i,
    {
        match read_images(&entries[i].1) {
            Some(images) => {
                outputs.push((entries[i].0.clone(), images));
            },
            None => {
                assert(decode_images(views[i as int].1) is None);
                return None;
            },
        }
        i += 1;
    }
    assert(outputs.deep_view() =~= decode_outputs(views)->Some_0);
    Some(outputs)
}

/// Reads the recorded outputs of one piece of work.
pub fn read_history(value: &Json) -> (history: Option<History>)
    ensures
        history.deep_view() == decode_history(value.deep_view()),
{
    match value.get("outputs") {
        Some(Json::Object(entries)) => {
            proof {
                lemma_object_view(*entries);
            }
            match read_outputs(entries) {
                Some(outputs) => Some(History { outputs }),
                None => None,
            }
        },
        _ => None,
    }
}

/// Reads the histories that the service answers with, by identifier.
pub fn read_histories(value: &Json) -> (histories: Option<Vec<(String, History)>>)
    ensures
        histories.deep_view() == decode_histories(value.deep_view()),
{
    match value {
        Json::Object(entries) => {
            proof {
                lemma_object_view(*entries);
            }
            let ghost views = entries.deep_view();
            let mut histories: Vec<(String, History)> = Vec::new();
            let mut i: usize = 0;
            while i < entries.len()
                invariant
                    i <= entries.len(),
                    views == entries.deep_view(),
                    value.deep_view() == crate::json::JsonView::Object(views),
                    histories.len() == i,
                    forall|j: int|
                        0 <= j < i ==> decode_history((#[trigger] views[j]).1) == Some(
                            histories@[j].1.deep_view(),
                        ) && histories@[j].0@ == views[j].0,
                decreases entries.len() - i,
            {
                match read_history(&entries[i].1) {
                    Some(history) => {
                        histories.push((entries[i].0.clone(), history));
                    },
                    None => {
                        assert(decode_history(views[i as int].1) is None);
                        return None;
                    },
                }
                i += 1;
            }
            assert(histories.deep_view() =~= decode_histories(value.deep_view())->Some_0);
            Some(histories)
        },
        _ => None,
    }
}

/// Takes the history recorded under an identifier out of a list of them.
pub fn take_history(histories: Vec<(String, History)>, prompt_id: &str) -> (history: Option<
    History,
>)
    ensures
        history.deep_view() == select_history(histories.deep_view(), prompt_id@),
{
    let ghost all = histories.deep_view();
    let mut rest = histories;
    assert(all.take(rest.len() as int) =~= all);
    while rest.len() > 0
        invariant
            all == histories.deep_view(),
            rest.deep_view() == all.take(rest.len() as int),
            rest.len() <= all.len(),
            select_history(all, prompt_id@) == select_history(rest.deep_view(), prompt_id@),
        decreases rest.len(),
    {
        let ghost before = rest.deep_view();
        let last = rest.pop();
        proof {
            assert(rest.deep_view() =~= before.drop_last());
        }
        match last {
            Some((name, history)) => {
                assert(before.last() == (name@, history.deep_view()));
                if str_eq(name.as_str(), prompt_id) {
                    return Some(history);
                }
            },
            None => {},
        }
    }
    None
}

/// Reads a frame strictly: the notification it is the wire form of, if it is one.
pub fn read_event(frame: &Json) -> (event: Option<ComfyEvent>)
    ensures
        event.deep_view() == decode_event(frame.deep_view()),
{
    let kind = match frame.get("type") {
        Some(Json::String(kind)) => kind.as_str(),
        _ => {
            return None;
        },
    };
    let payload = match frame.get("data") {
        Some(payload) => payload,
        None => {
            return None;
        },
    };
    if str_eq(kind, "status") {
        match (read_status_data(payload), read_optional_text_member(frame, "sid")) {
            (Some(data), Some(sid)) => Some(ComfyEvent::Status { data, sid }),
            _ => None,
        }
    } else if str_eq(kind, "progress") {
        match read_progress(payload) {
            Some(data) => Some(ComfyEvent::Progress { data }),
            None => None,
        }
    } else if str_eq(kind, "executed") {
        match read_executed(payload) {
            Some(data) => Some(ComfyEvent::Executed { data }),
            None => None,
        }
    } else if str_eq(kind, "executing") {
        match read_executing(payload) {
            Some(data) => Some(ComfyEvent::Executing { data }),
            None => None,
        }
    } else if str_eq(kind, "execution_start") {
        match read_execution_start(payload) {
            Some(data) => Some(ComfyEvent::ExecutionStart { data }),
            None => None,
        }
    } else if str_eq(kind, "execution_error") {
        match read_execution_error(payload) {
            Some(data) => Some(ComfyEvent::ExecutionError { data }),
            None => None,
        }
    } else if str_eq(kind, "execution_cached") {
        match read_execution_cached(payload) {
            Some(data) => Some(ComfyEvent::ExecutionCached { data }),
            None => None,
        }
    } else if str_eq(kind, "execution_interrupted") {
        match read_execution_interrupted(payload) {
            Some(data) => Some(ComfyEvent::ExecutionInterrupted { data }),
            None => None,
        }
    } else if str_eq(kind, "execution_success") {
        match read_execution_success(payload) {
            Some(data) => Some(ComfyEvent::ExecutionSuccess { data }),
            None => None,
        }
    } else {
        None
    }
}

/// Turns a frame into the notification to deliver: its strict reading, or,
/// where it has none, the frame itself as [`ComfyEvent::Unknown`].
pub fn classify(frame: Json) -> (event: ComfyEvent)
    ensures
        event.deep_view() == classify_frame(frame.deep_view()),
        frame.deep_view().well_formed() ==> event_well_formed(event.deep_view()),
{
    proof {
        if frame.deep_view().well_formed() {
            crate::validity::law_classified_is_well_formed(frame.deep_view());
        }
    }
    match read_event(&frame) {
        Some(event) => event,
        None => ComfyEvent::Unknown(frame),
    }
}

} // verus!
