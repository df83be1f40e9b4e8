//! Laws of the wire form: what was written is read back as it was, and a
//! frame of no known kind is kept whole.

use crate::json::{JsonView, lemma_lookup_absent, lemma_lookup_add, lemma_lookup_push};
use crate::meta::{
    ComfyEventView, ExecInfo, ExecutedEventDataView, ExecutedOutputView, ExecutingEventDataView,
    ExecutionCachedEventDataView, ExecutionErrorEventDataView, ExecutionInterruptedEventDataView,
    ExecutionStartEventDataView, ExecutionSuccessEventDataView, FileInfoView, ProgressEventData,
    StatusEventData,
};
use crate::wire::{
    classify_frame, decode_event, decode_exec_info, decode_executed, decode_executing,
    decode_execution_cached, decode_execution_error, decode_execution_interrupted,
    decode_execution_start, decode_execution_success, decode_file_info, decode_files,
    decode_optional_files, decode_optional_output, decode_output, decode_progress,
    decode_status_data, encode_event, encode_exec_info, encode_executed, encode_executing,
    encode_execution_cached, encode_execution_error, encode_execution_interrupted,
    encode_execution_start, encode_execution_success, encode_file_info, encode_files,
    encode_optional_files, encode_optional_output, encode_output, encode_progress,
    encode_status_data, event_writable, is_known_kind, lacks_key, texts_json, texts_of, without_key,
};
use vstd::prelude::*;

verus! {

/// Dropping a key from two lists joined drops it from each.
pub proof fn lemma_without_key_add(
    front: Seq<(Seq<char>, JsonView)>,
    back: Seq<(Seq<char>, JsonView)>,
    key: Seq<char>,
)
    ensures
        without_key(front + back, key) == without_key(front, key) + without_key(back, key),
    decreases back.len(),
{
    if back.len() == 0 {
        assert(front + back =~= front);
        assert(without_key(front, key) + without_key(back, key) =~= without_key(front, key));
    } else {
        let whole = front + back;
        assert(whole.last() == back.last());
        assert(whole.drop_last() =~= front + back.drop_last());
        lemma_without_key_add(front, back.drop_last(), key);
        let a = without_key(front, key);
        let b = without_key(back.drop_last(), key);
        if back.last().0 != key {
            assert((a + b).push(back.last()) =~= a + b.push(back.last()));
        }
    }
}

/// Dropping a key that no entry has changes nothing.
pub proof fn lemma_without_key_absent(entries: Seq<(Seq<char>, JsonView)>, key: Seq<char>)
    requires
        lacks_key(entries, key),
    ensures
        without_key(entries, key) == entries,
    decreases entries.len(),
{
    if entries.len() > 0 {
        let shorter = entries.drop_last();
        assert forall|i: int| 0 <= i < shorter.len() implies (#[trigger] shorter[i]).0 != key by {
            assert(shorter[i] == entries[i]);
        }
        lemma_without_key_absent(shorter, key);
        assert(entries.last() == entries[entries.len() - 1]);
        assert(shorter.push(entries.last()) =~= entries);
    }
}

/// After a key was dropped, no entry has it.
pub proof fn lemma_without_key_lacks(entries: Seq<(Seq<char>, JsonView)>, key: Seq<char>)
    ensures
        lacks_key(without_key(entries, key), key),
    decreases entries.len(),
{
    if entries.len() > 0 {
        lemma_without_key_lacks(entries.drop_last(), key);
    }
}

/// A list of texts is read back from the array it was written as.
pub proof fn lemma_texts_round_trip(texts: Seq<Seq<char>>)
    ensures
        texts_of(texts_json(texts)) == Some(texts),
{
    let items = texts_json(texts)->Array_0;
    assert forall|i: int| 0 <= i < items.len() implies (#[trigger] items[i]) is String by {}
    assert(texts_of(texts_json(texts))->Some_0 =~= texts);
}

/// The queue details are read back from what they were written as.
pub proof fn lemma_exec_info_round_trip(info: ExecInfo)
    ensures
        decode_exec_info(encode_exec_info(info)) == Some(info),
{
    broadcast use lemma_lookup_push;

}

/// A status payload is read back from what it was written as.
pub proof fn lemma_status_data_round_trip(data: StatusEventData)
    ensures
        decode_status_data(encode_status_data(data)) == Some(data),
{
    broadcast use lemma_lookup_push;

    lemma_exec_info_round_trip(data.status.exec_info);
}

/// A progress payload is read back from what it was written as.
pub proof fn lemma_progress_round_trip(data: ProgressEventData)
    ensures
        decode_progress(encode_progress(data)) == Some(data),
{
    broadcast use lemma_lookup_push;

    reveal_strlit("value");
    assert("value"@.len() == 5 && "value"@[0] == 'v');
    reveal_strlit("max");
    assert("max"@.len() == 3 && "max"@[0] == 'm');
}

/// A file record is read back from what it was written as.
pub proof fn lemma_file_info_round_trip(file: FileInfoView)
    ensures
        decode_file_info(encode_file_info(file)) == Some(file),
{
    broadcast use lemma_lookup_push;

    reveal_strlit("filename");
    assert("filename"@.len() == 8 && "filename"@[0] == 'f');
    reveal_strlit("name");
    assert("name"@.len() == 4 && "name"@[0] == 'n');
    reveal_strlit("subfolder");
    assert("subfolder"@.len() == 9 && "subfolder"@[0] == 's');
    reveal_strlit("type");
    assert("type"@.len() == 4 && "type"@[0] == 't');
}

/// A list of file records is read back from the array it was written as.
pub proof fn lemma_files_round_trip(files: Seq<FileInfoView>)
    ensures
        decode_files(encode_files(files)) == Some(files),
{
    let items = encode_files(files)->Array_0;
    assert forall|i: int| 0 <= i < items.len() implies decode_file_info(#[trigger] items[i])
        == Some(files[i]) by {
        lemma_file_info_round_trip(files[i]);
    }
    assert(decode_files(encode_files(files))->Some_0 =~= files);
}

/// An optional list of file records is read back from what it was written as.
pub proof fn lemma_optional_files_round_trip(files: Option<Seq<FileInfoView>>)
    ensures
        decode_optional_files(Some(encode_optional_files(files))) == Some(files),
{
    if let Some(list) = files {
        lemma_files_round_trip(list);
    }
}

/// An output whose other members hold none called `images` is read back from
/// what it was written as.
pub proof fn lemma_output_round_trip(output: ExecutedOutputView)
    requires
        lacks_key(output.others, "images"@),
    ensures
        decode_output(encode_output(output)) == Some(output),
{
    broadcast use lemma_lookup_push;

    let key = "images"@;
    let first = Seq::<(Seq<char>, JsonView)>::empty().push(
        (key, encode_optional_files(output.images)),
    );
    lemma_lookup_add(first, output.others, key);
    lemma_lookup_absent(output.others, key);
    lemma_optional_files_round_trip(output.images);
    lemma_without_key_add(first, output.others, key);
    lemma_without_key_absent(output.others, key);
    assert(first.last().0 == key);
    assert(first.drop_last() =~= Seq::<(Seq<char>, JsonView)>::empty());
    assert(without_key(first.drop_last(), key) =~= Seq::<(Seq<char>, JsonView)>::empty());
    assert(without_key(first, key) =~= Seq::<(Seq<char>, JsonView)>::empty());
    assert(without_key(first, key) + output.others =~= output.others);
}

/// An optional output is read back from what it was written as.
pub proof fn lemma_optional_output_round_trip(output: Option<ExecutedOutputView>)
    requires
        output matches Some(o) ==> lacks_key(o.others, "images"@),
    ensures
        decode_optional_output(Some(encode_optional_output(output))) == Some(output),
{
    if let Some(o) = output {
        lemma_output_round_trip(o);
    }
}

/// The payload of a finished node is read back from what it was written as.
pub proof fn lemma_executed_round_trip(data: ExecutedEventDataView)
    requires
        data.output matches Some(o) ==> lacks_key(o.others, "images"@),
    ensures
        decode_executed(encode_executed(data)) == Some(data),
{
    broadcast use lemma_lookup_push;

    reveal_strlit("node");
    assert("node"@.len() == 4 && "node"@[0] == 'n');
    reveal_strlit("prompt_id");
    assert("prompt_id"@.len() == 9 && "prompt_id"@[0] == 'p');
    reveal_strlit("output");
    assert("output"@.len() == 6 && "output"@[0] == 'o');
    lemma_optional_output_round_trip(data.output);
}

/// The payload of a running node is read back from what it was written as.
pub proof fn lemma_executing_round_trip(data: ExecutingEventDataView)
    ensures
        decode_executing(encode_executing(data)) == Some(data),
{
    broadcast use lemma_lookup_push;

    reveal_strlit("node");
    assert("node"@.len() == 4 && "node"@[0] == 'n');
    reveal_strlit("display_node");
    assert("display_node"@.len() == 12 && "display_node"@[0] == 'd');
    reveal_strlit("prompt_id");
    assert("prompt_id"@.len() == 9 && "prompt_id"@[0] == 'p');
}

/// The payload of started work is read back from what it was written as.
pub proof fn lemma_execution_start_round_trip(data: ExecutionStartEventDataView)
    ensures
        decode_execution_start(encode_execution_start(data)) == Some(data),
{
    broadcast use lemma_lookup_push;

    reveal_strlit("prompt_id");
    assert("prompt_id"@.len() == 9 && "prompt_id"@[0] == 'p');
    reveal_strlit("timestamp");
    assert("timestamp"@.len() == 9 && "timestamp"@[0] == 't');
}

/// The payload about cached nodes is read back from what it was written as.
pub proof fn lemma_execution_cached_round_trip(data: ExecutionCachedEventDataView)
    ensures
        decode_execution_cached(encode_execution_cached(data)) == Some(data),
{
    broadcast use lemma_lookup_push;

    reveal_strlit("nodes");
    assert("nodes"@.len() == 5 && "nodes"@[0] == 'n');
    reveal_strlit("prompt_id");
    assert("prompt_id"@.len() == 9 && "prompt_id"@[0] == 'p');
    reveal_strlit("timestamp");
    assert("timestamp"@.len() == 9 && "timestamp"@[0] == 't');
    lemma_texts_round_trip(data.nodes);
}

/// The payload of interrupted work is read back from what it was written as.
pub proof fn lemma_execution_interrupted_round_trip(data: ExecutionInterruptedEventDataView)
    ensures
        decode_execution_interrupted(encode_execution_interrupted(data)) == Some(data),
{
    broadcast use lemma_lookup_push;

    reveal_strlit("prompt_id");
    assert("prompt_id"@.len() == 9 && "prompt_id"@[0] == 'p');
    reveal_strlit("node_id");
    assert("node_id"@.len() == 7 && "node_id"@[0] == 'n');
    reveal_strlit("node_type");
    assert("node_type"@.len() == 9 && "node_type"@[0] == 'n');
    reveal_strlit("executed");
    assert("executed"@.len() == 8 && "executed"@[0] == 'e');
    lemma_texts_round_trip(data.executed);
}

/// The payload of failed work is read back from what it was written as.
pub proof fn lemma_execution_error_round_trip(data: ExecutionErrorEventDataView)
    ensures
        decode_execution_error(encode_execution_error(data)) == Some(data),
{
    broadcast use lemma_lookup_push;

    reveal_strlit("prompt_id");
    assert("prompt_id"@.len() == 9 && "prompt_id"@[0] == 'p');
    reveal_strlit("node_id");
    assert("node_id"@.len() == 7 && "node_id"@[0] == 'n');
    reveal_strlit("node_type");
    assert("node_type"@.len() == 9 && "node_type"@[0] == 'n');
    reveal_strlit("executed");
    assert("executed"@.len() == 8 && "executed"@[0] == 'e');
    reveal_strlit("exception_message");
    assert("exception_message"@.len() == 17 && "exception_message"@[0] == 'e');
    reveal_strlit("exception_type");
    assert("exception_type"@.len() == 14 && "exception_type"@[0] == 'e');
    reveal_strlit("traceback");
    assert("traceback"@.len() == 9 && "traceback"@[0] == 't');
    reveal_strlit("current_inputs");
    assert("current_inputs"@.len() == 14 && "current_inputs"@[0] == 'c');
    reveal_strlit("current_outputs");
    assert("current_outputs"@.len() == 15 && "current_outputs"@[0] == 'c');
    lemma_texts_round_trip(data.executed);
    lemma_texts_round_trip(data.traceback);
}

/// The payload of finished work is read back from what it was written as.
pub proof fn lemma_execution_success_round_trip(data: ExecutionSuccessEventDataView)
    ensures
        decode_execution_success(encode_execution_success(data)) == Some(data),
{
    broadcast use lemma_lookup_push;

}

/// The names of the nine kinds, and of the members of a frame, are all
/// different texts.
pub proof fn lemma_kinds_differ()
    ensures
        "status"@.len() == 6,
        "progress"@.len() == 8,
        "executed"@.len() == 8,
        "executing"@.len() == 9,
        "execution_start"@.len() == 15,
        "execution_error"@.len() == 15,
        "execution_cached"@.len() == 16,
        "execution_interrupted"@.len() == 21,
        "execution_success"@.len() == 17,
        "progress"@[0] == 'p',
        "executed"@[0] == 'e',
        "execution_start"@[10] == 's',
        "execution_error"@[10] == 'e',
        "type"@.len() == 4,
        "data"@.len() == 4,
        "sid"@.len() == 3,
        "type"@[0] == 't',
        "data"@[0] == 'd',
{
    reveal_strlit("status");
    reveal_strlit("progress");
    reveal_strlit("executed");
    reveal_strlit("executing");
    reveal_strlit("execution_start");
    reveal_strlit("execution_error");
    reveal_strlit("execution_cached");
    reveal_strlit("execution_interrupted");
    reveal_strlit("execution_success");
    reveal_strlit("type");
    reveal_strlit("data");
    reveal_strlit("sid");
}

/// Round trip from the notification: every notification of a known kind that
/// is well formed has a wire form, and reading that wire form strictly gives
/// the notification back, member for member.
pub proof fn law_decode_inverts_encode(event: ComfyEventView)
    requires
        event !is Unknown,
        event_writable(event),
    ensures
        encode_event(event) is Some,
        decode_event(encode_event(event)->Some_0) == Some(event),
        classify_frame(encode_event(event)->Some_0) == event,
{
    broadcast use lemma_lookup_push;

    lemma_kinds_differ();
    match event {
        ComfyEventView::Status { data, sid } => {
            lemma_status_data_round_trip(data);
        },
        ComfyEventView::Progress { data } => {
            lemma_progress_round_trip(data);
        },
        ComfyEventView::Executed { data } => {
            lemma_executed_round_trip(data);
        },
        ComfyEventView::Executing { data } => {
            lemma_executing_round_trip(data);
        },
        ComfyEventView::ExecutionStart { data } => {
            lemma_execution_start_round_trip(data);
        },
        ComfyEventView::ExecutionError { data } => {
            lemma_execution_error_round_trip(data);
        },
        ComfyEventView::ExecutionCached { data } => {
            lemma_execution_cached_round_trip(data);
        },
        ComfyEventView::ExecutionInterrupted { data } => {
            lemma_execution_interrupted_round_trip(data);
        },
        ComfyEventView::ExecutionSuccess { data } => {
            lemma_execution_success_round_trip(data);
        },
        ComfyEventView::Unknown(_) => {},
    }
}

/// What a strict reading gives is of a known kind and well formed.
pub proof fn lemma_decoded_is_well_formed(frame: JsonView)
    requires
        decode_event(frame) is Some,
    ensures
        decode_event(frame)->Some_0 !is Unknown,
        event_writable(decode_event(frame)->Some_0),
{
    let event = decode_event(frame)->Some_0;
    if let ComfyEventView::Executed { data } = event {
        if let Some(output) = data.output {
            let payload = frame.field("data"@)->Some_0;
            let member = payload.field("output"@)->Some_0;
            lemma_without_key_lacks(member->Object_0, "images"@);
        }
    }
}

/// Round trip from the frame: where a frame reads strictly as a notification,
/// that notification has a wire form, and the wire form reads as the same
/// notification again. Writing a frame anew loses nothing of what was read.
pub proof fn law_reencoding_keeps_the_reading(frame: JsonView)
    requires
        decode_event(frame) is Some,
    ensures
        encode_event(decode_event(frame)->Some_0) is Some,
        decode_event(encode_event(decode_event(frame)->Some_0)->Some_0) == decode_event(frame),
{
    lemma_decoded_is_well_formed(frame);
    law_decode_inverts_encode(decode_event(frame)->Some_0);
}

/// The discriminator is reproduced: where a frame reads strictly as a
/// notification, the wire form of that notification has the frame's own
/// member `type`, and it names a known kind.
pub proof fn law_discriminator_is_reproduced(frame: JsonView)
    requires
        decode_event(frame) is Some,
    ensures
        encode_event(decode_event(frame)->Some_0) matches Some(again) && again.field("type"@)
            == frame.field("type"@),
        frame.field("type"@) matches Some(JsonView::String(kind)) && is_known_kind(kind),
{
    broadcast use lemma_lookup_push;

    lemma_kinds_differ();
}

/// Round trip of the wire form itself: a frame that is the wire form of a
/// well-formed notification is read and written again as exactly that frame.
pub proof fn law_wire_form_is_reproduced(event: ComfyEventView, frame: JsonView)
    requires
        event_writable(event),
        encode_event(event) == Some(frame),
    ensures
        decode_event(frame) == Some(event),
        encode_event(decode_event(frame)->Some_0) == Some(frame),
{
    law_decode_inverts_encode(event);
}

/// A frame whose discriminator names no known kind, or that has none, is
/// delivered as `Unknown` with the whole frame in it.
pub proof fn law_unrecognized_kind_is_kept_whole(frame: JsonView)
    requires
        !(frame.field("type"@) matches Some(JsonView::String(kind)) && is_known_kind(kind)),
    ensures
        decode_event(frame) is None,
        classify_frame(frame) == ComfyEventView::Unknown(frame),
{
}

/// Whatever the frame, it is delivered as its strict reading or else whole:
/// classifying never refuses a frame.
pub proof fn law_every_frame_is_delivered(frame: JsonView)
    ensures
        classify_frame(frame) is Unknown ==> classify_frame(frame) == ComfyEventView::Unknown(
            frame,
        ),
        classify_frame(frame) !is Unknown ==> decode_event(frame) == Some(classify_frame(frame)),
{
    if decode_event(frame) is Some {
        lemma_decoded_is_well_formed(frame);
    }
}

} // verus!
