//! Well-formedness is kept: what is read from a well-formed value is well
//! formed, and what is written for a well-formed notification is so too.

use crate::json::{JsonView, entries_well_formed, lemma_field_well_formed};
use crate::meta::{ComfyEventView, ExecutedOutputView, FileInfoView};
use crate::roundtrip::{lemma_kinds_differ, lemma_without_key_lacks};
use crate::wire::{
    classify_frame, decode_event, decode_histories, decode_history, decode_output, decode_outputs,
    decode_prompt_status, encode_event, encode_exec_info, encode_executed, encode_executing,
    encode_execution_cached, encode_execution_error, encode_execution_interrupted,
    encode_execution_start, encode_execution_success, encode_file_info, encode_files,
    encode_optional_files, encode_optional_output, encode_output, encode_progress,
    encode_status_data, event_well_formed, event_writable, history_well_formed, lacks_key,
    output_well_formed, prompt_status_well_formed, select_history, texts_json, without_key,
};
use vstd::prelude::*;

verus! {

/// Every entry that is left after a key was dropped is one of the entries.
pub proof fn lemma_without_key_members(
    entries: Seq<(Seq<char>, JsonView)>,
    key: Seq<char>,
    i: int,
)
    requires
        0 <= i < without_key(entries, key).len(),
    ensures
        exists|j: int|
            0 <= j < entries.len() && (#[trigger] entries[j]) == without_key(entries, key)[i],
    decreases entries.len(),
{
    let shorter = entries.drop_last();
    let rest = without_key(shorter, key);
    if i < rest.len() {
        lemma_without_key_members(shorter, key, i);
        let j = choose|j: int| 0 <= j < shorter.len() && (#[trigger] shorter[j]) == rest[i];
        assert(entries[j] == shorter[j]);
    } else {
        assert(entries[entries.len() - 1] == without_key(entries, key)[i]);
    }
}

/// Dropping a key from the entries of a well-formed object leaves the
/// entries of a well-formed object.
pub proof fn lemma_without_key_well_formed(entries: Seq<(Seq<char>, JsonView)>, key: Seq<char>)
    requires
        entries_well_formed(entries),
    ensures
        entries_well_formed(without_key(entries, key)),
    decreases entries.len(),
{
    if entries.len() > 0 {
        let shorter = entries.drop_last();
        let last = entries.last();
        assert forall|i: int| 0 <= i < shorter.len() implies (
        #[trigger] shorter[i]).1.well_formed() by {
            assert(shorter[i] == entries[i]);
        }
        assert forall|i: int, j: int| 0 <= i < j < shorter.len() implies (#[trigger] shorter[i]).0
            != (#[trigger] shorter[j]).0 by {
            assert(shorter[i] == entries[i]);
            assert(shorter[j] == entries[j]);
        }
        lemma_without_key_well_formed(shorter, key);
        let rest = without_key(shorter, key);
        if last.0 != key {
            let all = rest.push(last);
            assert(last == entries[entries.len() - 1]);
            assert forall|i: int| 0 <= i < all.len() implies (
            #[trigger] all[i]).1.well_formed() by {
                if i < rest.len() {
                    assert(all[i] == rest[i]);
                }
            }
            assert forall|i: int, j: int| 0 <= i < j < all.len() implies (#[trigger] all[i]).0 != (
            #[trigger] all[j]).0 by {
                assert(all[i] == rest[i]);
                if j < rest.len() {
                    assert(all[j] == rest[j]);
                } else {
                    lemma_without_key_members(shorter, key, i);
                    let k = choose|k: int|
                        0 <= k < shorter.len() && (#[trigger] shorter[k]) == rest[i];
                    assert(shorter[k] == entries[k]);
                }
            }
        }
    }
}

/// What is read as an output from a well-formed value is well formed.
pub proof fn lemma_decoded_output_well_formed(value: JsonView)
    requires
        value.well_formed(),
        decode_output(value) is Some,
    ensures
        output_well_formed(decode_output(value)->Some_0),
{
    lemma_without_key_well_formed(value->Object_0, "images"@);
    lemma_without_key_lacks(value->Object_0, "images"@);
}

/// The entries of a member that is an object of a well-formed value are
/// those of a well-formed object.
pub proof fn lemma_entries_member_well_formed(value: JsonView, key: Seq<char>)
    requires
        value.well_formed(),
        crate::wire::entries_member(value, key) is Some,
    ensures
        entries_well_formed(crate::wire::entries_member(value, key)->Some_0),
{
    lemma_field_well_formed(value, key);
}

/// Reading keeps well-formedness: the notification that a well-formed frame
/// is read as strictly is well formed.
pub proof fn lemma_decoded_event_well_formed(frame: JsonView)
    requires
        frame.well_formed(),
        decode_event(frame) is Some,
    ensures
        event_well_formed(decode_event(frame)->Some_0),
{
    let event = decode_event(frame)->Some_0;
    lemma_field_well_formed(frame, "data"@);
    let payload = frame.field("data"@)->Some_0;
    match event {
        ComfyEventView::Executed { data } => {
            if data.output is Some {
                lemma_field_well_formed(payload, "output"@);
                lemma_decoded_output_well_formed(payload.field("output"@)->Some_0);
            }
        },
        ComfyEventView::ExecutionError { data } => {
            lemma_entries_member_well_formed(payload, "current_inputs"@);
            lemma_entries_member_well_formed(payload, "current_outputs"@);
        },
        _ => {},
    }
}

/// Delivery keeps well-formedness: whatever a well-formed frame is delivered
/// as, its strict reading or the frame kept whole, is well formed.
pub proof fn law_classified_is_well_formed(frame: JsonView)
    requires
        frame.well_formed(),
    ensures
        event_well_formed(classify_frame(frame)),
{
    if decode_event(frame) is Some {
        lemma_decoded_event_well_formed(frame);
    }
}

/// A well-formed notification can be written and read back.
pub proof fn lemma_well_formed_is_writable(event: ComfyEventView)
    requires
        event_well_formed(event),
    ensures
        event_writable(event),
{
}

/// Round trip among well-formed values: a well-formed notification of a
/// known kind is written as a well-formed frame, and that frame is read and
/// delivered as the same notification.
pub proof fn law_well_formed_round_trip(event: ComfyEventView)
    requires
        event !is Unknown,
        event_well_formed(event),
    ensures
        encode_event(event) matches Some(frame) && frame.well_formed() && decode_event(frame)
            == Some(event) && classify_frame(frame) == event,
{
    lemma_well_formed_is_writable(event);
    crate::roundtrip::law_decode_inverts_encode(event);
    law_encoded_is_well_formed(event);
}

/// What is read as the answer to a submitted workflow from a well-formed
/// value is well formed.
pub proof fn lemma_decoded_prompt_status_well_formed(value: JsonView)
    requires
        value.well_formed(),
        decode_prompt_status(value) is Some,
    ensures
        prompt_status_well_formed(decode_prompt_status(value)->Some_0),
{
    lemma_entries_member_well_formed(value, "node_errors"@);
}

/// What is read as a history from a well-formed value is well formed.
pub proof fn lemma_decoded_history_well_formed(value: JsonView)
    requires
        value.well_formed(),
        decode_history(value) is Some,
    ensures
        history_well_formed(decode_history(value)->Some_0),
{
    lemma_entries_member_well_formed(value, "outputs"@);
    let entries = crate::wire::entries_member(value, "outputs"@)->Some_0;
    let outputs = decode_outputs(entries)->Some_0;
    assert forall|i: int, j: int| 0 <= i < j < outputs.len() implies (#[trigger] outputs[i]).0 != (
    #[trigger] outputs[j]).0 by {
        assert(outputs[i].0 == entries[i].0);
        assert(outputs[j].0 == entries[j].0);
    }
}

/// A history that is selected from a list is one of the list.
pub proof fn lemma_selected_history_is_listed(
    histories: Seq<(Seq<char>, crate::meta::HistoryView)>,
    prompt_id: Seq<char>,
)
    requires
        select_history(histories, prompt_id) is Some,
    ensures
        exists|i: int|
            0 <= i < histories.len() && (#[trigger] histories[i]) == (
                prompt_id,
                select_history(histories, prompt_id)->Some_0,
            ),
    decreases histories.len(),
{
    if histories.last().0 == prompt_id {
        assert(histories[histories.len() - 1] == (
            prompt_id,
            select_history(histories, prompt_id)->Some_0,
        ));
    } else {
        let shorter = histories.drop_last();
        lemma_selected_history_is_listed(shorter, prompt_id);
        let i = choose|i: int|
            0 <= i < shorter.len() && (#[trigger] shorter[i]) == (
                prompt_id,
                select_history(shorter, prompt_id)->Some_0,
            );
        assert(histories[i] == shorter[i]);
    }
}

/// The history that is found among the histories read from a well-formed
/// value is well formed.
pub proof fn lemma_selected_history_well_formed(value: JsonView, prompt_id: Seq<char>)
    requires
        value.well_formed(),
        decode_histories(value) is Some,
        select_history(decode_histories(value)->Some_0, prompt_id) is Some,
    ensures
        history_well_formed(select_history(decode_histories(value)->Some_0, prompt_id)->Some_0),
{
    let histories = decode_histories(value)->Some_0;
    lemma_selected_history_is_listed(histories, prompt_id);
    let i = choose|i: int|
        0 <= i < histories.len() && (#[trigger] histories[i]) == (
            prompt_id,
            select_history(histories, prompt_id)->Some_0,
        );
    let entries = value->Object_0;
    assert(entries[i].1.well_formed());
    lemma_decoded_history_well_formed(entries[i].1);
}

/// Appending a member under a key that the entries of a well-formed object
/// lack gives the entries of a well-formed object; and they lack every other
/// key that the entries lacked.
pub proof fn lemma_push_well_formed(
    entries: Seq<(Seq<char>, JsonView)>,
    key: Seq<char>,
    value: JsonView,
)
    requires
        entries_well_formed(entries),
        lacks_key(entries, key),
        value.well_formed(),
    ensures
        entries_well_formed(entries.push((key, value))),
        forall|other: Seq<char>|
            other != key && lacks_key(entries, other) ==> #[trigger] lacks_key(
                entries.push((key, value)),
                other,
            ),
{
    let all = entries.push((key, value));
    assert forall|i: int| 0 <= i < all.len() implies (#[trigger] all[i]).1.well_formed() by {
        if i < entries.len() {
            assert(all[i] == entries[i]);
        }
    }
    assert forall|i: int, j: int| 0 <= i < j < all.len() implies (#[trigger] all[i]).0 != (
    #[trigger] all[j]).0 by {
        assert(all[i] == entries[i]);
        if j < entries.len() {
            assert(all[j] == entries[j]);
        }
    }
    assert forall|other: Seq<char>|
        other != key && lacks_key(entries, other) implies #[trigger] lacks_key(all, other) by {
        assert forall|i: int| 0 <= i < all.len() implies (#[trigger] all[i]).0 != other by {
            if i < entries.len() {
                assert(all[i] == entries[i]);
            }
        }
    }
}

/// No entries: the entries of a well-formed object, which lack every key.
pub proof fn lemma_empty_well_formed()
    ensures
        entries_well_formed(Seq::empty()),
        forall|key: Seq<char>| #[trigger] lacks_key(Seq::empty(), key),
{
}

/// An object of one member with a well-formed value is well formed.
pub proof fn lemma_object1_well_formed(key: Seq<char>, value: JsonView)
    requires
        value.well_formed(),
    ensures
        crate::wire::object1(key, value).well_formed(),
{
    lemma_empty_well_formed();
    lemma_push_well_formed(Seq::empty(), key, value);
}

/// A list of texts is written as a well-formed value.
pub proof fn lemma_texts_json_well_formed(texts: Seq<Seq<char>>)
    ensures
        texts_json(texts).well_formed(),
{
    let items = texts_json(texts)->Array_0;
    assert forall|i: int| 0 <= i < items.len() implies (#[trigger] items[i]).well_formed() by {
        assert(items[i] == JsonView::String(texts[i]));
    }
}

/// A file record is written as a well-formed value.
pub proof fn lemma_file_info_well_formed(file: FileInfoView)
    ensures
        encode_file_info(file).well_formed(),
{
    reveal_strlit("filename");
    reveal_strlit("subfolder");
    reveal_strlit("type");
    assert("filename"@.len() == 8 && "subfolder"@.len() == 9 && "type"@.len() == 4);
    lemma_empty_well_formed();
    let e0 = Seq::<(Seq<char>, JsonView)>::empty();
    lemma_push_well_formed(e0, "filename"@, JsonView::String(file.filename));
    let e1 = e0.push(("filename"@, JsonView::String(file.filename)));
    lemma_push_well_formed(e1, "subfolder"@, JsonView::String(file.subfolder));
    let e2 = e1.push(("subfolder"@, JsonView::String(file.subfolder)));
    lemma_push_well_formed(e2, "type"@, JsonView::String(file.kind));
}

/// A list of file records is written as a well-formed value.
pub proof fn lemma_files_well_formed(files: Seq<FileInfoView>)
    ensures
        encode_files(files).well_formed(),
{
    let items = encode_files(files)->Array_0;
    assert forall|i: int| 0 <= i < items.len() implies (#[trigger] items[i]).well_formed() by {
        lemma_file_info_well_formed(files[i]);
    }
}

/// A well-formed output is written as a well-formed value.
pub proof fn lemma_output_well_formed(output: ExecutedOutputView)
    requires
        output_well_formed(output),
    ensures
        encode_output(output).well_formed(),
{
    let images = encode_optional_files(output.images);
    if let Some(files) = output.images {
        lemma_files_well_formed(files);
    }
    let first = Seq::<(Seq<char>, JsonView)>::empty().push(("images"@, images));
    let all = first + output.others;
    assert forall|i: int| 0 <= i < all.len() implies (#[trigger] all[i]).1.well_formed() by {
        if i > 0 {
            assert(all[i] == output.others[i - 1]);
        }
    }
    assert forall|i: int, j: int| 0 <= i < j < all.len() implies (#[trigger] all[i]).0 != (
    #[trigger] all[j]).0 by {
        assert(all[j] == output.others[j - 1]);
        if i > 0 {
            assert(all[i] == output.others[i - 1]);
        }
    }
}

/// Writing keeps well-formedness: the wire form of a well-formed
/// notification is a well-formed value.
pub proof fn law_encoded_is_well_formed(event: ComfyEventView)
    requires
        event !is Unknown,
        event_well_formed(event),
    ensures
        encode_event(event) is Some,
        encode_event(event)->Some_0.well_formed(),
{
    lemma_kinds_differ();
    lemma_empty_well_formed();
    let e0 = Seq::<(Seq<char>, JsonView)>::empty();
    let payload = encode_event(event)->Some_0.field("data"@);
    match event {
        ComfyEventView::Status { data, sid } => {
            let info = crate::wire::u64_json(data.status.exec_info.queue_remaining as u64);
            lemma_object1_well_formed("queue_remaining"@, info);
            lemma_object1_well_formed("exec_info"@, encode_exec_info(data.status.exec_info));
            lemma_object1_well_formed(
                "status"@,
                crate::wire::object1("exec_info"@, encode_exec_info(data.status.exec_info)),
            );
            let kind = JsonView::String("status"@);
            lemma_push_well_formed(e0, "type"@, kind);
            let e1 = e0.push(("type"@, kind));
            lemma_push_well_formed(e1, "data"@, encode_status_data(data));
            let e2 = e1.push(("data"@, encode_status_data(data)));
            lemma_push_well_formed(e2, "sid"@, crate::wire::optional_text_json(sid));
        },
        ComfyEventView::Progress { data } => {
            reveal_strlit("value");
            reveal_strlit("max");
            assert("value"@.len() == 5 && "max"@.len() == 3);
            let v = crate::wire::u64_json(data.value as u64);
            let m = crate::wire::u64_json(data.max as u64);
            lemma_push_well_formed(e0, "value"@, v);
            lemma_push_well_formed(e0.push(("value"@, v)), "max"@, m);
            lemma_tagged_well_formed("progress"@, encode_progress(data));
        },
        ComfyEventView::Executed { data } => {
            reveal_strlit("node");
            reveal_strlit("prompt_id");
            reveal_strlit("output");
            assert("node"@.len() == 4 && "prompt_id"@.len() == 9 && "output"@.len() == 6);
            if let Some(output) = data.output {
                lemma_output_well_formed(output);
            }
            let a = JsonView::String(data.node);
            let b = JsonView::String(data.prompt_id);
            lemma_push_well_formed(e0, "node"@, a);
            let e1 = e0.push(("node"@, a));
            lemma_push_well_formed(e1, "prompt_id"@, b);
            let e2 = e1.push(("prompt_id"@, b));
            lemma_push_well_formed(e2, "output"@, encode_optional_output(data.output));
            lemma_tagged_well_formed("executed"@, encode_executed(data));
        },
        ComfyEventView::Executing { data } => {
            reveal_strlit("node");
            reveal_strlit("display_node");
            reveal_strlit("prompt_id");
            assert("node"@.len() == 4 && "prompt_id"@.len() == 9 && "display_node"@.len() == 12);
            let a = crate::wire::optional_text_json(data.node);
            let b = crate::wire::optional_text_json(data.display_node);
            lemma_push_well_formed(e0, "node"@, a);
            let e1 = e0.push(("node"@, a));
            lemma_push_well_formed(e1, "display_node"@, b);
            let e2 = e1.push(("display_node"@, b));
            lemma_push_well_formed(e2, "prompt_id"@, JsonView::String(data.prompt_id));
            lemma_tagged_well_formed("executing"@, encode_executing(data));
        },
        ComfyEventView::ExecutionStart { data } => {
            reveal_strlit("prompt_id");
            reveal_strlit("timestamp");
            assert("prompt_id"@[0] == 'p' && "timestamp"@[0] == 't');
            let a = JsonView::String(data.prompt_id);
            lemma_push_well_formed(e0, "prompt_id"@, a);
            let e1 = e0.push(("prompt_id"@, a));
            lemma_push_well_formed(e1, "timestamp"@, crate::wire::u64_json(data.timestamp));
            lemma_tagged_well_formed("execution_start"@, encode_execution_start(data));
        },
        ComfyEventView::ExecutionCached { data } => {
            reveal_strlit("nodes");
            reveal_strlit("prompt_id");
            reveal_strlit("timestamp");
            assert("prompt_id"@[0] == 'p' && "timestamp"@[0] == 't' && "nodes"@.len() == 5
                && "prompt_id"@.len() == 9 && "timestamp"@.len() == 9);
            lemma_texts_json_well_formed(data.nodes);
            let a = texts_json(data.nodes);
            let b = JsonView::String(data.prompt_id);
            lemma_push_well_formed(e0, "nodes"@, a);
            let e1 = e0.push(("nodes"@, a));
            lemma_push_well_formed(e1, "prompt_id"@, b);
            let e2 = e1.push(("prompt_id"@, b));
            lemma_push_well_formed(e2, "timestamp"@, crate::wire::u64_json(data.timestamp));
            lemma_tagged_well_formed("execution_cached"@, encode_execution_cached(data));
        },
        ComfyEventView::ExecutionInterrupted { data } => {
            lemma_member_names();
            lemma_texts_json_well_formed(data.executed);
            let a = JsonView::String(data.prompt_id);
            let b = JsonView::String(data.node_id);
            let c = JsonView::String(data.node_type);
            lemma_push_well_formed(e0, "prompt_id"@, a);
            let e1 = e0.push(("prompt_id"@, a));
            lemma_push_well_formed(e1, "node_id"@, b);
            let e2 = e1.push(("node_id"@, b));
            lemma_push_well_formed(e2, "node_type"@, c);
            let e3 = e2.push(("node_type"@, c));
            lemma_push_well_formed(e3, "executed"@, texts_json(data.executed));
            lemma_tagged_well_formed(
                "execution_interrupted"@,
                encode_execution_interrupted(data),
            );
        },
        ComfyEventView::ExecutionError { data } => {
            lemma_member_names();
            lemma_texts_json_well_formed(data.executed);
            lemma_texts_json_well_formed(data.traceback);
            let a = JsonView::String(data.prompt_id);
            let b = JsonView::String(data.node_id);
            let c = JsonView::String(data.node_type);
            let d = texts_json(data.executed);
            let f = JsonView::String(data.exception_message);
            let g = JsonView::String(data.exception_type);
            let h = texts_json(data.traceback);
            let k = JsonView::Object(data.current_inputs);
            lemma_push_well_formed(e0, "prompt_id"@, a);
            let e1 = e0.push(("prompt_id"@, a));
            lemma_push_well_formed(e1, "node_id"@, b);
            let e2 = e1.push(("node_id"@, b));
            lemma_push_well_formed(e2, "node_type"@, c);
            let e3 = e2.push(("node_type"@, c));
            lemma_push_well_formed(e3, "executed"@, d);
            let e4 = e3.push(("executed"@, d));
            lemma_push_well_formed(e4, "exception_message"@, f);
            let e5 = e4.push(("exception_message"@, f));
            lemma_push_well_formed(e5, "exception_type"@, g);
            let e6 = e5.push(("exception_type"@, g));
            lemma_push_well_formed(e6, "traceback"@, h);
            let e7 = e6.push(("traceback"@, h));
            lemma_push_well_formed(e7, "current_inputs"@, k);
            let e8 = e7.push(("current_inputs"@, k));
            lemma_push_well_formed(e8, "current_outputs"@, JsonView::Object(data.current_outputs));
            lemma_tagged_well_formed("execution_error"@, encode_execution_error(data));
        },
        ComfyEventView::ExecutionSuccess { data } => {
            lemma_object1_well_formed("prompt_id"@, JsonView::String(data.prompt_id));
            lemma_tagged_well_formed("execution_success"@, encode_execution_success(data));
        },
        ComfyEventView::Unknown(_) => {},
    }
}

/// A frame made of a kind and a well-formed payload is well formed.
pub proof fn lemma_tagged_well_formed(kind: Seq<char>, payload: JsonView)
    requires
        payload.well_formed(),
    ensures
        crate::wire::tagged(kind, payload).well_formed(),
{
    lemma_kinds_differ();
    lemma_empty_well_formed();
    let e0 = Seq::<(Seq<char>, JsonView)>::empty();
    lemma_push_well_formed(e0, "type"@, JsonView::String(kind));
    lemma_push_well_formed(e0.push(("type"@, JsonView::String(kind))), "data"@, payload);
}

/// The names of the members of the payloads about interrupted and failed
/// work are all different texts.
pub proof fn lemma_member_names()
    ensures
        "prompt_id"@.len() == 9 && "prompt_id"@[0] == 'p',
        "node_id"@.len() == 7,
        "node_type"@.len() == 9 && "node_type"@[0] == 'n',
        "executed"@.len() == 8,
        "exception_message"@.len() == 17,
        "exception_type"@.len() == 14 && "exception_type"@[0] == 'e',
        "traceback"@.len() == 9 && "traceback"@[0] == 't',
        "current_inputs"@.len() == 14 && "current_inputs"@[0] == 'c',
        "current_outputs"@.len() == 15,
{
    reveal_strlit("prompt_id");
    reveal_strlit("node_id");
    reveal_strlit("node_type");
    reveal_strlit("executed");
    reveal_strlit("exception_message");
    reveal_strlit("exception_type");
    reveal_strlit("traceback");
    reveal_strlit("current_inputs");
    reveal_strlit("current_outputs");
}

} // verus!
