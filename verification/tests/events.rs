use comfyui_client::decode::{classify, read_event};
use comfyui_client::encode::write_event;
use comfyui_client::errors::ClientError;
use comfyui_client::frame::{handle_message, Frame};
use comfyui_client::json::{Json, Number};
use comfyui_client::meta::{
    ComfyEvent, Event, ExecInfo, ExecutedEventData, ExecutedOutput, ExecutingEventData,
    ExecutionCachedEventData, ExecutionErrorEventData, ExecutionInterruptedEventData,
    ExecutionStartEventData, ExecutionSuccessEventData, FileInfo, ProgressEventData,
    StatusEventData, StatusEventStatus,
};

fn parse(text: &str) -> Json {
    Json::parse(text).unwrap()
}

fn outside(value: &Json) -> serde_json::Value {
    serde_json::from_str(&value.to_text()).unwrap()
}

fn decode_text(text: &str) -> ComfyEvent {
    match handle_message(Frame::Text(text.to_string())) {
        Ok(Some(Event::Comfy(event))) => event,
        other => panic!("no notification: {:?}", other),
    }
}

fn round_trip(event: ComfyEvent) {
    let frame = write_event(&event).unwrap();
    assert_eq!(read_event(&frame), Some(event));
}

fn sample_error() -> ExecutionErrorEventData {
    ExecutionErrorEventData {
        prompt_id: "p9".to_string(),
        node_id: "12".to_string(),
        node_type: "KSampler".to_string(),
        executed: vec!["4".to_string(), "5".to_string()],
        exception_message: "out of memory".to_string(),
        exception_type: "RuntimeError".to_string(),
        traceback: vec!["line 1".to_string(), "line 2".to_string()],
        current_inputs: vec![("seed".to_string(), Json::Number(Number::Unsigned(7)))],
        current_outputs: vec![("3".to_string(), Json::Array(vec![Json::Null]))],
    }
}

#[test]
fn test_serialize_event() {
    let ev = ComfyEvent::Status {
        data: StatusEventData {
            status: StatusEventStatus { exec_info: ExecInfo { queue_remaining: 0 } },
        },
        sid: None,
    };
    let value = outside(&write_event(&ev).unwrap());
    let expected: serde_json::Value = serde_json::from_str(
        r#"{
            "type": "status",
            "data": {
                "status": {
                    "exec_info": {
                        "queue_remaining": 0
                    }
                }
            },
            "sid": null
        }"#,
    )
    .unwrap();
    assert_eq!(value, expected);

    let ev = ComfyEvent::ExecutionStart {
        data: ExecutionStartEventData { prompt_id: "xxxxxx".to_string(), timestamp: 123456789 },
    };
    let value = outside(&write_event(&ev).unwrap());
    let expected: serde_json::Value = serde_json::from_str(
        r#"{
            "type": "execution_start",
            "data": {
                "prompt_id": "xxxxxx",
                "timestamp": 123456789
            }
        }"#,
    )
    .unwrap();
    assert_eq!(value, expected);
}

#[test]
fn parse_reads_every_kind_of_value() {
    let value = parse(r#"{"a": [null, true, 3, -4, 1.5, "x"], "b": {}}"#);
    assert_eq!(
        value,
        Json::Object(vec![
            (
                "a".to_string(),
                Json::Array(vec![
                    Json::Null,
                    Json::Bool(true),
                    Json::Number(Number::Unsigned(3)),
                    Json::Number(Number::Negative(-4)),
                    Json::Number(Number::Real("1.5".to_string())),
                    Json::String("x".to_string()),
                ]),
            ),
            ("b".to_string(), Json::Object(vec![])),
        ])
    );
}

#[test]
fn to_text_writes_compact_json() {
    let value = Json::Object(vec![
        ("n".to_string(), Json::Number(Number::Real("2.5".to_string()))),
        ("list".to_string(), Json::Array(vec![Json::Bool(false), Json::Null])),
        ("neg".to_string(), Json::Number(Number::Negative(-1))),
    ]);
    assert_eq!(value.to_text(), r#"{"list":[false,null],"n":2.5,"neg":-1}"#);
}

#[test]
fn to_text_keeps_the_later_of_two_members_with_one_key() {
    let value = Json::Object(vec![
        ("k".to_string(), Json::Bool(false)),
        ("k".to_string(), Json::Bool(true)),
    ]);
    assert_eq!(value.to_text(), r#"{"k":true}"#);
}

#[test]
fn to_text_writes_null_for_a_real_that_is_no_number() {
    let value = Json::Array(vec![
        Json::Number(Number::Real("1e3".to_string())),
        Json::Number(Number::Real("one".to_string())),
    ]);
    assert_eq!(value.to_text(), "[1000.0,null]");
}

#[test]
fn parse_keeps_one_member_of_a_key_written_twice() {
    assert_eq!(
        parse(r#"{"k": 1, "k": 2}"#),
        Json::Object(vec![("k".to_string(), Json::Number(Number::Unsigned(2)))])
    );
}

#[test]
fn parse_reads_integers_by_their_range() {
    assert_eq!(parse("18446744073709551615"), Json::Number(Number::Unsigned(u64::MAX)));
    assert_eq!(parse("-9223372036854775808"), Json::Number(Number::Negative(i64::MIN)));
    assert_eq!(parse("0"), Json::Number(Number::Unsigned(0)));
    assert_eq!(parse("-0.5"), Json::Number(Number::Real("-0.5".to_string())));
}

#[test]
fn parse_then_to_text_normalizes() {
    let text = "{ \"type\" : \"x\",\n \"data\" : { } }";
    assert_eq!(parse(text).to_text(), r#"{"data":{},"type":"x"}"#);
}

#[test]
fn parse_refuses_what_is_not_json() {
    assert!(matches!(Json::parse("{not json"), Err(ClientError::SerdeJson(_))));
    assert!(matches!(Json::parse(""), Err(ClientError::SerdeJson(_))));
}

#[test]
fn get_finds_the_last_member_of_a_key() {
    let value = Json::Object(vec![
        ("k".to_string(), Json::Bool(false)),
        ("other".to_string(), Json::Null),
        ("k".to_string(), Json::Bool(true)),
    ]);
    assert_eq!(value.get("k"), Some(&Json::Bool(true)));
    assert_eq!(value.get("other"), Some(&Json::Null));
    assert_eq!(value.get("missing"), None);
    assert_eq!(Json::Null.get("k"), None);
}

#[test]
fn clone_copies_the_whole_value() {
    let value = parse(r#"{"a": [1, {"b": "c"}], "d": -2.5e3}"#);
    assert_eq!(value.clone(), value);
}

#[test]
fn decodes_status() {
    let event = decode_text(
        r#"{"type":"status","data":{"status":{"exec_info":{"queue_remaining":3}}},"sid":"abc"}"#,
    );
    assert_eq!(
        event,
        ComfyEvent::Status {
            data: StatusEventData {
                status: StatusEventStatus { exec_info: ExecInfo { queue_remaining: 3 } },
            },
            sid: Some("abc".to_string()),
        }
    );
}

#[test]
fn decodes_status_without_sid() {
    let event =
        decode_text(r#"{"type":"status","data":{"status":{"exec_info":{"queue_remaining":0}}}}"#);
    assert_eq!(
        event,
        ComfyEvent::Status {
            data: StatusEventData {
                status: StatusEventStatus { exec_info: ExecInfo { queue_remaining: 0 } },
            },
            sid: None,
        }
    );
}

#[test]
fn decodes_progress() {
    let event = decode_text(r#"{"type":"progress","data":{"value":4,"max":20}}"#);
    assert_eq!(event, ComfyEvent::Progress { data: ProgressEventData { value: 4, max: 20 } });
}

#[test]
fn decodes_executing() {
    let event = decode_text(
        r#"{"type":"executing","data":{"node":null,"display_node":"7","prompt_id":"p1"}}"#,
    );
    assert_eq!(
        event,
        ComfyEvent::Executing {
            data: ExecutingEventData {
                node: None,
                display_node: Some("7".to_string()),
                prompt_id: "p1".to_string(),
            },
        }
    );
}

#[test]
fn decodes_executed_with_images_and_other_members() {
    let event = decode_text(
        r#"{"type":"executed","data":{"node":"9","prompt_id":"p1","output":{
            "images":[{"filename":"a.png","subfolder":"","type":"temp"}],
            "animated":[false]}}}"#,
    );
    assert_eq!(
        event,
        ComfyEvent::Executed {
            data: ExecutedEventData {
                node: "9".to_string(),
                prompt_id: "p1".to_string(),
                output: Some(ExecutedOutput {
                    images: Some(vec![FileInfo {
                        filename: "a.png".to_string(),
                        subfolder: "".to_string(),
                        kind: "temp".to_string(),
                    }]),
                    others: vec![(
                        "animated".to_string(),
                        Json::Array(vec![Json::Bool(false)]),
                    )],
                }),
            },
        }
    );
}

#[test]
fn decodes_executed_without_output() {
    let event =
        decode_text(r#"{"type":"executed","data":{"node":"9","prompt_id":"p1","output":null}}"#);
    assert_eq!(
        event,
        ComfyEvent::Executed {
            data: ExecutedEventData {
                node: "9".to_string(),
                prompt_id: "p1".to_string(),
                output: None,
            },
        }
    );
}

#[test]
fn decodes_file_record_named_by_name() {
    let event = decode_text(
        r#"{"type":"executed","data":{"node":"9","prompt_id":"p1","output":{
            "images":[{"name":"b.png","subfolder":"s","type":"output"}]}}}"#,
    );
    match event {
        ComfyEvent::Executed { data } => {
            let images = data.output.unwrap().images.unwrap();
            assert_eq!(images.len(), 1);
            assert_eq!(images[0].filename, "b.png");
            assert_eq!(images[0].subfolder, "s");
            assert_eq!(images[0].kind, "output");
        }
        other => panic!("not executed: {:?}", other),
    }
}

#[test]
fn file_record_with_both_names_is_not_read() {
    let text = r#"{"type":"executed","data":{"node":"9","prompt_id":"p1","output":{
            "images":[{"name":"b.png","filename":"a.png","subfolder":"s","type":"output"}]}}}"#;
    assert_eq!(decode_text(text), ComfyEvent::Unknown(parse(text)));
}

#[test]
fn decodes_execution_start() {
    let event = decode_text(r#"{"type":"execution_start","data":{"prompt_id":"p1","timestamp":1}}"#);
    assert_eq!(
        event,
        ComfyEvent::ExecutionStart {
            data: ExecutionStartEventData { prompt_id: "p1".to_string(), timestamp: 1 },
        }
    );
}

#[test]
fn decodes_the_largest_timestamp() {
    let event = decode_text(
        r#"{"type":"execution_start","data":{"prompt_id":"p","timestamp":18446744073709551615}}"#,
    );
    assert_eq!(
        event,
        ComfyEvent::ExecutionStart {
            data: ExecutionStartEventData { prompt_id: "p".to_string(), timestamp: u64::MAX },
        }
    );
}

#[test]
fn decodes_execution_cached() {
    let event = decode_text(
        r#"{"type":"execution_cached","data":{"nodes":["1","2"],"prompt_id":"p1","timestamp":5}}"#,
    );
    assert_eq!(
        event,
        ComfyEvent::ExecutionCached {
            data: ExecutionCachedEventData {
                nodes: vec!["1".to_string(), "2".to_string()],
                prompt_id: "p1".to_string(),
                timestamp: 5,
            },
        }
    );
}

#[test]
fn decodes_execution_interrupted() {
    let event = decode_text(
        r#"{"type":"execution_interrupted","data":{"prompt_id":"p1","node_id":"3",
            "node_type":"VAEDecode","executed":[]}}"#,
    );
    assert_eq!(
        event,
        ComfyEvent::ExecutionInterrupted {
            data: ExecutionInterruptedEventData {
                prompt_id: "p1".to_string(),
                node_id: "3".to_string(),
                node_type: "VAEDecode".to_string(),
                executed: vec![],
            },
        }
    );
}

#[test]
fn decodes_execution_error() {
    let event = decode_text(
        r#"{"type":"execution_error","data":{"prompt_id":"p9","node_id":"12",
            "node_type":"KSampler","executed":["4","5"],"exception_message":"out of memory",
            "exception_type":"RuntimeError","traceback":["line 1","line 2"],
            "current_inputs":{"seed":7},"current_outputs":{"3":[null]}}}"#,
    );
    assert_eq!(event, ComfyEvent::ExecutionError { data: sample_error() });
}

#[test]
fn decodes_execution_success() {
    let event = decode_text(r#"{"type":"execution_success","data":{"prompt_id":"p1"}}"#);
    assert_eq!(
        event,
        ComfyEvent::ExecutionSuccess {
            data: ExecutionSuccessEventData { prompt_id: "p1".to_string() },
        }
    );
}

#[test]
fn members_that_are_not_known_are_passed_over() {
    let event = decode_text(
        r#"{"type":"execution_success","extra":1,"data":{"prompt_id":"p1","more":[]}}"#,
    );
    assert_eq!(
        event,
        ComfyEvent::ExecutionSuccess {
            data: ExecutionSuccessEventData { prompt_id: "p1".to_string() },
        }
    );
}

#[test]
fn unrecognized_kind_is_kept_whole() {
    let text = r#"{"type":"crystools.monitor","data":{}}"#;
    let event = decode_text(text);
    match &event {
        ComfyEvent::Unknown(raw) => {
            assert_eq!(raw.to_text(), r#"{"data":{},"type":"crystools.monitor"}"#);
            let original: serde_json::Value = serde_json::from_str(text).unwrap();
            assert_eq!(outside(raw), original);
        }
        other => panic!("not unknown: {:?}", other),
    }
    assert_eq!(event, ComfyEvent::Unknown(parse(text)));
}

#[test]
fn frames_of_no_known_shape_are_kept_whole() {
    for text in [
        r#"{"type":"unknown","data":{}}"#,
        r#"{"data":{"prompt_id":"p1"}}"#,
        r#"{"type":7,"data":{"prompt_id":"p1"}}"#,
        r#"{"type":"execution_success"}"#,
        r#"{"type":"execution_success","data":null}"#,
        r#"{"type":"execution_success","data":{"prompt_id":5}}"#,
        r#"{"type":"execution_start","data":{"prompt_id":"p","timestamp":-1}}"#,
        r#"{"type":"execution_start","data":{"prompt_id":"p","timestamp":1.5}}"#,
        r#"{"type":"progress","data":{"value":1}}"#,
        r#"{"type":"status","data":{"status":{"exec_info":{"queue_remaining":1}}},"sid":4}"#,
        r#"{"type":"executed","data":{"node":"9","prompt_id":"p1","output":"none"}}"#,
        r#"{"type":"execution_cached","data":{"nodes":["1",2],"prompt_id":"p1","timestamp":5}}"#,
        r#"[1, 2, 3]"#,
        r#""text""#,
        r#"null"#,
    ] {
        assert_eq!(decode_text(text), ComfyEvent::Unknown(parse(text)), "{}", text);
    }
}

#[test]
fn classify_takes_the_parsed_value() {
    let known = parse(r#"{"type":"progress","data":{"value":1,"max":2}}"#);
    assert_eq!(
        classify(known),
        ComfyEvent::Progress { data: ProgressEventData { value: 1, max: 2 } }
    );
    let unknown = parse(r#"{"type":"progress","data":[1,2]}"#);
    assert_eq!(classify(unknown.clone()), ComfyEvent::Unknown(unknown));
}

#[test]
fn malformed_text_is_a_hard_error() {
    let decoded = handle_message(Frame::Text("{\"type\":".to_string()));
    assert!(matches!(decoded, Err(ClientError::SerdeJson(_))));
}

#[test]
fn frames_without_text_carry_nothing() {
    for frame in [
        Frame::Binary(vec![1, 2, 3]),
        Frame::Ping(vec![]),
        Frame::Pong(vec![9]),
        Frame::Close,
        Frame::Raw,
    ] {
        assert!(matches!(handle_message(frame), Ok(None)));
    }
}

#[test]
fn unknown_has_no_wire_form() {
    assert_eq!(write_event(&ComfyEvent::Unknown(Json::Null)), None);
}

#[test]
fn every_known_kind_round_trips() {
    round_trip(ComfyEvent::Status {
        data: StatusEventData {
            status: StatusEventStatus { exec_info: ExecInfo { queue_remaining: 12 } },
        },
        sid: Some("s".to_string()),
    });
    round_trip(ComfyEvent::Progress { data: ProgressEventData { value: 0, max: usize::MAX } });
    round_trip(ComfyEvent::Executed {
        data: ExecutedEventData {
            node: "n".to_string(),
            prompt_id: "p".to_string(),
            output: Some(ExecutedOutput {
                images: None,
                others: vec![("text".to_string(), Json::String("t".to_string()))],
            }),
        },
    });
    round_trip(ComfyEvent::Executing {
        data: ExecutingEventData {
            node: Some("1".to_string()),
            display_node: None,
            prompt_id: "p".to_string(),
        },
    });
    round_trip(ComfyEvent::ExecutionStart {
        data: ExecutionStartEventData { prompt_id: "p".to_string(), timestamp: 99 },
    });
    round_trip(ComfyEvent::ExecutionError { data: sample_error() });
    round_trip(ComfyEvent::ExecutionCached {
        data: ExecutionCachedEventData {
            nodes: vec![],
            prompt_id: "p".to_string(),
            timestamp: 0,
        },
    });
    round_trip(ComfyEvent::ExecutionInterrupted {
        data: ExecutionInterruptedEventData {
            prompt_id: "p".to_string(),
            node_id: "i".to_string(),
            node_type: "t".to_string(),
            executed: vec!["a".to_string()],
        },
    });
    round_trip(ComfyEvent::ExecutionSuccess {
        data: ExecutionSuccessEventData { prompt_id: "p".to_string() },
    });
}

#[test]
fn wire_form_is_reproduced_through_text() {
    let text = r#"{"data":{"executed":["4","5"],"node_id":"3","node_type":"VAEDecode","prompt_id":"p1"},"type":"execution_interrupted"}"#;
    let event = decode_text(text);
    assert_eq!(write_event(&event).unwrap().to_text(), text);
}

#[test]
fn execution_error_is_written_member_for_member() {
    let value = outside(&write_event(&ComfyEvent::ExecutionError { data: sample_error() }).unwrap());
    let expected: serde_json::Value = serde_json::from_str(
        r#"{"type":"execution_error","data":{"prompt_id":"p9","node_id":"12",
            "node_type":"KSampler","executed":["4","5"],"exception_message":"out of memory",
            "exception_type":"RuntimeError","traceback":["line 1","line 2"],
            "current_inputs":{"seed":7},"current_outputs":{"3":[null]}}}"#,
    )
    .unwrap();
    assert_eq!(value, expected);
}

#[test]
fn output_is_written_with_images_beside_the_other_members() {
    let event = ComfyEvent::Executed {
        data: ExecutedEventData {
            node: "9".to_string(),
            prompt_id: "p1".to_string(),
            output: Some(ExecutedOutput {
                images: Some(vec![FileInfo {
                    filename: "a.png".to_string(),
                    subfolder: "sub".to_string(),
                    kind: "temp".to_string(),
                }]),
                others: vec![("animated".to_string(), Json::Array(vec![Json::Bool(true)]))],
            }),
        },
    };
    assert_eq!(
        write_event(&event).unwrap().to_text(),
        r#"{"data":{"node":"9","output":{"animated":[true],"images":[{"filename":"a.png","subfolder":"sub","type":"temp"}]},"prompt_id":"p1"},"type":"executed"}"#
    );
}
