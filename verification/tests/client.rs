use comfyui_client::address::{choose_socket_scheme, endpoint, generate_websocket_url};
use comfyui_client::client::{Method, Payload, Request, UploadForm, DEFAULT_CHANNEL_BOUND};
use comfyui_client::errors::{ApiBody, ClientError};
use comfyui_client::json::{Json, Number};
use comfyui_client::meta::{ExecInfo, FileInfo, History, Images, Prompt, PromptInfo, PromptStatus};
use comfyui_client::supervisor::{State, Supervisor};
use comfyui_client::text::str_eq;
use comfyui_client::{ClientBuilder, ComfyUIClient};
use url::Url;

fn client() -> ComfyUIClient {
    ComfyUIClient::new("http://localhost:8188/".to_string(), "abc".to_string())
}

fn cat() -> FileInfo {
    FileInfo {
        filename: "cat.webp".to_string(),
        subfolder: "".to_string(),
        kind: "input".to_string(),
    }
}

#[test]
fn test_builder() {
    let _ = ClientBuilder::new("http://example.org/");
    let _ = ClientBuilder::new("http://example.org/".parse::<Url>().unwrap());
}

#[test]
fn builder_starts_with_defaults() {
    let (base, bound, reconnect) = ClientBuilder::new("http://example.org/").into_parts();
    assert_eq!(base, "http://example.org/");
    assert_eq!(bound, 100);
    assert_eq!(DEFAULT_CHANNEL_BOUND, 100);
    assert!(reconnect);
}

#[test]
fn builder_keeps_what_was_set() {
    let builder = ClientBuilder::new(7u8).channel_bound(1).reconnect_web_socket(false);
    assert_eq!(builder.into_parts(), (7u8, 1, false));
    let builder = ClientBuilder::new(7u8).reconnect_web_socket(false).channel_bound(0);
    assert_eq!(builder.into_parts(), (7u8, 0, false));
    let builder = ClientBuilder::new(7u8).channel_bound(5).channel_bound(9);
    assert_eq!(builder.into_parts(), (7u8, 9, true));
}

#[test]
fn str_eq_compares_contents() {
    assert!(str_eq("", ""));
    assert!(str_eq("https", "https"));
    assert!(!str_eq("https", "http"));
    assert!(!str_eq("http", "https"));
    assert!(!str_eq("abc", "abd"));
    assert!(str_eq("h\u{e9}llo \u{1F600}", "h\u{e9}llo \u{1F600}"));
    assert!(!str_eq("h\u{e9}llo", "hello"));
}

#[test]
fn socket_scheme_follows_the_base_scheme() {
    assert_eq!(choose_socket_scheme("https"), "wss");
    assert_eq!(choose_socket_scheme("http"), "ws");
    assert_eq!(choose_socket_scheme("ftp"), "ws");
    assert_eq!(choose_socket_scheme(""), "ws");
}

#[test]
fn websocket_url_for_http() {
    assert_eq!(
        generate_websocket_url("http://localhost:8188", "abc").unwrap(),
        "ws://localhost:8188/ws?clientId=abc"
    );
}

#[test]
fn websocket_url_for_https() {
    assert_eq!(
        generate_websocket_url("https://example.org/", "id-1").unwrap(),
        "wss://example.org/ws?clientId=id-1"
    );
}

#[test]
fn websocket_url_joins_below_the_base_path() {
    assert_eq!(
        generate_websocket_url("https://example.org/comfy/", "x").unwrap(),
        "wss://example.org/comfy/ws?clientId=x"
    );
    assert_eq!(
        generate_websocket_url("http://example.org/comfy/api", "x").unwrap(),
        "ws://example.org/comfy/ws?clientId=x"
    );
}

#[test]
fn websocket_url_encodes_the_identity() {
    assert_eq!(
        generate_websocket_url("http://example.org/", "a b&c").unwrap(),
        "ws://example.org/ws?clientId=a+b%26c"
    );
}

#[test]
fn websocket_url_refuses_a_scheme_it_cannot_change() {
    assert!(matches!(
        generate_websocket_url("foo://example.org/", "abc"),
        Err(ClientError::SetWsScheme)
    ));
    assert!(matches!(
        generate_websocket_url("mailto:someone@example.org", "abc"),
        Err(ClientError::SetWsScheme)
    ));
}

#[test]
fn websocket_url_refuses_what_is_no_address() {
    assert!(matches!(
        generate_websocket_url("not an address", "abc"),
        Err(ClientError::UrlParse(url::ParseError::RelativeUrlWithoutBase))
    ));
    assert!(matches!(
        generate_websocket_url("http://", "abc"),
        Err(ClientError::UrlParse(url::ParseError::EmptyHost))
    ));
}

#[test]
fn endpoint_resolves_against_the_base() {
    assert_eq!(endpoint("http://localhost:8188/", "prompt").unwrap(), "http://localhost:8188/prompt");
    assert_eq!(
        endpoint("http://localhost:8188/api/", "upload/image").unwrap(),
        "http://localhost:8188/api/upload/image"
    );
    assert!(matches!(endpoint("nothing", "prompt"), Err(ClientError::UrlParse(_))));
}

#[test]
fn build_with_id_plans_the_stream() {
    let session = ClientBuilder::new("http://localhost:8188".to_string())
        .channel_bound(4)
        .reconnect_web_socket(false)
        .build_with_id("abc".to_string())
        .unwrap();
    assert_eq!(session.websocket_url, "ws://localhost:8188/ws?clientId=abc");
    assert_eq!(session.channel_bound, 4);
    assert_eq!(session.supervisor, Supervisor { reconnect: false, state: State::Connecting });
    assert_eq!(session.client.client_id(), "abc");
    assert_eq!(session.client.base_url(), "http://localhost:8188");
}

#[test]
fn session_fails_before_anything_is_connected() {
    let result =
        ClientBuilder::new("foo://example.org".to_string()).build_with_id("abc".to_string());
    assert!(matches!(result, Err(ClientError::SetWsScheme)));
    let result = ClientBuilder::new("::".to_string()).build();
    assert!(matches!(result, Err(ClientError::UrlParse(_))));
}

#[test]
fn session_makes_an_identity_of_its_own() {
    let first = ClientBuilder::new("https://example.org/".to_string()).build().unwrap();
    let second = ClientBuilder::new("https://example.org/".to_string()).build().unwrap();
    let id = first.client.client_id().to_string();
    assert_eq!(id.chars().count(), 36);
    assert_eq!(first.websocket_url, format!("wss://example.org/ws?clientId={}", id));
    assert_eq!(first.channel_bound, 100);
    assert_eq!(first.supervisor, Supervisor { reconnect: true, state: State::Connecting });
    assert_ne!(first.client.client_id(), second.client.client_id());
}

#[test]
fn http_only_client_has_base_and_identity() {
    let client = ClientBuilder::new("http://localhost:8188/".to_string()).build_only_http();
    assert_eq!(client.base_url(), "http://localhost:8188/");
    assert_eq!(client.client_id().len(), 36);
}

#[test]
fn history_request() {
    assert_eq!(
        client().get_history("p-1").unwrap(),
        Request {
            method: Method::Get,
            url: "http://localhost:8188/history/p-1".to_string(),
            query: vec![],
            payload: Payload::Empty,
        }
    );
}

#[test]
fn prompt_request() {
    assert_eq!(
        client().get_prompt().unwrap(),
        Request {
            method: Method::Get,
            url: "http://localhost:8188/prompt".to_string(),
            query: vec![],
            payload: Payload::Empty,
        }
    );
}

#[test]
fn view_request_names_the_file_in_the_query() {
    assert_eq!(
        client().get_view(&cat()).unwrap(),
        Request {
            method: Method::Get,
            url: "http://localhost:8188/view".to_string(),
            query: vec![
                ("filename".to_string(), "cat.webp".to_string()),
                ("subfolder".to_string(), "".to_string()),
                ("type".to_string(), "input".to_string()),
            ],
            payload: Payload::Empty,
        }
    );
}

#[test]
fn post_prompt_tags_the_workflow_with_the_identity() {
    let request = client().post_prompt(Prompt::from(r#"{"6": {"class_type": "X"}}"#)).unwrap();
    assert_eq!(request.method, Method::Post);
    assert_eq!(request.url, "http://localhost:8188/prompt");
    assert!(request.query.is_empty());
    match &request.payload {
        Payload::Json(value) => assert_eq!(
            value.to_text(),
            r#"{"client_id":"abc","prompt":{"6":{"class_type":"X"}}}"#
        ),
        other => panic!("no JSON: {:?}", other),
    }
}

#[test]
fn post_prompt_takes_text_string_or_value() {
    let text = r#"{"1": 2}"#.to_string();
    let value = Json::parse(&text).unwrap();
    let from_str = client().post_prompt(text.as_str().into()).unwrap();
    let from_string = client().post_prompt((&text).into()).unwrap();
    let from_value = client().post_prompt((&value).into()).unwrap();
    assert_eq!(from_str, from_string);
    assert_eq!(from_str, from_value);
    assert_eq!(
        from_value.payload,
        Payload::Json(Json::Object(vec![
            ("client_id".to_string(), Json::String("abc".to_string())),
            (
                "prompt".to_string(),
                Json::Object(vec![("1".to_string(), Json::Number(Number::Unsigned(2)))]),
            ),
        ]))
    );
}

#[test]
fn post_prompt_refuses_text_that_is_not_json() {
    assert!(matches!(client().post_prompt("{".into()), Err(ClientError::SerdeJson(_))));
}

#[test]
fn requests_fail_where_the_base_is_no_address() {
    let client = ComfyUIClient::new("nowhere".to_string(), "abc".to_string());
    assert!(matches!(client.get_prompt(), Err(ClientError::UrlParse(_))));
    assert!(matches!(client.get_history("p"), Err(ClientError::UrlParse(_))));
    assert!(matches!(client.get_view(&cat()), Err(ClientError::UrlParse(_))));
    assert!(matches!(client.upload_image(&cat(), true), Err(ClientError::UrlParse(_))));
    assert!(matches!(client.post_prompt("{}".into()), Err(ClientError::UrlParse(_))));
}

#[test]
fn upload_leaves_an_empty_folder_out() {
    assert_eq!(
        client().upload_image(&cat(), true).unwrap(),
        Request {
            method: Method::Post,
            url: "http://localhost:8188/upload/image".to_string(),
            query: vec![],
            payload: Payload::Upload(UploadForm {
                file_name: "cat.webp".to_string(),
                fields: vec![
                    ("overwrite".to_string(), "true".to_string()),
                    ("type".to_string(), "input".to_string()),
                ],
            }),
        }
    );
}

#[test]
fn upload_names_a_folder_that_is_not_empty() {
    let file = FileInfo {
        filename: "girl.webp".to_string(),
        subfolder: "people".to_string(),
        kind: "temp".to_string(),
    };
    match client().upload_image(&file, false).unwrap().payload {
        Payload::Upload(form) => {
            assert_eq!(form.file_name, "girl.webp");
            assert_eq!(
                form.fields,
                vec![
                    ("overwrite".to_string(), "false".to_string()),
                    ("type".to_string(), "temp".to_string()),
                    ("subfolder".to_string(), "people".to_string()),
                ]
            );
        }
        other => panic!("no form: {:?}", other),
    }
}

#[test]
fn success_is_every_status_from_200_to_299() {
    for status in [200u16, 201, 204, 299] {
        assert!(ComfyUIClient::is_success(status));
    }
    for status in [0u16, 100, 199, 300, 304, 400, 404, 500, 599, u16::MAX] {
        assert!(!ComfyUIClient::is_success(status));
    }
}

#[test]
fn error_for_status_passes_a_good_answer_on() {
    assert_eq!(ComfyUIClient::error_for_status(200, "{}".to_string()).unwrap(), "{}");
    assert_eq!(ComfyUIClient::error_for_status(204, "".to_string()).unwrap(), "");
}

#[test]
fn error_answer_with_a_json_body() {
    let error = ComfyUIClient::error_for_status(400, r#"{"error": "bad"}"#.to_string());
    match error {
        Err(ClientError::Api(api)) => {
            assert_eq!(api.status, 400);
            match api.body {
                ApiBody::Json(value) => assert_eq!(value.to_text(), r#"{"error":"bad"}"#),
                other => panic!("no JSON: {:?}", other),
            }
        }
        other => panic!("no error: {:?}", other),
    }
}

#[test]
fn error_answer_with_a_text_body() {
    let api = ComfyUIClient::api_error(502, "Bad Gateway".to_string());
    assert_eq!(api.status, 502);
    match api.body {
        ApiBody::Text(text) => assert_eq!(text, "Bad Gateway"),
        other => panic!("no text: {:?}", other),
    }
}

#[test]
fn reads_the_state_of_the_queue() {
    assert_eq!(
        ComfyUIClient::read_prompt(r#"{"exec_info": {"queue_remaining": 2}}"#).unwrap(),
        PromptInfo { exec_info: ExecInfo { queue_remaining: 2 } }
    );
    assert!(matches!(ComfyUIClient::read_prompt("{}"), Err(ClientError::SerdeJson(_))));
    assert!(matches!(ComfyUIClient::read_prompt("<html>"), Err(ClientError::SerdeJson(_))));
}

#[test]
fn reads_the_answer_to_a_prompt() {
    assert_eq!(
        ComfyUIClient::read_prompt_status(
            r#"{"prompt_id": "p1", "number": 5, "node_errors": {"3": {"x": 1}}}"#
        )
        .unwrap(),
        PromptStatus {
            prompt_id: "p1".to_string(),
            number: 5,
            node_errors: vec![(
                "3".to_string(),
                Json::Object(vec![("x".to_string(), Json::Number(Number::Unsigned(1)))]),
            )],
        }
    );
    assert!(matches!(
        ComfyUIClient::read_prompt_status(r#"{"prompt_id": "p1", "number": 5}"#),
        Err(ClientError::SerdeJson(_))
    ));
}

#[test]
fn reads_the_answer_to_an_upload() {
    assert_eq!(
        ComfyUIClient::read_upload(r#"{"name": "cat.webp", "subfolder": "", "type": "input"}"#)
            .unwrap(),
        cat()
    );
    assert!(matches!(
        ComfyUIClient::read_upload(r#"{"name": "cat.webp"}"#),
        Err(ClientError::SerdeJson(_))
    ));
}

#[test]
fn reads_the_history_of_the_prompt_asked_for() {
    let body = r#"{
        "p1": {"outputs": {"5": {"images": [{"filename": "a.png", "subfolder": "", "type": "output"}]}}},
        "p2": {"outputs": {"7": {"images": null}, "8": {}}}
    }"#;
    assert_eq!(
        ComfyUIClient::read_history(body, "p1").unwrap(),
        Some(History {
            outputs: vec![(
                "5".to_string(),
                Images {
                    images: Some(vec![FileInfo {
                        filename: "a.png".to_string(),
                        subfolder: "".to_string(),
                        kind: "output".to_string(),
                    }]),
                },
            )],
        })
    );
    assert_eq!(
        ComfyUIClient::read_history(body, "p2").unwrap(),
        Some(History {
            outputs: vec![
                ("7".to_string(), Images { images: None }),
                ("8".to_string(), Images { images: None }),
            ],
        })
    );
    assert_eq!(ComfyUIClient::read_history(body, "p3").unwrap(), None);
    assert_eq!(ComfyUIClient::read_history("{}", "p1").unwrap(), None);
}

#[test]
fn history_with_a_member_of_another_shape_is_refused() {
    let body = r#"{"p1": {"outputs": {}}, "p2": {"status": "none"}}"#;
    assert!(matches!(ComfyUIClient::read_history(body, "p1"), Err(ClientError::SerdeJson(_))));
    assert!(matches!(ComfyUIClient::read_history("[]", "p1"), Err(ClientError::SerdeJson(_))));
    assert!(matches!(ComfyUIClient::read_history("oops", "p1"), Err(ClientError::SerdeJson(_))));
}
