//! The client: how it is set up, which requests it makes of the service, and
//! how it reads the answers. Sending and receiving are the caller's part.

use crate::address::{endpoint, generate_websocket_url, url_joined, websocket_address};
use crate::decode::{
    read_file_info, read_histories, read_prompt_info, read_prompt_status, take_history,
};
use crate::encode::{no_members, object_of, push_member};
use crate::errors::{ApiBody, ApiBodyView, ApiError, ClientError, ClientErrorView, ClientResult};
use crate::json::{Json, JsonView, parse_text, parsed_json};
use crate::meta::{FileInfo, FileInfoView, History, Prompt, PromptInfo, PromptStatus};
use crate::supervisor::Supervisor;
use crate::wire::{
    decode_file_info, decode_histories, decode_prompt_info, decode_prompt_status,
    history_well_formed, prompt_status_well_formed, select_history,
};
use vstd::prelude::*;
use vstd::string::StringExecFns;

verus! {

/// The number of items that the channel holds unless another is asked for.
pub const DEFAULT_CHANNEL_BOUND: usize = 100;

/// Calls `Uuid::new_v4` and hands back the identifier in its hyphenated
/// form, as `to_string` writes it. The identifier is random; the contract
/// claims only the length of that form.
#[verifier::external_body]
fn new_client_id() -> (id: String)
    ensures
        id@.len() == 36,
{
    uuid::Uuid::new_v4().to_string()
}

/// Calls `serde::de::Error::custom` for a `serde_json::Error` that says what
/// was expected. Nothing is claimed of the error.
#[verifier::external_body]
fn shape_error(expected: &str) -> serde_json::Error {
    <serde_json::Error as serde::de::Error>::custom(expected)
}

/// Sets a client up.
pub struct ClientBuilder<U> {
    base_url: U,
    channel_bound: usize,
    reconnect_web_socket: bool,
}

/// A client of the service: its correlation identity and the base address.
#[derive(Debug)]
pub struct ComfyUIClient {
    client_id: String,
    base_url: String,
}

/// All that is needed to open the event stream.
#[derive(Debug)]
pub struct Session {
    /// The client, with the identity that the handshake address carries.
    pub client: ComfyUIClient,
    /// The handshake address of the socket.
    pub websocket_url: String,
    /// The number of items that the channel is to hold.
    pub channel_bound: usize,
    /// The supervisor, its first attempt to connect under way.
    pub supervisor: Supervisor,
}

impl<U> ClientBuilder<U> {
    /// The base address as it was given.
    pub closed spec fn address(self) -> U {
        self.base_url
    }

    /// The number of items that the channel is to hold.
    pub closed spec fn bound(self) -> usize {
        self.channel_bound
    }

    /// Whether a lost connection is to be established again.
    pub closed spec fn reconnects(self) -> bool {
        self.reconnect_web_socket
    }

    /// A builder for the given base address, with a channel of 100 items and
    /// reconnection enabled.
    pub fn new(base_url: U) -> (builder: Self)
        ensures
            builder.address() == base_url,
            builder.bound() == DEFAULT_CHANNEL_BOUND,
            builder.reconnects(),
    {
        ClientBuilder {
            base_url,
            channel_bound: DEFAULT_CHANNEL_BOUND,
            reconnect_web_socket: true,
        }
    }

    /// Sets the number of items that the channel holds before the producer
    /// has to wait.
    pub fn channel_bound(self, channel_bound: usize) -> (builder: Self)
        ensures
            builder.address() == self.address(),
            builder.bound() == channel_bound,
            builder.reconnects() == self.reconnects(),
    {
        ClientBuilder {
            base_url: self.base_url,
            channel_bound,
            reconnect_web_socket: self.reconnect_web_socket,
        }
    }

    /// Sets whether a lost connection is established again.
    pub fn reconnect_web_socket(self, reconnect: bool) -> (builder: Self)
        ensures
            builder.address() == self.address(),
            builder.bound() == self.bound(),
            builder.reconnects() == reconnect,
    {
        ClientBuilder {
            base_url: self.base_url,
            channel_bound: self.channel_bound,
            reconnect_web_socket: reconnect,
        }
    }

    /// Takes the builder apart: the base address as it was given, the number
    /// of items for the channel, and whether to reconnect.
    pub fn into_parts(self) -> (parts: (U, usize, bool))
        ensures
            parts == (self.address(), self.bound(), self.reconnects()),
    {
        (self.base_url, self.channel_bound, self.reconnect_web_socket)
    }
}

impl ClientBuilder<String> {
    /// Plans the event stream under the given correlation identity: derives
    /// the handshake address from the base address and sets the supervisor
    /// up. Nothing is connected yet.
    pub fn build_with_id(self, client_id: String) -> (session: ClientResult<Session>)
        ensures
            match websocket_address(self.address()@, client_id@) {
                Ok(address) => {
                    &&& session matches Ok(s)
                    &&& s.websocket_url@ == address
                    &&& s.client.identity() == client_id@
                    &&& s.client.base() == self.address()@
                    &&& s.channel_bound == self.bound()
                    &&& s.supervisor == Supervisor::connecting(self.reconnects())
                },
                Err(error) => session matches Err(e) && e.deep_view() == error,
            },
    {
        match generate_websocket_url(self.base_url.as_str(), client_id.as_str()) {
            Ok(websocket_url) => Ok(
                Session {
                    client: ComfyUIClient { client_id, base_url: self.base_url },
                    websocket_url,
                    channel_bound: self.channel_bound,
                    supervisor: Supervisor::new(self.reconnect_web_socket),
                },
            ),
            Err(error) => Err(error),
        }
    }

    /// Plans the event stream under a correlation identity made for this
    /// client.
    pub fn build(self) -> (session: ClientResult<Session>)
        ensures
            match session {
                Ok(s) => {
                    &&& s.client.identity().len() == 36
                    &&& websocket_address(self.address()@, s.client.identity()) == Ok::<
                        Seq<char>,
                        ClientErrorView,
                    >(s.websocket_url@)
                    &&& s.client.base() == self.address()@
                    &&& s.channel_bound == self.bound()
                    &&& s.supervisor == Supervisor::connecting(self.reconnects())
                },
                Err(e) => exists|id: Seq<char>|
                    id.len() == 36 && websocket_address(self.address()@, id) == Err::<
                        Seq<char>,
                        ClientErrorView,
                    >(e.deep_view()),
            },
    {
        let client_id = new_client_id();
        let ghost id = client_id@;
        let ghost base = self.address()@;
        let session = self.build_with_id(client_id);
        proof {
            if session is Err {
                assert(id.len() == 36 && websocket_address(base, id) == Err::<
                    Seq<char>,
                    ClientErrorView,
                >(session->Err_0.deep_view()));
            }
        }
        session
    }

    /// A client for requests only, without an event stream, under a
    /// correlation identity made for it.
    pub fn build_only_http(self) -> (client: ComfyUIClient)
        ensures
            client.base() == self.address()@,
            client.identity().len() == 36,
    {
        ComfyUIClient { client_id: new_client_id(), base_url: self.base_url }
    }
}

/// How a request is made.
#[derive(Clone, Copy, Debug, PartialEq, Eq, Structural)]
pub enum Method {
    /// Ask for something.
    Get,
    /// Hand something in.
    Post,
}

/// The form that an image is uploaded with. The image itself goes in the
/// part named `image`, under the given file name.
#[derive(Debug, PartialEq, Eq)]
pub struct UploadForm {
    /// The file name of the part that carries the image.
    pub file_name: String,
    /// The text parts, by name, in their order.
    pub fields: Vec<(String, String)>,
}

/// What a request carries.
#[derive(Debug, PartialEq, Eq)]
pub enum Payload {
    /// Nothing.
    Empty,
    /// A JSON value.
    Json(Json),
    /// A form with an image.
    Upload(UploadForm),
}

/// A request to the service.
#[derive(Debug, PartialEq, Eq)]
pub struct Request {
    /// How the request is made.
    pub method: Method,
    /// The address of the endpoint.
    pub url: String,
    /// The pairs of the query, in their order.
    pub query: Vec<(String, String)>,
    /// What the request carries.
    pub payload: Payload,
}

/// The path of the endpoint that answers with the history of a prompt.
pub open spec fn history_path(prompt_id: Seq<char>) -> Seq<char> {
    "history/"@ + prompt_id
}

/// The query that names a file to the endpoint `view`.
pub open spec fn view_query(file: FileInfoView) -> Seq<(Seq<char>, Seq<char>)> {
    seq![("filename"@, file.filename), ("subfolder"@, file.subfolder), ("type"@, file.kind)]
}

/// The text parts of an upload: whether to overwrite, the kind of storage,
/// and the folder unless it is empty.
pub open spec fn upload_fields(file: FileInfoView, overwrite: bool) -> Seq<
    (Seq<char>, Seq<char>),
> {
    let first = seq![
        ("overwrite"@, if overwrite {
            "true"@
        } else {
            "false"@
        }),
        ("type"@, file.kind),
    ];
    if file.subfolder.len() == 0 {
        first
    } else {
        first.push(("subfolder"@, file.subfolder))
    }
}

/// The value that a workflow is submitted as: the workflow, tagged with the
/// correlation identity.
pub open spec fn prompt_payload(client_id: Seq<char>, workflow: JsonView) -> JsonView {
    JsonView::Object(
        Seq::empty().push(("client_id"@, JsonView::String(client_id))).push(("prompt"@, workflow)),
    )
}

/// The workflow that a prompt stands for: the value itself, or what its text
/// parses as.
pub open spec fn prompt_workflow(prompt: Prompt<'_>) -> Result<JsonView, serde_json::Error> {
    match prompt {
        Prompt::Str(text) => parsed_json(text@),
        Prompt::Value(value) => Ok(value.deep_view()),
    }
}

/// Whether a status answers a request with success: the statuses 200 to 299.
pub open spec fn is_success_status(status: u16) -> bool {
    200 <= status < 300
}

/// The body of an error answer: the value it parses as, or else its text.
pub open spec fn api_body(body: Seq<char>) -> ApiBodyView {
    match parsed_json(body) {
        Ok(value) => ApiBodyView::Json(value),
        Err(_) => ApiBodyView::Text(body),
    }
}

/// Whether a result is the reading of a body as a record: the record that
/// the body's value decodes as; the parser's refusal where the body is not
/// JSON; an error of the same kind where the value has not the record's shape.
pub open spec fn reads_body<T>(
    result: Result<T, ClientErrorView>,
    body: Seq<char>,
    decode: spec_fn(JsonView) -> Option<T>,
) -> bool {
    match parsed_json(body) {
        Err(e) => result == Err::<T, ClientErrorView>(ClientErrorView::SerdeJson(e)),
        Ok(value) => match decode(value) {
            Some(record) => result == Ok::<T, ClientErrorView>(record),
            None => result matches Err(error) && error is SerdeJson,
        },
    }
}

/// Whether a result is the request to an endpoint of a base address, or the
/// refusal of the endpoint's address.
pub open spec fn requests_endpoint(
    result: ClientResult<Request>,
    base: Seq<char>,
    path: Seq<char>,
    method: Method,
) -> bool {
    match url_joined(base, path) {
        Ok(url) => result matches Ok(request) && request.method == method && request.url@ == url,
        Err(e) => result matches Err(error) && error.deep_view() == ClientErrorView::UrlParse(e),
    }
}

impl ComfyUIClient {
    /// The correlation identity.
    pub closed spec fn identity(self) -> Seq<char> {
        self.client_id@
    }

    /// The base address.
    pub closed spec fn base(self) -> Seq<char> {
        self.base_url@
    }

    /// A client with the given base address and correlation identity.
    pub fn new(base_url: String, client_id: String) -> (client: ComfyUIClient)
        ensures
            client.base() == base_url@,
            client.identity() == client_id@,
    {
        ComfyUIClient { client_id, base_url }
    }

    /// The correlation identity.
    pub fn client_id(&self) -> (id: &str)
        ensures
            id@ == self.identity(),
    {
        self.client_id.as_str()
    }

    /// The base address.
    pub fn base_url(&self) -> (url: &str)
        ensures
            url@ == self.base(),
    {
        self.base_url.as_str()
    }

    /// A request to an endpoint, with nothing in its query and no payload.
    fn request(&self, method: Method, path: &str, payload: Payload) -> (request: ClientResult<
        Request,
    >)
        ensures
            requests_endpoint(request, self.base(), path@, method),
            request matches Ok(r) ==> r.query@.len() == 0 && r.payload == payload,
    {
        match endpoint(self.base_url.as_str(), path) {
            Ok(url) => Ok(Request { method, url, query: Vec::new(), payload }),
            Err(error) => Err(error),
        }
    }

    /// The request for the history of a prompt.
    pub fn get_history(&self, prompt_id: &str) -> (request: ClientResult<Request>)
        ensures
            requests_endpoint(request, self.base(), history_path(prompt_id@), Method::Get),
            request matches Ok(r) ==> r.query@.len() == 0 && r.payload is Empty,
    {
        let path = String::from_str("history/").concat(prompt_id);
        self.request(Method::Get, path.as_str(), Payload::Empty)
    }

    /// The request for the state of the queue.
    pub fn get_prompt(&self) -> (request: ClientResult<Request>)
        ensures
            requests_endpoint(request, self.base(), "prompt"@, Method::Get),
            request matches Ok(r) ==> r.query@.len() == 0 && r.payload is Empty,
    {
        self.request(Method::Get, "prompt", Payload::Empty)
    }

    /// The request for the contents of a file.
    pub fn get_view(&self, file_info: &FileInfo) -> (request: ClientResult<Request>)
        ensures
            requests_endpoint(request, self.base(), "view"@, Method::Get),
            request matches Ok(r) ==> r.query.deep_view() == view_query(file_info.deep_view())
                && r.payload is Empty,
    {
        match endpoint(self.base_url.as_str(), "view") {
            Ok(url) => {
                let mut query: Vec<(String, String)> = Vec::new();
                query.push(("filename".to_owned(), file_info.filename.clone()));
                query.push(("subfolder".to_owned(), file_info.subfolder.clone()));
                query.push(("type".to_owned(), file_info.kind.clone()));
                assert(query.deep_view() =~= view_query(file_info.deep_view()));
                Ok(Request { method: Method::Get, url, query, payload: Payload::Empty })
            },
            Err(error) => Err(error),
        }
    }

    /// The request that submits a workflow. A workflow given as text is
    /// parsed first; text that is not JSON is refused before any address is
    /// made.
    pub fn post_prompt(&self, prompt: Prompt<'_>) -> (request: ClientResult<Request>)
        ensures
            match prompt_workflow(prompt) {
                Err(e) => request matches Err(error) && error.deep_view()
                    == ClientErrorView::SerdeJson(e),
                Ok(workflow) => {
                    &&& requests_endpoint(request, self.base(), "prompt"@, Method::Post)
                    &&& request matches Ok(r) ==> {
                        &&& r.query@.len() == 0
                        &&& r.payload matches Payload::Json(value)
                        &&& value.deep_view() == prompt_payload(self.identity(), workflow)
                    }
                },
            },
    {
        let workflow = match prompt {
            Prompt::Str(text) => match parse_text(text) {
                Ok(value) => value,
                Err(e) => {
                    return Err(ClientError::SerdeJson(e));
                },
            },
            Prompt::Value(value) => value.clone(),
        };
        let mut entries = no_members();
        push_member(&mut entries, "client_id", Json::String(self.client_id.clone()));
        push_member(&mut entries, "prompt", workflow);
        self.request(Method::Post, "prompt", Payload::Json(object_of(entries)))
    }

    /// The request that uploads an image under the name, folder and kind of
    /// the given file record.
    pub fn upload_image(&self, info: &FileInfo, overwrite: bool) -> (request: ClientResult<
        Request,
    >)
        ensures
            requests_endpoint(request, self.base(), "upload/image"@, Method::Post),
            request matches Ok(r) ==> {
                &&& r.query@.len() == 0
                &&& r.payload matches Payload::Upload(form)
                &&& form.file_name@ == info.filename@
                &&& form.fields.deep_view() == upload_fields(info.deep_view(), overwrite)
            },
    {
        let mut fields: Vec<(String, String)> = Vec::new();
        let flag = if overwrite {
            "true"
        } else {
            "false"
        };
        fields.push(("overwrite".to_owned(), flag.to_owned()));
        fields.push(("type".to_owned(), info.kind.clone()));
        if !info.subfolder.as_str().is_empty() {
            fields.push(("subfolder".to_owned(), info.subfolder.clone()));
        }
        assert(fields.deep_view() =~= upload_fields(info.deep_view(), overwrite));
        let form = UploadForm { file_name: info.filename.clone(), fields };
        self.request(Method::Post, "upload/image", Payload::Upload(form))
    }

    /// Whether a status answers a request with success.
    pub fn is_success(status: u16) -> (success: bool)
        ensures
            success == is_success_status(status),
    {
        200 <= status && status < 300
    }

    /// The error that an answer without success stands for: its status, and
    /// its body as JSON where it is JSON, else as text.
    pub fn api_error(status: u16, body: String) -> (error: ApiError)
        ensures
            error.deep_view().status == status,
            error.deep_view().body == api_body(body@),
    {
        let body = match parse_text(body.as_str()) {
            Ok(value) => ApiBody::Json(value),
            Err(_) => ApiBody::Text(body),
        };
        ApiError { status, body }
    }

    /// Passes the body of an answer on where the status says success, and
    /// gives the error that the answer stands for where it does not.
    pub fn error_for_status(status: u16, body: String) -> (checked: ClientResult<String>)
        ensures
            is_success_status(status) ==> (checked matches Ok(text) && text@ == body@),
            !is_success_status(status) ==> (checked matches Err(error) && error.deep_view()
                == ClientErrorView::Api(
                crate::errors::ApiErrorView { status, body: api_body(body@) },
            )),
    {
        if Self::is_success(status) {
            Ok(body)
        } else {
            Err(ClientError::Api(Self::api_error(status, body)))
        }
    }

    /// Reads the answer to the request for the state of the queue.
    pub fn read_prompt(body: &str) -> (info: ClientResult<PromptInfo>)
        ensures
            reads_body(
                match info {
                    Ok(i) => Ok(i),
                    Err(e) => Err(e.deep_view()),
                },
                body@,
                |v: JsonView| decode_prompt_info(v),
            ),
    {
        let value = match parse_text(body) {
            Ok(value) => value,
            Err(e) => {
                return Err(ClientError::SerdeJson(e));
            },
        };
        match read_prompt_info(&value) {
            Some(info) => Ok(info),
            None => Err(ClientError::SerdeJson(shape_error("the state of the queue"))),
        }
    }

    /// Reads the answer to a submitted workflow.
    pub fn read_prompt_status(body: &str) -> (status: ClientResult<PromptStatus>)
        ensures
            reads_body(
                match status {
                    Ok(s) => Ok(s.deep_view()),
                    Err(e) => Err(e.deep_view()),
                },
                body@,
                |v: JsonView| decode_prompt_status(v),
            ),
            status matches Ok(s) ==> prompt_status_well_formed(s.deep_view()),
    {
        let value = match parse_text(body) {
            Ok(value) => value,
            Err(e) => {
                return Err(ClientError::SerdeJson(e));
            },
        };
        proof {
            if decode_prompt_status(value.deep_view()) is Some {
                crate::validity::lemma_decoded_prompt_status_well_formed(value.deep_view());
            }
        }
        match read_prompt_status(&value) {
            Some(status) => Ok(status),
            None => Err(ClientError::SerdeJson(shape_error("the answer to a prompt"))),
        }
    }

    /// Reads the answer to an upload: the record of the file as stored.
    pub fn read_upload(body: &str) -> (file: ClientResult<FileInfo>)
        ensures
            reads_body(
                match file {
                    Ok(f) => Ok(f.deep_view()),
                    Err(e) => Err(e.deep_view()),
                },
                body@,
                |v: JsonView| decode_file_info(v),
            ),
    {
        let value = match parse_text(body) {
            Ok(value) => value,
            Err(e) => {
                return Err(ClientError::SerdeJson(e));
            },
        };
        match read_file_info(&value) {
            Some(file) => Ok(file),
            None => Err(ClientError::SerdeJson(shape_error("a file record"))),
        }
    }

    /// Reads the answer to the request for the history of a prompt: the
    /// history recorded under the prompt's identifier, if there is one.
    pub fn read_history(body: &str, prompt_id: &str) -> (history: ClientResult<Option<History>>)
        ensures
            reads_body(
                match history {
                    Ok(h) => Ok(h.deep_view()),
                    Err(e) => Err(e.deep_view()),
                },
                body@,
                |v: JsonView|
                    match decode_histories(v) {
                        Some(histories) => Some(select_history(histories, prompt_id@)),
                        None => None,
                    },
            ),
            history matches Ok(Some(h)) ==> history_well_formed(h.deep_view()),
    {
        let value = match parse_text(body) {
            Ok(value) => value,
            Err(e) => {
                return Err(ClientError::SerdeJson(e));
            },
        };
        proof {
            if decode_histories(value.deep_view()) matches Some(histories) && select_history(
                histories,
                prompt_id@,
            ) is Some {
                crate::validity::lemma_selected_history_well_formed(value.deep_view(), prompt_id@);
            }
        }
        match read_histories(&value) {
            Some(histories) => Ok(take_history(histories, prompt_id)),
            None => Err(ClientError::SerdeJson(shape_error("histories by prompt"))),
        }
    }
}

} // verus!
