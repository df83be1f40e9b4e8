//! Error definitions.

use crate::json::{Json, JsonView};
use vstd::prelude::*;

verus! {

/// The reason `url` gives for refusing an address.
#[verifier::external_type_specification]
#[verifier::external_body]
pub struct ExUrlParseError(url::ParseError);

/// A failure reported by the HTTP transport.
#[verifier::external_type_specification]
#[verifier::external_body]
pub struct ExReqwestError(reqwest::Error);

/// A failure reported by the socket transport.
#[verifier::external_type_specification]
#[verifier::external_body]
pub struct ExSocketError(tokio_tungstenite::tungstenite::Error);

/// The result of client operations.
pub type ClientResult<T> = Result<T, ClientError>;

/// Errors that can occur during client operations.
#[derive(Debug)]
pub enum ClientError {
    /// An address could not be parsed or joined.
    UrlParse(url::ParseError),
    /// The HTTP transport failed.
    Reqwest(reqwest::Error),
    /// The socket transport failed.
    Tungstenite(tokio_tungstenite::tungstenite::Error),
    /// A text was not JSON.
    SerdeJson(serde_json::Error),
    /// The socket scheme could not be set on the base address.
    SetWsScheme,
    /// The service answered with an error status.
    Api(ApiError),
}

/// An error answer of the service.
#[derive(Debug)]
pub struct ApiError {
    /// The HTTP status code of the answer.
    pub status: u16,
    /// The body of the answer.
    pub body: ApiBody,
}

/// The body of an error answer.
#[derive(Debug)]
pub enum ApiBody {
    /// A body that is JSON.
    Json(Json),
    /// Any other body, as text.
    Text(String),
}

/// Model of [`ApiBody`].
pub enum ApiBodyView {
    Json(JsonView),
    Text(Seq<char>),
}

/// Model of [`ApiError`].
pub struct ApiErrorView {
    pub status: u16,
    pub body: ApiBodyView,
}

/// Model of [`ClientError`]; the transports' own errors stand for themselves.
pub enum ClientErrorView {
    UrlParse(url::ParseError),
    Reqwest(reqwest::Error),
    Tungstenite(tokio_tungstenite::tungstenite::Error),
    SerdeJson(serde_json::Error),
    SetWsScheme,
    Api(ApiErrorView),
}

impl DeepView for ApiBody {
    type V = ApiBodyView;

    open spec fn deep_view(&self) -> ApiBodyView {
        match self {
            ApiBody::Json(value) => ApiBodyView::Json(value.deep_view()),
            ApiBody::Text(text) => ApiBodyView::Text(text@),
        }
    }
}

impl DeepView for ApiError {
    type V = ApiErrorView;

    open spec fn deep_view(&self) -> ApiErrorView {
        ApiErrorView { status: self.status, body: self.body.deep_view() }
    }
}

impl DeepView for ClientError {
    type V = ClientErrorView;

    open spec fn deep_view(&self) -> ClientErrorView {
        match self {
            ClientError::UrlParse(e) => ClientErrorView::UrlParse(*e),
            ClientError::Reqwest(e) => ClientErrorView::Reqwest(*e),
            ClientError::Tungstenite(e) => ClientErrorView::Tungstenite(*e),
            ClientError::SerdeJson(e) => ClientErrorView::SerdeJson(*e),
            ClientError::SetWsScheme => ClientErrorView::SetWsScheme,
            ClientError::Api(e) => ClientErrorView::Api(e.deep_view()),
        }
    }
}

} // verus!
