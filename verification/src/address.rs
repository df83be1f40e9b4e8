//! Addresses: the handshake address of the socket, derived from the base
//! address of the service, and the addresses of the service's endpoints.
//!
//! An address is held as its text. What is a matter of URL syntax (which
//! scheme a text has, how a reference resolves against a base, how a query
//! is encoded) is left to the `url` crate.

use crate::errors::{ClientError, ClientErrorView, ClientResult};
use vstd::prelude::*;

verus! {

/// The scheme that `url` reads from an address, or its refusal of the address.
pub uninterp spec fn url_scheme(address: Seq<char>) -> Result<Seq<char>, url::ParseError>;

/// The address that `url` makes of an address by setting its scheme, if it
/// accepts both.
pub uninterp spec fn url_with_scheme(address: Seq<char>, scheme: Seq<char>) -> Option<Seq<char>>;

/// The address that `url` resolves a reference to against a base, or its refusal.
pub uninterp spec fn url_joined(base: Seq<char>, reference: Seq<char>) -> Result<
    Seq<char>,
    url::ParseError,
>;

/// The address that `url` makes of an address by appending one pair to its
/// query, or its refusal of the address.
pub uninterp spec fn url_with_query_pair(
    address: Seq<char>,
    key: Seq<char>,
    value: Seq<char>,
) -> Result<Seq<char>, url::ParseError>;

/// Parses the address with `Url::parse` and hands back what `Url::scheme`
/// gives for it. The contract names that outcome.
#[verifier::external_body]
fn scheme_of(address: &str) -> (scheme: Result<String, url::ParseError>)
    ensures
        match scheme {
            Ok(s) => url_scheme(address@) == Ok::<Seq<char>, url::ParseError>(s@),
            Err(e) => url_scheme(address@) == Err::<Seq<char>, url::ParseError>(e),
        },
{
    url::Url::parse(address).map(|u| u.scheme().to_string())
}

/// Parses the address with `Url::parse`, calls `Url::set_scheme` on it and
/// hands back the address as text; nothing where the address does not parse
/// or the scheme is refused. The contract names that outcome.
#[verifier::external_body]
fn with_scheme(address: &str, scheme: &str) -> (changed: Option<String>)
    ensures
        changed.deep_view() == url_with_scheme(address@, scheme@),
{
    let mut u = url::Url::parse(address).ok()?;
    u.set_scheme(scheme).ok()?;
    Some(u.into())
}

/// Parses the base with `Url::parse`, resolves the reference against it with
/// `Url::join` and hands back the address as text. The contract names that
/// outcome.
#[verifier::external_body]
fn joined(base: &str, reference: &str) -> (resolved: Result<String, url::ParseError>)
    ensures
        match resolved {
            Ok(s) => url_joined(base@, reference@) == Ok::<Seq<char>, url::ParseError>(s@),
            Err(e) => url_joined(base@, reference@) == Err::<Seq<char>, url::ParseError>(e),
        },
{
    url::Url::parse(base)?.join(reference).map(String::from)
}

/// Parses the address with `Url::parse`, appends one pair to its query with
/// `query_pairs_mut().append_pair` and hands back the address as text. The
/// contract names that outcome.
#[verifier::external_body]
fn with_query_pair(address: &str, key: &str, value: &str) -> (extended: Result<
    String,
    url::ParseError,
>)
    ensures
        match extended {
            Ok(s) => url_with_query_pair(address@, key@, value@) == Ok::<
                Seq<char>,
                url::ParseError,
            >(s@),
            Err(e) => url_with_query_pair(address@, key@, value@) == Err::<
                Seq<char>,
                url::ParseError,
            >(e),
        },
{
    let mut u = url::Url::parse(address)?;
    u.query_pairs_mut().append_pair(key, value);
    Ok(u.into())
}

/// The scheme of the socket for the scheme of a base address.
pub open spec fn socket_scheme(scheme: Seq<char>) -> Seq<char> {
    if scheme == "https"@ {
        "wss"@
    } else {
        "ws"@
    }
}

/// The handshake address for a base address and a correlation identity.
///
/// The base address gets the socket's scheme in place of its own, `wss` for
/// `https` and `ws` for every other; the path segment `ws` is resolved
/// against it; and the identity is appended to its query as `clientId`.
pub open spec fn websocket_address(base: Seq<char>, client_id: Seq<char>) -> Result<
    Seq<char>,
    ClientErrorView,
> {
    match url_scheme(base) {
        Err(e) => Err(ClientErrorView::UrlParse(e)),
        Ok(scheme) => match url_with_scheme(base, socket_scheme(scheme)) {
            None => Err(ClientErrorView::SetWsScheme),
            Some(changed) => match url_joined(changed, "ws"@) {
                Err(e) => Err(ClientErrorView::UrlParse(e)),
                Ok(resolved) => match url_with_query_pair(resolved, "clientId"@, client_id) {
                    Err(e) => Err(ClientErrorView::UrlParse(e)),
                    Ok(address) => Ok(address),
                },
            },
        },
    }
}

/// The model of an address or the error in its place.
pub open spec fn address_view(address: ClientResult<String>) -> Result<
    Seq<char>,
    ClientErrorView,
> {
    match address {
        Ok(text) => Ok(text@),
        Err(error) => Err(error.deep_view()),
    }
}

/// Chooses the scheme of the socket for the scheme of a base address.
pub fn choose_socket_scheme(scheme: &str) -> (socket: &'static str)
    ensures
        socket@ == socket_scheme(scheme@),
{
    if crate::text::str_eq(scheme, "https") {
        "wss"
    } else {
        "ws"
    }
}

/// Derives the handshake address of the socket from the base address of the
/// service and the correlation identity.
///
/// A base address that does not parse, or against which the path segment
/// does not resolve, gives [`ClientError::UrlParse`]; one whose scheme cannot
/// be exchanged for the socket's gives [`ClientError::SetWsScheme`].
pub fn generate_websocket_url(base_url: &str, client_id: &str) -> (address: ClientResult<String>)
    ensures
        address_view(address) == websocket_address(base_url@, client_id@),
{
    let scheme = match scheme_of(base_url) {
        Ok(scheme) => scheme,
        Err(e) => {
            return Err(ClientError::UrlParse(e));
        },
    };
    let changed = match with_scheme(base_url, choose_socket_scheme(scheme.as_str())) {
        Some(changed) => changed,
        None => {
            return Err(ClientError::SetWsScheme);
        },
    };
    let resolved = match joined(changed.as_str(), "ws") {
        Ok(resolved) => resolved,
        Err(e) => {
            return Err(ClientError::UrlParse(e));
        },
    };
    match with_query_pair(resolved.as_str(), "clientId", client_id) {
        Ok(address) => Ok(address),
        Err(e) => Err(ClientError::UrlParse(e)),
    }
}

/// The address of an endpoint: its path resolved against the base address.
pub fn endpoint(base_url: &str, path: &str) -> (address: ClientResult<String>)
    ensures
        address_view(address) == (match url_joined(base_url@, path@) {
            Ok(text) => Ok(text),
            Err(e) => Err(ClientErrorView::UrlParse(e)),
        }),
{
    match joined(base_url, path) {
        Ok(address) => Ok(address),
        Err(e) => Err(ClientError::UrlParse(e)),
    }
}

} // verus!
