//! Responses and errors as plain values: a status, a content type and a
//! body.

use vstd::prelude::*;
use vstd::string::StringSliceAdditionalSpecFns;

verus! {

pub const OK: u16 = 200;

pub const ACCEPTED: u16 = 202;

pub const NO_CONTENT: u16 = 204;

pub const BAD_REQUEST: u16 = 400;

pub const UNAUTHORIZED: u16 = 401;

pub const FORBIDDEN: u16 = 403;

pub const NOT_FOUND: u16 = 404;

pub const METHOD_NOT_ALLOWED: u16 = 405;

pub const INTERNAL_SERVER_ERROR: u16 = 500;

/// A response: the status code, the content type where one is set, and the
/// body.
#[derive(Debug, Clone, PartialEq, Eq)]
pub struct HttpResponse {
    pub status: u16,
    pub content_type: Option<String>,
    pub body: Vec<u8>,
}

/// Ways that routing can fail.
#[derive(Debug, Clone, Copy, PartialEq, Eq, Structural)]
pub enum RoutingFailure {
    /// No node was found for the request path.
    NotFound,
    /// No handler was found for the request method.
    MethodNotAllowed,
}

/// What can go wrong while a request is handled.
#[derive(Debug)]
pub enum Error {
    /// A failure of a collaborator, with its description.
    Internal(String),
    InternalStr(String),
    InternalStrStatic(&'static str),
    /// A complete response for the client.
    UserError(HttpResponse),
    RoutingError(RoutingFailure),
}

/// The text that a run of bytes stands for when every invalid sequence is
/// replaced by U+FFFD: what `String::from_utf8_lossy` returns.
pub uninterp spec fn utf8_lossy(bytes: Seq<u8>) -> Seq<char>;

/// Decodes bytes with `String::from_utf8_lossy` of the standard library. The
/// text depends on the bytes alone.
#[verifier::external_body]
fn from_utf8_lossy(bytes: &Vec<u8>) -> (s: String)
    ensures
        s@ == utf8_lossy(bytes@),
{
    String::from_utf8_lossy(bytes).into_owned()
}

/// Whether a status code reports success: 200 to 299.
pub open spec fn is_success(status: u16) -> bool {
    200 <= status < 300
}

/// A response without content.
pub fn empty_response() -> (res: HttpResponse)
    ensures
        res.status == NO_CONTENT,
        res.content_type is None,
        res.body@ == Seq::<u8>::empty(),
{
    HttpResponse { status: NO_CONTENT, content_type: None, body: Vec::new() }
}

/// A response with the given status and the given text as its body.
pub fn simple_response(code: u16, text: &str) -> (res: HttpResponse)
    ensures
        res.status == code,
        res.content_type is None,
        res.body@ == text.spec_bytes(),
{
    HttpResponse { status: code, content_type: None, body: text.as_bytes_vec() }
}

/// A response with status 200, the given content type and the given body.
pub fn typed_response(content_type: &str, body: Vec<u8>) -> (res: HttpResponse)
    ensures
        res.status == OK,
        res.content_type matches Some(t) && t@ == content_type@,
        res.body == body,
{
    HttpResponse { status: OK, content_type: Some(content_type.to_owned()), body }
}

/// Turns the response of a remote server that reports no success into an
/// error that quotes its body; a response that reports success is handed
/// back.
pub fn res_to_error(res: HttpResponse) -> (r: Result<HttpResponse, Error>)
    ensures
        is_success(res.status) ==> r == Ok::<HttpResponse, Error>(res),
        !is_success(res.status) ==> (r matches Err(Error::InternalStr(msg)) && msg@
            == "Error in remote response: "@ + utf8_lossy(res.body@)),
{
    if 200 <= res.status && res.status < 300 {
        Ok(res)
    } else {
        let mut msg = "Error in remote response: ".to_owned();
        let text = from_utf8_lossy(&res.body);
        crate::text::push_str(&mut msg, text.as_str());
        Err(Error::InternalStr(msg))
    }
}

/// The response for a request that could not be routed: 404 or 405, with the
/// standard phrase as its body.
pub fn routing_failure_response(failure: RoutingFailure) -> (res: HttpResponse)
    ensures
        res.status == match failure {
            RoutingFailure::NotFound => NOT_FOUND,
            RoutingFailure::MethodNotAllowed => METHOD_NOT_ALLOWED,
        },
        res.content_type is None,
        res.body@ == match failure {
            RoutingFailure::NotFound => "Not Found".spec_bytes(),
            RoutingFailure::MethodNotAllowed => "Method Not Allowed".spec_bytes(),
        },
{
    match failure {
        RoutingFailure::NotFound => simple_response(NOT_FOUND, "Not Found"),
        RoutingFailure::MethodNotAllowed => simple_response(
            METHOD_NOT_ALLOWED,
            "Method Not Allowed",
        ),
    }
}

/// The response that a failed request ends in. A user error is its own
/// response, a routing failure gets the standard one, and everything else is
/// reported as an internal server error without detail.
pub fn error_response(err: Error) -> (res: HttpResponse)
    ensures
        match err {
            Error::UserError(r) => res == r,
            Error::RoutingError(f) => res.content_type is None && match f {
                RoutingFailure::NotFound => res.status == NOT_FOUND && res.body@
                    == "Not Found".spec_bytes(),
                RoutingFailure::MethodNotAllowed => res.status == METHOD_NOT_ALLOWED && res.body@
                    == "Method Not Allowed".spec_bytes(),
            },
            _ => res.status == INTERNAL_SERVER_ERROR && res.content_type is None && res.body@
                == "Internal Server Error".spec_bytes(),
        },
{
    match err {
        Error::UserError(res) => res,
        Error::RoutingError(failure) => routing_failure_response(failure),
        Error::Internal(_) => simple_response(INTERNAL_SERVER_ERROR, "Internal Server Error"),
        Error::InternalStr(_) => simple_response(INTERNAL_SERVER_ERROR, "Internal Server Error"),
        Error::InternalStrStatic(_) => simple_response(
            INTERNAL_SERVER_ERROR,
            "Internal Server Error",
        ),
    }
}

} // verus!
