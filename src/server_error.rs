use vstd::prelude::*;

use crate::api_error::ApiError;
use crate::foreign::{
    ascii_bytes, ascii_chars, canonical_reason, error_chain_text, lossy_text, lossy_utf8,
};
use crate::response::{ContentType, ErrorResponse};

verus! {

/// The errors of the HTML and asset routes, rendered as plain text.
#[derive(Debug)]
pub enum ServerError {
    /// The client sent an invalid request.
    BadRequest(String),
    /// An unexpected failure; its cause is logged and never shown.
    Internal(anyhow::Error),
    /// The representation computed in `content_encoding` (the raw bytes of
    /// the `Content-Encoding` value) is not allowed by the client's
    /// `Accept-Encoding` header, if it sent one.
    NotAcceptable { accept_encoding: Option<String>, content_encoding: Vec<u8> },
    /// A referenced resource does not exist.
    NotFound(String),
}

pub type ServerResult<T> = Result<T, ServerError>;

/// The start of the line logged for an internal error.
pub open spec fn diagnostic_prefix() -> Seq<char> {
    "error serving request: "@
}

/// The body of a not-acceptable response, from the client's header (if any)
/// and the rejected encoding as text.
pub open spec fn not_acceptable_text(accept: Option<Seq<char>>, content: Seq<char>) -> Seq<char> {
    "inscription content encoding `"@ + content + "` is not acceptable."@ + match accept {
        Some(v) => " `Accept-Encoding` header: `"@ + v + "`"@,
        None => " `Accept-Encoding` header not present"@,
    }
}

/// The view of an optional string.
pub open spec fn opt_view(o: Option<String>) -> Option<Seq<char>> {
    match o {
        Some(s) => Some(s@),
        None => None,
    }
}

/// Builds the body of a not-acceptable response from the client's
/// `Accept-Encoding` value and the rejected encoding.
pub fn not_acceptable_message(
    accept_encoding: &Option<String>,
    content_encoding: &str,
) -> (r: String)
    ensures
        r@ == not_acceptable_text(opt_view(*accept_encoding), content_encoding@),
{
    let mut message = String::from_str("inscription content encoding `");
    message.append(content_encoding);
    message.append("` is not acceptable.");
    match accept_encoding {
        Some(value) => {
            message.append(" `Accept-Encoding` header: `");
            message.append(value.as_str());
            message.append("`");
        },
        None => {
            message.append(" `Accept-Encoding` header not present");
        },
    }
    message
}

impl ServerError {
    /// The status code of each variant.
    pub open spec fn status_spec(&self) -> u16 {
        match self {
            ServerError::BadRequest(_) => 400,
            ServerError::Internal(_) => 500,
            ServerError::NotAcceptable { .. } => 406,
            ServerError::NotFound(_) => 404,
        }
    }

    /// The body that the client sees for each variant.
    pub open spec fn body_spec(&self) -> Seq<char> {
        match self {
            ServerError::BadRequest(m) => m@,
            ServerError::Internal(_) => "Internal Server Error"@,
            ServerError::NotAcceptable { accept_encoding, content_encoding } => not_acceptable_text(
                opt_view(*accept_encoding),
                lossy_utf8(content_encoding@),
            ),
            ServerError::NotFound(m) => m@,
        }
    }

    /// The response for this error. Only an internal error leaves a line for
    /// the operator, which carries the cause and its chain; only a not-found
    /// response forbids caching.
    pub fn into_response(self) -> (r: ErrorResponse)
        ensures
            r.status == self.status_spec(),
            r.body@ == self.body_spec(),
            r.content_type == ContentType::Text,
            r.no_store == (self is NotFound),
            r.diagnostic is Some <==> self is Internal,
            r.diagnostic is Some ==> diagnostic_prefix().is_prefix_of(r.diagnostic->0@),
            match self {
                ServerError::NotAcceptable { accept_encoding, content_encoding } => ascii_bytes(
                    content_encoding@,
                ) ==> r.body@ == not_acceptable_text(
                    opt_view(accept_encoding),
                    ascii_chars(content_encoding@),
                ),
                _ => true,
            },
    {
        match self {
            ServerError::BadRequest(message) => ErrorResponse {
                status: 400,
                content_type: ContentType::Text,
                no_store: false,
                body: message,
                diagnostic: None,
            },
            ServerError::Internal(error) => {
                let mut line = String::from_str("error serving request: ");
                let cause = error_chain_text(&error);
                line.append(cause.as_str());
                let body = match canonical_reason(500) {
                    Some(reason) => String::from_str(reason),
                    None => String::new(),
                };
                ErrorResponse {
                    status: 500,
                    content_type: ContentType::Text,
                    no_store: false,
                    body,
                    diagnostic: Some(line),
                }
            },
            ServerError::NotAcceptable { accept_encoding, content_encoding } => {
                let content = lossy_text(content_encoding.as_slice());
                let body = not_acceptable_message(&accept_encoding, content.as_str());
                ErrorResponse {
                    status: 406,
                    content_type: ContentType::Text,
                    no_store: false,
                    body,
                    diagnostic: None,
                }
            },
            ServerError::NotFound(message) => ErrorResponse {
                status: 404,
                content_type: ContentType::Text,
                no_store: true,
                body: message,
                diagnostic: None,
            },
        }
    }
}

/// Lifts an absent value into a not-found error. The label is computed only
/// when the value is absent.
pub trait OptionExt<T>: Sized {
    /// The value held, if any.
    spec fn held(&self) -> Option<T>;

    /// The held value, or `NotFound` with the label that `f` returns followed
    /// by `" not found"`. `f` need not be callable at all when a value is
    /// held: it is then never called.
    fn ok_or_not_found<F: FnOnce() -> String>(self, f: F) -> (r: ServerResult<T>)
        requires
            self.held() is None ==> f.requires(()),
        ensures
            match self.held() {
                Some(v) => r == Ok::<T, ServerError>(v),
                None => exists|label: String|
                    #[trigger] f.ensures((), label) && (r matches Err(ServerError::NotFound(m))
                        && m@ == label@ + " not found"@),
            },
    ;
}

impl<T> OptionExt<T> for Option<T> {
    open spec fn held(&self) -> Option<T> {
        *self
    }

    fn ok_or_not_found<F: FnOnce() -> String>(self, f: F) -> (r: ServerResult<T>) {
        match self {
            Some(value) => Ok(value),
            None => {
                let label = f();
                let mut message = label;
                message.append(" not found");
                Err(ServerError::NotFound(message))
            },
        }
    }
}

/// Every error of either kind has exactly one status, one of 400, 404, 406
/// and 500; 406 belongs to the plain-text kind alone.
pub proof fn lemma_status_exhaustive(e: ServerError, a: ApiError)
    ensures
        e.status_spec() == 400 || e.status_spec() == 404 || e.status_spec() == 406
            || e.status_spec() == 500,
        a.status_spec() == 400 || a.status_spec() == 404 || a.status_spec() == 500,
        e is BadRequest <==> e.status_spec() == 400,
        e is NotFound <==> e.status_spec() == 404,
        e is NotAcceptable <==> e.status_spec() == 406,
        e is Internal <==> e.status_spec() == 500,
        a is BadRequest <==> a.status_spec() == 400,
        a is NotFound <==> a.status_spec() == 404,
        a is Internal <==> a.status_spec() == 500,
{
}

impl From<anyhow::Error> for ServerError {
    /// Every opaque cause becomes an internal error.
    fn from(error: anyhow::Error) -> (r: Self) {
        ServerError::Internal(error)
    }
}

impl vstd::std_specs::convert::FromSpecImpl<anyhow::Error> for ServerError {
    open spec fn obeys_from_spec() -> bool {
        true
    }

    open spec fn from_spec(v: anyhow::Error) -> Self {
        ServerError::Internal(v)
    }
}

} // verus!
