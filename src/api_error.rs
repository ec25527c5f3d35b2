use vstd::prelude::*;

use crate::foreign::{error_text, json_plain, json_quoted, json_string};
use crate::response::{ContentType, ErrorResponse};

verus! {

/// The errors of the JSON API. Each carries a message and a fixed numeric code
/// that API consumers depend on.
#[derive(Debug)]
pub enum ApiError {
    /// Internal server error.
    Internal(String),
    /// Bad request.
    BadRequest(String),
    /// Resource not found.
    NotFound(String),
}

impl ApiError {
    /// The wire code of each variant: 1, 2 and 3, fixed whatever the order of
    /// the variants.
    pub open spec fn code_spec(&self) -> i32 {
        match self {
            ApiError::Internal(_) => 1,
            ApiError::BadRequest(_) => 2,
            ApiError::NotFound(_) => 3,
        }
    }

    /// The message that the error carries.
    pub open spec fn message(&self) -> Seq<char> {
        match self {
            ApiError::Internal(m) => m@,
            ApiError::BadRequest(m) => m@,
            ApiError::NotFound(m) => m@,
        }
    }

    /// The status code of each variant.
    pub open spec fn status_spec(&self) -> u16 {
        match self {
            ApiError::Internal(_) => 500,
            ApiError::BadRequest(_) => 400,
            ApiError::NotFound(_) => 404,
        }
    }

    /// The JSON text of the error: the code, then the message.
    pub open spec fn json_spec(&self) -> Seq<char> {
        api_json(self.code_spec(), self.message())
    }

    /// The wire code of this error.
    pub fn code(&self) -> (r: i32)
        ensures
            r == self.code_spec(),
    {
        match self {
            ApiError::Internal(_) => 1,
            ApiError::BadRequest(_) => 2,
            ApiError::NotFound(_) => 3,
        }
    }

    /// A not-found error carrying `message`.
    pub fn not_found(message: &str) -> (r: Self)
        ensures
            r is NotFound,
            r.message() == message@,
    {
        ApiError::NotFound(String::from_str(message))
    }

    /// An internal error carrying `message`.
    pub fn internal(message: &str) -> (r: Self)
        ensures
            r is Internal,
            r.message() == message@,
    {
        ApiError::Internal(String::from_str(message))
    }

    /// A bad-request error carrying `message`.
    pub fn bad_request(message: &str) -> (r: Self)
        ensures
            r is BadRequest,
            r.message() == message@,
    {
        ApiError::BadRequest(String::from_str(message))
    }

    /// The message, borrowed.
    pub fn msg(&self) -> (r: &str)
        ensures
            r@ == self.message(),
    {
        match self {
            ApiError::Internal(m) => m.as_str(),
            ApiError::BadRequest(m) => m.as_str(),
            ApiError::NotFound(m) => m.as_str(),
        }
    }

    /// The error as a JSON object with exactly the fields `code` and `msg`,
    /// in that order.
    pub fn to_json(&self) -> (r: String)
        ensures
            r@ == self.json_spec(),
            json_plain(self.message()) ==> r@ == api_json_plain(self.code_spec(), self.message()),
    {
        let code = self.code();
        let mut json = String::from_str("{\"code\":");
        json.append(code_digit(code));
        json.append(",\"msg\":");
        let quoted = json_string(self.msg()).unwrap();
        json.append(quoted.as_str());
        json.append("}");
        json
    }

    /// The response for this error: its status and its JSON text.
    pub fn into_response(self) -> (r: ErrorResponse)
        ensures
            r.status == self.status_spec(),
            r.body@ == self.json_spec(),
            json_plain(self.message()) ==> r.body@ == api_json_plain(
                self.code_spec(),
                self.message(),
            ),
            r.content_type == ContentType::Json,
            !r.no_store,
            r.diagnostic is None,
    {
        let status: u16 = match &self {
            ApiError::Internal(_) => 500,
            ApiError::BadRequest(_) => 400,
            ApiError::NotFound(_) => 404,
        };
        let body = self.to_json();
        ErrorResponse {
            status,
            content_type: ContentType::Json,
            no_store: false,
            body,
            diagnostic: None,
        }
    }
}

/// The decimal text of a code between 1 and 3.
pub open spec fn code_text(code: i32) -> Seq<char> {
    if code == 1 {
        "1"@
    } else if code == 2 {
        "2"@
    } else {
        "3"@
    }
}

/// The JSON object `{"code":<code>,"msg":<msg>}`.
pub open spec fn api_json(code: i32, msg: Seq<char>) -> Seq<char> {
    "{\"code\":"@ + code_text(code) + ",\"msg\":"@ + json_quoted(msg) + "}"@
}

/// The same object when the message needs no escaping: the message stands
/// verbatim between two quotes.
pub open spec fn api_json_plain(code: i32, msg: Seq<char>) -> Seq<char> {
    "{\"code\":"@ + code_text(code) + ",\"msg\":"@ + (seq!['"'] + msg + seq!['"']) + "}"@
}

/// An internal error serializes as `{"code":1,"msg":<message>}`.
pub proof fn lemma_internal_json(m: Seq<char>, e: ApiError)
    requires
        e is Internal,
        e.message() == m,
    ensures
        e.json_spec() == "{\"code\":1,\"msg\":"@ + json_quoted(m) + "}"@,
{
    reveal_strlit("{\"code\":1,\"msg\":");
    reveal_strlit("{\"code\":");
    reveal_strlit(",\"msg\":");
    reveal_strlit("1");
    assert(("{\"code\":"@ + "1"@ + ",\"msg\":"@) =~= "{\"code\":1,\"msg\":"@);
}

/// A bad request serializes as `{"code":2,"msg":<message>}`.
pub proof fn lemma_bad_request_json(m: Seq<char>, e: ApiError)
    requires
        e is BadRequest,
        e.message() == m,
    ensures
        e.json_spec() == "{\"code\":2,\"msg\":"@ + json_quoted(m) + "}"@,
{
    reveal_strlit("{\"code\":2,\"msg\":");
    reveal_strlit("{\"code\":");
    reveal_strlit(",\"msg\":");
    reveal_strlit("2");
    assert(("{\"code\":"@ + "2"@ + ",\"msg\":"@) =~= "{\"code\":2,\"msg\":"@);
}

/// A not-found error serializes as `{"code":3,"msg":<message>}`.
pub proof fn lemma_not_found_json(m: Seq<char>, e: ApiError)
    requires
        e is NotFound,
        e.message() == m,
    ensures
        e.json_spec() == "{\"code\":3,\"msg\":"@ + json_quoted(m) + "}"@,
{
    reveal_strlit("{\"code\":3,\"msg\":");
    reveal_strlit("{\"code\":");
    reveal_strlit(",\"msg\":");
    reveal_strlit("3");
    assert(("{\"code\":"@ + "3"@ + ",\"msg\":"@) =~= "{\"code\":3,\"msg\":"@);
}

/// The decimal text of a wire code.
fn code_digit(code: i32) -> (r: &'static str)
    requires
        1 <= code <= 3,
    ensures
        r@ == code_text(code),
{
    if code == 1 {
        "1"
    } else if code == 2 {
        "2"
    } else {
        "3"
    }
}

impl From<anyhow::Error> for ApiError {
    /// Every opaque cause becomes an internal error that carries its text.
    fn from(error: anyhow::Error) -> (r: Self)
        ensures
            r is Internal,
    {
        ApiError::Internal(error_text(&error))
    }
}

// The text of an opaque cause is not known to specs, so `from` states the
// variant it returns in its own `ensures` rather than through `from_spec`.
impl vstd::std_specs::convert::FromSpecImpl<anyhow::Error> for ApiError {
    open spec fn obeys_from_spec() -> bool {
        false
    }

    open spec fn from_spec(v: anyhow::Error) -> Self {
        arbitrary()
    }
}

} // verus!
