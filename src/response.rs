use vstd::prelude::*;

verus! {

/// How the body of a response is to be labelled.
#[derive(PartialEq, Eq, Structural, Clone, Copy, Debug)]
pub enum ContentType {
    /// Plain text.
    Text,
    /// `application/json`.
    Json,
}

/// A plain description of an error response: what the HTTP layer sends, and
/// the line it writes to the operator's error stream, if any.
#[derive(Debug)]
pub struct ErrorResponse {
    /// The status code.
    pub status: u16,
    /// The label of the body.
    pub content_type: ContentType,
    /// Whether the response carries `Cache-Control: no-store`.
    pub no_store: bool,
    /// The body.
    pub body: String,
    /// A line for the operator, never shown to the client.
    pub diagnostic: Option<String>,
}

} // verus!
