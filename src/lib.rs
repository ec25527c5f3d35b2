//! Error taxonomy of a web service and its mapping onto HTTP responses.
//!
//! Two closed error types live here: [`ServerError`], raised by the HTML and
//! asset routes and rendered as plain text, and [`ApiError`], raised by the
//! JSON API and rendered as a two-field JSON object with a stable numeric code.
//! Both are turned into an [`ErrorResponse`], a plain description of the
//! status line, headers and body that the HTTP layer sends.

mod api_error;
mod foreign;
mod response;
mod server_error;

pub use api_error::{
    api_json, api_json_plain, code_text, lemma_bad_request_json, lemma_internal_json,
    lemma_not_found_json, ApiError,
};
pub use foreign::{ascii_bytes, ascii_chars, json_plain, json_quoted, lossy_utf8};
pub use response::{ContentType, ErrorResponse};
pub use server_error::{
    diagnostic_prefix, lemma_status_exhaustive, not_acceptable_message, not_acceptable_text,
    opt_view, OptionExt, ServerError, ServerResult,
};
