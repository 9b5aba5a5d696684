//! Errors of the client.

use vstd::prelude::*;

use crate::outside::{json_error_text, request_error_text};

verus! {

/// The error object of a BigQuery error response, as the service sends it,
/// or as it is synthesised when the body does not hold one.
#[derive(Debug, Clone)]
pub struct NestedResponseError {
    /// The HTTP status code.
    pub code: i64,
    /// The individual errors, each a set of key/value pairs such as
    /// `domain`, `reason` and `message`.
    pub errors: Vec<Vec<(String, String)>>,
    /// A human readable description of the failure.
    pub message: String,
    /// The status: a symbolic name such as `PERMISSION_DENIED`, or the HTTP
    /// status line.
    pub status: String,
}

impl NestedResponseError {
    /// Each individual error names each key at most once, as the JSON
    /// object that it is read from does.
    pub open spec fn keys_distinct(&self) -> bool {
        forall|k: int, i: int, j: int|
            #![trigger self.errors@[k]@[i], self.errors@[k]@[j]]
            0 <= k < self.errors@.len() && 0 <= i < j < self.errors@[k]@.len()
                ==> self.errors@[k]@[i].0@ != self.errors@[k]@[j].0@
    }
}

/// The body of a BigQuery error response.
#[derive(Debug, Clone)]
pub struct ResponseError {
    pub error: NestedResponseError,
}

/// Everything a call of the client can fail with.
#[derive(Debug)]
pub enum BQError {
    /// The request could not be sent, or its response could not be read.
    RequestError(reqwest::Error),
    /// The service answered with an error status.
    ResponseError { error: ResponseError },
    /// The service answered with success, but its body is not the JSON that
    /// was expected.
    SerializationError(serde_json::Error),
}

/// The text of an error: what `to_string` writes.
pub open spec fn response_error_text(e: ResponseError) -> Seq<char> {
    "Response error ("@ + e.error.status@ + "): "@ + e.error.message@
}

impl BQError {
    /// A human readable description of the error, for logs:
    /// `Response error (<status>): <message>` for an error response,
    /// `Request error: <error>` and `Serialization error: <error>` for the
    /// others.
    pub fn to_string(&self) -> (text: String)
        ensures
            match self {
                BQError::ResponseError { error } => text@ == response_error_text(*error),
                BQError::RequestError(_) => {
                    let head = "Request error: "@;
                    &&& head.len() <= text@.len()
                    &&& text@.subrange(0, head.len() as int) == head
                },
                BQError::SerializationError(_) => {
                    let head = "Serialization error: "@;
                    &&& head.len() <= text@.len()
                    &&& text@.subrange(0, head.len() as int) == head
                },
            },
    {
        match self {
            BQError::ResponseError { error } => {
                let mut text = "Response error (".to_owned();
                text.append(error.error.status.as_str());
                text.append("): ");
                text.append(error.error.message.as_str());
                text
            },
            BQError::RequestError(e) => {
                let mut text = "Request error: ".to_owned();
                let detail = request_error_text(e);
                text.append(detail.as_str());
                assert(text@.subrange(0, "Request error: "@.len() as int) =~= "Request error: "@);
                text
            },
            BQError::SerializationError(e) => {
                let mut text = "Serialization error: ".to_owned();
                let detail = json_error_text(e);
                text.append(detail.as_str());
                assert(text@.subrange(0, "Serialization error: "@.len() as int)
                    =~= "Serialization error: "@);
                text
            },
        }
    }
}

} // verus!
