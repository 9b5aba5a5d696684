//! Declarations of the outside types and calls that this crate relies on.
//! Each item here is trusted: its contract is believed, not proved.

use vstd::prelude::*;

use crate::encoding::form_urlencoded;

use reqwest::Client as HttpClient;

verus! {

/// The HTTP client of `reqwest`, carried opaquely by the REST handles.
#[verifier::external_type_specification]
#[verifier::external_body]
pub struct ExHttpClient(HttpClient);

/// `Clone` of `reqwest::Client`. The client is a single `Arc` field with a
/// derived `Clone`, so the clone is a second handle on the same shared
/// client: the contract states that the two values are equal.
pub assume_specification[ <HttpClient as Clone>::clone ](c: &HttpClient) -> (r: HttpClient)
    ensures
        r == *c,
;

/// The error of `reqwest`, carried opaquely by [`crate::error::BQError`].
#[verifier::external_type_specification]
#[verifier::external_body]
pub struct ExRequestError(reqwest::Error);

/// The error of `serde_json`, carried opaquely by [`crate::error::BQError`].
#[verifier::external_type_specification]
#[verifier::external_body]
pub struct ExJsonError(serde_json::Error);

/// The reason phrase that the `http` crate (through `reqwest`) gives a
/// status code: `Some("Forbidden")` for 403, `None` for a code it has no
/// phrase for.
pub uninterp spec fn canonical_reason_phrase(code: u16) -> Option<Seq<char>>;

/// `reqwest::StatusCode::from_u16(code)` followed by `canonical_reason()`.
/// Claims that the result is the phrase named by [`canonical_reason_phrase`],
/// and that codes outside 100..=999 (which `from_u16` rejects) have none.
/// The table of phrases itself is not stated.
#[verifier::external_body]
pub(crate) fn canonical_reason(code: u16) -> (r: Option<String>)
    ensures
        match r {
            Some(phrase) => canonical_reason_phrase(code) == Some(phrase@),
            None => canonical_reason_phrase(code) is None,
        },
        !(100 <= code <= 999) ==> r is None,
{
    match reqwest::StatusCode::from_u16(code) {
        Ok(status) => status.canonical_reason().map(String::from),
        Err(_) => None,
    }
}

/// `url::form_urlencoded::byte_serialize`, its pieces collected into one
/// string. Claims what the crate's source does byte by byte (see
/// [`form_urlencoded`]).
#[verifier::external_body]
pub(crate) fn form_urlencode_bytes(bytes: &[u8]) -> (r: String)
    ensures
        r@ == form_urlencoded(bytes@),
{
    url::form_urlencoded::byte_serialize(bytes).collect()
}

/// `Display` of `reqwest::Error`, written into a string. Nothing is stated
/// of the text: it describes an error value that Verus sees as opaque.
#[verifier::external_body]
pub(crate) fn request_error_text(e: &reqwest::Error) -> String {
    format!("{}", e)
}

/// `Display` of `serde_json::Error`, written into a string. Nothing is
/// stated of the text: it describes an error value that Verus sees as
/// opaque.
#[verifier::external_body]
pub(crate) fn json_error_text(e: &serde_json::Error) -> String {
    format!("{}", e)
}

} // verus!
