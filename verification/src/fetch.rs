//! Reading a provider's answer: the status decides first, then the body must
//! hold a JSON document.

use vstd::prelude::*;

verus! {

/// A JSON document of any shape. Nothing is assumed of what it holds.
#[verifier::external_type_specification]
#[verifier::external_body]
pub struct ExValue(serde_json::Value);

/// Why a text is not JSON, or a document could not be written as text.
#[verifier::external_type_specification]
#[verifier::external_body]
pub struct ExJsonError(serde_json::Error);

/// The document that `body` holds as JSON text, `None` where it holds none.
pub uninterp spec fn json_document(body: Seq<u8>) -> Option<serde_json::Value>;

/// `serde_json::from_slice`, read as a `Value`. The contract only gives the
/// outcome its name: the same bytes hold the same document, or none.
#[verifier::external_body]
fn json_from_slice(body: &[u8]) -> (parsed: Result<serde_json::Value, serde_json::Error>)
    ensures
        match parsed {
            Ok(doc) => json_document(body@) == Some(doc),
            Err(_) => json_document(body@).is_none(),
        },
{
    serde_json::from_slice::<serde_json::Value>(body)
}

/// Why an answer was not taken.
#[derive(Debug)]
pub enum FetchError {
    /// The provider answered with this status, which is not a success.
    Status(u16),
    /// The provider reported success, but the body is not JSON.
    Body(serde_json::Error),
}

/// The statuses that count as success: 200 to 299.
pub open spec fn is_success(status: u16) -> bool {
    200 <= status <= 299
}

/// Whether `status` is one of the success statuses.
pub fn status_is_success(status: u16) -> (ok: bool)
    ensures
        ok == is_success(status),
{
    200 <= status && status <= 299
}

/// Decides on an answer whose body has already been parsed: a status that is
/// no success is the error, whatever the body held; after that the parser's
/// verdict stands.
pub fn accept_response(
    status: u16,
    parsed: Result<serde_json::Value, serde_json::Error>,
) -> (outcome: Result<serde_json::Value, FetchError>)
    ensures
        match outcome {
            Ok(doc) => is_success(status) && parsed == Ok::<_, serde_json::Error>(doc),
            Err(FetchError::Status(code)) => !is_success(status) && code == status,
            Err(FetchError::Body(e)) => is_success(status) && parsed == Err::<serde_json::Value, _>(e),
        },
{
    if !status_is_success(status) {
        return Err(FetchError::Status(status));
    }
    match parsed {
        Ok(doc) => Ok(doc),
        Err(e) => Err(FetchError::Body(e)),
    }
}

/// Reads an answer: its status and the bytes of its body. The body of an
/// answer that is no success is not looked at.
pub fn read_response(status: u16, body: &[u8]) -> (outcome: Result<serde_json::Value, FetchError>)
    ensures
        match outcome {
            Ok(doc) => is_success(status) && json_document(body@) == Some(doc),
            Err(FetchError::Status(code)) => !is_success(status) && code == status,
            Err(FetchError::Body(_)) => is_success(status) && json_document(body@).is_none(),
        },
{
    if !status_is_success(status) {
        return Err(FetchError::Status(status));
    }
    accept_response(status, json_from_slice(body))
}

} // verus!
