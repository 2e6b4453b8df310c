//! What is kept of a run: one document, as indented text.

use vstd::prelude::*;

verus! {

/// The indented, human-readable JSON text of `doc`, `None` where the document
/// cannot be written as text.
pub uninterp spec fn pretty_text(doc: serde_json::Value) -> Option<Seq<char>>;

/// `serde_json::to_string_pretty` on a `Value`. The contract only gives the
/// outcome its name: the same document has the same text, or none.
#[verifier::external_body]
fn json_to_string_pretty(doc: &serde_json::Value) -> (text: Result<String, serde_json::Error>)
    ensures
        match text {
            Ok(s) => pretty_text(*doc) == Some(s@),
            Err(_) => pretty_text(*doc).is_none(),
        },
{
    serde_json::to_string_pretty(doc)
}

/// Why a document was not stored.
#[derive(Debug)]
pub enum StorageError {
    /// The document could not be written as text.
    Serialize(serde_json::Error),
    /// The directory or the file could not be made, or not all was written.
    Io,
}

/// The text that is stored for `data`: its indented JSON form, whole.
pub fn render(data: &serde_json::Value) -> (text: Result<String, StorageError>)
    ensures
        match text {
            Ok(s) => pretty_text(*data) == Some(s@),
            Err(e) => e is Serialize && pretty_text(*data).is_none(),
        },
{
    match json_to_string_pretty(data) {
        Ok(s) => Ok(s),
        Err(e) => Err(StorageError::Serialize(e)),
    }
}

} // verus!
