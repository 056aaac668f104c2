//! The decisions of one evaluation request: binding the input document
//! before the script runs, and turning the engine's outcome into a document
//! or an error message afterwards. Running the script is left to the caller,
//! which hands the outcome back.

use crate::convert::{inbound, outbound, rhai_dynamic_to_json, rhai_json_to_dynamic};
use crate::model::{Document, EngineValue};
use vstd::prelude::*;
use vstd::string::StringExecFns;

verus! {

/// The name under which the input document is visible to the script.
pub const REQUEST_VARIABLE: &'static str = "request";

/// The optional input document of a request, as the document decoder
/// delivered it.
#[derive(Debug)]
pub enum RequestInput {
    /// No input was supplied.
    Absent,
    /// The input text decoded to this document.
    Decoded(Document),
    /// The input text did not decode; the decoder's diagnostic.
    Malformed(String),
}

/// The message reported when the input text is not a valid document.
pub open spec fn input_error_message(diagnostic: Seq<char>) -> Seq<char> {
    "Error parsing JSON input: "@ + diagnostic
}

/// The message reported when the script fails to parse or to run.
pub open spec fn evaluation_error_message(diagnostic: Seq<char>) -> Seq<char> {
    "Error: "@ + diagnostic
}

/// Prepares the scope of a request: no binding without input, the converted
/// document when the input decoded, and the input error, before any script
/// runs, when it did not.
pub fn bind_request(input: RequestInput) -> (r: Result<Option<EngineValue>, String>)
    ensures
        input is Absent ==> r == Ok::<Option<EngineValue>, String>(None),
        input is Decoded ==> r is Ok && r->Ok_0 is Some && inbound(input->Decoded_0, r->Ok_0->Some_0),
        input is Malformed ==> r is Err && r->Err_0@ == input_error_message(input->Malformed_0@),
{
    match input {
        RequestInput::Absent => Ok(None),
        RequestInput::Decoded(document) => Ok(Some(rhai_json_to_dynamic(&document))),
        RequestInput::Malformed(diagnostic) => Err(
            String::from_str("Error parsing JSON input: ").concat(diagnostic.as_str()),
        ),
    }
}

/// Concludes a request from the engine's outcome: a result value becomes a
/// document, a script failure becomes the evaluation error.
pub fn finish_request(outcome: Result<EngineValue, String>) -> (r: Result<Document, String>)
    ensures
        outcome is Ok ==> r is Ok && outbound(outcome->Ok_0, r->Ok_0),
        outcome is Err ==> r is Err && r->Err_0@ == evaluation_error_message(outcome->Err_0@),
{
    match outcome {
        Ok(value) => match rhai_dynamic_to_json(&value) {
            Ok(document) => Ok(document),
            Err(diagnostic) => Err(
                String::from_str("Error converting to JSON: ").concat(diagnostic.as_str()),
            ),
        },
        Err(diagnostic) => Err(evaluation_error(diagnostic.as_str())),
    }
}

/// The evaluation error for the engine's diagnostic.
pub fn evaluation_error(diagnostic: &str) -> (r: String)
    ensures
        r@ == evaluation_error_message(diagnostic@),
{
    String::from_str("Error: ").concat(diagnostic)
}

/// The text handed back to the host: the encoded result on success, the
/// error message otherwise.
pub fn response_text(outcome: Result<String, String>) -> (r: String)
    ensures
        outcome is Ok ==> r == outcome->Ok_0,
        outcome is Err ==> r == outcome->Err_0,
{
    match outcome {
        Ok(result) => result,
        Err(message) => message,
    }
}

/// The version string of the library.
pub fn get_version() -> (r: String)
    ensures
        r@ == "v0.2.0-debug"@,
{
    String::from_str("v0.2.0-debug")
}

} // verus!
