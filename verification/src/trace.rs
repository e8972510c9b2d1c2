//! Writing a trace as JSON text.

use crate::encode::Encode;
use crate::json::{error_message, held_by, message_of, write_text, written_of};
use vstd::prelude::*;

verus! {

/// Why a document could not be written as text.
#[derive(Clone, Debug)]
pub struct EncodeError {
    /// What the writer said.
    pub message: String,
}

/// What an outcome of writing holds: the text, or the message of the error.
pub open spec fn outcome_of(text: Result<String, EncodeError>) -> Result<Seq<char>, Seq<char>> {
    match text {
        Ok(written) => Ok(written@),
        Err(refused) => Err(refused.message@),
    }
}

/// A configuration that is handed to the renderer as JSON text.
pub trait Trace: Encode {
    /// Writes the trace as compact JSON text: the text that the writer gives
    /// for the trace's document, and an error exactly where the writer
    /// refuses that document, with the writer's message.
    fn to_json(&self) -> (text: Result<String, EncodeError>)
        ensures
            outcome_of(text) == written_of(self.json()),
    ;
}

/// What is returned for an outcome of the writer: the text as it is, or the
/// writer's message as the library's error.
pub fn text_or_error(outcome: Result<String, serde_json::Error>) -> (text: Result<
    String,
    EncodeError,
>)
    ensures
        outcome matches Ok(written) ==> text == Ok::<String, EncodeError>(written),
        outcome matches Err(error) ==> text matches Err(refused) && refused.message@ == message_of(
            error,
        ),
        outcome_of(text) == held_by(outcome),
{
    match outcome {
        Ok(written) => Ok(written),
        Err(error) => Err(EncodeError { message: error_message(&error) }),
    }
}

/// Builds the document of a value and writes it as compact JSON text: the
/// text that the writer gives for the document, and an error exactly where
/// the writer refuses the document, with the writer's message.
pub fn to_json<T: Encode>(item: &T) -> (text: Result<String, EncodeError>)
    ensures
        outcome_of(text) == written_of(item.json()),
{
    let value = item.to_value();
    text_or_error(write_text(&value))
}

} // verus!
