//! The value every call returns.

use crate::failure::Failure;
use crate::status::digits;
use vstd::prelude::*;

verus! {

/// What goes before the description in the message of a failed call.
pub const ERROR_PREFIX: &'static str = "Error: ";

/// The subtitle that marks a response as the report of a failure.
pub const ERROR_SUBTITLE: &'static str = "error";

/// A phrase from the service, or the report of a failed call in its place.
#[derive(Debug, PartialEq, Eq)]
pub struct ApiResponse {
    pub message: String,
    pub subtitle: String,
}

/// The text of an [`ApiResponse`].
pub struct Phrase {
    pub message: Seq<char>,
    pub subtitle: Seq<char>,
}

impl View for ApiResponse {
    type V = Phrase;

    open spec fn view(&self) -> Phrase {
        Phrase { message: self.message@, subtitle: self.subtitle@ }
    }
}

/// The report of a failure with the given description.
pub open spec fn error_phrase(description: Seq<char>) -> Phrase {
    Phrase { message: ERROR_PREFIX@ + description, subtitle: ERROR_SUBTITLE@ }
}

/// What the caller of a route is handed for the outcome of its request.
pub open spec fn message_of(response: Result<ApiResponse, Failure>) -> Phrase {
    match response {
        Ok(data) => data@,
        Err(failure) => error_phrase(failure.description()),
    }
}

/// Makes the report of a failure from its description: `Error: ` and the
/// description, under the subtitle `error`.
pub fn report(description: &str) -> (out: ApiResponse)
    ensures
        out@ == error_phrase(description@),
{
    ApiResponse {
        message: String::from_str(ERROR_PREFIX).concat(description),
        subtitle: String::from_str(ERROR_SUBTITLE),
    }
}

/// Turns the outcome of a request into the response the caller sees: the
/// decoded reply itself, or the report of the failure. The report of a
/// reply's status shows the status code.
pub fn get_message(response: Result<ApiResponse, Failure>) -> (out: ApiResponse)
    ensures
        out@ == message_of(response),
        response matches Ok(data) ==> out == data,
        response matches Err(Failure::Status(status)) ==> (ERROR_PREFIX@ + digits(
            status.code(),
        ).push(' ')).is_prefix_of(out@.message),
{
    match response {
        Ok(data) => data,
        Err(failure) => {
            let description = failure.describe();
            report(description.as_str())
        },
    }
}

} // verus!
