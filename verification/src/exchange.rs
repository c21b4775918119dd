//! What a call makes of the reply to its request.
//!
//! The caller sends the request. Where no reply comes, the call has failed
//! with [`Failure::Transport`]. Where one comes, [`check_status`] says
//! whether its body counts, and where it does, [`decoded`] takes how
//! decoding it ended. [`get_message`] turns what is left into the response
//! to show.
//!
//! [`get_message`]: crate::response::get_message

use crate::failure::Failure;
use crate::response::{error_phrase, message_of, ApiResponse, Phrase, ERROR_PREFIX, ERROR_SUBTITLE};
use crate::status::{Status, OK};
use vstd::prelude::*;

verus! {

/// Whether the body of a reply with this status is to be read: under `200`
/// it is, and any other status is the failure of the call.
pub open spec fn spec_check_status(status: Status) -> Result<(), Failure> {
    if status.code() == OK {
        Ok(())
    } else {
        Err(Failure::Status(status))
    }
}

/// What a call comes to once decoding the body has ended: the reply, or the
/// decoder's account of why there is none.
pub open spec fn spec_decoded(body: Result<ApiResponse, String>) -> Result<ApiResponse, Failure> {
    match body {
        Ok(reply) => Ok(reply),
        Err(reason) => Err(Failure::Decode(reason)),
    }
}

/// What a call comes to. `sent` is how sending ended: the status of the
/// reply, or the transport's account of why there is none. `body` is how
/// decoding the body ends; it counts only where the status lets it.
pub open spec fn outcome(
    sent: Result<Status, String>,
    body: Result<ApiResponse, String>,
) -> Result<ApiResponse, Failure> {
    match sent {
        Err(reason) => Err(Failure::Transport(reason)),
        Ok(status) => match spec_check_status(status) {
            Ok(()) => spec_decoded(body),
            Err(failure) => Err(failure),
        },
    }
}

/// Takes the status of a reply. `Ok` says to read and decode the body; an
/// error ends the call, and is its outcome.
pub fn check_status(status: Status) -> (go_on: Result<(), Failure>)
    ensures
        go_on == spec_check_status(status),
{
    if status.is_ok() {
        Ok(())
    } else {
        Err(Failure::Status(status))
    }
}

/// Takes how decoding the body ended, and gives the outcome of the call.
pub fn decoded(body: Result<ApiResponse, String>) -> (result: Result<ApiResponse, Failure>)
    ensures
        result == spec_decoded(body),
{
    match body {
        Ok(reply) => Ok(reply),
        Err(reason) => Err(Failure::Decode(reason)),
    }
}

/// A call shows a reply only where the status was `200` and the body
/// decoded, and then shows that reply whole. In every other case it shows
/// the report of a failure: `Error: ` and the failure's description, under
/// the subtitle `error`. Nothing in between is ever shown.
pub proof fn law_reply_or_report(sent: Result<Status, String>, body: Result<ApiResponse, String>)
    ensures
        outcome(sent, body) is Ok <==> (sent matches Ok(status) && status.code() == OK && body
            is Ok),
        outcome(sent, body) matches Ok(reply) ==> body == Ok::<ApiResponse, String>(reply)
            && message_of(outcome(sent, body)) == reply@,
        outcome(sent, body) matches Err(failure) ==> message_of(outcome(sent, body))
            == error_phrase(failure.description()),
        outcome(sent, body) is Err ==> message_of(outcome(sent, body)).subtitle
            == ERROR_SUBTITLE@,
        outcome(sent, body) is Err ==> ERROR_PREFIX@.is_prefix_of(
            message_of(outcome(sent, body)).message,
        ),
{
}

/// What a call shows has a message and a subtitle that are not empty and
/// are those of the decoded reply, or has the subtitle `error`. A reply
/// that decodes with an empty field, and is no error report itself, is
/// left out: it is shown as it came.
pub proof fn law_phrase_or_error(sent: Result<Status, String>, body: Result<ApiResponse, String>)
    requires
        outcome(sent, body) matches Ok(reply) ==> (reply@.message.len() > 0
            && reply@.subtitle.len() > 0) || reply@.subtitle == ERROR_SUBTITLE@,
    ensures
        ({
            let shown = message_of(outcome(sent, body));
            ||| (body matches Ok(reply) && shown == reply@ && shown.message.len() > 0
                && shown.subtitle.len() > 0)
            ||| shown.subtitle == ERROR_SUBTITLE@
        }),
{
}

/// What each of several calls shows: the `i`-th entry is made from the
/// `i`-th outcome.
pub open spec fn shown_each(outcomes: Seq<Result<ApiResponse, Failure>>) -> Seq<Phrase> {
    outcomes.map_values(|outcome: Result<ApiResponse, Failure>| message_of(outcome))
}

/// Calls do not mix: among any number of calls, what one of them shows
/// depends on its own outcome and on nothing that the others came to.
pub proof fn law_calls_do_not_mix(
    these: Seq<Result<ApiResponse, Failure>>,
    those: Seq<Result<ApiResponse, Failure>>,
    i: int,
    j: int,
)
    requires
        0 <= i < these.len(),
        0 <= j < those.len(),
        these[i] == those[j],
    ensures
        shown_each(these).len() == these.len(),
        shown_each(these)[i] == message_of(these[i]),
        shown_each(these)[i] == shown_each(those)[j],
{
}

} // verus!
