//! The ways a call can fail.

use crate::status::{digits, status_line, Status};
use vstd::prelude::*;

verus! {

/// Why a call has no decoded reply to show.
#[derive(Debug, PartialEq, Eq)]
pub enum Failure {
    /// The request was not answered: the transport's own account of why.
    Transport(String),
    /// A reply came with a status other than `200`.
    Status(Status),
    /// The body of a `200` reply was not the expected JSON object: the
    /// decoder's own account of why.
    Decode(String),
}

impl Failure {
    /// The failure in words, as it is shown to the caller.
    pub open spec fn description(self) -> Seq<char> {
        match self {
            Failure::Transport(reason) => reason@,
            Failure::Status(status) => status_line(status.code()),
            Failure::Decode(reason) => reason@,
        }
    }

    /// The failure in words. For a status, they start with its code.
    pub fn describe(&self) -> (text: String)
        ensures
            text@ == self.description(),
            self matches Failure::Status(status) ==> digits(status.code()).push(' ').is_prefix_of(
                text@,
            ),
    {
        match self {
            Failure::Transport(reason) => reason.clone(),
            Failure::Status(status) => status.describe(),
            Failure::Decode(reason) => reason.clone(),
        }
    }
}

} // verus!
