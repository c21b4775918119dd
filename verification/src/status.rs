//! Reply status codes.

use vstd::prelude::*;

verus! {

/// The code that marks a reply as a success.
pub const OK: u16 = 200;

/// The decimal digit for `n`, for `n` from zero to nine.
pub open spec fn digit(n: int) -> char {
    if n == 0 {
        '0'
    } else if n == 1 {
        '1'
    } else if n == 2 {
        '2'
    } else if n == 3 {
        '3'
    } else if n == 4 {
        '4'
    } else if n == 5 {
        '5'
    } else if n == 6 {
        '6'
    } else if n == 7 {
        '7'
    } else if n == 8 {
        '8'
    } else {
        '9'
    }
}

/// The three digits of a status code, highest first.
pub open spec fn digits(code: u16) -> Seq<char> {
    seq![digit(code as int / 100), digit(code as int / 10 % 10), digit(code as int % 10)]
}

/// The line that `reqwest::StatusCode` prints for a code: the number, a
/// space, and the reason phrase it has for the code, or a fixed placeholder
/// where it has none.
pub uninterp spec fn status_line(code: u16) -> Seq<char>;

/// The status code of a reply: three digits, as `reqwest::StatusCode` holds it.
#[derive(Clone, Copy, Debug, PartialEq, Eq)]
pub struct Status {
    code: u16,
}

impl Status {
    #[verifier::type_invariant]
    spec fn three_digits(self) -> bool {
        100 <= self.code <= 999
    }

    /// The number this status stands for.
    pub closed spec fn code(self) -> u16 {
        self.code
    }

    /// The status for `code`, where `code` has three digits.
    pub fn from_u16(code: u16) -> (status: Option<Status>)
        ensures
            status is Some <==> 100 <= code <= 999,
            status matches Some(s) ==> s.code() == code,
    {
        if 100 <= code && code <= 999 {
            Some(Status { code })
        } else {
            None
        }
    }

    /// The number this status stands for.
    pub fn as_u16(&self) -> (code: u16)
        ensures
            code == self.code(),
            100 <= code <= 999,
    {
        proof {
            use_type_invariant(self);
        }
        self.code
    }

    /// Whether this is the one status under which a reply's body counts.
    pub fn is_ok(&self) -> (ok: bool)
        ensures
            ok == (self.code() == OK),
    {
        self.code == OK
    }

    /// The status as text, for example `500 Internal Server Error`: its
    /// three digits, a space, and a reason.
    pub fn describe(&self) -> (line: String)
        ensures
            line@ == status_line(self.code()),
            digits(self.code()).push(' ').is_prefix_of(line@),
    {
        proof {
            use_type_invariant(self);
        }
        print_status(self.code)
    }
}

/// Prints `code` as `reqwest::StatusCode` does, which is the `StatusCode` of
/// the `http` crate: `StatusCode::from_u16` takes the code, and accepts
/// exactly those from 100 to 999; its `Display` impl writes the number in
/// decimal, a space, and the canonical reason phrase of the code, or
/// `<unknown status code>` where it has none.
///
/// Taken on trust: that the text depends on the code alone, and that it
/// starts with the code's three digits and a space.
#[verifier::external_body]
fn print_status(code: u16) -> (line: String)
    requires
        100 <= code <= 999,
    ensures
        line@ == status_line(code),
        digits(code).push(' ').is_prefix_of(line@),
{
    reqwest::StatusCode::from_u16(code).unwrap().to_string()
}

} // verus!
