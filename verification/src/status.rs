//! HTTP status codes.

use vstd::prelude::*;
use vstd::utf8::encode_utf8;
use crate::text::DIGIT_ZERO;

verus! {

/// An HTTP status code: a number from 100 to 999. Its view is the number.
#[derive(Clone, Copy, Debug, PartialEq, Eq, Structural)]
pub struct Status {
    code: u16,
}

/// The numbers that are status codes.
pub open spec fn is_status(code: u16) -> bool {
    100 <= code <= 999
}

/// The ASCII digit for `n`, where `n` is less than ten.
pub open spec fn digit(n: int) -> u8 {
    (DIGIT_ZERO + n) as u8
}

/// The three decimal digits of a status code, as ASCII bytes.
pub open spec fn status_digits(code: u16) -> Seq<u8> {
    seq![digit(code as int / 100), digit((code as int / 10) % 10), digit(code as int % 10)]
}

impl View for Status {
    type V = u16;

    closed spec fn view(&self) -> u16 {
        self.code
    }
}

/// The decimal text of the status code `code`.
///
/// Calls `actix_web::http::StatusCode::from_u16` and then `as_str` on what it
/// gives. The contract is taken on trust from them: `from_u16` accepts every
/// number from 100 to 999, and `as_str` is the three decimal digits of the
/// code, in ASCII.
#[verifier::external_body]
fn status_str(code: u16) -> (text: String)
    requires
        is_status(code),
    ensures
        encode_utf8(text@) == status_digits(code),
{
    match actix_web::http::StatusCode::from_u16(code) {
        Ok(status) => status.as_str().to_owned(),
        Err(_) => String::new(),
    }
}

impl Status {
    /// What holds of every status: its code is a status code.
    #[verifier::type_invariant]
    pub open spec fn in_range(self) -> bool {
        is_status(self@)
    }

    /// The status with the given code, if it is one.
    pub fn new(code: u16) -> (status: Option<Status>)
        ensures
            status is Some <==> is_status(code),
            status is Some ==> status->0@ == code,
    {
        if 100 <= code && code <= 999 {
            Some(Status { code })
        } else {
            None
        }
    }

    /// 200 OK.
    pub fn ok() -> (status: Status)
        ensures
            status@ == 200,
    {
        Status { code: 200 }
    }

    /// 404 Not Found.
    pub fn not_found() -> (status: Status)
        ensures
            status@ == 404,
    {
        Status { code: 404 }
    }

    /// 500 Internal Server Error.
    pub fn internal_server_error() -> (status: Status)
        ensures
            status@ == 500,
    {
        Status { code: 500 }
    }

    /// The code as a number.
    pub fn code(&self) -> (code: u16)
        ensures
            code == self@,
            is_status(code),
    {
        proof {
            use_type_invariant(self);
        }
        self.code
    }

    /// The code as decimal text.
    pub fn as_text(&self) -> (text: String)
        ensures
            encode_utf8(text@) == status_digits(self@),
    {
        proof {
            use_type_invariant(self);
        }
        status_str(self.code)
    }
}

} // verus!
