//! HTTP status codes.

use vstd::prelude::*;

verus! {

/// Whether `code` is a three-digit number, the only shape a status code can have.
pub open spec fn is_status_code(code: int) -> bool {
    100 <= code <= 999
}

/// Whether `code` lies in the client-error class, 400 to 499.
pub open spec fn in_client_error_class(code: int) -> bool {
    400 <= code < 500
}

/// Whether `code` lies in the server-error class, 500 to 599.
pub open spec fn in_server_error_class(code: int) -> bool {
    500 <= code < 600
}

/// An HTTP status code: a number from 100 to 999.
#[derive(Clone, Copy, Debug, PartialEq, Eq, Structural, Hash)]
pub struct StatusCode {
    code: u16,
}

impl View for StatusCode {
    type V = int;

    closed spec fn view(&self) -> int {
        self.code as int
    }
}

impl StatusCode {
    #[verifier::type_invariant]
    spec fn in_range(self) -> bool {
        is_status_code(self.code as int)
    }

    /// The status code with the number `code`, if `code` has three digits.
    pub fn from_u16(code: u16) -> (r: Option<StatusCode>)
        ensures
            r is Some <==> is_status_code(code as int),
            r matches Some(status) ==> status@ == code,
    {
        if 100 <= code && code <= 999 {
            Some(StatusCode { code })
        } else {
            None
        }
    }

    /// The number of this status code.
    pub fn as_u16(&self) -> (code: u16)
        ensures
            code == self@,
            is_status_code(code as int),
    {
        proof {
            use_type_invariant(self);
        }
        self.code
    }

    /// Whether this status reports a mistake of the client.
    pub fn is_client_error(&self) -> (r: bool)
        ensures
            r == in_client_error_class(self@),
    {
        400 <= self.code && self.code < 500
    }

    /// Whether this status reports a failure of the server.
    pub fn is_server_error(&self) -> (r: bool)
        ensures
            r == in_server_error_class(self@),
    {
        500 <= self.code && self.code < 600
    }
}

/// Two status codes with the same number are the same status code.
pub proof fn lemma_status_code_by_number(a: StatusCode, b: StatusCode)
    requires
        a@ == b@,
    ensures
        a == b,
{
}

} // verus!
