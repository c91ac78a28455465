//! Validated HTTP status codes.

use vstd::prelude::*;

verus! {

/// An HTTP status code validated to lie in the legal numeric range 100-999.
#[derive(Clone, Copy, Debug, PartialEq, Eq, Structural)]
pub struct StatusCode {
    code: u16,
}

impl StatusCode {
    /// The legal numeric range of an HTTP status code.
    pub open spec fn valid_code(code: u16) -> bool {
        100 <= code <= 999
    }

    /// The numeric value of this status code.
    pub closed spec fn spec_as_u16(&self) -> u16 {
        self.code
    }

    /// Every value of this type holds a legal code: `from_u16` is the only
    /// constructor.
    pub closed spec fn wf(&self) -> bool {
        Self::valid_code(self.code)
    }

    /// Validates a numeric code, accepting exactly the legal range 100-999.
    pub fn from_u16(code: u16) -> (r: Option<StatusCode>)
        ensures
            r is Some <==> Self::valid_code(code),
            r matches Some(s) ==> s.spec_as_u16() == code && s.wf(),
    {
        if 100 <= code && code <= 999 {
            Some(StatusCode { code })
        } else {
            None
        }
    }

    /// The numeric value of this status code.
    pub fn as_u16(&self) -> (r: u16)
        ensures
            r == self.spec_as_u16(),
    {
        self.code
    }
}

} // verus!
