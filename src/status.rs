//! Status codes: a three-digit number, and the reason phrase that `http`
//! registers for it.
use vstd::prelude::*;

verus! {

/// An HTTP status code, from 100 to 999.
#[derive(Clone, Copy, Debug, PartialEq, Eq)]
pub struct StatusCode {
    code: u16,
}

impl StatusCode {
    #[verifier::type_invariant]
    spec fn in_range(self) -> bool {
        100 <= self.code <= 999
    }

    /// The numeric code.
    pub closed spec fn value(self) -> u16 {
        self.code
    }

    /// The status code with this number, if it has three digits.
    pub fn from_u16(code: u16) -> (r: Option<StatusCode>)
        ensures
            r is Some <==> 100 <= code <= 999,
            r is Some ==> r->0.value() == code,
    {
        if 100 <= code && code <= 999 {
            Some(StatusCode { code })
        } else {
            None
        }
    }

    pub fn as_u16(&self) -> (r: u16)
        ensures
            r == self.value(),
            100 <= r <= 999,
    {
        proof {
            use_type_invariant(self);
        }
        self.code
    }
}

/// The three ASCII digits of a code from 100 to 999.
pub open spec fn code_digits(code: u16) -> Seq<u8> {
    seq![(48 + code / 100) as u8, (48 + (code / 10) % 10) as u8, (48 + code % 10) as u8]
}

/// The reason phrase that `http` registers for a code, if any.
pub uninterp spec fn reason_of(code: u16) -> Option<Seq<char>>;

/// Relies on `http::StatusCode::canonical_reason`: the reason phrase of the
/// code's table entry, or `None` for a code that has none. It depends on the
/// code alone.
#[verifier::external_body]
pub(crate) fn canonical_reason(code: u16) -> (r: Option<&'static str>)
    requires
        100 <= code <= 999,
    ensures
        match r {
            Some(s) => reason_of(code) == Some(s@),
            None => reason_of(code) is None,
        },
{
    match http::StatusCode::from_u16(code) {
        Ok(c) => c.canonical_reason(),
        Err(_) => None,
    }
}

} // verus!
