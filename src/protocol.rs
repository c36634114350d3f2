//! The messages of the `Validate` service and the wire form of a verdict.
use vstd::prelude::*;

verus! {

/// The verdict on a user agent.
#[derive(Clone, Copy, Debug, PartialEq, Eq, Structural)]
pub enum Validity {
    Unknown,
    Valid,
    Invalid,
}

/// The integer that stands for a verdict on the wire.
pub open spec fn wire_value(v: Validity) -> i32 {
    match v {
        Validity::Unknown => 0,
        Validity::Valid => 1,
        Validity::Invalid => 2,
    }
}

/// The verdict that a wire integer stands for, if it stands for one.
pub open spec fn validity_on_wire(n: i32) -> Option<Validity> {
    if n == 0 {
        Some(Validity::Unknown)
    } else if n == 1 {
        Some(Validity::Valid)
    } else if n == 2 {
        Some(Validity::Invalid)
    } else {
        None
    }
}

impl Validity {
    /// The wire integer of this verdict.
    pub fn to_i32(self) -> (r: i32)
        ensures
            r == wire_value(self),
    {
        match self {
            Validity::Unknown => 0,
            Validity::Valid => 1,
            Validity::Invalid => 2,
        }
    }

    /// Decodes a wire integer; `None` for any value outside the three
    /// defined ones.
    pub fn from_i32(value: i32) -> (r: Option<Validity>)
        ensures
            r == validity_on_wire(value),
    {
        match value {
            0 => Some(Validity::Unknown),
            1 => Some(Validity::Valid),
            2 => Some(Validity::Invalid),
            _ => None,
        }
    }

    /// The name of the verdict as it is printed.
    pub fn as_str_name(&self) -> (r: &'static str)
        ensures
            r@ == validity_name(*self),
    {
        match self {
            Validity::Unknown => "Unknown",
            Validity::Valid => "Valid",
            Validity::Invalid => "Invalid",
        }
    }
}

/// The printed name of a verdict.
pub open spec fn validity_name(v: Validity) -> Seq<char> {
    match v {
        Validity::Unknown => "Unknown"@,
        Validity::Valid => "Valid"@,
        Validity::Invalid => "Invalid"@,
    }
}

impl From<Validity> for i32 {
    fn from(v: Validity) -> (r: i32) {
        v.to_i32()
    }
}

impl vstd::std_specs::convert::FromSpecImpl<Validity> for i32 {
    open spec fn obeys_from_spec() -> bool {
        true
    }

    open spec fn from_spec(v: Validity) -> i32 {
        wire_value(v)
    }
}

/// Encoding a verdict and decoding the integer gives the verdict back, and
/// an integer outside the three defined values decodes to nothing.
pub proof fn lemma_wire_round_trip(v: Validity, n: i32)
    ensures
        validity_on_wire(wire_value(v)) == Some(v),
        validity_on_wire(n) is Some <==> (0 <= n <= 2),
        validity_on_wire(n) matches Some(w) ==> wire_value(w) == n,
{
}

/// A request to the service: one user-agent string, which may be empty.
#[derive(Clone, Debug, PartialEq, Eq)]
pub struct ValidateUserAgentRequest {
    pub user_agent: String,
}

/// The service's answer: one verdict in its wire form.
#[derive(Clone, Copy, Debug, PartialEq, Eq, Structural)]
pub struct ValidateUserAgentResponse {
    pub validity: i32,
}

} // verus!
