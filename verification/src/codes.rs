//! The three enumerated subfields of the flags word, each with a total
//! projection to its number on the wire and a validating conversion back.
//!
//! The conversion back is `TryFrom<u8>`; what it returns is given by the
//! type's `spec_try_from`, which contracts elsewhere in the crate refer to.

use crate::error::DecodeError;
use vstd::prelude::*;

verus! {

/// Direction of a message.
#[derive(Debug, Clone, Copy, PartialEq, Eq, Structural)]
pub enum QueryOrReply {
    Query,
    Reply,
}

/// Kind of query. The values 3 to 15 are unassigned.
#[derive(Debug, Clone, Copy, PartialEq, Eq, Structural)]
pub enum OpCode {
    Query,
    IQuery,
    Status,
}

/// Outcome of a query. The values 4 to 15 are unassigned.
#[derive(Debug, Clone, Copy, PartialEq, Eq, Structural)]
pub enum ResponseCode {
    NoError,
    FormError,
    ServFail,
    NxDomain,
}

impl QueryOrReply {
    /// The direction whose number is `v`, or the error that says there is none.
    pub open spec fn spec_try_from(v: u8) -> Result<Self, DecodeError> {
        if v == 0 {
            Ok(QueryOrReply::Query)
        } else if v == 1 {
            Ok(QueryOrReply::Reply)
        } else {
            Err(DecodeError::InvalidQr)
        }
    }

    /// The number that stands for this direction on the wire.
    pub open spec fn spec_code(self) -> u8 {
        match self {
            QueryOrReply::Query => 0,
            QueryOrReply::Reply => 1,
        }
    }

    /// The number that stands for this direction on the wire. It fits in one
    /// bit, and converting it back gives this direction again.
    #[verifier::when_used_as_spec(spec_code)]
    pub fn code(self) -> (v: u8)
        ensures
            v == self.spec_code(),
            v <= 1,
            Self::spec_try_from(v) == Ok::<Self, DecodeError>(self),
    {
        match self {
            QueryOrReply::Query => 0,
            QueryOrReply::Reply => 1,
        }
    }
}

impl TryFrom<u8> for QueryOrReply {
    type Error = DecodeError;

    /// The direction whose number is `value`. Fails with `InvalidQr` exactly
    /// when `value` is greater than 1.
    fn try_from(value: u8) -> (r: Result<Self, DecodeError>)
        ensures
            r == Self::spec_try_from(value),
            value <= 1 ==> r is Ok,
            r matches Ok(c) ==> c.spec_code() == value,
            value > 1 ==> r == Err::<Self, DecodeError>(DecodeError::InvalidQr),
    {
        match value {
            0 => Ok(QueryOrReply::Query),
            1 => Ok(QueryOrReply::Reply),
            _ => Err(DecodeError::InvalidQr),
        }
    }
}

impl vstd::std_specs::convert::TryFromSpecImpl<u8> for QueryOrReply {
    open spec fn obeys_try_from_spec() -> bool {
        true
    }

    open spec fn try_from_spec(v: u8) -> Result<Self, DecodeError> {
        Self::spec_try_from(v)
    }
}

impl OpCode {
    /// The operation whose number is `v`, or the error that says there is none.
    pub open spec fn spec_try_from(v: u8) -> Result<Self, DecodeError> {
        if v == 0 {
            Ok(OpCode::Query)
        } else if v == 1 {
            Ok(OpCode::IQuery)
        } else if v == 2 {
            Ok(OpCode::Status)
        } else {
            Err(DecodeError::InvalidOpCode)
        }
    }

    /// The number that stands for this operation on the wire.
    pub open spec fn spec_code(self) -> u8 {
        match self {
            OpCode::Query => 0,
            OpCode::IQuery => 1,
            OpCode::Status => 2,
        }
    }

    /// The number that stands for this operation on the wire. It fits in
    /// four bits, and converting it back gives this operation again.
    #[verifier::when_used_as_spec(spec_code)]
    pub fn code(self) -> (v: u8)
        ensures
            v == self.spec_code(),
            v <= 2,
            Self::spec_try_from(v) == Ok::<Self, DecodeError>(self),
    {
        match self {
            OpCode::Query => 0,
            OpCode::IQuery => 1,
            OpCode::Status => 2,
        }
    }
}

impl TryFrom<u8> for OpCode {
    type Error = DecodeError;

    /// The operation whose number is `value`. Fails with `InvalidOpCode`
    /// exactly when `value` is greater than 2; nothing is clamped.
    fn try_from(value: u8) -> (r: Result<Self, DecodeError>)
        ensures
            r == Self::spec_try_from(value),
            value <= 2 ==> r is Ok,
            r matches Ok(c) ==> c.spec_code() == value,
            value > 2 ==> r == Err::<Self, DecodeError>(DecodeError::InvalidOpCode),
    {
        match value {
            0 => Ok(OpCode::Query),
            1 => Ok(OpCode::IQuery),
            2 => Ok(OpCode::Status),
            _ => Err(DecodeError::InvalidOpCode),
        }
    }
}

impl vstd::std_specs::convert::TryFromSpecImpl<u8> for OpCode {
    open spec fn obeys_try_from_spec() -> bool {
        true
    }

    open spec fn try_from_spec(v: u8) -> Result<Self, DecodeError> {
        Self::spec_try_from(v)
    }
}

impl ResponseCode {
    /// The outcome whose number is `v`, or the error that says there is none.
    pub open spec fn spec_try_from(v: u8) -> Result<Self, DecodeError> {
        if v == 0 {
            Ok(ResponseCode::NoError)
        } else if v == 1 {
            Ok(ResponseCode::FormError)
        } else if v == 2 {
            Ok(ResponseCode::ServFail)
        } else if v == 3 {
            Ok(ResponseCode::NxDomain)
        } else {
            Err(DecodeError::InvalidResponseCode)
        }
    }

    /// The number that stands for this outcome on the wire.
    pub open spec fn spec_code(self) -> u8 {
        match self {
            ResponseCode::NoError => 0,
            ResponseCode::FormError => 1,
            ResponseCode::ServFail => 2,
            ResponseCode::NxDomain => 3,
        }
    }

    /// The number that stands for this outcome on the wire. It fits in four
    /// bits, and converting it back gives this outcome again.
    #[verifier::when_used_as_spec(spec_code)]
    pub fn code(self) -> (v: u8)
        ensures
            v == self.spec_code(),
            v <= 3,
            Self::spec_try_from(v) == Ok::<Self, DecodeError>(self),
    {
        match self {
            ResponseCode::NoError => 0,
            ResponseCode::FormError => 1,
            ResponseCode::ServFail => 2,
            ResponseCode::NxDomain => 3,
        }
    }
}

impl TryFrom<u8> for ResponseCode {
    type Error = DecodeError;

    /// The outcome whose number is `value`. Fails with `InvalidResponseCode`
    /// exactly when `value` is greater than 3; nothing is clamped.
    fn try_from(value: u8) -> (r: Result<Self, DecodeError>)
        ensures
            r == Self::spec_try_from(value),
            value <= 3 ==> r is Ok,
            r matches Ok(c) ==> c.spec_code() == value,
            value > 3 ==> r == Err::<Self, DecodeError>(DecodeError::InvalidResponseCode),
    {
        match value {
            0 => Ok(ResponseCode::NoError),
            1 => Ok(ResponseCode::FormError),
            2 => Ok(ResponseCode::ServFail),
            3 => Ok(ResponseCode::NxDomain),
            _ => Err(DecodeError::InvalidResponseCode),
        }
    }
}

impl vstd::std_specs::convert::TryFromSpecImpl<u8> for ResponseCode {
    open spec fn obeys_try_from_spec() -> bool {
        true
    }

    open spec fn try_from_spec(v: u8) -> Result<Self, DecodeError> {
        Self::spec_try_from(v)
    }
}

} // verus!
