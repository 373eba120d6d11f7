use dns_header::{DecodeError, OpCode, QueryOrReply, ResponseCode};

#[test]
fn query_or_reply_from_assigned_values() {
    assert_eq!(QueryOrReply::try_from(0u8), Ok(QueryOrReply::Query));
    assert_eq!(QueryOrReply::try_from(1u8), Ok(QueryOrReply::Reply));
}

#[test]
fn query_or_reply_rejects_everything_else() {
    for v in 2u8..=255 {
        assert_eq!(QueryOrReply::try_from(v), Err(DecodeError::InvalidQr));
    }
}

#[test]
fn op_code_from_assigned_values() {
    assert_eq!(OpCode::try_from(0u8), Ok(OpCode::Query));
    assert_eq!(OpCode::try_from(1u8), Ok(OpCode::IQuery));
    assert_eq!(OpCode::try_from(2u8), Ok(OpCode::Status));
}

#[test]
fn op_code_rejects_everything_else() {
    assert_eq!(OpCode::try_from(3u8), Err(DecodeError::InvalidOpCode));
    assert_eq!(OpCode::try_from(15u8), Err(DecodeError::InvalidOpCode));
    for v in 3u8..=255 {
        assert_eq!(OpCode::try_from(v), Err(DecodeError::InvalidOpCode));
    }
}

#[test]
fn response_code_from_assigned_values() {
    assert_eq!(ResponseCode::try_from(0u8), Ok(ResponseCode::NoError));
    assert_eq!(ResponseCode::try_from(1u8), Ok(ResponseCode::FormError));
    assert_eq!(ResponseCode::try_from(2u8), Ok(ResponseCode::ServFail));
    assert_eq!(ResponseCode::try_from(3u8), Ok(ResponseCode::NxDomain));
}

#[test]
fn response_code_rejects_everything_else() {
    assert_eq!(ResponseCode::try_from(4u8), Err(DecodeError::InvalidResponseCode));
    assert_eq!(ResponseCode::try_from(15u8), Err(DecodeError::InvalidResponseCode));
    for v in 4u8..=255 {
        assert_eq!(ResponseCode::try_from(v), Err(DecodeError::InvalidResponseCode));
    }
}

#[test]
fn codes_are_the_wire_numbers() {
    assert_eq!(QueryOrReply::Query.code(), 0);
    assert_eq!(QueryOrReply::Reply.code(), 1);
    assert_eq!(OpCode::Query.code(), 0);
    assert_eq!(OpCode::IQuery.code(), 1);
    assert_eq!(OpCode::Status.code(), 2);
    assert_eq!(ResponseCode::NoError.code(), 0);
    assert_eq!(ResponseCode::FormError.code(), 1);
    assert_eq!(ResponseCode::ServFail.code(), 2);
    assert_eq!(ResponseCode::NxDomain.code(), 3);
}

#[test]
fn try_from_inverts_code() {
    for qr in [QueryOrReply::Query, QueryOrReply::Reply] {
        assert_eq!(QueryOrReply::try_from(qr.code()), Ok(qr));
    }
    for op in [OpCode::Query, OpCode::IQuery, OpCode::Status] {
        assert_eq!(OpCode::try_from(op.code()), Ok(op));
    }
    for rc in [
        ResponseCode::NoError,
        ResponseCode::FormError,
        ResponseCode::ServFail,
        ResponseCode::NxDomain,
    ] {
        assert_eq!(ResponseCode::try_from(rc.code()), Ok(rc));
    }
}

#[test]
fn try_into_goes_through_the_same_conversion() {
    let op: Result<OpCode, DecodeError> = 2u8.try_into();
    assert_eq!(op, Ok(OpCode::Status));
    let rc: Result<ResponseCode, DecodeError> = 9u8.try_into();
    assert_eq!(rc, Err(DecodeError::InvalidResponseCode));
}

#[test]
fn the_four_errors_are_distinct() {
    let all = [
        DecodeError::BadLength,
        DecodeError::InvalidOpCode,
        DecodeError::InvalidResponseCode,
        DecodeError::InvalidQr,
    ];
    for (i, a) in all.iter().enumerate() {
        for (j, b) in all.iter().enumerate() {
            assert_eq!(a == b, i == j);
        }
    }
}
