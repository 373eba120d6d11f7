//! What holds of the header codec as a whole: the two round trips, the part
//! that the length plays, and that each flag bit stands alone.

use crate::error::DecodeError;
use crate::flags::{
    lemma_flags_round_trip, lemma_flag_bytes_round_trip, op_code_field, reserved_field,
    response_code_field, without_reserved, HeaderFlags,
};
use crate::header::{decode_header, encode_header, Header};
use crate::wire::{lemma_be_u16_bytes, lemma_be_u16_inverse};
use vstd::prelude::*;

verus! {

/// Decoding inverts encoding: every header comes back from its twelve bytes.
pub proof fn lemma_header_round_trip(header: Header)
    ensures
        encode_header(header).len() == 12,
        decode_header(encode_header(header)) == Ok::<Header, DecodeError>(header),
{
    lemma_flags_round_trip(header.header_flags);
    lemma_be_u16_inverse(header.id);
    lemma_be_u16_inverse(header.question_count);
    lemma_be_u16_inverse(header.answer_record_count);
    lemma_be_u16_inverse(header.authority_record_count);
    lemma_be_u16_inverse(header.additional_record_count);
}

/// Encoding inverts decoding up to the reserved field: a buffer that decodes
/// comes back from its header with the reserved field of byte 3 set to zero.
pub proof fn lemma_bytes_round_trip_up_to_reserved(bytes: Seq<u8>)
    ensures
        decode_header(bytes) matches Ok(h) ==> encode_header(h) == bytes.update(
            3,
            without_reserved(bytes[3]),
        ),
{
    if let Ok(h) = decode_header(bytes) {
        lemma_flag_bytes_round_trip(bytes[2], bytes[3]);
        lemma_be_u16_bytes(bytes[0], bytes[1]);
        lemma_be_u16_bytes(bytes[4], bytes[5]);
        lemma_be_u16_bytes(bytes[6], bytes[7]);
        lemma_be_u16_bytes(bytes[8], bytes[9]);
        lemma_be_u16_bytes(bytes[10], bytes[11]);
        assert(encode_header(h) =~= bytes.update(3, without_reserved(bytes[3])));
    }
}

/// Encoding inverts decoding: a buffer of twelve bytes whose operation code
/// and response code are assigned values and whose reserved field is zero
/// decodes, and its header encodes to the very same bytes.
pub proof fn lemma_bytes_round_trip(bytes: Seq<u8>)
    requires
        bytes.len() == 12,
        op_code_field(bytes[2]) <= 2,
        response_code_field(bytes[3]) <= 3,
        reserved_field(bytes[3]) == 0,
    ensures
        decode_header(bytes) is Ok,
        encode_header(decode_header(bytes)->Ok_0) == bytes,
{
    lemma_bytes_round_trip_up_to_reserved(bytes);
    let byte3 = bytes[3];
    assert(byte3 / 128 * 128 + byte3 % 16 == byte3) by (bit_vector)
        requires
            (byte3 / 16) % 8 == 0,
    ;
    assert(bytes.update(3, without_reserved(byte3)) =~= bytes);
}

/// The length alone decides whether decoding fails with `BadLength`: a
/// buffer of any other length than twelve does, one of twelve bytes never.
pub proof fn lemma_length_decides(bytes: Seq<u8>)
    ensures
        decode_header(bytes) == Err::<Header, DecodeError>(DecodeError::BadLength) <==> bytes.len()
            != 12,
{
}

/// A buffer of twelve bytes decodes exactly when its operation code and its
/// response code are assigned values; the operation code is judged first, and
/// the direction, being one bit, is never at fault.
pub proof fn lemma_decode_outcome(bytes: Seq<u8>)
    requires
        bytes.len() == 12,
    ensures
        decode_header(bytes) is Ok <==> op_code_field(bytes[2]) <= 2 && response_code_field(
            bytes[3],
        ) <= 3,
        decode_header(bytes) == Err::<Header, DecodeError>(DecodeError::InvalidOpCode)
            <==> op_code_field(bytes[2]) > 2,
        decode_header(bytes) == Err::<Header, DecodeError>(DecodeError::InvalidResponseCode)
            <==> op_code_field(bytes[2]) <= 2 && response_code_field(bytes[3]) > 3,
        decode_header(bytes) != Err::<Header, DecodeError>(DecodeError::InvalidQr),
{
    let byte2 = bytes[2];
    assert(byte2 / 128 <= 1) by (bit_vector);
}

/// The result `r` with `f` applied to the flags of its header, if it has one.
pub open spec fn map_flags(
    r: Result<Header, DecodeError>,
    f: spec_fn(HeaderFlags) -> HeaderFlags,
) -> Result<Header, DecodeError> {
    match r {
        Ok(h) => Ok(Header { header_flags: f(h.header_flags), ..h }),
        Err(e) => Err(e),
    }
}

/// Each flag bit stands alone: flipping one of the four flag bits of a
/// buffer flips that flag of the decoded header and nothing else, so the id,
/// the counts, the enumerated fields and the other three flags stay, and a
/// buffer that is rejected stays rejected with the same error.
pub proof fn lemma_flag_isolation(bytes: Seq<u8>)
    requires
        bytes.len() == 12,
    ensures
        decode_header(bytes.update(2, bytes[2] ^ 0b0000_0100)) == map_flags(
            decode_header(bytes),
            |f: HeaderFlags| (HeaderFlags { authoritative_answer: !f.authoritative_answer, ..f }),
        ),
        decode_header(bytes.update(2, bytes[2] ^ 0b0000_0010)) == map_flags(
            decode_header(bytes),
            |f: HeaderFlags| (HeaderFlags { truncation: !f.truncation, ..f }),
        ),
        decode_header(bytes.update(2, bytes[2] ^ 0b0000_0001)) == map_flags(
            decode_header(bytes),
            |f: HeaderFlags| (HeaderFlags { recursion_desired: !f.recursion_desired, ..f }),
        ),
        decode_header(bytes.update(3, bytes[3] ^ 0b1000_0000)) == map_flags(
            decode_header(bytes),
            |f: HeaderFlags| (HeaderFlags { recursion_available: !f.recursion_available, ..f }),
        ),
{
    let b = bytes[2];
    let c = bytes[3];
    assert((b ^ 0b0000_0100) / 128 == b / 128 && ((b ^ 0b0000_0100) / 8) % 16 == (b / 8) % 16 && (((b
        ^ 0b0000_0100) / 4) % 2 == 1 <==> (b / 4) % 2 != 1) && ((b ^ 0b0000_0100) / 2) % 2 == (b
        / 2) % 2 && (b ^ 0b0000_0100) % 2 == b % 2) by (bit_vector);
    assert((b ^ 0b0000_0010) / 128 == b / 128 && ((b ^ 0b0000_0010) / 8) % 16 == (b / 8) % 16 && ((b
        ^ 0b0000_0010) / 4) % 2 == (b / 4) % 2 && (((b ^ 0b0000_0010) / 2) % 2 == 1 <==> (b / 2)
        % 2 != 1) && (b ^ 0b0000_0010) % 2 == b % 2) by (bit_vector);
    assert((b ^ 0b0000_0001) / 128 == b / 128 && ((b ^ 0b0000_0001) / 8) % 16 == (b / 8) % 16 && ((b
        ^ 0b0000_0001) / 4) % 2 == (b / 4) % 2 && ((b ^ 0b0000_0001) / 2) % 2 == (b / 2) % 2 && ((b
        ^ 0b0000_0001) % 2 == 1 <==> b % 2 != 1)) by (bit_vector);
    assert((c ^ 0b1000_0000) % 16 == c % 16 && ((c ^ 0b1000_0000) / 128 == 1 <==> c / 128 != 1))
        by (bit_vector);
}

} // verus!
