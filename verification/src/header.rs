//! The 12-byte header: transaction id, flags word and four section counts,
//! each a 16-bit field in network byte order.

use crate::error::DecodeError;
use crate::flags::{
    decode_flags, encode_flags, op_code_field, reserved_field, response_code_field,
    without_reserved, HeaderFlags,
};
use crate::lemmas::{
    lemma_bytes_round_trip, lemma_bytes_round_trip_up_to_reserved, lemma_header_round_trip,
};
use crate::wire::{be_u16, hi_byte, lo_byte, u16_from_be, u16_to_be};
use vstd::prelude::*;

verus! {

/// Length of a header on the wire, in bytes.
pub const HEADER_LEN: usize = 12;

/// A decoded header. The id is opaque to the codec; the counts give the
/// sizes of the sections that follow the header and are carried as they are.
#[derive(Debug, Clone, Copy, PartialEq, Eq, Structural)]
pub struct Header {
    pub id: u16,
    pub header_flags: HeaderFlags,
    pub question_count: u16,
    pub answer_record_count: u16,
    pub authority_record_count: u16,
    pub additional_record_count: u16,
}

/// What a buffer stands for as a header: `BadLength` unless it holds exactly
/// twelve bytes, else the error of its flags word if that has one, else the
/// header whose fields are read off bytes 0 to 11 in order.
pub open spec fn decode_header(bytes: Seq<u8>) -> Result<Header, DecodeError> {
    if bytes.len() != 12 {
        Err(DecodeError::BadLength)
    } else {
        match decode_flags(bytes[2], bytes[3]) {
            Err(e) => Err(e),
            Ok(header_flags) => Ok(
                Header {
                    id: be_u16(bytes[0], bytes[1]),
                    header_flags,
                    question_count: be_u16(bytes[4], bytes[5]),
                    answer_record_count: be_u16(bytes[6], bytes[7]),
                    authority_record_count: be_u16(bytes[8], bytes[9]),
                    additional_record_count: be_u16(bytes[10], bytes[11]),
                },
            ),
        }
    }
}

/// The twelve bytes that stand for `header`.
pub open spec fn encode_header(header: Header) -> Seq<u8> {
    seq![
        hi_byte(header.id),
        lo_byte(header.id),
        encode_flags(header.header_flags).0,
        encode_flags(header.header_flags).1,
        hi_byte(header.question_count),
        lo_byte(header.question_count),
        hi_byte(header.answer_record_count),
        lo_byte(header.answer_record_count),
        hi_byte(header.authority_record_count),
        lo_byte(header.authority_record_count),
        hi_byte(header.additional_record_count),
        lo_byte(header.additional_record_count),
    ]
}

impl Header {
    /// Decodes the flags word of a header buffer, which is its bytes 2 and 3.
    /// Fails with `BadLength` exactly when the buffer is not twelve bytes
    /// long, and otherwise as [`HeaderFlags::from_bytes`] does.
    pub fn extract_flags(bytes: &[u8]) -> (r: Result<HeaderFlags, DecodeError>)
        ensures
            bytes@.len() == 12 ==> r == decode_flags(bytes@[2], bytes@[3]),
            r is Ok <==> bytes@.len() == 12 && op_code_field(bytes@[2]) <= 2
                && response_code_field(bytes@[3]) <= 3,
            r == Err::<HeaderFlags, DecodeError>(DecodeError::BadLength) <==> bytes@.len() != 12,
            r == Err::<HeaderFlags, DecodeError>(DecodeError::InvalidOpCode) <==> bytes@.len() == 12
                && op_code_field(bytes@[2]) > 2,
            r == Err::<HeaderFlags, DecodeError>(DecodeError::InvalidResponseCode) <==> bytes@.len()
                == 12 && op_code_field(bytes@[2]) <= 2 && response_code_field(bytes@[3]) > 3,
    {
        if bytes.len() != HEADER_LEN {
            return Err(DecodeError::BadLength);
        }
        HeaderFlags::from_bytes(bytes[2], bytes[3])
    }

    /// Decodes a header. Fails with `BadLength` exactly when the buffer is
    /// not twelve bytes long; a buffer of twelve bytes fails with
    /// `InvalidOpCode` exactly when its operation-code field is above 2, and
    /// with `InvalidResponseCode` exactly when the operation code is valid and
    /// its response-code field is above 3. On success, encoding the header
    /// gives the buffer back with the reserved field of byte 3 set to zero,
    /// and so the buffer itself where that field was zero.
    pub fn new(bytes: &[u8]) -> (r: Result<Header, DecodeError>)
        ensures
            r == decode_header(bytes@),
            r is Ok <==> bytes@.len() == 12 && op_code_field(bytes@[2]) <= 2
                && response_code_field(bytes@[3]) <= 3,
            r == Err::<Header, DecodeError>(DecodeError::BadLength) <==> bytes@.len() != 12,
            r == Err::<Header, DecodeError>(DecodeError::InvalidOpCode) <==> bytes@.len() == 12
                && op_code_field(bytes@[2]) > 2,
            r == Err::<Header, DecodeError>(DecodeError::InvalidResponseCode) <==> bytes@.len()
                == 12 && op_code_field(bytes@[2]) <= 2 && response_code_field(bytes@[3]) > 3,
            r matches Ok(h) ==> encode_header(h) == bytes@.update(3, without_reserved(bytes@[3])),
            r matches Ok(h) ==> (reserved_field(bytes@[3]) == 0 ==> encode_header(h) == bytes@),
    {
        if bytes.len() != HEADER_LEN {
            return Err(DecodeError::BadLength);
        }
        let id = u16_from_be(bytes[0], bytes[1]);
        let header_flags = match Self::extract_flags(bytes) {
            Ok(f) => f,
            Err(e) => {
                return Err(e);
            },
        };
        let question_count = u16_from_be(bytes[4], bytes[5]);
        let answer_record_count = u16_from_be(bytes[6], bytes[7]);
        let authority_record_count = u16_from_be(bytes[8], bytes[9]);
        let additional_record_count = u16_from_be(bytes[10], bytes[11]);
        let header = Header {
            id,
            header_flags,
            question_count,
            answer_record_count,
            authority_record_count,
            additional_record_count,
        };
        proof {
            lemma_bytes_round_trip_up_to_reserved(bytes@);
            if reserved_field(bytes@[3]) == 0 {
                lemma_bytes_round_trip(bytes@);
            }
        }
        Ok(header)
    }

    /// Encodes the header into its twelve bytes. Never fails, and decoding
    /// the bytes gives the header back.
    pub fn to_bytes(&self) -> (r: [u8; 12])
        ensures
            r@ == encode_header(*self),
            decode_header(r@) == Ok::<Header, DecodeError>(*self),
    {
        let (id_hi, id_lo) = u16_to_be(self.id);
        let (flags_hi, flags_lo) = self.header_flags.to_bytes();
        let (qd_hi, qd_lo) = u16_to_be(self.question_count);
        let (an_hi, an_lo) = u16_to_be(self.answer_record_count);
        let (ns_hi, ns_lo) = u16_to_be(self.authority_record_count);
        let (ar_hi, ar_lo) = u16_to_be(self.additional_record_count);
        let bytes: [u8; 12] = [
            id_hi,
            id_lo,
            flags_hi,
            flags_lo,
            qd_hi,
            qd_lo,
            an_hi,
            an_lo,
            ns_hi,
            ns_lo,
            ar_hi,
            ar_lo,
        ];
        proof {
            assert(bytes@ =~= encode_header(*self));
            lemma_header_round_trip(*self);
        }
        bytes
    }
}

} // verus!
