//! The answer to a received datagram: its header, echoed as a reply.
//!
//! Only the first twelve bytes of the datagram are read. Every field of the
//! header is sent back as it came, the counts included, but for the
//! direction, which becomes `Reply`, and the reserved field, which decoding
//! drops.

use crate::codes::QueryOrReply;
use crate::error::DecodeError;
use crate::flags::{
    lemma_flag_bytes_round_trip, op_code_field, response_code_field, without_reserved, HeaderFlags,
};
use crate::header::{decode_header, encode_header, Header, HEADER_LEN};
use vstd::prelude::*;
use vstd::slice::slice_subrange;

verus! {

/// The header with its direction set to `Reply` and nothing else changed.
pub open spec fn as_reply(header: Header) -> Header {
    Header {
        header_flags: HeaderFlags { qr: QueryOrReply::Reply, ..header.header_flags },
        ..header
    }
}

/// The bytes that answer `datagram`: `BadLength` if it is too short to hold
/// a header, else the error of its header if that does not decode, else the
/// encoding of its header as a reply.
pub open spec fn reply_to(datagram: Seq<u8>) -> Result<Seq<u8>, DecodeError> {
    if datagram.len() < 12 {
        Err(DecodeError::BadLength)
    } else {
        match decode_header(datagram.subrange(0, 12)) {
            Ok(h) => Ok(encode_header(as_reply(h))),
            Err(e) => Err(e),
        }
    }
}

/// Answers a datagram. Fails with `BadLength` exactly when the datagram has
/// fewer than twelve bytes, and otherwise exactly when its header does not
/// decode, with that error. On success the answer decodes to the header of
/// the datagram as a reply; it is the first twelve bytes of the datagram with
/// the top bit of byte 2 set and the reserved field of byte 3 zero.
pub fn respond(datagram: &[u8]) -> (r: Result<[u8; 12], DecodeError>)
    ensures
        match r {
            Ok(out) => reply_to(datagram@) == Ok::<Seq<u8>, DecodeError>(out@),
            Err(e) => reply_to(datagram@) == Err::<Seq<u8>, DecodeError>(e),
        },
        r is Ok <==> datagram@.len() >= 12 && op_code_field(datagram@[2]) <= 2
            && response_code_field(datagram@[3]) <= 3,
        r == Err::<[u8; 12], DecodeError>(DecodeError::BadLength) <==> datagram@.len() < 12,
        r == Err::<[u8; 12], DecodeError>(DecodeError::InvalidOpCode) <==> datagram@.len() >= 12
            && op_code_field(datagram@[2]) > 2,
        r == Err::<[u8; 12], DecodeError>(DecodeError::InvalidResponseCode) <==> datagram@.len()
            >= 12 && op_code_field(datagram@[2]) <= 2 && response_code_field(datagram@[3]) > 3,
        r matches Ok(out) ==> decode_header(out@) == Ok::<Header, DecodeError>(
            as_reply(decode_header(datagram@.subrange(0, 12))->Ok_0),
        ),
        r matches Ok(out) ==> out@ == datagram@.subrange(0, 12).update(
            2,
            (datagram@[2] % 128 + 128) as u8,
        ).update(3, without_reserved(datagram@[3])),
{
    if datagram.len() < HEADER_LEN {
        return Err(DecodeError::BadLength);
    }
    let raw_header = slice_subrange(datagram, 0, HEADER_LEN);
    let mut header = match Header::new(raw_header) {
        Ok(h) => h,
        Err(e) => {
            return Err(e);
        },
    };
    header.header_flags.qr = QueryOrReply::Reply;
    let out = header.to_bytes();
    proof {
        lemma_flag_bytes_round_trip(datagram@[2], datagram@[3]);
        assert(out@ =~= datagram@.subrange(0, 12).update(2, (datagram@[2] % 128 + 128) as u8).update(
            3,
            without_reserved(datagram@[3]),
        ));
    }
    Ok(out)
}

} // verus!
