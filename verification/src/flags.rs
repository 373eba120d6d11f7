//! The 16-bit flags word of a header, as the two bytes that carry it.
//!
//! Most significant bit first, the first byte holds the direction (1 bit),
//! the operation code (4 bits) and the flags `authoritative_answer`,
//! `truncation` and `recursion_desired`; the second byte holds
//! `recursion_available`, three reserved bits and the response code (4 bits).
//! The reserved bits are not part of [`HeaderFlags`]: decoding ignores them
//! and encoding writes them as zero.

use crate::codes::{OpCode, QueryOrReply, ResponseCode};
use crate::error::DecodeError;
use vstd::prelude::*;

verus! {

/// The seven logical subfields of the flags word.
#[derive(Debug, Clone, Copy, PartialEq, Eq, Structural)]
pub struct HeaderFlags {
    pub qr: QueryOrReply,
    pub op_code: OpCode,
    pub authoritative_answer: bool,
    pub truncation: bool,
    pub recursion_desired: bool,
    pub recursion_available: bool,
    pub response_code: ResponseCode,
}

/// A flag as the value of its bit.
pub open spec fn flag_bit(flag: bool) -> u8 {
    if flag {
        1
    } else {
        0
    }
}

/// The direction field of the first flags byte: bit 7.
pub open spec fn qr_field(byte2: u8) -> u8 {
    byte2 / 128
}

/// The operation-code field of the first flags byte: bits 6 to 3.
pub open spec fn op_code_field(byte2: u8) -> u8 {
    (byte2 / 8) % 16
}

/// The response-code field of the second flags byte: bits 3 to 0.
pub open spec fn response_code_field(byte3: u8) -> u8 {
    byte3 % 16
}

/// The reserved field of the second flags byte: bits 6 to 4.
pub open spec fn reserved_field(byte3: u8) -> u8 {
    (byte3 / 16) % 8
}

/// The second flags byte with its reserved field set to zero.
pub open spec fn without_reserved(byte3: u8) -> u8 {
    (byte3 / 128 * 128 + byte3 % 16) as u8
}

/// What the two flags bytes stand for. The enumerated fields are validated
/// in the order operation code, response code, direction, and the first one
/// that is not an assigned value decides the error.
pub open spec fn decode_flags(byte2: u8, byte3: u8) -> Result<HeaderFlags, DecodeError> {
    match OpCode::spec_try_from(op_code_field(byte2)) {
        Err(e) => Err(e),
        Ok(op_code) => match ResponseCode::spec_try_from(response_code_field(byte3)) {
            Err(e) => Err(e),
            Ok(response_code) => match QueryOrReply::spec_try_from(qr_field(byte2)) {
                Err(e) => Err(e),
                Ok(qr) => Ok(
                    HeaderFlags {
                        qr,
                        op_code,
                        authoritative_answer: (byte2 / 4) % 2 == 1,
                        truncation: (byte2 / 2) % 2 == 1,
                        recursion_desired: byte2 % 2 == 1,
                        recursion_available: byte3 / 128 == 1,
                        response_code,
                    },
                ),
            },
        },
    }
}

/// The two bytes that stand for `flags`, each field at its position and the
/// reserved field zero.
pub open spec fn encode_flags(flags: HeaderFlags) -> (u8, u8) {
    (
        (flags.qr.spec_code() * 128 + flags.op_code.spec_code() * 8 + flag_bit(
            flags.authoritative_answer,
        ) * 4 + flag_bit(flags.truncation) * 2 + flag_bit(flags.recursion_desired)) as u8,
        (flag_bit(flags.recursion_available) * 128 + flags.response_code.spec_code()) as u8,
    )
}

/// Decoding what was encoded gives the flags back, and encoding leaves the
/// reserved field zero.
pub proof fn lemma_flags_round_trip(flags: HeaderFlags)
    ensures
        decode_flags(encode_flags(flags).0, encode_flags(flags).1) == Ok::<
            HeaderFlags,
            DecodeError,
        >(flags),
        reserved_field(encode_flags(flags).1) == 0,
{
    let q = flags.qr.spec_code();
    let o = flags.op_code.spec_code();
    let a = flag_bit(flags.authoritative_answer);
    let t = flag_bit(flags.truncation);
    let d = flag_bit(flags.recursion_desired);
    let v = flag_bit(flags.recursion_available);
    let c = flags.response_code.spec_code();
    let (byte2, byte3) = encode_flags(flags);
    assert(byte2 / 128 == q && (byte2 / 8) % 16 == o && (byte2 / 4) % 2 == a && (byte2 / 2) % 2 == t
        && byte2 % 2 == d) by (bit_vector)
        requires
            byte2 == q * 128 + o * 8 + a * 4 + t * 2 + d,
            q <= 1,
            o <= 2,
            a <= 1,
            t <= 1,
            d <= 1,
    ;
    assert(byte3 / 128 == v && byte3 % 16 == c && (byte3 / 16) % 8 == 0) by (bit_vector)
        requires
            byte3 == v * 128 + c,
            v <= 1,
            c <= 3,
    ;
}

/// Encoding what was decoded gives the two bytes back, but for the reserved
/// field, which comes back as zero.
pub proof fn lemma_flag_bytes_round_trip(byte2: u8, byte3: u8)
    ensures
        decode_flags(byte2, byte3) matches Ok(f) ==> encode_flags(f) == (
            byte2,
            without_reserved(byte3),
        ),
{
    if decode_flags(byte2, byte3) is Ok {
        assert(byte2 == byte2 / 128 * 128 + (byte2 / 8) % 16 * 8 + (byte2 / 4) % 2 * 4 + (byte2 / 2)
            % 2 * 2 + byte2 % 2 && byte2 / 128 <= 1) by (bit_vector);
        assert(byte3 / 128 <= 1 && byte3 / 128 * 128 + byte3 % 16 < 256) by (bit_vector);
    }
}

fn bit_of(flag: bool) -> (v: u8)
    ensures
        v == flag_bit(flag),
{
    if flag {
        1
    } else {
        0
    }
}

impl HeaderFlags {
    /// Unpacks the two flags bytes. Fails with `InvalidOpCode` exactly when
    /// the operation-code field is above 2, and with `InvalidResponseCode`
    /// exactly when the operation code is valid and the response-code field
    /// is above 3; the reserved field is not looked at.
    pub fn from_bytes(byte2: u8, byte3: u8) -> (r: Result<HeaderFlags, DecodeError>)
        ensures
            r == decode_flags(byte2, byte3),
            r is Ok <==> op_code_field(byte2) <= 2 && response_code_field(byte3) <= 3,
            r == Err::<HeaderFlags, DecodeError>(DecodeError::InvalidOpCode) <==> op_code_field(
                byte2,
            ) > 2,
            r == Err::<HeaderFlags, DecodeError>(DecodeError::InvalidResponseCode)
                <==> op_code_field(byte2) <= 2 && response_code_field(byte3) > 3,
            r matches Ok(f) ==> encode_flags(f) == (byte2, without_reserved(byte3)),
    {
        let qr: u8 = (byte2 >> 7) & 0b1;
        let op_code: u8 = (byte2 & 0b0111_1000) >> 3;
        let authoritative_answer = (byte2 & 0b0000_0100) != 0;
        let truncation = (byte2 & 0b0000_0010) != 0;
        let recursion_desired = (byte2 & 0b0000_0001) != 0;
        let recursion_available = (byte3 & 0b1000_0000) != 0;
        let response_code: u8 = byte3 & 0b0000_1111;
        proof {
            assert((byte2 >> 7) & 0b1 == byte2 / 128 && (byte2 & 0b0111_1000) >> 3 == (byte2 / 8)
                % 16 && ((byte2 & 0b0000_0100) != 0 <==> (byte2 / 4) % 2 == 1) && ((byte2
                & 0b0000_0010) != 0 <==> (byte2 / 2) % 2 == 1) && ((byte2 & 0b0000_0001) != 0
                <==> byte2 % 2 == 1)) by (bit_vector);
            assert(((byte3 & 0b1000_0000) != 0 <==> byte3 / 128 == 1) && byte3 & 0b0000_1111
                == byte3 % 16) by (bit_vector);
            lemma_flag_bytes_round_trip(byte2, byte3);
        }
        let op_code = match OpCode::try_from(op_code) {
            Ok(c) => c,
            Err(e) => {
                return Err(e);
            },
        };
        let response_code = match ResponseCode::try_from(response_code) {
            Ok(c) => c,
            Err(e) => {
                return Err(e);
            },
        };
        let qr = match QueryOrReply::try_from(qr) {
            Ok(c) => c,
            Err(e) => {
                return Err(e);
            },
        };
        Ok(
            HeaderFlags {
                qr,
                op_code,
                authoritative_answer,
                truncation,
                recursion_desired,
                recursion_available,
                response_code,
            },
        )
    }

    /// Packs the flags into their two bytes, with the reserved field zero.
    /// Never fails, and `from_bytes` gives the flags back.
    pub fn to_bytes(&self) -> (r: (u8, u8))
        ensures
            r == encode_flags(*self),
            reserved_field(r.1) == 0,
            decode_flags(r.0, r.1) == Ok::<HeaderFlags, DecodeError>(*self),
    {
        let qr: u8 = self.qr.code();
        let op: u8 = self.op_code.code();
        let aa: u8 = bit_of(self.authoritative_answer);
        let tc: u8 = bit_of(self.truncation);
        let rd: u8 = bit_of(self.recursion_desired);
        let ra: u8 = bit_of(self.recursion_available);
        let rc: u8 = self.response_code.code();
        proof {
            assert((qr << 7) | (op << 3) | (aa << 2) | (tc << 1) | rd == qr * 128 + op * 8 + aa * 4
                + tc * 2 + rd) by (bit_vector)
                requires
                    qr <= 1,
                    op <= 2,
                    aa <= 1,
                    tc <= 1,
                    rd <= 1,
            ;
            assert((ra << 7) | rc == ra * 128 + rc) by (bit_vector)
                requires
                    ra <= 1,
                    rc <= 3,
            ;
            lemma_flags_round_trip(*self);
        }
        ((qr << 7) | (op << 3) | (aa << 2) | (tc << 1) | rd, (ra << 7) | rc)
    }
}

} // verus!
