//! The ways in which decoding a header can fail.

use vstd::prelude::*;

verus! {

/// Why a buffer was rejected. Each failure concerns the one message that was
/// handed in; the codec keeps no state that a failure could damage.
#[derive(Debug, Clone, Copy, PartialEq, Eq, Structural)]
pub enum DecodeError {
    /// The buffer is not exactly twelve bytes long.
    BadLength,
    /// The 4-bit operation code is none of the assigned values.
    InvalidOpCode,
    /// The 4-bit response code is none of the assigned values.
    InvalidResponseCode,
    /// The direction value is neither query nor reply.
    InvalidQr,
}

} // verus!
