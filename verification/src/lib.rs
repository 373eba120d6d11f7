//! Wire-format codec for the fixed 12-byte header of a DNS message.
//!
//! The header carries a 16-bit transaction id, a 16-bit flags word and four
//! 16-bit section counts, all in network byte order. Decoding validates the
//! enumerated subfields of the flags word; encoding is total. Every function
//! is pure, and its contract is stated over the mathematical model of the
//! layout given by the `open spec` functions next to it.

pub mod codes;
pub mod error;
pub mod flags;
pub mod header;
pub mod lemmas;
pub mod reply;
pub mod wire;

pub use codes::{OpCode, QueryOrReply, ResponseCode};
pub use error::DecodeError;
pub use flags::HeaderFlags;
pub use header::{Header, HEADER_LEN};
pub use reply::respond;
