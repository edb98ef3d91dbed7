//! A verified binary codec for the DNSKEY resource record (RFC 4034, with the
//! RFC 5011 REVOKE flag): decoding a record's RDATA from a byte cursor into a
//! structured value, and encoding such a value back to the exact wire format.

pub mod algorithm;
pub mod binary;
pub mod codec;
pub mod error;

pub use crate::algorithm::Algorithm;
pub use crate::binary::BinDecoder;
pub use crate::binary::BinEncoder;
pub use crate::codec::DnsKeyRecord;
pub use crate::codec::emit;
pub use crate::codec::read;
pub use crate::error::DecodeError;
pub use crate::error::EncodeError;
