use vstd::prelude::*;

verus! {

/// Failures that can arise while decoding a DNSKEY record from the wire.
#[derive(Clone, Copy, PartialEq, Eq, Structural, Debug)]
pub enum DecodeError {
    /// The cursor held fewer bytes than the field being read required.
    NotEnoughBytes,
    /// The protocol octet held the given value instead of the mandatory 3.
    DnsKeyProtocolNot3(u8),
    /// The algorithm octet held the given unassigned code.
    UnrecognizedAlgorithm(u8),
    /// The declared RDATA length was too small to hold the four-byte header.
    RdataLengthUnderflow(u16),
}

/// Failures that can arise while encoding. Appending to a growable buffer
/// cannot fail, so this codec never returns one: the type only keeps the
/// result shape callers of a fallible wire encoder expect, and every encode
/// operation promises `Ok` in its contract.
#[derive(Clone, Copy, PartialEq, Eq, Structural, Debug)]
pub enum EncodeError {
    /// The writer could not take the bytes. Never produced by this codec.
    BufferWriteFailed,
}

} // verus!
