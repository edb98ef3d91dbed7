//! The DNSKEY RDATA codec (RFC 4034 section 2, RFC 5011): a 16-bit flags
//! field, the constant protocol octet 3, a one-octet algorithm code, and the
//! remaining `rdata_length - 4` bytes of opaque key material.

use vstd::prelude::*;

use crate::algorithm::Algorithm;
use crate::binary::BinDecoder;
use crate::binary::BinEncoder;
use crate::binary::spec_u16_from_be;
use crate::error::DecodeError;
use crate::error::EncodeError;

verus! {

/// Flags-field bit for a zone key (RFC 4034 bit 7).
pub const ZONE_KEY_FLAG: u16 = 0x0100;

/// Flags-field bit for the secure-entry-point hint (RFC 4034 bit 15).
pub const SECURE_ENTRY_POINT_FLAG: u16 = 0x0001;

/// Flags-field bit for key revocation (RFC 5011 bit 8).
pub const REVOKE_FLAG: u16 = 0x0080;

/// The protocol octet is fixed at 3 by RFC 4034 section 2.1.2.
pub const PROTOCOL: u8 = 3;

/// Flags, protocol and algorithm occupy four bytes before the key material.
pub const HEADER_LENGTH: u16 = 4;

/// A decoded DNSKEY record: the three defined flag bits, the algorithm, and
/// the opaque key material. The protocol octet is validated on decode and
/// re-emitted as 3; reserved flag bits are dropped on decode and written as
/// zero on encode.
#[derive(PartialEq, Eq, Debug)]
pub struct DnsKeyRecord {
    /// True iff the key may sign RRsets of its zone (flags bit 7).
    pub zone_key: bool,
    /// Advisory trust-anchor hint (flags bit 15).
    pub secure_entry_point: bool,
    /// RFC 5011 revocation indicator (flags bit 8).
    pub revoke: bool,
    /// The public-key cryptosystem, one octet on the wire.
    pub algorithm: Algorithm,
    /// Opaque key material; its length comes from the enclosing record frame.
    pub public_key: Vec<u8>,
}

/// The mathematical value of a `DnsKeyRecord`.
#[verifier::ext_equal]
pub struct DnsKeyView {
    /// True iff the key may sign RRsets of its zone (flags bit 7).
    pub zone_key: bool,
    /// Advisory trust-anchor hint (flags bit 15).
    pub secure_entry_point: bool,
    /// RFC 5011 revocation indicator (flags bit 8).
    pub revoke: bool,
    /// The public-key cryptosystem, one octet on the wire.
    pub algorithm: Algorithm,
    /// Opaque key material as a byte sequence.
    pub public_key: Seq<u8>,
}

impl View for DnsKeyRecord {
    type V = DnsKeyView;

    open spec fn view(&self) -> DnsKeyView {
        DnsKeyView {
            zone_key: self.zone_key,
            secure_entry_point: self.secure_entry_point,
            revoke: self.revoke,
            algorithm: self.algorithm,
            public_key: self.public_key@,
        }
    }
}

/// Whether a flags field has the zone-key bit set.
pub open spec fn spec_zone_key(flags: u16) -> bool {
    flags & ZONE_KEY_FLAG == ZONE_KEY_FLAG
}

/// Whether a flags field has the secure-entry-point bit set.
pub open spec fn spec_secure_entry_point(flags: u16) -> bool {
    flags & SECURE_ENTRY_POINT_FLAG == SECURE_ENTRY_POINT_FLAG
}

/// Whether a flags field has the revoke bit set.
pub open spec fn spec_revoke(flags: u16) -> bool {
    flags & REVOKE_FLAG == REVOKE_FLAG
}

/// The flags field composed from the three defined bits, every reserved bit
/// zero.
pub open spec fn spec_flags(zone_key: bool, secure_entry_point: bool, revoke: bool) -> u16 {
    (if zone_key {
        ZONE_KEY_FLAG
    } else {
        0
    }) | (if secure_entry_point {
        SECURE_ENTRY_POINT_FLAG
    } else {
        0
    }) | (if revoke {
        REVOKE_FLAG
    } else {
        0
    })
}

/// The exact bytes a record encodes to: big-endian flags, protocol 3, the
/// algorithm code, then the key material verbatim.
pub open spec fn spec_encoded(v: DnsKeyView) -> Seq<u8> {
    let flags = spec_flags(v.zone_key, v.secure_entry_point, v.revoke);
    seq![(flags / 256) as u8, (flags % 256) as u8, PROTOCOL, v.algorithm.spec_to_u8()]
        + v.public_key
}

/// What decoding yields from the bytes remaining at the cursor and the
/// enclosing record's declared RDATA length, for every input: the record on
/// success, and the precise error otherwise, in the order the fields are read.
pub open spec fn spec_decode(input: Seq<u8>, rdata_length: u16) -> Result<
    DnsKeyView,
    DecodeError,
> {
    if input.len() < 2 {
        Err(DecodeError::NotEnoughBytes)
    } else {
        let flags = spec_u16_from_be(input[0], input[1]);
        if input.len() < 3 {
            Err(DecodeError::NotEnoughBytes)
        } else if input[2] != PROTOCOL {
            Err(DecodeError::DnsKeyProtocolNot3(input[2]))
        } else if input.len() < 4 {
            Err(DecodeError::NotEnoughBytes)
        } else {
            match Algorithm::spec_from_u8(input[3]) {
                None => Err(DecodeError::UnrecognizedAlgorithm(input[3])),
                Some(algorithm) => {
                    if rdata_length < HEADER_LENGTH {
                        Err(DecodeError::RdataLengthUnderflow(rdata_length))
                    } else if input.len() < rdata_length {
                        Err(DecodeError::NotEnoughBytes)
                    } else {
                        Ok(
                            DnsKeyView {
                                zone_key: spec_zone_key(flags),
                                secure_entry_point: spec_secure_entry_point(flags),
                                revoke: spec_revoke(flags),
                                algorithm,
                                public_key: input.subrange(HEADER_LENGTH as int, rdata_length as int),
                            },
                        )
                    }
                },
            }
        }
    }
}

/// How many bytes decoding consumes from the cursor, in every outcome: fields
/// already read stay consumed when a later step fails, and a read that finds
/// too few bytes consumes nothing.
pub open spec fn spec_decode_consumed(input: Seq<u8>, rdata_length: u16) -> int {
    if input.len() < 2 {
        0
    } else if input.len() < 3 {
        2
    } else if input[2] != PROTOCOL {
        3
    } else if input.len() < 4 {
        3
    } else if Algorithm::spec_from_u8(input[3]) is None {
        4
    } else if rdata_length < HEADER_LENGTH {
        4
    } else if input.len() < rdata_length {
        4
    } else {
        rdata_length as int
    }
}

/// Decodes one DNSKEY RDATA from the cursor: flags, protocol (must be 3),
/// algorithm, then exactly `rdata_length - 4` bytes of key material.
pub fn read(decoder: &mut BinDecoder, rdata_length: u16) -> (res: Result<
    DnsKeyRecord,
    DecodeError,
>)
    requires
        old(decoder).wf(),
    ensures
        final(decoder).wf(),
        final(decoder).bytes() == old(decoder).bytes(),
        final(decoder).position() == old(decoder).position() + spec_decode_consumed(
            old(decoder).remaining(),
            rdata_length,
        ),
        (match res {
            Ok(record) => spec_decode(old(decoder).remaining(), rdata_length) == Ok::<
                DnsKeyView,
                DecodeError,
            >(record@),
            Err(error) => spec_decode(old(decoder).remaining(), rdata_length) == Err::<
                DnsKeyView,
                DecodeError,
            >(error),
        }),
{
    let flags = match decoder.read_u16() {
        Ok(value) => value,
        Err(error) => {
            return Err(error);
        },
    };
    let zone_key: bool = flags & ZONE_KEY_FLAG == ZONE_KEY_FLAG;
    let secure_entry_point: bool = flags & SECURE_ENTRY_POINT_FLAG == SECURE_ENTRY_POINT_FLAG;
    let revoke: bool = flags & REVOKE_FLAG == REVOKE_FLAG;
    let protocol = match decoder.read_u8() {
        Ok(value) => value,
        Err(error) => {
            return Err(error);
        },
    };
    if protocol != PROTOCOL {
        return Err(DecodeError::DnsKeyProtocolNot3(protocol));
    }
    let algorithm = match Algorithm::read(decoder) {
        Ok(value) => value,
        Err(error) => {
            return Err(error);
        },
    };
    if rdata_length < HEADER_LENGTH {
        return Err(DecodeError::RdataLengthUnderflow(rdata_length));
    }
    let key_length = (rdata_length - HEADER_LENGTH) as usize;
    let public_key = match decoder.read_vec(key_length) {
        Ok(value) => value,
        Err(error) => {
            return Err(error);
        },
    };
    let record = DnsKeyRecord { zone_key, secure_entry_point, revoke, algorithm, public_key };
    proof {
        let input = old(decoder).remaining();
        assert(record@.public_key =~= input.subrange(HEADER_LENGTH as int, rdata_length as int));
        assert(spec_decode(input, rdata_length) == Ok::<DnsKeyView, DecodeError>(record@));
    }
    Ok(record)
}

/// Encodes one DNSKEY record onto the cursor in wire order: big-endian flags
/// with every reserved bit zero, protocol 3, the algorithm code, then the key
/// material verbatim with no length prefix.
pub fn emit(encoder: &mut BinEncoder, record: &DnsKeyRecord) -> (res: Result<(), EncodeError>)
    ensures
        res is Ok,
        final(encoder).bytes() == old(encoder).bytes() + spec_encoded(record@),
{
    let flags: u16 = (if record.zone_key {
        ZONE_KEY_FLAG
    } else {
        0
    }) | (if record.secure_entry_point {
        SECURE_ENTRY_POINT_FLAG
    } else {
        0
    }) | (if record.revoke {
        REVOKE_FLAG
    } else {
        0
    });
    encoder.emit_u16(flags);
    encoder.emit_u8(PROTOCOL);
    match record.algorithm.emit(encoder) {
        Ok(()) => {},
        Err(error) => {
            return Err(error);
        },
    };
    encoder.emit_vec(&record.public_key);
    proof {
        assert(encoder.bytes() =~= old(encoder).bytes() + spec_encoded(record@));
    }
    Ok(())
}

/// Flag independence: each of the three defined flag bits is recovered from a
/// composed flags field exactly as it was set, whatever the other two are.
pub proof fn lemma_flag_independence(zone_key: bool, secure_entry_point: bool, revoke: bool)
    ensures
        spec_zone_key(spec_flags(zone_key, secure_entry_point, revoke)) == zone_key,
        spec_secure_entry_point(spec_flags(zone_key, secure_entry_point, revoke))
            == secure_entry_point,
        spec_revoke(spec_flags(zone_key, secure_entry_point, revoke)) == revoke,
{
    assert(spec_zone_key(spec_flags(zone_key, secure_entry_point, revoke)) == zone_key)
        by (bit_vector);
    assert(spec_secure_entry_point(spec_flags(zone_key, secure_entry_point, revoke))
        == secure_entry_point) by (bit_vector);
    assert(spec_revoke(spec_flags(zone_key, secure_entry_point, revoke)) == revoke)
        by (bit_vector);
}

/// Reserved-bit tolerance: noise confined to the reserved bits never disturbs
/// the extraction of the three defined flags.
pub proof fn lemma_reserved_bit_tolerance(flags: u16, noise: u16)
    requires
        noise & (ZONE_KEY_FLAG | SECURE_ENTRY_POINT_FLAG | REVOKE_FLAG) == 0,
    ensures
        spec_zone_key(flags | noise) == spec_zone_key(flags),
        spec_secure_entry_point(flags | noise) == spec_secure_entry_point(flags),
        spec_revoke(flags | noise) == spec_revoke(flags),
{
    assert(spec_zone_key(flags | noise) == spec_zone_key(flags) && spec_secure_entry_point(
        flags | noise,
    ) == spec_secure_entry_point(flags) && spec_revoke(flags | noise) == spec_revoke(flags))
        by (bit_vector)
        requires
            noise & (ZONE_KEY_FLAG | SECURE_ENTRY_POINT_FLAG | REVOKE_FLAG) == 0,
    ;
}

/// Round trip: encoding a record and decoding the resulting bytes with the
/// matching RDATA length yields the record back, field for field. Reserved
/// bits are absent by construction, the record holding only the three defined
/// flags.
pub proof fn lemma_round_trip(v: DnsKeyView)
    requires
        v.public_key.len() + HEADER_LENGTH <= u16::MAX,
    ensures
        spec_decode(spec_encoded(v), (v.public_key.len() + HEADER_LENGTH) as u16) == Ok::<
            DnsKeyView,
            DecodeError,
        >(v),
{
    let flags = spec_flags(v.zone_key, v.secure_entry_point, v.revoke);
    let encoded = spec_encoded(v);
    let rdata_length = (v.public_key.len() + HEADER_LENGTH) as u16;
    assert(spec_u16_from_be((flags / 256) as u8, (flags % 256) as u8) == flags) by (bit_vector);
    lemma_flag_independence(v.zone_key, v.secure_entry_point, v.revoke);
    v.algorithm.lemma_code_round_trip();
    assert(encoded.subrange(HEADER_LENGTH as int, rdata_length as int) =~= v.public_key);
    assert(spec_decode(encoded, rdata_length)->Ok_0 =~= v);
}

/// Decoding succeeds exactly when the cursor holds the four header bytes with
/// protocol 3 and a known algorithm code, and the declared RDATA length both
/// covers the header and lies within the remaining bytes.
pub proof fn lemma_decode_ok_iff(input: Seq<u8>, rdata_length: u16)
    ensures
        spec_decode(input, rdata_length) is Ok <==> (input.len() >= HEADER_LENGTH && input[2]
            == PROTOCOL && Algorithm::spec_from_u8(input[3]) is Some && rdata_length
            >= HEADER_LENGTH && input.len() >= rdata_length),
{
}

/// Key-length derivation: with RDATA length 4 + k over a well-formed header,
/// decoding consumes exactly the header plus k key bytes, and the key is those
/// k bytes; k = 0 yields an empty key, not an error.
pub proof fn lemma_key_length(input: Seq<u8>, k: u16)
    requires
        k + HEADER_LENGTH <= u16::MAX,
        input.len() >= k + HEADER_LENGTH,
        input[2] == PROTOCOL,
        Algorithm::spec_from_u8(input[3]) is Some,
    ensures
        spec_decode(input, (k + HEADER_LENGTH) as u16) is Ok,
        spec_decode(input, (k + HEADER_LENGTH) as u16)->Ok_0.public_key == input.subrange(
            HEADER_LENGTH as int,
            k + HEADER_LENGTH,
        ),
        spec_decode(input, (k + HEADER_LENGTH) as u16)->Ok_0.public_key.len() == k,
        spec_decode_consumed(input, (k + HEADER_LENGTH) as u16) == k + HEADER_LENGTH,
{
}

/// Protocol enforcement: whenever the protocol octet differs from 3, decoding
/// fails with exactly the protocol-mismatch error carrying that octet,
/// whatever the declared RDATA length.
pub proof fn lemma_protocol_enforced(input: Seq<u8>, rdata_length: u16)
    requires
        input.len() >= 3,
        input[2] != PROTOCOL,
    ensures
        spec_decode(input, rdata_length) == Err::<DnsKeyView, DecodeError>(
            DecodeError::DnsKeyProtocolNot3(input[2]),
        ),
{
}

/// Length underflow: a declared RDATA length below the four header bytes is
/// rejected with the underflow error once the header itself decodes, and
/// nothing beyond the header is consumed.
pub proof fn lemma_length_underflow(input: Seq<u8>, rdata_length: u16)
    requires
        input.len() >= HEADER_LENGTH,
        input[2] == PROTOCOL,
        Algorithm::spec_from_u8(input[3]) is Some,
        rdata_length < HEADER_LENGTH,
    ensures
        spec_decode(input, rdata_length) == Err::<DnsKeyView, DecodeError>(
            DecodeError::RdataLengthUnderflow(rdata_length),
        ),
        spec_decode_consumed(input, rdata_length) == HEADER_LENGTH,
{
}

} // verus!
