//! The DNSSEC public-key algorithm code: one octet on the wire, selecting the
//! cryptosystem and hence the format of the key material that follows.

use vstd::prelude::*;

use crate::binary::BinDecoder;
use crate::binary::BinEncoder;
use crate::error::DecodeError;
use crate::error::EncodeError;

verus! {

/// A DNSSEC algorithm this codec knows, by its IANA-assigned code.
#[derive(Clone, Copy, PartialEq, Eq, Structural, Debug)]
pub enum Algorithm {
    /// RSA with SHA-1, code 5.
    RSASHA1,
    /// RSA with SHA-1 for NSEC3 zones, code 7.
    RSASHA1NSEC3SHA1,
    /// RSA with SHA-256, code 8.
    RSASHA256,
    /// RSA with SHA-512, code 10.
    RSASHA512,
    /// ECDSA on curve P-256 with SHA-256, code 13.
    ECDSAP256SHA256,
    /// ECDSA on curve P-384 with SHA-384, code 14.
    ECDSAP384SHA384,
}

impl Algorithm {
    /// The IANA-assigned code for this algorithm.
    pub open spec fn spec_to_u8(self) -> u8 {
        match self {
            Algorithm::RSASHA1 => 5,
            Algorithm::RSASHA1NSEC3SHA1 => 7,
            Algorithm::RSASHA256 => 8,
            Algorithm::RSASHA512 => 10,
            Algorithm::ECDSAP256SHA256 => 13,
            Algorithm::ECDSAP384SHA384 => 14,
        }
    }

    /// The algorithm a code denotes, if it is one this codec knows.
    pub open spec fn spec_from_u8(value: u8) -> Option<Algorithm> {
        if value == 5 {
            Some(Algorithm::RSASHA1)
        } else if value == 7 {
            Some(Algorithm::RSASHA1NSEC3SHA1)
        } else if value == 8 {
            Some(Algorithm::RSASHA256)
        } else if value == 10 {
            Some(Algorithm::RSASHA512)
        } else if value == 13 {
            Some(Algorithm::ECDSAP256SHA256)
        } else if value == 14 {
            Some(Algorithm::ECDSAP384SHA384)
        } else {
            None
        }
    }

    /// Every known algorithm's code maps back to that algorithm.
    pub proof fn lemma_code_round_trip(self)
        ensures
            Algorithm::spec_from_u8(self.spec_to_u8()) == Some(self),
    {
    }

    /// The code this algorithm is written as on the wire.
    pub fn to_u8(&self) -> (res: u8)
        ensures
            res == self.spec_to_u8(),
    {
        match self {
            Algorithm::RSASHA1 => 5,
            Algorithm::RSASHA1NSEC3SHA1 => 7,
            Algorithm::RSASHA256 => 8,
            Algorithm::RSASHA512 => 10,
            Algorithm::ECDSAP256SHA256 => 13,
            Algorithm::ECDSAP384SHA384 => 14,
        }
    }

    /// The algorithm a wire code denotes, or `None` for an unassigned code.
    pub fn from_u8(value: u8) -> (res: Option<Algorithm>)
        ensures
            res == Algorithm::spec_from_u8(value),
    {
        if value == 5 {
            Some(Algorithm::RSASHA1)
        } else if value == 7 {
            Some(Algorithm::RSASHA1NSEC3SHA1)
        } else if value == 8 {
            Some(Algorithm::RSASHA256)
        } else if value == 10 {
            Some(Algorithm::RSASHA512)
        } else if value == 13 {
            Some(Algorithm::ECDSAP256SHA256)
        } else if value == 14 {
            Some(Algorithm::ECDSAP384SHA384)
        } else {
            None
        }
    }

    /// Reads one algorithm octet. Consumes the octet even when its code is
    /// unrecognized; consumes nothing when the cursor is empty.
    pub fn read(decoder: &mut BinDecoder) -> (res: Result<Algorithm, DecodeError>)
        requires
            old(decoder).wf(),
        ensures
            final(decoder).wf(),
            final(decoder).bytes() == old(decoder).bytes(),
            old(decoder).remaining().len() == 0 ==> res == Err::<Algorithm, DecodeError>(
                DecodeError::NotEnoughBytes,
            ) && final(decoder).position() == old(decoder).position(),
            old(decoder).remaining().len() >= 1 ==> final(decoder).position() == old(
                decoder,
            ).position() + 1 && (match Algorithm::spec_from_u8(old(decoder).remaining()[0]) {
                Some(algorithm) => res == Ok::<Algorithm, DecodeError>(algorithm),
                None => res == Err::<Algorithm, DecodeError>(
                    DecodeError::UnrecognizedAlgorithm(old(decoder).remaining()[0]),
                ),
            }),
    {
        let value = match decoder.read_u8() {
            Ok(value) => value,
            Err(error) => {
                return Err(error);
            },
        };
        match Algorithm::from_u8(value) {
            Some(algorithm) => Ok(algorithm),
            None => Err(DecodeError::UnrecognizedAlgorithm(value)),
        }
    }

    /// Appends this algorithm's one-octet code.
    pub fn emit(&self, encoder: &mut BinEncoder) -> (res: Result<(), EncodeError>)
        ensures
            res is Ok,
            final(encoder).bytes() == old(encoder).bytes().push(self.spec_to_u8()),
    {
        encoder.emit_u8(self.to_u8());
        Ok(())
    }
}

} // verus!
