use dnskey::Algorithm;
use dnskey::BinDecoder;
use dnskey::BinEncoder;
use dnskey::DecodeError;
use dnskey::DnsKeyRecord;
use dnskey::emit;
use dnskey::read;

#[test]
pub fn test() {
    let rdata = DnsKeyRecord {
        zone_key: true,
        secure_entry_point: true,
        revoke: false,
        algorithm: Algorithm::RSASHA256,
        public_key: vec![0, 1, 2, 3, 4, 5, 6, 7],
    };

    let mut encoder = BinEncoder::new();
    assert!(emit(&mut encoder, &rdata).is_ok());
    let bytes = encoder.as_bytes();

    println!("bytes: {:?}", bytes);

    let mut decoder = BinDecoder::new(bytes.clone());
    let read_rdata = read(&mut decoder, bytes.len() as u16);
    assert!(
        read_rdata.is_ok(),
        "error decoding: {:?}",
        read_rdata.as_ref().unwrap_err()
    );
    assert_eq!(rdata, read_rdata.unwrap());
}

fn encode_record(record: &DnsKeyRecord) -> Vec<u8> {
    let mut encoder = BinEncoder::new();
    assert!(emit(&mut encoder, record).is_ok());
    encoder.into_bytes()
}

fn decode_bytes(bytes: &[u8], rdata_length: u16) -> Result<DnsKeyRecord, DecodeError> {
    let mut decoder = BinDecoder::new(bytes.to_vec());
    read(&mut decoder, rdata_length)
}

#[test]
fn round_trip_all_flag_combinations() {
    for bits in 0u8..8u8 {
        let record = DnsKeyRecord {
            zone_key: bits & 1 == 1,
            secure_entry_point: bits & 2 == 2,
            revoke: bits & 4 == 4,
            algorithm: Algorithm::RSASHA512,
            public_key: vec![9, 8, 7],
        };
        let bytes = encode_record(&record);
        let decoded = decode_bytes(&bytes, bytes.len() as u16).unwrap();
        assert_eq!(decoded.zone_key, record.zone_key);
        assert_eq!(decoded.secure_entry_point, record.secure_entry_point);
        assert_eq!(decoded.revoke, record.revoke);
        assert_eq!(decoded, record);
    }
}

#[test]
fn protocol_enforcement_rejects_non_3() {
    for protocol in [0u8, 1, 4, 255] {
        let bytes = vec![0x01, 0x00, protocol, 8, 0xaa];
        let result = decode_bytes(&bytes, 5);
        assert_eq!(result, Err(DecodeError::DnsKeyProtocolNot3(protocol)));
    }
}

#[test]
fn key_length_derivation() {
    // rdata_length = 4: an empty key, not an error.
    let empty = decode_bytes(&[0x00, 0x00, 3, 8], 4).unwrap();
    assert_eq!(empty.public_key, Vec::<u8>::new());

    // rdata_length = 4 + k: exactly k trailing bytes become the key, even if
    // the buffer holds more.
    let bytes = vec![0x00, 0x00, 3, 8, 10, 11, 12, 13, 14, 99, 99];
    let record = decode_bytes(&bytes, 9).unwrap();
    assert_eq!(record.public_key, vec![10, 11, 12, 13, 14]);
}

#[test]
fn reserved_bits_ignored_on_decode() {
    // 0b0111_1110_0111_1110: only reserved bits set, all three flags off.
    let noisy = decode_bytes(&[0b0111_1110, 0b0111_1110, 3, 8, 1], 5).unwrap();
    assert!(!noisy.zone_key);
    assert!(!noisy.secure_entry_point);
    assert!(!noisy.revoke);

    // The same noise with all three defined bits set on top.
    let full = decode_bytes(&[0b0111_1111, 0b1111_1111, 3, 8, 1], 5).unwrap();
    assert!(full.zone_key);
    assert!(full.secure_entry_point);
    assert!(full.revoke);
}

#[test]
fn reserved_bits_zeroed_on_encode() {
    // Decoding noisy flags and re-encoding drops the reserved bits: only the
    // defined bits survive in the emitted flags field.
    let record = decode_bytes(&[0b0111_1111, 0b1111_1111, 3, 8, 1], 5).unwrap();
    let bytes = encode_record(&record);
    assert_eq!(bytes[0], 0x01);
    assert_eq!(bytes[1], 0x81);
}

#[test]
fn concrete_scenario() {
    let record = DnsKeyRecord {
        zone_key: true,
        secure_entry_point: true,
        revoke: false,
        algorithm: Algorithm::RSASHA256,
        public_key: vec![0, 1, 2, 3, 4, 5, 6, 7],
    };
    let bytes = encode_record(&record);
    assert_eq!(bytes, vec![0x01, 0x01, 0x03, 0x08, 0, 1, 2, 3, 4, 5, 6, 7]);

    let decoded = decode_bytes(&bytes, 12).unwrap();
    assert_eq!(decoded, record);
}

#[test]
fn underflow_rejected() {
    let bytes = vec![0x01, 0x01, 3, 8, 0, 1, 2, 3];
    for rdata_length in [0u16, 2, 3] {
        let result = decode_bytes(&bytes, rdata_length);
        assert_eq!(result, Err(DecodeError::RdataLengthUnderflow(rdata_length)));
    }
}

#[test]
fn truncated_input_rejected() {
    // Too short for the flags field.
    assert_eq!(decode_bytes(&[], 4), Err(DecodeError::NotEnoughBytes));
    assert_eq!(decode_bytes(&[0x01], 4), Err(DecodeError::NotEnoughBytes));
    // Too short for the protocol octet.
    assert_eq!(decode_bytes(&[0x01, 0x01], 4), Err(DecodeError::NotEnoughBytes));
    // Too short for the algorithm octet.
    assert_eq!(decode_bytes(&[0x01, 0x01, 3], 4), Err(DecodeError::NotEnoughBytes));
    // Fewer key bytes than the declared length requires.
    assert_eq!(
        decode_bytes(&[0x01, 0x01, 3, 8, 1, 2], 8),
        Err(DecodeError::NotEnoughBytes)
    );
}

#[test]
fn unrecognized_algorithm_rejected() {
    let result = decode_bytes(&[0x01, 0x01, 3, 99, 1, 2], 6);
    assert_eq!(result, Err(DecodeError::UnrecognizedAlgorithm(99)));
}

#[test]
fn algorithm_codes() {
    let pairs = [
        (Algorithm::RSASHA1, 5u8),
        (Algorithm::RSASHA1NSEC3SHA1, 7),
        (Algorithm::RSASHA256, 8),
        (Algorithm::RSASHA512, 10),
        (Algorithm::ECDSAP256SHA256, 13),
        (Algorithm::ECDSAP384SHA384, 14),
    ];
    for (algorithm, code) in pairs {
        assert_eq!(algorithm.to_u8(), code);
        assert_eq!(Algorithm::from_u8(code), Some(algorithm));
    }
    assert_eq!(Algorithm::from_u8(0), None);
    assert_eq!(Algorithm::from_u8(255), None);
}

#[test]
fn decoder_reads_big_endian_and_consumes_nothing_on_failure() {
    let mut decoder = BinDecoder::new(vec![0xab]);
    // One byte is too few for a u16; the failed read must leave it in place.
    assert_eq!(decoder.read_u16(), Err(DecodeError::NotEnoughBytes));
    assert_eq!(decoder.read_u8(), Ok(0xab));
    assert_eq!(decoder.read_u8(), Err(DecodeError::NotEnoughBytes));

    let mut decoder = BinDecoder::new(vec![0x12, 0x34, 5, 6, 7]);
    assert_eq!(decoder.read_u16(), Ok(0x1234));
    // Asking for more bytes than remain fails and consumes nothing.
    assert_eq!(decoder.read_vec(4), Err(DecodeError::NotEnoughBytes));
    assert_eq!(decoder.read_vec(3), Ok(vec![5, 6, 7]));
    assert_eq!(decoder.read_vec(0), Ok(Vec::new()));
}

#[test]
fn encoder_writes_big_endian() {
    let mut encoder = BinEncoder::new();
    encoder.emit_u16(0x0102);
    encoder.emit_u8(0xff);
    encoder.emit_vec(&vec![4, 5]);
    assert_eq!(encoder.as_bytes(), &vec![0x01, 0x02, 0xff, 4, 5]);
    assert_eq!(encoder.into_bytes(), vec![0x01, 0x02, 0xff, 4, 5]);
}
