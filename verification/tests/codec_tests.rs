use attestation_mobile::codec::{der_encode_es256, der_to_p1363_es256, int_to_fixed, parse_der_length};
use attestation_mobile::errors::DerError;

fn der_int_field(value: &[u8]) -> Vec<u8> {
    // Minimal DER INTEGER body: strip leading zeros, keep the value positive.
    let mut start = 0;
    while start < value.len() && value[start] == 0 {
        start += 1;
    }
    let stripped: Vec<u8> = if start == value.len() {
        vec![0u8]
    } else {
        value[start..].to_vec()
    };
    let mut body = Vec::new();
    if stripped[0] & 0x80 != 0 {
        body.push(0u8);
    }
    body.extend_from_slice(&stripped);
    let mut field = vec![0x02u8, body.len() as u8];
    field.extend_from_slice(&body);
    field
}

fn der_sig(r: &[u8], s: &[u8]) -> Vec<u8> {
    let rf = der_int_field(r);
    let sf = der_int_field(s);
    let mut out = vec![0x30u8, (rf.len() + sf.len()) as u8];
    out.extend_from_slice(&rf);
    out.extend_from_slice(&sf);
    out
}

#[test]
fn round_trip_high_bit_set() {
    // r's top bit is set, so DER inserts a leading zero; decoding must strip it.
    let r = [0xabu8; 32];
    let mut s = [0u8; 32];
    s[31] = 0x01;
    let der = der_sig(&r, &s);
    let p1363 = der_to_p1363_es256(&der).unwrap();
    assert_eq!(p1363.len(), 64);
    assert_eq!(&p1363[..32], &r[..]);
    assert_eq!(&p1363[32..], &s[..]);
}

#[test]
fn round_trip_via_verified_encoder() {
    let mut r = [0u8; 32];
    r[0] = 0x7f;
    r[31] = 0x01;
    let mut s = [0u8; 32];
    s[0] = 0x80;
    let der = der_encode_es256(&r, &s);
    let p1363 = der_to_p1363_es256(&der).unwrap();
    assert_eq!(&p1363[..32], &r[..]);
    assert_eq!(&p1363[32..], &s[..]);
}

#[test]
fn round_trip_zero_values() {
    let r = [0u8; 32];
    let s = [0u8; 32];
    let der = der_sig(&r, &s);
    let p1363 = der_to_p1363_es256(&der).unwrap();
    assert_eq!(p1363, vec![0u8; 64]);
}

#[test]
fn round_trip_leading_zero_values() {
    // Values with many leading zeros must come back left-padded to 32 bytes.
    let mut r = [0u8; 32];
    r[30] = 0x12;
    r[31] = 0x34;
    let mut s = [0u8; 32];
    s[16] = 0xff;
    let der = der_sig(&r, &s);
    let p1363 = der_to_p1363_es256(&der).unwrap();
    assert_eq!(&p1363[..32], &r[..]);
    assert_eq!(&p1363[32..], &s[..]);
}

#[test]
fn rejects_non_sequence_leading_byte() {
    let r = [1u8; 32];
    let mut der = der_sig(&r, &r);
    der[0] = 0x31;
    assert_eq!(der_to_p1363_es256(&der), Err(DerError::NotSequence));
    assert_eq!(DerError::NotSequence.message(), "not a DER SEQUENCE");
}

#[test]
fn rejects_too_short_buffer() {
    assert_eq!(der_to_p1363_es256(&[0x30, 0x06, 0x02, 0x01]), Err(DerError::NotSequence));
}

#[test]
fn rejects_truncated_sequence() {
    // Outer length larger than the remaining bytes.
    let der = [0x30u8, 0x20, 0x02, 0x01, 0x01, 0x02, 0x01, 0x01];
    assert_eq!(der_to_p1363_es256(&der), Err(DerError::SequenceTruncated));
    assert_eq!(DerError::SequenceTruncated.message(), "DER SEQUENCE truncated");
}

#[test]
fn rejects_truncated_length_field() {
    // The r INTEGER announces a one-byte long-form length that is missing.
    let der = [0x30u8, 0x02, 0x02, 0x81, 0, 0, 0, 0];
    assert_eq!(der_to_p1363_es256(&der), Err(DerError::TruncatedLength));
    assert_eq!(DerError::TruncatedLength.message(), "truncated DER length");
}

#[test]
fn rejects_missing_integer_tags() {
    let r = [1u8; 32];
    let mut der = der_sig(&r, &r);
    der[2] = 0x04;
    assert_eq!(der_to_p1363_es256(&der), Err(DerError::ExpectedIntegerR));
    let mut der2 = der_sig(&r, &r);
    // The s INTEGER tag sits after the r field: tag, length, 32 value bytes.
    der2[2 + 2 + 32] = 0x04;
    assert_eq!(der_to_p1363_es256(&der2), Err(DerError::ExpectedIntegerS));
}

#[test]
fn rejects_oversized_integer() {
    // 33 significant bytes exceed the 32-byte field width.
    let mut value = [0x01u8; 33];
    value[0] = 0x01;
    let rf = der_int_field(&value);
    let sf = der_int_field(&[1u8; 32]);
    let mut der = vec![0x30u8, (rf.len() + sf.len()) as u8];
    der.extend_from_slice(&rf);
    der.extend_from_slice(&sf);
    assert_eq!(der_to_p1363_es256(&der), Err(DerError::IntegerTooLarge));
    assert_eq!(DerError::IntegerTooLarge.message(), "integer too large");
}

#[test]
fn parse_der_length_forms() {
    assert_eq!(parse_der_length(&[0x05, 9, 9]), Ok((5, 1)));
    assert_eq!(parse_der_length(&[0x7f]), Ok((127, 1)));
    assert_eq!(parse_der_length(&[0x81, 0xc8]), Ok((200, 2)));
    assert_eq!(parse_der_length(&[0x82, 0x01, 0x00]), Ok((256, 3)));
    assert_eq!(parse_der_length(&[0x82, 0xff, 0xff]), Ok((65535, 3)));
    assert_eq!(parse_der_length(&[]), Err(DerError::EmptyLength));
    assert_eq!(parse_der_length(&[0x81]), Err(DerError::TruncatedLength));
    assert_eq!(parse_der_length(&[0x82, 0x01]), Err(DerError::TruncatedLength));
    assert_eq!(parse_der_length(&[0x83, 0, 0, 1]), Err(DerError::UnsupportedLength));
    assert_eq!(DerError::UnsupportedLength.message(), "unsupported DER length encoding");
}

#[test]
fn int_to_fixed_pads_and_strips() {
    assert_eq!(int_to_fixed(&[0x00, 0x00, 0x07], 4), Ok(vec![0, 0, 0, 7]));
    assert_eq!(int_to_fixed(&[0x00, 0x00, 0x00], 2), Ok(vec![0, 0]));
    assert_eq!(int_to_fixed(&[], 2), Ok(vec![0, 0]));
    assert_eq!(int_to_fixed(&[1, 2, 3], 2), Err(DerError::IntegerTooLarge));
    assert_eq!(int_to_fixed(&[0, 1, 2, 3], 3), Ok(vec![1, 2, 3]));
}

#[test]
fn long_form_length_signature_accepted() {
    // A signature wrapped in a one-byte long-form outer length still decodes.
    let r = [0x55u8; 32];
    let s = [0x66u8; 32];
    let rf = der_int_field(&r);
    let sf = der_int_field(&s);
    let mut der = vec![0x30u8, 0x81, (rf.len() + sf.len()) as u8];
    der.extend_from_slice(&rf);
    der.extend_from_slice(&sf);
    let p1363 = der_to_p1363_es256(&der).unwrap();
    assert_eq!(&p1363[..32], &r[..]);
    assert_eq!(&p1363[32..], &s[..]);
}
