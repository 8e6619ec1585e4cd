//! Signature codec: ASN.1 DER `SEQUENCE { INTEGER r, INTEGER s }` to the
//! fixed-width P1363 form (`r` and `s` each zero-padded to 32 bytes and
//! concatenated), and the inverse DER encoder used to state the round trip.

use vstd::prelude::*;

use crate::errors::DerError;

verus! {

/// Width in bytes of one coordinate of the P-256 curve's field.
pub const ES256_FIELD_BYTES: usize = 32;

/// Meaning of a DER length field at the head of `data`: the encoded length
/// and the number of bytes the field itself occupies. Short form covers
/// lengths up to 127; long form with one or two length-bytes covers lengths
/// up to 65535; anything longer is unsupported.
pub open spec fn spec_parse_der_length(data: Seq<u8>) -> Result<(int, int), DerError> {
    if data.len() == 0 {
        Err(DerError::EmptyLength)
    } else if data[0] < 0x80 {
        Ok((data[0] as int, 1int))
    } else if data[0] == 0x81 {
        if data.len() < 2 {
            Err(DerError::TruncatedLength)
        } else {
            Ok((data[1] as int, 2int))
        }
    } else if data[0] == 0x82 {
        if data.len() < 3 {
            Err(DerError::TruncatedLength)
        } else {
            Ok(((data[1] as int) * 256 + (data[2] as int), 3int))
        }
    } else {
        Err(DerError::UnsupportedLength)
    }
}

/// `b` with its leading zero bytes removed.
pub open spec fn spec_strip_zeros(b: Seq<u8>) -> Seq<u8>
    decreases b.len(),
{
    if b.len() > 0 && b[0] == 0 {
        spec_strip_zeros(b.drop_first())
    } else {
        b
    }
}

/// The minimal big-endian form of an ASN.1 INTEGER body: leading zeros
/// stripped, except that an all-zero body stands for the single byte `0`.
pub open spec fn spec_stripped_int(b: Seq<u8>) -> Seq<u8> {
    if spec_strip_zeros(b).len() == 0 {
        seq![0u8]
    } else {
        spec_strip_zeros(b)
    }
}

/// An INTEGER body left-padded with zeros to exactly `size` bytes, or the
/// rejection when its minimal form is longer than `size`.
pub open spec fn spec_int_to_fixed(b: Seq<u8>, size: int) -> Result<Seq<u8>, DerError> {
    let s = spec_stripped_int(b);
    if s.len() > size {
        Err(DerError::IntegerTooLarge)
    } else {
        Ok(Seq::new((size - s.len()) as nat, |i: int| 0u8) + s)
    }
}

/// Meaning of the SEQUENCE body: two DER INTEGER fields, each padded to 32
/// bytes and concatenated.
pub open spec fn spec_parse_two_integers(body: Seq<u8>) -> Result<Seq<u8>, DerError> {
    if body.len() == 0 || body[0] != 0x02 {
        Err(DerError::ExpectedIntegerR)
    } else {
        match spec_parse_der_length(body.subrange(1, body.len() as int)) {
            Err(e) => Err(e),
            Ok((r_len, r_off)) => {
                let r_start = 1 + r_off;
                if body.len() < r_start + r_len {
                    Err(DerError::RTruncated)
                } else {
                    let r_bytes = body.subrange(r_start, r_start + r_len);
                    let s_tag = r_start + r_len;
                    if body.len() <= s_tag || body[s_tag] != 0x02 {
                        Err(DerError::ExpectedIntegerS)
                    } else {
                        match spec_parse_der_length(body.subrange(s_tag + 1, body.len() as int)) {
                            Err(e) => Err(e),
                            Ok((s_len, s_off)) => {
                                let s_start = s_tag + 1 + s_off;
                                if body.len() < s_start + s_len {
                                    Err(DerError::STruncated)
                                } else {
                                    let s_bytes = body.subrange(s_start, s_start + s_len);
                                    match spec_int_to_fixed(r_bytes, 32) {
                                        Err(e) => Err(e),
                                        Ok(rf) => match spec_int_to_fixed(s_bytes, 32) {
                                            Err(e) => Err(e),
                                            Ok(sf) => Ok(rf + sf),
                                        },
                                    }
                                }
                            },
                        }
                    }
                }
            },
        }
    }
}

/// Meaning of the whole conversion: parse the outer SEQUENCE tag and length,
/// then the two INTEGER fields of its body.
pub open spec fn spec_der_to_p1363(der: Seq<u8>) -> Result<Seq<u8>, DerError> {
    if der.len() < 8 || der[0] != 0x30 {
        Err(DerError::NotSequence)
    } else {
        match spec_parse_der_length(der.subrange(1, der.len() as int)) {
            Err(e) => Err(e),
            Ok((seq_len, off)) => {
                if der.len() - 1 - off < seq_len {
                    Err(DerError::SequenceTruncated)
                } else {
                    spec_parse_two_integers(der.subrange(1 + off, 1 + off + seq_len))
                }
            },
        }
    }
}

/// Parses a DER length field at the head of `data`. Returns the length value
/// and the number of bytes consumed.
pub fn parse_der_length(data: &[u8]) -> (r: Result<(usize, usize), DerError>)
    ensures
        match r {
            Ok(p) => spec_parse_der_length(data@) == Ok::<(int, int), DerError>(
                (p.0 as int, p.1 as int),
            ) && p.1 <= data@.len(),
            Err(e) => spec_parse_der_length(data@) == Err::<(int, int), DerError>(e),
        },
{
    if data.len() == 0 {
        Err(DerError::EmptyLength)
    } else if data[0] < 0x80 {
        Ok((data[0] as usize, 1))
    } else if data[0] == 0x81 {
        if data.len() < 2 {
            Err(DerError::TruncatedLength)
        } else {
            Ok((data[1] as usize, 2))
        }
    } else if data[0] == 0x82 {
        if data.len() < 3 {
            Err(DerError::TruncatedLength)
        } else {
            Ok(((data[1] as usize) * 256 + (data[2] as usize), 3))
        }
    } else {
        Err(DerError::UnsupportedLength)
    }
}

/// Stripping all of `b`'s leading zeros leaves the suffix that starts at its
/// first nonzero byte.
proof fn lemma_strip_at(b: Seq<u8>, k: int)
    requires
        0 <= k <= b.len(),
        forall|j: int| 0 <= j < k ==> b[j] == 0,
        k < b.len() ==> b[k] != 0,
    ensures
        spec_strip_zeros(b) == b.subrange(k, b.len() as int),
    decreases k,
{
    if k == 0 {
        assert(b.subrange(0, b.len() as int) =~= b);
    } else {
        lemma_strip_at(b.drop_first(), k - 1);
        assert(b.drop_first().subrange(k - 1, b.drop_first().len() as int) =~= b.subrange(
            k,
            b.len() as int,
        ));
    }
}

/// What stripping leaves is never longer than the input, never starts with a
/// zero, and putting the zeros back restores the input.
proof fn lemma_strip_restore(b: Seq<u8>)
    ensures
        spec_strip_zeros(b).len() <= b.len(),
        spec_strip_zeros(b).len() > 0 ==> spec_strip_zeros(b)[0] != 0,
        Seq::new((b.len() - spec_strip_zeros(b).len()) as nat, |i: int| 0u8) + spec_strip_zeros(b)
            =~= b,
    decreases b.len(),
{
    if b.len() > 0 && b[0] == 0 {
        let t = b.drop_first();
        lemma_strip_restore(t);
        let pad_b = Seq::new((b.len() - spec_strip_zeros(b).len()) as nat, |i: int| 0u8);
        let pad_t = Seq::new((t.len() - spec_strip_zeros(t).len()) as nat, |i: int| 0u8);
        assert forall|i: int| 0 <= i < b.len() implies (pad_b + spec_strip_zeros(b))[i] == b[i] by {
            if i > 0 {
                assert((pad_t + spec_strip_zeros(t))[i - 1] == t[i - 1]);
                assert(t[i - 1] == b[i]);
            }
        }
    }
}

/// Strips leading zeros from an ASN.1 INTEGER body and left-pads the rest to
/// exactly `size` bytes; rejects an integer whose minimal form is longer.
pub fn int_to_fixed(bytes: &[u8], size: usize) -> (r: Result<Vec<u8>, DerError>)
    ensures
        match r {
            Ok(v) => spec_int_to_fixed(bytes@, size as int) == Ok::<Seq<u8>, DerError>(v@)
                && v@.len() == size,
            Err(e) => spec_int_to_fixed(bytes@, size as int) == Err::<Seq<u8>, DerError>(e),
        },
{
    let n = bytes.len();
    let mut pos: usize = 0;
    while pos < n && bytes[pos] == 0
        invariant
            0 <= pos <= n,
            n == bytes@.len(),
            forall|j: int| 0 <= j < pos ==> bytes@[j] == 0,
        decreases n - pos,
    {
        pos += 1;
    }
    proof {
        lemma_strip_at(bytes@, pos as int);
    }
    if pos == n {
        // All zeros: the integer is the single byte 0.
        if size < 1 {
            return Err(DerError::IntegerTooLarge);
        }
        let mut out: Vec<u8> = Vec::new();
        let mut i: usize = 0;
        while i < size
            invariant
                0 <= i <= size,
                out@ =~= Seq::new(i as nat, |j: int| 0u8),
            decreases size - i,
        {
            out.push(0u8);
            proof {
                assert(out@ =~= Seq::new((i + 1) as nat, |j: int| 0u8));
            }
            i += 1;
        }
        proof {
            assert(Seq::new((size - 1) as nat, |j: int| 0u8) + seq![0u8] =~= Seq::new(
                size as nat,
                |j: int| 0u8,
            ));
        }
        Ok(out)
    } else {
        let strip_len = n - pos;
        if strip_len > size {
            return Err(DerError::IntegerTooLarge);
        }
        let pad = size - strip_len;
        let mut out: Vec<u8> = Vec::new();
        let mut i: usize = 0;
        while i < pad
            invariant
                0 <= i <= pad,
                out@ =~= Seq::new(i as nat, |j: int| 0u8),
            decreases pad - i,
        {
            out.push(0u8);
            proof {
                assert(out@ =~= Seq::new((i + 1) as nat, |j: int| 0u8));
            }
            i += 1;
        }
        let mut k: usize = pos;
        while k < n
            invariant
                pos <= k <= n,
                n == bytes@.len(),
                out@ =~= Seq::new(pad as nat, |j: int| 0u8) + bytes@.subrange(pos as int, k as int),
            decreases n - k,
        {
            out.push(bytes[k]);
            proof {
                assert(out@ =~= Seq::new(pad as nat, |j: int| 0u8) + bytes@.subrange(
                    pos as int,
                    (k + 1) as int,
                ));
            }
            k += 1;
        }
        Ok(out)
    }
}

/// Parses the two INTEGER fields of a SEQUENCE body and emits the 64-byte
/// concatenation of their padded values.
fn parse_two_integers(body: &[u8]) -> (r: Result<Vec<u8>, DerError>)
    ensures
        match r {
            Ok(v) => spec_parse_two_integers(body@) == Ok::<Seq<u8>, DerError>(v@) && v@.len()
                == 64,
            Err(e) => spec_parse_two_integers(body@) == Err::<Seq<u8>, DerError>(e),
        },
{
    if body.len() == 0 || body[0] != 0x02 {
        return Err(DerError::ExpectedIntegerR);
    }
    let tail_r = vstd::slice::slice_subrange(body, 1, body.len());
    let (r_len, r_off) = match parse_der_length(tail_r) {
        Ok(p) => p,
        Err(e) => return Err(e),
    };
    let r_start = 1 + r_off;
    if body.len() - r_start < r_len {
        return Err(DerError::RTruncated);
    }
    let r_bytes = vstd::slice::slice_subrange(body, r_start, r_start + r_len);
    let s_tag = r_start + r_len;
    if body.len() <= s_tag || body[s_tag] != 0x02 {
        return Err(DerError::ExpectedIntegerS);
    }
    let tail_s = vstd::slice::slice_subrange(body, s_tag + 1, body.len());
    let (s_len, s_off) = match parse_der_length(tail_s) {
        Ok(p) => p,
        Err(e) => return Err(e),
    };
    proof {
        assert(tail_s@ == body@.subrange(s_tag as int + 1, body@.len() as int));
    }
    let s_start = s_tag + 1 + s_off;
    if body.len() - s_start < s_len {
        return Err(DerError::STruncated);
    }
    let s_bytes = vstd::slice::slice_subrange(body, s_start, s_start + s_len);
    let mut rf = match int_to_fixed(r_bytes, ES256_FIELD_BYTES) {
        Ok(v) => v,
        Err(e) => return Err(e),
    };
    let mut sf = match int_to_fixed(s_bytes, ES256_FIELD_BYTES) {
        Ok(v) => v,
        Err(e) => return Err(e),
    };
    rf.append(&mut sf);
    Ok(rf)
}

/// Converts a DER-encoded ECDSA signature to P1363 form: `r` then `s`, each
/// zero-padded to 32 bytes, 64 bytes in all.
pub fn der_to_p1363_es256(der: &[u8]) -> (r: Result<Vec<u8>, DerError>)
    ensures
        match r {
            Ok(v) => spec_der_to_p1363(der@) == Ok::<Seq<u8>, DerError>(v@) && v@.len() == 64,
            Err(e) => spec_der_to_p1363(der@) == Err::<Seq<u8>, DerError>(e),
        },
{
    if der.len() < 8 || der[0] != 0x30 {
        return Err(DerError::NotSequence);
    }
    let tail = vstd::slice::slice_subrange(der, 1, der.len());
    let (seq_len, off) = match parse_der_length(tail) {
        Ok(p) => p,
        Err(e) => return Err(e),
    };
    if der.len() - 1 - off < seq_len {
        return Err(DerError::SequenceTruncated);
    }
    let body = vstd::slice::slice_subrange(der, 1 + off, 1 + off + seq_len);
    parse_two_integers(body)
}

/// The DER INTEGER body that encodes a 32-byte big-endian value: leading
/// zeros stripped, with one zero byte restored in front when the top bit of
/// the remainder is set (DER keeps the value positive).
pub open spec fn spec_der_int_content(b: Seq<u8>) -> Seq<u8> {
    let s = spec_stripped_int(b);
    if s[0] >= 0x80 {
        seq![0u8] + s
    } else {
        s
    }
}

/// The DER `SEQUENCE { INTEGER r, INTEGER s }` encoding of two 32-byte
/// big-endian values. Both INTEGER bodies are at most 33 bytes, so every
/// length field fits the short form.
pub open spec fn spec_der_encode(r: Seq<u8>, s: Seq<u8>) -> Seq<u8> {
    let rc = spec_der_int_content(r);
    let sc = spec_der_int_content(s);
    seq![0x30u8, (4 + rc.len() + sc.len()) as u8, 0x02u8, rc.len() as u8] + rc + seq![
        0x02u8,
        sc.len() as u8,
    ] + sc
}

/// Emits the minimal DER INTEGER body for a big-endian value.
fn der_int_content(bytes: &[u8]) -> (v: Vec<u8>)
    ensures
        v@ == spec_der_int_content(bytes@),
        1 <= v@.len() <= bytes@.len() + 1,
{
    let n = bytes.len();
    let mut pos: usize = 0;
    while pos < n && bytes[pos] == 0
        invariant
            0 <= pos <= n,
            n == bytes@.len(),
            forall|j: int| 0 <= j < pos ==> bytes@[j] == 0,
        decreases n - pos,
    {
        pos += 1;
    }
    proof {
        lemma_strip_at(bytes@, pos as int);
    }
    if pos == n {
        let mut out: Vec<u8> = Vec::new();
        out.push(0u8);
        proof {
            assert(out@ =~= seq![0u8]);
        }
        out
    } else {
        let mut out: Vec<u8> = Vec::new();
        let ghost prefix: Seq<u8> = if bytes@[pos as int] >= 0x80 {
            seq![0u8]
        } else {
            Seq::<u8>::empty()
        };
        if bytes[pos] >= 0x80 {
            out.push(0u8);
        }
        proof {
            assert(out@ =~= prefix + bytes@.subrange(pos as int, pos as int));
        }
        let mut k: usize = pos;
        while k < n
            invariant
                pos <= k <= n,
                n == bytes@.len(),
                out@ =~= prefix + bytes@.subrange(pos as int, k as int),
            decreases n - k,
        {
            out.push(bytes[k]);
            proof {
                assert(out@ =~= prefix + bytes@.subrange(pos as int, (k + 1) as int));
            }
            k += 1;
        }
        proof {
            assert(out@ =~= spec_der_int_content(bytes@));
        }
        out
    }
}

/// DER-encodes an ECDSA signature given its two coordinates as 32-byte
/// big-endian values, inserting the leading zero each INTEGER needs when its
/// top bit is set.
pub fn der_encode_es256(r32: &[u8], s32: &[u8]) -> (out: Vec<u8>)
    requires
        r32@.len() == 32,
        s32@.len() == 32,
    ensures
        out@ == spec_der_encode(r32@, s32@),
{
    let mut rc = der_int_content(r32);
    let mut sc = der_int_content(s32);
    let total = 4 + rc.len() + sc.len();
    let ghost rc_view = rc@;
    let ghost sc_view = sc@;
    let mut out: Vec<u8> = Vec::new();
    out.push(0x30u8);
    out.push(total as u8);
    out.push(0x02u8);
    out.push(rc.len() as u8);
    out.append(&mut rc);
    out.push(0x02u8);
    out.push(sc.len() as u8);
    out.append(&mut sc);
    proof {
        assert(out@ =~= spec_der_encode(r32@, s32@));
    }
    out
}

/// Decoding the minimal INTEGER body of a 32-byte value and padding it back
/// to 32 bytes restores the value exactly.
proof fn lemma_int_content_restore(b: Seq<u8>)
    requires
        b.len() == 32,
    ensures
        1 <= spec_der_int_content(b).len() <= 33,
        spec_int_to_fixed(spec_der_int_content(b), 32) == Ok::<Seq<u8>, DerError>(b),
{
    lemma_strip_restore(b);
    let s = spec_strip_zeros(b);
    if s.len() == 0 {
        // b is all zeros and is encoded as the single byte 0.
        assert(spec_stripped_int(b) =~= seq![0u8]);
        let c = spec_der_int_content(b);
        assert(c =~= seq![0u8]);
        assert(c.drop_first() =~= Seq::<u8>::empty());
        assert(spec_strip_zeros(Seq::<u8>::empty()) =~= Seq::<u8>::empty());
        assert(c.len() == 1 && c[0] == 0);
        assert(spec_strip_zeros(c) == spec_strip_zeros(c.drop_first()));
        assert(spec_strip_zeros(c) =~= Seq::<u8>::empty());
        assert(spec_stripped_int(c) =~= seq![0u8]);
        assert(Seq::new(31nat, |i: int| 0u8) + seq![0u8] =~= Seq::new(32nat, |i: int| 0u8));
        assert(Seq::new(32nat, |i: int| 0u8) =~= b);
    } else {
        assert(spec_stripped_int(b) == s);
        let c = spec_der_int_content(b);
        if s[0] >= 0x80 {
            assert(c == seq![0u8] + s);
            assert(c[0] == 0);
            assert(c.drop_first() =~= s);
            assert(spec_strip_zeros(c) == spec_strip_zeros(s));
        } else {
            assert(c == s);
        }
        assert(spec_strip_zeros(s) == s);
        assert(spec_stripped_int(c) == s);
        assert(Seq::new((32 - s.len()) as nat, |i: int| 0u8) + s =~= b);
    }
}

/// SignatureCodec round trip: for any pair of 32-byte big-endian coordinate
/// values, DER-encoding them and converting the encoding back to P1363 form
/// reproduces the two values exactly, concatenated.
pub proof fn lemma_der_round_trip(r: Seq<u8>, s: Seq<u8>)
    requires
        r.len() == 32,
        s.len() == 32,
    ensures
        spec_der_to_p1363(spec_der_encode(r, s)) == Ok::<Seq<u8>, DerError>(r + s),
{
    lemma_int_content_restore(r);
    lemma_int_content_restore(s);
    let rc = spec_der_int_content(r);
    let sc = spec_der_int_content(s);
    let total = 4 + rc.len() + sc.len();
    let enc = spec_der_encode(r, s);
    assert(enc.len() == 2 + total);
    assert(enc[0] == 0x30);
    let tail = enc.subrange(1, enc.len() as int);
    assert(tail[0] == total as u8);
    assert(total < 0x80);
    assert(spec_parse_der_length(tail) == Ok::<(int, int), DerError>((total as int, 1int)));
    let body = enc.subrange(2, 2 + total as int);
    assert(body =~= seq![0x02u8, rc.len() as u8] + rc + seq![0x02u8, sc.len() as u8] + sc);
    assert(body[0] == 0x02);
    let body_tail_r = body.subrange(1, body.len() as int);
    assert(body_tail_r[0] == rc.len() as u8);
    assert(rc.len() < 0x80);
    assert(spec_parse_der_length(body_tail_r) == Ok::<(int, int), DerError>(
        (rc.len() as int, 1int),
    ));
    let r_bytes = body.subrange(2, 2 + rc.len() as int);
    assert(r_bytes =~= rc);
    let s_tag = 2 + rc.len() as int;
    assert(body[s_tag] == 0x02);
    let body_tail_s = body.subrange(s_tag + 1, body.len() as int);
    assert(body_tail_s[0] == sc.len() as u8);
    assert(sc.len() < 0x80);
    assert(spec_parse_der_length(body_tail_s) == Ok::<(int, int), DerError>(
        (sc.len() as int, 1int),
    ));
    let s_bytes = body.subrange(s_tag + 2, s_tag + 2 + sc.len() as int);
    assert(s_bytes =~= sc);
    assert(spec_parse_two_integers(body) == Ok::<Seq<u8>, DerError>(r + s));
    assert(spec_der_to_p1363(enc) == Ok::<Seq<u8>, DerError>(r + s));
}

/// SignatureCodec rejection: any buffer that is too short for the minimal
/// signature or whose leading byte is not the SEQUENCE tag is rejected as not
/// being a DER SEQUENCE.
pub proof fn lemma_rejects_bad_leading_byte(der: Seq<u8>)
    requires
        der.len() < 8 || der[0] != 0x30,
    ensures
        spec_der_to_p1363(der) == Err::<Seq<u8>, DerError>(DerError::NotSequence),
{
}

/// SignatureCodec rejection: a long-form length field that announces more
/// length-bytes than the buffer holds is rejected as a truncated length.
pub proof fn lemma_rejects_truncated_length(data: Seq<u8>)
    requires
        data.len() >= 1,
        data[0] == 0x81 && data.len() < 2 || data[0] == 0x82 && data.len() < 3,
    ensures
        spec_parse_der_length(data) == Err::<(int, int), DerError>(DerError::TruncatedLength),
{
}

/// SignatureCodec rejection: an integer whose minimal big-endian form exceeds
/// the curve's 32-byte field width is rejected as too large.
pub proof fn lemma_rejects_oversized_integer(b: Seq<u8>)
    requires
        spec_stripped_int(b).len() > 32,
    ensures
        spec_int_to_fixed(b, 32) == Err::<Seq<u8>, DerError>(DerError::IntegerTooLarge),
{
}

} // verus!
