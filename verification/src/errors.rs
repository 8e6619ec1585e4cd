//! Error taxonomy of the attestation pipeline.

use vstd::prelude::*;

verus! {

/// Classified failure of the signing pipeline. Callers match on the variant;
/// free-text diagnostic detail travels beside it in [`AttestationFailure`].
#[derive(Debug, Clone, Copy, PartialEq, Eq, Structural)]
pub enum AttestationError {
    /// The embedder rejected signer-supplied parameters.
    SigningFailed,
    /// The manifest JSON was malformed or its schema was rejected.
    ManifestBuildFailed,
    /// The certificate could not be obtained from the hardware capability.
    CertificateError,
    /// The embedder failed for a reason other than bad parameters.
    JpegEmbedFailed,
    /// The input buffer is not a JPEG.
    JpegValidationFailed,
}

impl AttestationError {
    /// Short fixed message for the variant, independent of any diagnostic detail.
    pub fn message(&self) -> (m: &'static str)
        ensures
            *self == AttestationError::SigningFailed ==> m@ == "Signing failed"@,
            *self == AttestationError::ManifestBuildFailed ==> m@ == "Manifest build failed"@,
            *self == AttestationError::CertificateError ==> m@ == "Certificate error"@,
            *self == AttestationError::JpegEmbedFailed ==> m@ == "JPEG embed failed"@,
            *self == AttestationError::JpegValidationFailed ==> m@
                == "JPEG validation failed: not a valid JPEG"@,
    {
        match self {
            AttestationError::SigningFailed => "Signing failed",
            AttestationError::ManifestBuildFailed => "Manifest build failed",
            AttestationError::CertificateError => "Certificate error",
            AttestationError::JpegEmbedFailed => "JPEG embed failed",
            AttestationError::JpegValidationFailed => "JPEG validation failed: not a valid JPEG",
        }
    }
}

/// A pipeline failure: the classified error plus free-text diagnostic detail.
/// The detail is carried on the failure value itself, so no state is shared
/// between invocations; it is not part of the error's identity.
#[derive(Debug)]
pub struct AttestationFailure {
    pub error: AttestationError,
    pub detail: String,
}

/// Error raised by the caller-supplied hardware signing capability.
#[derive(Debug, Clone, Copy, PartialEq, Eq, Structural)]
pub enum SignerError {
    HardwareUnavailable,
    KeyNotFound,
    SignatureOperationFailed,
    CertificateExportFailed,
}

impl SignerError {
    /// Short fixed message for the variant.
    pub fn message(&self) -> (m: &'static str)
        ensures
            *self == SignerError::HardwareUnavailable ==> m@ == "Hardware unavailable"@,
            *self == SignerError::KeyNotFound ==> m@ == "Key not found"@,
            *self == SignerError::SignatureOperationFailed ==> m@
                == "Signature operation failed"@,
            *self == SignerError::CertificateExportFailed ==> m@
                == "Certificate export failed"@,
    {
        match self {
            SignerError::HardwareUnavailable => "Hardware unavailable",
            SignerError::KeyNotFound => "Key not found",
            SignerError::SignatureOperationFailed => "Signature operation failed",
            SignerError::CertificateExportFailed => "Certificate export failed",
        }
    }
}

/// Rejection of an alleged DER `SEQUENCE { INTEGER r, INTEGER s }` signature,
/// one distinct variant per way the encoding can be unusable.
#[derive(Debug, Clone, Copy, PartialEq, Eq, Structural)]
pub enum DerError {
    /// The buffer is too short or its leading byte is not the SEQUENCE tag.
    NotSequence,
    /// The outer SEQUENCE body is shorter than its declared length.
    SequenceTruncated,
    /// The first field does not carry the INTEGER tag.
    ExpectedIntegerR,
    /// The r INTEGER body is shorter than its declared length.
    RTruncated,
    /// The second field does not carry the INTEGER tag.
    ExpectedIntegerS,
    /// The s INTEGER body is shorter than its declared length.
    STruncated,
    /// A length field starts in an empty buffer.
    EmptyLength,
    /// A long-form length field is cut off.
    TruncatedLength,
    /// A length encoding longer than two length-bytes (over 65535).
    UnsupportedLength,
    /// An integer still exceeds the curve's field width after zero-stripping.
    IntegerTooLarge,
}

impl DerError {
    /// Descriptive message for the variant.
    pub fn message(&self) -> (m: &'static str)
        ensures
            *self == DerError::NotSequence ==> m@ == "not a DER SEQUENCE"@,
            *self == DerError::SequenceTruncated ==> m@ == "DER SEQUENCE truncated"@,
            *self == DerError::ExpectedIntegerR ==> m@ == "expected INTEGER tag for r"@,
            *self == DerError::RTruncated ==> m@ == "r INTEGER truncated"@,
            *self == DerError::ExpectedIntegerS ==> m@ == "expected INTEGER tag for s"@,
            *self == DerError::STruncated ==> m@ == "s INTEGER truncated"@,
            *self == DerError::EmptyLength ==> m@ == "empty DER length"@,
            *self == DerError::TruncatedLength ==> m@ == "truncated DER length"@,
            *self == DerError::UnsupportedLength ==> m@ == "unsupported DER length encoding"@,
            *self == DerError::IntegerTooLarge ==> m@ == "integer too large"@,
    {
        match self {
            DerError::NotSequence => "not a DER SEQUENCE",
            DerError::SequenceTruncated => "DER SEQUENCE truncated",
            DerError::ExpectedIntegerR => "expected INTEGER tag for r",
            DerError::RTruncated => "r INTEGER truncated",
            DerError::ExpectedIntegerS => "expected INTEGER tag for s",
            DerError::STruncated => "s INTEGER truncated",
            DerError::EmptyLength => "empty DER length",
            DerError::TruncatedLength => "truncated DER length",
            DerError::UnsupportedLength => "unsupported DER length encoding",
            DerError::IntegerTooLarge => "integer too large",
        }
    }
}

} // verus!
