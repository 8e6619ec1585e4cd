//! ManifestEmbedder boundary: the declarations and wrappers through which the
//! pipeline drives the external manifest-embedding library. The container
//! format and claim assembly are that library's concern; the pipeline treats
//! both as correct black boxes.

use vstd::prelude::*;

use crate::signer::{HardwareSigner, HardwareSignerAdapter};

verus! {

#[verifier::external_type_specification]
#[verifier::external_body]
pub struct ExBuilder(c2pa::Builder);

#[verifier::external_type_specification]
#[verifier::external_body]
pub struct ExC2paError(c2pa::Error);

/// Relies on c2pa::Builder::from_json: parses a manifest-definition JSON
/// string into a builder, rejecting malformed JSON and schema violations.
#[allow(deprecated)]
#[verifier::external_body]
pub fn c2pa_builder_from_json(json: &str) -> (r: Result<c2pa::Builder, c2pa::Error>) {
    c2pa::Builder::from_json(json)
}

/// Relies on c2pa::Builder::sign and c2pa::CallbackSigner: embeds the
/// builder's manifest into the JPEG bytes and signs it. Signatures are drawn
/// from the adapter's verified sign method (surfaced to the embedder as its
/// bad-parameter error when it fails), the algorithm is ES256, the
/// certificate chain is the given PEM text, and the size reservation is the
/// fixed budget.
#[verifier::external_body]
pub fn c2pa_builder_sign<S: HardwareSigner + 'static>(
    builder: &mut c2pa::Builder,
    adapter: HardwareSignerAdapter<S>,
    certs_pem: Vec<u8>,
    jpeg: &[u8],
) -> (r: Result<Vec<u8>, c2pa::Error>) {
    let reserve_size = adapter.reserve_size();
    let signer = c2pa::CallbackSigner {
        callback: Box::new(move |_context, data: &[u8]| {
            adapter.sign(data).map_err(c2pa::Error::BadParam)
        }),
        alg: c2pa::SigningAlg::Es256,
        certs: certs_pem,
        reserve_size,
        ..Default::default()
    };
    let mut source = std::io::Cursor::new(jpeg);
    let mut dest = std::io::Cursor::new(Vec::new());
    builder.sign(&signer, "image/jpeg", &mut source, &mut dest).map(|_| dest.into_inner())
}

/// Relies on matching c2pa::Error: tells the embedder's bad-parameter class
/// apart from its other failures. A failure of signer-supplied parameters
/// reaches the caller either directly as `BadParam` or, out of the signing
/// path, wrapped as the raw-signer error; both are that class.
#[verifier::external_body]
pub fn c2pa_error_is_bad_param(e: &c2pa::Error) -> (r: bool) {
    matches!(e, c2pa::Error::BadParam(_) | c2pa::Error::RawSignerError(_))
}

/// Relies on the Debug rendering of c2pa::Error: the embedder's diagnostic,
/// recorded as free-text failure detail.
#[verifier::external_body]
pub fn c2pa_error_detail(e: &c2pa::Error) -> (r: String) {
    format!("{:?}", e)
}

/// Relies on pem::encode and pem::Pem::new: wraps a DER certificate in a PEM
/// `CERTIFICATE` block, the form the embedder's callback signer expects its
/// certificate chain in.
#[verifier::external_body]
pub fn der_cert_to_pem(der: &Vec<u8>) -> (r: Vec<u8>) {
    pem::encode(&pem::Pem::new("CERTIFICATE", der.clone())).into_bytes()
}

} // verus!
