//! Orchestrator: validates the JPEG, computes its content hash, builds the
//! manifest, and drives the external embedder with the signer adapter; every
//! failure is terminal and classified into the error taxonomy.

use vstd::prelude::*;

use crate::digest::{hash_bytes, spec_hex_of, spec_sha256, AtomicHashResult};
use crate::embedder::{
    c2pa_builder_from_json, c2pa_builder_sign, c2pa_error_detail, c2pa_error_is_bad_param,
    der_cert_to_pem,
};
use crate::errors::{AttestationError, AttestationFailure};
use crate::manifest::{
    build_manifest_definition, push_json_escaped, spec_escape, spec_manifest_json, CaptureContext,
};
use crate::signer::{HardwareSigner, HardwareSignerAdapter};
use vstd::string::StringExecFns;

verus! {

/// Output of a successful signing run: the signed JPEG, the manifest JSON
/// that was embedded, and the hex SHA-256 digest of the original, unsigned
/// JPEG bytes (computed before signing, independent of the embedder's own
/// hashing).
pub struct C2paSignedPhoto {
    pub signed_jpeg: Vec<u8>,
    pub manifest_json: String,
    pub asset_hash_hex: String,
}

/// Output of the legacy placeholder path: the untouched JPEG bytes and a
/// flat manifest object, with no embedding.
#[derive(Debug, Clone)]
pub struct AtomicSignedArtifact {
    pub jpg_bytes: Vec<u8>,
    pub manifest_json: String,
}

/// A JPEG byte stream: it starts with the two-byte SOI marker.
pub open spec fn spec_is_jpeg(b: Seq<u8>) -> bool {
    b.len() >= 2 && b[0] == 0xff && b[1] == 0xd8
}

/// Builds, embeds and signs a provenance manifest for a JPEG buffer.
///
/// Five gates in order, each terminal on failure: the SOI check (fails as
/// `JpegValidationFailed`, before the signing capability is touched);
/// adapter construction (fails as `CertificateError`); the content hash and
/// the manifest, which cannot fail; the embedder's manifest parse (fails as
/// `ManifestBuildFailed`); and the embedder's sign run (a bad-parameter
/// error becomes `SigningFailed`, any other becomes `JpegEmbedFailed`). On
/// success the returned hash and manifest are exactly the hex SHA-256 of the
/// input and the document the manifest builder defines; the signed bytes
/// come from the embedder, of which nothing more is assumed.
pub fn build_and_sign_c2pa<S: HardwareSigner + 'static>(
    jpeg_bytes: Vec<u8>,
    context: CaptureContext,
    signer: S,
) -> (r: Result<C2paSignedPhoto, AttestationFailure>)
    ensures
        match r {
            Ok(p) => spec_is_jpeg(jpeg_bytes@) && p.asset_hash_hex@ == spec_hex_of(
                spec_sha256(jpeg_bytes@),
            ) && p.manifest_json@ == spec_manifest_json(context@),
            Err(f) => (f.error == AttestationError::JpegValidationFailed <==> !spec_is_jpeg(
                jpeg_bytes@,
            )),
        },
{
    if jpeg_bytes.len() < 2 || jpeg_bytes[0] != 0xff || jpeg_bytes[1] != 0xd8 {
        return Err(
            AttestationFailure {
                error: AttestationError::JpegValidationFailed,
                detail: String::new(),
            },
        );
    }
    let adapter = match HardwareSignerAdapter::new(signer) {
        Ok(a) => a,
        Err(e) => {
            return Err(AttestationFailure { error: e, detail: String::new() });
        },
    };
    let asset_hash: AtomicHashResult = hash_bytes(jpeg_bytes.as_slice());
    let manifest_json = build_manifest_definition(&context);
    let mut builder = match c2pa_builder_from_json(manifest_json.as_str()) {
        Ok(b) => b,
        Err(e) => {
            let detail = c2pa_error_detail(&e);
            return Err(
                AttestationFailure { error: AttestationError::ManifestBuildFailed, detail },
            );
        },
    };
    let chain = adapter.certs();
    let mut certs_pem: Vec<u8> = Vec::new();
    let mut idx: usize = 0;
    while idx < chain.len()
        decreases chain.len() - idx,
    {
        let mut block = der_cert_to_pem(&chain[idx]);
        certs_pem.append(&mut block);
        idx += 1;
    }
    let signed_jpeg = match c2pa_builder_sign(
        &mut builder,
        adapter,
        certs_pem,
        jpeg_bytes.as_slice(),
    ) {
        Ok(v) => v,
        Err(e) => {
            let detail = c2pa_error_detail(&e);
            let error = if c2pa_error_is_bad_param(&e) {
                AttestationError::SigningFailed
            } else {
                AttestationError::JpegEmbedFailed
            };
            return Err(AttestationFailure { error, detail });
        },
    };
    Ok(C2paSignedPhoto { signed_jpeg, manifest_json, asset_hash_hex: asset_hash.sha256_hex })
}

/// What reserialising a JSON text yields: the compact rendering of its
/// parsed value, or the empty object `{}` when it does not parse. The
/// outside crate computes it; it depends on the text alone.
pub uninterp spec fn spec_json_normalized_or_empty(s: Seq<char>) -> Seq<char>;

/// Relies on serde_json::from_str and serde_json::Value::to_string: parses
/// the metadata text and reserialises it compactly; a text that does not
/// parse becomes the empty object.
#[verifier::external_body]
fn json_normalize_or_empty(s: &str) -> (r: String)
    ensures
        r@ == spec_json_normalized_or_empty(s@),
{
    match serde_json::from_str::<serde_json::Value>(s) {
        Ok(v) => v.to_string(),
        Err(_) => "{}".to_string(),
    }
}

/// The flat manifest object of the legacy placeholder path: type and
/// algorithm tags, the hex SHA-256 of the JPEG, the caller's signature, and
/// the caller's metadata reserialised (or `{}` when unparsable).
pub open spec fn spec_placeholder_manifest(
    jpg: Seq<u8>,
    signature_base64: Seq<char>,
    metadata_json: Seq<char>,
) -> Seq<char> {
    "{\"type\":\"c2pa-placeholder\",\"alg\":\"ECDSA_P256_SHA256\",\"sha256\":\""@ + spec_hex_of(
        spec_sha256(jpg),
    ) + "\",\"signature\":\""@ + spec_escape(signature_base64) + "\",\"metadata\":"@
        + spec_json_normalized_or_empty(metadata_json) + "}"@
}

/// Legacy placeholder path, kept for backward compatibility: wraps a
/// caller-supplied signature and arbitrary metadata JSON into a flat
/// manifest object beside the untouched JPEG bytes; nothing is embedded.
pub fn build_c2pa_placeholder(
    jpg_bytes: Vec<u8>,
    signature_base64: String,
    metadata_json: String,
) -> (r: AtomicSignedArtifact)
    ensures
        r.jpg_bytes@ == jpg_bytes@,
        r.manifest_json@ == spec_placeholder_manifest(
            jpg_bytes@,
            signature_base64@,
            metadata_json@,
        ),
{
    let digest = hash_bytes(jpg_bytes.as_slice());
    let mut m = String::from_str(
        "{\"type\":\"c2pa-placeholder\",\"alg\":\"ECDSA_P256_SHA256\",\"sha256\":\"",
    );
    m.append(digest.sha256_hex.as_str());
    m.append("\",\"signature\":\"");
    push_json_escaped(&mut m, signature_base64.as_str());
    m.append("\",\"metadata\":");
    let norm = json_normalize_or_empty(metadata_json.as_str());
    m.append(norm.as_str());
    m.append("}");
    proof {
        assert(m@ =~= spec_placeholder_manifest(jpg_bytes@, signature_base64@, metadata_json@));
    }
    AtomicSignedArtifact { jpg_bytes, manifest_json: m }
}

} // verus!
