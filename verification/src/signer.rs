//! SignerAdapter: wraps an opaque hardware signing capability and a cached
//! certificate, adapting both to the signing contract the manifest embedder
//! expects.

use vstd::prelude::*;
use vstd::slice::slice_to_vec;
use vstd::string::StringExecFns;

use crate::codec::der_to_p1363_es256;
use crate::errors::{AttestationError, SignerError};

verus! {

/// Byte budget the embedder reserves for the signature block. Fixed, not
/// computed from any input; it must stay at or above the actual signature
/// encoding size including the envelope the embedding protocol adds.
pub const SIGNATURE_RESERVE_SIZE: usize = 10240;

/// Caller-supplied hardware signing capability: signs bytes into a
/// DER-encoded ECDSA signature and exports its certificate in DER form.
/// Both operations may fail; nothing is assumed of their results.
pub trait HardwareSigner: Send + Sync {
    fn sign(&self, data: Vec<u8>) -> Result<Vec<u8>, SignerError>;

    fn certificate_der(&self) -> Result<Vec<u8>, SignerError>;
}

/// Adapter from a hardware signing capability to the embedder's signing
/// contract: the certificate is fetched once at construction and cached for
/// the adapter's lifetime; each signature is converted from DER to the
/// P1363 form; algorithm and size reservation are fixed.
pub struct HardwareSignerAdapter<S: HardwareSigner> {
    inner: S,
    cached_cert: Vec<u8>,
}

impl<S: HardwareSigner> HardwareSignerAdapter<S> {
    /// The cached DER certificate.
    pub closed spec fn cert_view(&self) -> Seq<u8> {
        self.cached_cert@
    }

    /// Wraps the capability, fetching the certificate exactly once; a failed
    /// export is the one way construction fails.
    pub fn new(signer: S) -> (r: Result<Self, AttestationError>)
        ensures
            r matches Err(e) ==> e == AttestationError::CertificateError,
    {
        let cached_cert = match signer.certificate_der() {
            Ok(c) => c,
            Err(_) => {
                return Err(AttestationError::CertificateError);
            },
        };
        Ok(HardwareSignerAdapter { inner: signer, cached_cert })
    }

    /// Signs via the hardware capability and pipes the DER signature through
    /// the codec: a success is always a 64-byte P1363 signature; a hardware
    /// failure and a codec rejection each yield their own descriptive
    /// message, for the embedder's bad-parameter channel.
    pub fn sign(&self, data: &[u8]) -> (r: Result<Vec<u8>, String>)
        ensures
            r matches Ok(v) ==> v@.len() == 64,
    {
        let der_sig = match self.inner.sign(slice_to_vec(data)) {
            Ok(d) => d,
            Err(e) => {
                let mut m = String::from_str("Hardware signer error: ");
                m.append(e.message());
                return Err(m);
            },
        };
        match der_to_p1363_es256(der_sig.as_slice()) {
            Ok(v) => Ok(v),
            Err(e) => {
                let mut m = String::from_str("DER to P1363 conversion error: ");
                m.append(e.message());
                Err(m)
            },
        }
    }

    /// Fixed algorithm identifier of the one supported signing scheme.
    pub fn alg(&self) -> (r: &'static str)
        ensures
            r@ == "ES256"@,
    {
        "ES256"
    }

    /// Single-certificate chain: the cached DER certificate, unchanged.
    /// Chain-building is the caller's responsibility.
    pub fn certs(&self) -> (r: Vec<Vec<u8>>)
        ensures
            r@.len() == 1,
            r@[0]@ == self.cert_view(),
    {
        let mut chain: Vec<Vec<u8>> = Vec::new();
        chain.push(self.cached_cert.clone());
        chain
    }

    /// Fixed upper-bound byte budget for the signature block.
    pub fn reserve_size(&self) -> (r: usize)
        ensures
            r == 10240,
    {
        SIGNATURE_RESERVE_SIZE
    }
}

} // verus!
