use attestation_mobile::codec::der_encode_es256;
use attestation_mobile::errors::{AttestationError, SignerError};
use attestation_mobile::signer::{HardwareSigner, HardwareSignerAdapter};

/// Returns a fixed DER signature and a fixed certificate.
struct FixedSigner {
    der_signature: Vec<u8>,
    cert_der: Vec<u8>,
}

impl HardwareSigner for FixedSigner {
    fn sign(&self, _data: Vec<u8>) -> Result<Vec<u8>, SignerError> {
        Ok(self.der_signature.clone())
    }

    fn certificate_der(&self) -> Result<Vec<u8>, SignerError> {
        Ok(self.cert_der.clone())
    }
}

struct NoCertSigner;

impl HardwareSigner for NoCertSigner {
    fn sign(&self, _data: Vec<u8>) -> Result<Vec<u8>, SignerError> {
        Err(SignerError::HardwareUnavailable)
    }

    fn certificate_der(&self) -> Result<Vec<u8>, SignerError> {
        Err(SignerError::CertificateExportFailed)
    }
}

fn fixed_signer() -> FixedSigner {
    let mut r = [0u8; 32];
    r[0] = 0x80;
    let mut s = [0u8; 32];
    s[31] = 0x2a;
    FixedSigner { der_signature: der_encode_es256(&r, &s), cert_der: vec![0x30, 0x03, 1, 2, 3] }
}

#[test]
fn adapter_converts_der_to_p1363() {
    let adapter = HardwareSignerAdapter::new(fixed_signer()).ok().unwrap();
    let p1363 = adapter.sign(b"anything").unwrap();
    assert_eq!(p1363.len(), 64);
    assert_eq!(p1363[0], 0x80);
    assert_eq!(p1363[63], 0x2a);
    assert!(p1363[1..32].iter().all(|b| *b == 0));
}

#[test]
fn adapter_reports_fixed_capabilities() {
    let adapter = HardwareSignerAdapter::new(fixed_signer()).ok().unwrap();
    assert_eq!(adapter.alg(), "ES256");
    assert_eq!(adapter.reserve_size(), 10240);
    let chain = adapter.certs();
    assert_eq!(chain.len(), 1);
    assert_eq!(chain[0], vec![0x30, 0x03, 1, 2, 3]);
}

#[test]
fn adapter_construction_fails_as_certificate_error() {
    let failure = match HardwareSignerAdapter::new(NoCertSigner) {
        Ok(_) => panic!("construction must fail when the certificate export fails"),
        Err(e) => e,
    };
    assert_eq!(failure, AttestationError::CertificateError);
}

#[test]
fn adapter_surfaces_hardware_failure_message() {
    let adapter = HardwareSignerAdapter::new(FixedSigner {
        der_signature: Vec::new(),
        cert_der: vec![1],
    });
    let adapter = adapter.ok().unwrap();
    // An empty buffer is not a DER SEQUENCE; the codec message is surfaced.
    let message = adapter.sign(b"data").err().unwrap();
    assert_eq!(message, "DER to P1363 conversion error: not a DER SEQUENCE");

    let broken = HardwareSignerAdapter::new(BrokenSigner { cert_der: vec![1] }).ok().unwrap();
    let message = broken.sign(b"data").err().unwrap();
    assert_eq!(message, "Hardware signer error: Key not found");
}

struct BrokenSigner {
    cert_der: Vec<u8>,
}

impl HardwareSigner for BrokenSigner {
    fn sign(&self, _data: Vec<u8>) -> Result<Vec<u8>, SignerError> {
        Err(SignerError::KeyNotFound)
    }

    fn certificate_der(&self) -> Result<Vec<u8>, SignerError> {
        Ok(self.cert_der.clone())
    }
}
