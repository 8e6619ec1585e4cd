//! Signing-pipeline core for producing cryptographically attested JPEG photos:
//! a DER-to-P1363 signature codec, a deterministic provenance-manifest builder,
//! an adapter that lets a hardware signing capability drive the manifest
//! embedder, and the orchestration that ties them together.

pub mod codec;
pub mod digest;
pub mod embedder;
pub mod errors;
pub mod geo;
pub mod manifest;
pub mod pipeline;
pub mod signer;
pub mod strutil;
