//! Provenance attestation core: field canonicalization, the two-level
//! Poseidon commitment, and the staged proof and verification pipelines.
pub mod commitment;
pub mod document;
pub mod field;
pub mod pipeline;
pub mod request;
pub mod verification;
