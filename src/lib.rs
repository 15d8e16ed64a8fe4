//! Issuance of verifiable credentials from signed identity claims.
//!
//! The library holds the statements that users sign, the credential contents
//! built from validated proofs, and the ordered decisions of the delegated
//! attestation flow. Signature checks and DID resolution are performed by the
//! caller, which hands their outcomes back to the flow's step functions.
pub mod attestation;
pub mod content;
pub mod flow;
pub mod statement;
pub mod subject;
pub mod text;
