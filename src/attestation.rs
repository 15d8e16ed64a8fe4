//! Proofs: a statement bound to its signature, turned into content once validated.
use vstd::prelude::*;
use crate::content::BasicImageAttestationContent;
use crate::statement::{image_attestation_text, BasicImageAttestationStatement};

verus! {

/// An image attestation together with the signature over its statement.
#[derive(Clone, Debug, PartialEq, Eq)]
pub struct BasicImageAttestationProof {
    pub statement: BasicImageAttestationStatement,
    pub signature: String,
}

/// The capability action that authorizes image attestations.
pub open spec fn image_attestation_action() -> Seq<char> {
    "attest:image"@
}

impl BasicImageAttestationProof {
    /// The signed text, which is that of the nested statement.
    pub fn generate_statement(&self) -> (r: String)
        ensures
            r@ == image_attestation_text(self.statement.subject, self.statement.src@),
    {
        self.statement.generate_statement()
    }

    /// The capability action this attestation needs.
    pub fn action(&self) -> (r: String)
        ensures
            r@ == image_attestation_action(),
    {
        String::from_str("attest:image")
    }

    /// The content of an already validated proof. It checks nothing itself.
    pub fn to_content(&self, _statement: &str, _signature: &str) -> (r: BasicImageAttestationContent)
        ensures
            r.id@ == self.statement.subject.did_spec(),
            r.src@ == self.statement.src@,
            r.signature@ == self.signature@,
    {
        BasicImageAttestationContent {
            id: self.statement.subject.did(),
            src: self.statement.src.clone(),
            signature: self.signature.clone(),
        }
    }
}

} // verus!
