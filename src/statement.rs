//! Statements: the canonical text a user signs.
use vstd::prelude::*;
use crate::subject::Subjects;

verus! {

/// A claim that one controller holds both identities.
#[derive(Clone, Debug, PartialEq, Eq)]
pub struct SameControllerAssertionStatement {
    pub id1: Subjects,
    pub id2: Subjects,
}

pub open spec fn same_controller_text(id1: Subjects, id2: Subjects) -> Seq<char> {
    "I am attesting that "@ + id1.statement_title_spec() + " "@ + id1.display_id_spec()
        + " is linked to "@ + id2.statement_title_spec() + " "@ + id2.display_id_spec()
}

impl SameControllerAssertionStatement {
    /// The text both identities' controller signs.
    pub fn generate_statement(&self) -> (r: String)
        ensures
            r@ == same_controller_text(self.id1, self.id2),
    {
        proof {
            reveal_strlit("I am attesting that ");
            reveal_strlit(" ");
            reveal_strlit(" is linked to ");
        }
        let mut s = String::from_str("I am attesting that ");
        s.append(self.id1.statement_title().as_str());
        s.append(" ");
        s.append(self.id1.display_id().as_str());
        s.append(" is linked to ");
        s.append(self.id2.statement_title().as_str());
        s.append(" ");
        s.append(self.id2.display_id().as_str());
        s
    }
}

/// A claim that an identity attests to an image, found at `src`.
#[derive(Clone, Debug, PartialEq, Eq)]
pub struct BasicImageAttestationStatement {
    pub subject: Subjects,
    pub src: String,
}

pub open spec fn image_attestation_text(subject: Subjects, src: Seq<char>) -> Seq<char> {
    "I am attesting to the image at "@ + src + " as "@ + subject.statement_title_spec() + " "@
        + subject.display_id_spec()
}

impl BasicImageAttestationStatement {
    /// The text the attesting identity signs.
    pub fn generate_statement(&self) -> (r: String)
        ensures
            r@ == image_attestation_text(self.subject, self.src@),
    {
        proof {
            reveal_strlit("I am attesting to the image at ");
            reveal_strlit(" as ");
            reveal_strlit(" ");
        }
        let mut s = String::from_str("I am attesting to the image at ");
        s.append(self.src.as_str());
        s.append(" as ");
        s.append(self.subject.statement_title().as_str());
        s.append(" ");
        s.append(self.subject.display_id().as_str());
        s
    }
}

} // verus!
