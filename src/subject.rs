//! Identities that credentials speak of, and how each renders as a DID.
use vstd::prelude::*;

verus! {

/// An Ethereum account, identified by its hex address.
#[derive(Clone, Debug, PartialEq, Eq)]
pub struct Eip155 {
    pub address: String,
}

/// A Solana account, identified by its base58 address.
#[derive(Clone, Debug, PartialEq, Eq)]
pub struct Solana {
    pub address: String,
}

/// Blockchain-account identities, rendered as `did:pkh` DIDs.
#[derive(Clone, Debug, PartialEq, Eq)]
pub enum Pkh {
    Eip155(Eip155),
    Solana(Solana),
}

/// The identity kinds a statement or credential may name.
#[derive(Clone, Debug, PartialEq, Eq)]
pub enum Subjects {
    Pkh(Pkh),
    /// A `did:key` DID, held whole.
    DidKey(String),
    /// A `did:web` DID, held whole.
    DidWeb(String),
}

pub open spec fn eip155_did_prefix() -> Seq<char> {
    "did:pkh:eip155:1:"@
}

pub open spec fn solana_did_prefix() -> Seq<char> {
    "did:pkh:solana:4sGjMW1sUnHzSxGspuhpqLDx6wiyjNtZ:"@
}

impl Subjects {
    /// The DID of this identity.
    pub open spec fn did_spec(&self) -> Seq<char> {
        match self {
            Subjects::Pkh(Pkh::Eip155(x)) => eip155_did_prefix() + x.address@,
            Subjects::Pkh(Pkh::Solana(x)) => solana_did_prefix() + x.address@,
            Subjects::DidKey(d) => d@,
            Subjects::DidWeb(d) => d@,
        }
    }

    /// The human-readable name of this identity's kind.
    pub open spec fn statement_title_spec(&self) -> Seq<char> {
        match self {
            Subjects::Pkh(Pkh::Eip155(_)) => "Ethereum Address"@,
            Subjects::Pkh(Pkh::Solana(_)) => "Solana Address"@,
            Subjects::DidKey(_) => "DID Key"@,
            Subjects::DidWeb(_) => "DID Web"@,
        }
    }

    /// The identifier shown to a person next to the title.
    pub open spec fn display_id_spec(&self) -> Seq<char> {
        match self {
            Subjects::Pkh(Pkh::Eip155(x)) => x.address@,
            Subjects::Pkh(Pkh::Solana(x)) => x.address@,
            Subjects::DidKey(d) => d@,
            Subjects::DidWeb(d) => d@,
        }
    }

    pub fn did(&self) -> (r: String)
        ensures
            r@ == self.did_spec(),
    {
        proof {
            reveal_strlit("did:pkh:eip155:1:");
            reveal_strlit("did:pkh:solana:4sGjMW1sUnHzSxGspuhpqLDx6wiyjNtZ:");
        }
        match self {
            Subjects::Pkh(Pkh::Eip155(x)) => {
                String::from_str("did:pkh:eip155:1:").concat(x.address.as_str())
            },
            Subjects::Pkh(Pkh::Solana(x)) => {
                String::from_str("did:pkh:solana:4sGjMW1sUnHzSxGspuhpqLDx6wiyjNtZ:").concat(
                    x.address.as_str(),
                )
            },
            Subjects::DidKey(d) => d.clone(),
            Subjects::DidWeb(d) => d.clone(),
        }
    }

    pub fn statement_title(&self) -> (r: String)
        ensures
            r@ == self.statement_title_spec(),
    {
        match self {
            Subjects::Pkh(Pkh::Eip155(_)) => String::from_str("Ethereum Address"),
            Subjects::Pkh(Pkh::Solana(_)) => String::from_str("Solana Address"),
            Subjects::DidKey(_) => String::from_str("DID Key"),
            Subjects::DidWeb(_) => String::from_str("DID Web"),
        }
    }

    pub fn display_id(&self) -> (r: String)
        ensures
            r@ == self.display_id_spec(),
    {
        match self {
            Subjects::Pkh(Pkh::Eip155(x)) => x.address.clone(),
            Subjects::Pkh(Pkh::Solana(x)) => x.address.clone(),
            Subjects::DidKey(d) => d.clone(),
            Subjects::DidWeb(d) => d.clone(),
        }
    }
}

} // verus!
