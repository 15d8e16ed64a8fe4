//! Credential contents: the JSON-LD parts of an issued credential, as plain values.
use vstd::prelude::*;
use crate::subject::Subjects;

verus! {

/// Why a credential's content could not be built.
#[derive(Clone, Debug, PartialEq, Eq)]
pub enum ContentError {
    /// The clock gave a time that does not render as `YYYY-MM-DDTHH:MM:SS.mmmZ`.
    BadTimestamp(String),
}

/// The `credentialSubject` of a handle-verification credential.
#[derive(Clone, Debug, PartialEq, Eq)]
pub struct CredentialSubject {
    pub id: String,
    pub same_as: String,
}

/// One provenance record of a credential.
#[derive(Clone, Debug, PartialEq, Eq)]
pub struct Evidence {
    pub type_: Vec<String>,
    /// Property name and value, in a fixed order.
    pub property_set: Vec<(String, String)>,
}

pub open spec fn w3c_context() -> Seq<char> {
    "https://www.w3.org/2018/credentials/v1"@
}

pub open spec fn rebase_context() -> Seq<char> {
    "https://spec.rebase.xyz/contexts/v1"@
}

pub open spec fn verifiable_credential() -> Seq<char> {
    "VerifiableCredential"@
}

/// The views of a list of strings.
pub open spec fn views(v: Seq<String>) -> Seq<Seq<char>> {
    v.map_values(|s: String| s@)
}

/// The `@context` list that every content kind of this library emits.
pub open spec fn credential_context() -> Seq<Seq<char>> {
    seq![w3c_context(), rebase_context()]
}

pub open spec fn reddit_types() -> Seq<Seq<char>> {
    seq![verifiable_credential(), "RedditVerification"@]
}

pub open spec fn image_attestation_types() -> Seq<Seq<char>> {
    seq![verifiable_credential(), "BasicImageAttestation"@]
}

/// Whether `c` fits the pattern character `p`, where `d` stands for a decimal digit.
pub open spec fn fits_pattern(c: char, p: char) -> bool {
    if p == 'd' {
        '0' <= c && c <= '9'
    } else {
        c == p
    }
}

pub open spec fn timestamp_pattern() -> Seq<char> {
    "dddd-dd-ddTdd:dd:dd.dddZ"@
}

/// An RFC 3339 UTC timestamp with millisecond precision: `YYYY-MM-DDTHH:MM:SS.mmmZ`.
pub open spec fn is_millis_utc_timestamp(s: Seq<char>) -> bool {
    s.len() == timestamp_pattern().len() && forall|i: int|
        0 <= i < s.len() ==> fits_pattern(#[trigger] s[i], timestamp_pattern()[i])
}

/// Whether `s` has the shape of a millisecond-precision UTC timestamp.
pub fn is_timestamp(s: &str) -> (r: bool)
    ensures
        r == is_millis_utc_timestamp(s@),
{
    proof {
        reveal_strlit("dddd-dd-ddTdd:dd:dd.dddZ");
    }
    let pattern = "dddd-dd-ddTdd:dd:dd.dddZ";
    let n = s.unicode_len();
    if n != pattern.unicode_len() {
        return false;
    }
    let mut i: usize = 0;
    while i < n
        invariant
            n == s@.len(),
            pattern@ == timestamp_pattern(),
            n == pattern@.len(),
            i <= n,
            forall|j: int| 0 <= j < i ==> fits_pattern(#[trigger] s@[j], timestamp_pattern()[j]),
        decreases n - i,
    {
        let c = s.get_char(i);
        let p = pattern.get_char(i);
        let ok = if p == 'd' {
            '0' <= c && c <= '9'
        } else {
            c == p
        };
        if !ok {
            assert(!fits_pattern(s@[i as int], timestamp_pattern()[i as int]));
            return false;
        }
        i = i + 1;
    }
    true
}

/// Relies on chrono's `Utc::now` and `DateTime::to_rfc3339_opts`, with
/// millisecond precision and a `Z` suffix: the current UTC time as text.
/// The value depends on the clock; nothing is promised of it.
#[verifier::external_body]
fn now_rfc3339_millis() -> (r: String) {
    chrono::Utc::now().to_rfc3339_opts(chrono::SecondsFormat::Millis, true)
}

fn credential_context_vec() -> (r: Vec<String>)
    ensures
        views(r@) == credential_context(),
{
    let r = vec![
        String::from_str("https://www.w3.org/2018/credentials/v1"),
        String::from_str("https://spec.rebase.xyz/contexts/v1"),
    ];
    assert(views(r@) =~= credential_context());
    r
}

/// A credential that a social-media handle belongs to a subject.
#[derive(Clone, Debug, PartialEq, Eq)]
pub struct RedditVerificationContent {
    pub handle: String,
    pub subject: Subjects,
    pub statement: String,
    pub signature: String,
}

pub open spec fn reddit_profile(handle: Seq<char>) -> Seq<char> {
    "https://reddit.com/user/"@ + handle + "/"@
}

impl RedditVerificationContent {
    pub fn context(&self) -> (r: Vec<String>)
        ensures
            views(r@) == credential_context(),
    {
        credential_context_vec()
    }

    pub fn types(&self) -> (r: Vec<String>)
        ensures
            views(r@) == reddit_types(),
    {
        let r = vec![
            String::from_str("VerifiableCredential"),
            String::from_str("RedditVerification"),
        ];
        assert(views(r@) =~= reddit_types());
        r
    }

    pub fn subject(&self) -> (r: CredentialSubject)
        ensures
            r.id@ == self.subject.did_spec(),
            r.same_as@ == reddit_profile(self.handle@),
    {
        proof {
            reveal_strlit("https://reddit.com/user/");
            reveal_strlit("/");
        }
        let mut same_as = String::from_str("https://reddit.com/user/");
        same_as.append(self.handle.as_str());
        same_as.append("/");
        CredentialSubject { id: self.subject.did(), same_as }
    }

    /// The evidence record for a verification made at `timestamp`.
    pub fn evidence_at(&self, timestamp: String) -> (r: Evidence)
        ensures
            r.type_@.len() == 1,
            r.type_@[0]@ == "RedditVerificationMessage"@,
            r.property_set@.len() == 2,
            r.property_set@[0].0@ == "handle"@,
            r.property_set@[0].1@ == self.handle@,
            r.property_set@[1].0@ == "timestamp"@,
            r.property_set@[1].1 == timestamp,
    {
        Evidence {
            type_: vec![String::from_str("RedditVerificationMessage")],
            property_set: vec![
                (String::from_str("handle"), self.handle.clone()),
                (String::from_str("timestamp"), timestamp),
            ],
        }
    }

    /// The evidence record for the clock text `timestamp`: made where the
    /// text is a millisecond-precision UTC timestamp, refused otherwise.
    pub fn evidence_from(&self, timestamp: String) -> (r: Result<Option<Evidence>, ContentError>)
        ensures
            is_millis_utc_timestamp(timestamp@) ==> (r matches Ok(Some(e)) && e.type_@.len() == 1
                && e.type_@[0]@ == "RedditVerificationMessage"@
                && e.property_set@.len() == 2
                && e.property_set@[0].0@ == "handle"@
                && e.property_set@[0].1@ == self.handle@
                && e.property_set@[1].0@ == "timestamp"@
                && e.property_set@[1].1@ == timestamp@),
            !is_millis_utc_timestamp(timestamp@) ==> (r matches Err(ContentError::BadTimestamp(t))
                && t@ == timestamp@),
    {
        if is_timestamp(timestamp.as_str()) {
            Ok(Some(self.evidence_at(timestamp)))
        } else {
            Err(ContentError::BadTimestamp(timestamp))
        }
    }

    /// The evidence record, stamped with the current time as the clock gives
    /// it; whether it is made depends on that text alone, as `evidence_from` states.
    pub fn evidence(&self) -> (r: Result<Option<Evidence>, ContentError>)
        ensures
            r matches Ok(Some(e)) ==> e.type_@.len() == 1
                && e.type_@[0]@ == "RedditVerificationMessage"@
                && e.property_set@.len() == 2
                && e.property_set@[0].0@ == "handle"@
                && e.property_set@[0].1@ == self.handle@
                && e.property_set@[1].0@ == "timestamp"@
                && is_millis_utc_timestamp(e.property_set@[1].1@),
            r matches Err(ContentError::BadTimestamp(t)) ==> !is_millis_utc_timestamp(t@),
            r is Ok ==> r matches Ok(Some(_)),
    {
        let now = now_rfc3339_millis();
        self.evidence_from(now)
    }
}

/// The credential minted for an image attestation.
#[derive(Clone, Debug, PartialEq, Eq)]
pub struct BasicImageAttestationContent {
    pub id: String,
    pub src: String,
    pub signature: String,
}

impl BasicImageAttestationContent {
    pub fn context(&self) -> (r: Vec<String>)
        ensures
            views(r@) == credential_context(),
    {
        credential_context_vec()
    }

    pub fn types(&self) -> (r: Vec<String>)
        ensures
            views(r@) == image_attestation_types(),
    {
        let r = vec![
            String::from_str("VerifiableCredential"),
            String::from_str("BasicImageAttestation"),
        ];
        assert(views(r@) =~= image_attestation_types());
        r
    }
}

} // verus!
