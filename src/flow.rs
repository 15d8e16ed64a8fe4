//! The delegated-attestation flow: ordered, fail-fast checks of a capability
//! delegation before an attestation credential is minted.
//!
//! The flow decides; its caller performs the outside work. The caller checks
//! the signed message's signature, resolves the delegate's DID and checks the
//! delegate's signature, and hands each outcome to the next step function.
use vstd::prelude::*;
use crate::attestation::{image_attestation_action, BasicImageAttestationProof};
use crate::content::BasicImageAttestationContent;
use crate::statement::{image_attestation_text, BasicImageAttestationStatement};
use crate::subject::{Pkh, Subjects};
use crate::text::{
    count_of, eq_ignore_ascii_case, has_prefix, last_index_of, lower_seq, split_once_at,
    starts_with,
};

verus! {

/// A flow bound to the service whose capabilities it honours.
#[derive(Clone, Debug, PartialEq, Eq)]
pub struct DelegatedAttestationFlow {
    pub service_key: String,
}

/// The prompts shown to a user for the statement and witness steps.
#[derive(Clone, Debug, PartialEq, Eq)]
pub struct Instructions {
    pub statement: String,
    pub signature: String,
    pub witness: String,
}

/// The text to sign, and where present how to splice it into a larger payload.
#[derive(Clone, Debug, PartialEq, Eq)]
pub struct StatementResponse {
    pub statement: String,
    pub delimiter: Option<String>,
}

/// A capability parsed from a signed message, scoped to one service.
#[derive(Clone, Debug, PartialEq, Eq)]
pub struct Capability {
    /// The service the capability was granted for.
    pub service: String,
    /// The delegator that signed the message.
    pub subject: Subjects,
    /// The action types the delegate may perform.
    pub actions: Vec<String>,
}

/// The fields of a signed sign-in message that the flow reads.
#[derive(Clone, Debug, PartialEq, Eq)]
pub struct SiweMessage {
    /// The signer's hex address.
    pub address: String,
    /// The delegate's key, as `<did>#<key-name>`.
    pub uri: String,
    /// Start of the validity window, in milliseconds since the Unix epoch.
    pub not_before: Option<i64>,
    /// End of the validity window (excluded), in milliseconds since the Unix epoch.
    pub expiration_time: Option<i64>,
}

/// A delegated attestation: the attestation, the delegate's signature over it,
/// and the delegator's signed message with its signature.
#[derive(Clone, Debug, PartialEq, Eq)]
pub struct DelegatedAttestationProof {
    pub attestation: BasicImageAttestationProof,
    pub attestation_signature: String,
    pub siwe_message: String,
    pub siwe_signature: String,
}

impl DelegatedAttestationProof {
    /// The signed text, which is that of the nested attestation.
    pub fn generate_statement(&self) -> (r: String)
        ensures
            r@ == image_attestation_text(
                self.attestation.statement.subject,
                self.attestation.statement.src@,
            ),
    {
        self.attestation.generate_statement()
    }

    /// The content of an already validated proof, carrying the delegate's
    /// signature. It checks nothing itself.
    pub fn to_content(&self, _statement: &str, signature: &str) -> (r: BasicImageAttestationContent)
        ensures
            r.id@ == self.attestation.statement.subject.did_spec(),
            r.src@ == self.attestation.statement.src@,
            r.signature@ == signature@,
    {
        BasicImageAttestationContent {
            id: self.attestation.statement.subject.did(),
            src: self.attestation.statement.src.clone(),
            signature: String::from_str(signature),
        }
    }
}

/// The DID methods whose delegates the flow can resolve.
#[derive(Clone, Copy, Debug, PartialEq, Eq)]
pub enum DidMethod {
    Key,
    Web,
}

/// What the caller must resolve and check once every local check has passed.
#[derive(Clone, Debug, PartialEq, Eq)]
pub struct DelegateTarget {
    pub method: DidMethod,
    /// The full DID URL, key fragment included, handed to the resolver.
    pub did_url: String,
    pub did: String,
    pub key_name: String,
    /// The attestation text the delegate's signature must cover.
    pub statement: String,
}

pub struct DelegateTargetView {
    pub method: DidMethod,
    pub did_url: Seq<char>,
    pub did: Seq<char>,
    pub key_name: Seq<char>,
    pub statement: Seq<char>,
}

impl View for DelegateTarget {
    type V = DelegateTargetView;

    open spec fn view(&self) -> DelegateTargetView {
        DelegateTargetView {
            method: self.method,
            did_url: self.did_url@,
            did: self.did@,
            key_name: self.key_name@,
            statement: self.statement@,
        }
    }
}

/// Why a validation failed; each variant names one step of the chain.
#[derive(Clone, Debug, PartialEq, Eq)]
pub enum FlowError {
    /// The capability was granted for another service.
    ServiceMismatch { expected: String, found: String },
    /// The signed message's own signature does not verify.
    BadMessageSignature(String),
    /// The current time lies outside the message's validity window.
    NotValidNow,
    /// The capability does not authorize this action type.
    Unauthorized(String),
    /// The attestation's subject is not an Ethereum account; its DID is given.
    UnsupportedSubject(String),
    /// The attestation's subject and the message's signer differ.
    AddressMismatch { subject: String, signer: String },
    /// The delegate URI is not of the form `<did>#<key-name>`.
    BadDelegateFormat(String),
    /// The delegate DID is neither `did:key` nor `did:web`.
    UnsupportedMethod(String),
    /// The delegate DID could not be resolved to a key.
    BadLookup(String),
    /// The delegate's signature over the attestation does not verify.
    BadDelegateSignature(String),
}

pub enum Failure {
    ServiceMismatch(Seq<char>, Seq<char>),
    BadMessageSignature(Seq<char>),
    NotValidNow,
    Unauthorized(Seq<char>),
    UnsupportedSubject(Seq<char>),
    AddressMismatch(Seq<char>, Seq<char>),
    BadDelegateFormat(Seq<char>),
    UnsupportedMethod(Seq<char>),
    BadLookup(Seq<char>),
    BadDelegateSignature(Seq<char>),
}

impl View for FlowError {
    type V = Failure;

    open spec fn view(&self) -> Failure {
        match self {
            FlowError::ServiceMismatch { expected, found } => Failure::ServiceMismatch(
                expected@,
                found@,
            ),
            FlowError::BadMessageSignature(s) => Failure::BadMessageSignature(s@),
            FlowError::NotValidNow => Failure::NotValidNow,
            FlowError::Unauthorized(s) => Failure::Unauthorized(s@),
            FlowError::UnsupportedSubject(s) => Failure::UnsupportedSubject(s@),
            FlowError::AddressMismatch { subject, signer } => Failure::AddressMismatch(
                subject@,
                signer@,
            ),
            FlowError::BadDelegateFormat(s) => Failure::BadDelegateFormat(s@),
            FlowError::UnsupportedMethod(s) => Failure::UnsupportedMethod(s@),
            FlowError::BadLookup(s) => Failure::BadLookup(s@),
            FlowError::BadDelegateSignature(s) => Failure::BadDelegateSignature(s@),
        }
    }
}

/// The human-readable description of a failure.
pub open spec fn failure_text(f: Failure) -> Seq<char> {
    match f {
        Failure::ServiceMismatch(expected, found) => "Capability is for service "@ + found
            + " but this flow serves "@ + expected,
        Failure::BadMessageSignature(e) => "Signed message did not verify: "@ + e,
        Failure::NotValidNow => "Capability is not valid at this time"@,
        Failure::Unauthorized(a) => "ReCap did not authorize issuance of credential type: "@ + a,
        Failure::UnsupportedSubject(d) => "Subject expected to be did:pkh:eip155, got: "@ + d,
        Failure::AddressMismatch(subject, signer) => "Attestation subject is "@ + subject
            + " but SIWE signer is "@ + signer,
        Failure::BadDelegateFormat(u) => "Delegate DID was not in expected format: "@ + u,
        Failure::UnsupportedMethod(d) => "Delegate DID must be of did:web or did:key, got "@ + d,
        Failure::BadLookup(e) => "Could not build JWK from DID: "@ + e,
        Failure::BadDelegateSignature(e) => "Delegate signature did not verify: "@ + e,
    }
}

fn prefixed(prefix: &str, rest: &String) -> (r: String)
    ensures
        r@ == prefix@ + rest@,
{
    String::from_str(prefix).concat(rest.as_str())
}

impl FlowError {
    /// Names the failed check and the values it was applied to.
    pub fn description(&self) -> (r: String)
        ensures
            r@ == failure_text(self@),
    {
        proof {
            reveal_strlit("Capability is for service ");
            reveal_strlit(" but this flow serves ");
            reveal_strlit("Signed message did not verify: ");
            reveal_strlit("Capability is not valid at this time");
            reveal_strlit("ReCap did not authorize issuance of credential type: ");
            reveal_strlit("Subject expected to be did:pkh:eip155, got: ");
            reveal_strlit("Attestation subject is ");
            reveal_strlit(" but SIWE signer is ");
            reveal_strlit("Delegate DID was not in expected format: ");
            reveal_strlit("Delegate DID must be of did:web or did:key, got ");
            reveal_strlit("Could not build JWK from DID: ");
            reveal_strlit("Delegate signature did not verify: ");
        }
        match self {
            FlowError::ServiceMismatch { expected, found } => {
                let mut s = prefixed("Capability is for service ", found);
                s.append(" but this flow serves ");
                s.append(expected.as_str());
                s
            },
            FlowError::BadMessageSignature(e) => prefixed("Signed message did not verify: ", e),
            FlowError::NotValidNow => String::from_str("Capability is not valid at this time"),
            FlowError::Unauthorized(a) => prefixed(
                "ReCap did not authorize issuance of credential type: ",
                a,
            ),
            FlowError::UnsupportedSubject(d) => prefixed(
                "Subject expected to be did:pkh:eip155, got: ",
                d,
            ),
            FlowError::AddressMismatch { subject, signer } => {
                let mut s = prefixed("Attestation subject is ", subject);
                s.append(" but SIWE signer is ");
                s.append(signer.as_str());
                s
            },
            FlowError::BadDelegateFormat(u) => prefixed(
                "Delegate DID was not in expected format: ",
                u,
            ),
            FlowError::UnsupportedMethod(d) => prefixed(
                "Delegate DID must be of did:web or did:key, got ",
                d,
            ),
            FlowError::BadLookup(e) => prefixed("Could not build JWK from DID: ", e),
            FlowError::BadDelegateSignature(e) => prefixed("Delegate signature did not verify: ", e),
        }
    }
}

/// The view of a step's result.
pub open spec fn result_view<T: View>(r: Result<T, FlowError>) -> Result<T::V, Failure> {
    match r {
        Ok(t) => Ok(t@),
        Err(e) => Err(e@),
    }
}

pub open spec fn statement_prompt() -> Seq<char> {
    "Fill out the presented form to create content in the form of a credential."@
}

pub open spec fn witness_prompt() -> Seq<char> {
    "Present the signature and the content object to the witness to have it transformed into a credential."@
}

/// Whether `now` lies in the message's window: from `not_before` on, before `expiration_time`.
pub open spec fn valid_at(msg: SiweMessage, now: int) -> bool {
    (msg.not_before matches Some(nb) ==> nb <= now)
        && (msg.expiration_time matches Some(exp) ==> now < exp)
}

/// Whether one of `actions` is `action`.
pub open spec fn authorizes(actions: Seq<String>, action: Seq<char>) -> bool {
    exists|i: int| 0 <= i < actions.len() && (#[trigger] actions[i])@ == action
}

/// Whether two hex addresses are the same account, whatever their letter case.
pub open spec fn same_address(a: Seq<char>, b: Seq<char>) -> bool {
    lower_seq(a) == lower_seq(b)
}

/// Whether the attestation's subject is an Ethereum account and the message's signer.
pub open spec fn signed_by_subject(proof: DelegatedAttestationProof, msg: SiweMessage) -> bool {
    match proof.attestation.statement.subject {
        Subjects::Pkh(Pkh::Eip155(x)) => same_address(x.address@, msg.address@),
        _ => false,
    }
}

/// The resolver for a DID, chosen by its method prefix.
pub open spec fn did_method(did: Seq<char>) -> Option<DidMethod> {
    if has_prefix(did, "did:key:"@) {
        Some(DidMethod::Key)
    } else if has_prefix(did, "did:web:"@) {
        Some(DidMethod::Web)
    } else {
        None
    }
}

/// The DID part of a delegate URI `<did>#<key-name>`.
pub open spec fn delegate_did(uri: Seq<char>) -> Seq<char> {
    uri.subrange(0, last_index_of(uri, '#'))
}

/// The key-name part of a delegate URI `<did>#<key-name>`.
pub open spec fn delegate_key_name(uri: Seq<char>) -> Seq<char> {
    uri.subrange(last_index_of(uri, '#') + 1, uri.len() as int)
}

/// The local checks, in order, from the validity window to the choice of
/// resolver; the first one that fails decides the error.
pub open spec fn delegation_check(
    proof: DelegatedAttestationProof,
    cap: Capability,
    msg: SiweMessage,
    now: int,
) -> Result<DelegateTargetView, Failure> {
    let subject = proof.attestation.statement.subject;
    let uri = msg.uri@;
    if !valid_at(msg, now) {
        Err(Failure::NotValidNow)
    } else if !authorizes(cap.actions@, image_attestation_action()) {
        Err(Failure::Unauthorized(image_attestation_action()))
    } else {
        match subject {
            Subjects::Pkh(Pkh::Eip155(x)) => {
                if !same_address(x.address@, msg.address@) {
                    Err(Failure::AddressMismatch(x.address@, msg.address@))
                } else if count_of(uri, '#') != 1 {
                    Err(Failure::BadDelegateFormat(uri))
                } else {
                    match did_method(delegate_did(uri)) {
                        None => Err(Failure::UnsupportedMethod(delegate_did(uri))),
                        Some(method) => Ok(
                            DelegateTargetView {
                                method,
                                did_url: uri,
                                did: delegate_did(uri),
                                key_name: delegate_key_name(uri),
                                statement: image_attestation_text(
                                    subject,
                                    proof.attestation.statement.src@,
                                ),
                            },
                        ),
                    }
                }
            },
            _ => Err(Failure::UnsupportedSubject(subject.did_spec())),
        }
    }
}

fn authorizes_action(actions: &Vec<String>, action: &String) -> (r: bool)
    ensures
        r == authorizes(actions@, action@),
{
    let mut i: usize = 0;
    while i < actions.len()
        invariant
            i <= actions@.len(),
            forall|j: int| 0 <= j < i ==> (#[trigger] actions@[j])@ != action@,
        decreases actions@.len() - i,
    {
        if actions[i] == *action {
            return true;
        }
        i = i + 1;
    }
    false
}

impl DelegatedAttestationFlow {
    /// The prompts of this flow; the same on every call.
    pub fn instructions(&self) -> (r: Instructions)
        ensures
            r.statement@ == statement_prompt(),
            r.signature@ == Seq::<char>::empty(),
            r.witness@ == witness_prompt(),
    {
        proof {
            reveal_strlit("");
        }
        Instructions {
            statement: String::from_str(
                "Fill out the presented form to create content in the form of a credential.",
            ),
            signature: String::from_str(""),
            witness: String::from_str(
                "Present the signature and the content object to the witness to have it transformed into a credential.",
            ),
        }
    }

    /// The text a user signs for `statement`; it needs no delimiter.
    pub fn statement(&self, statement: &BasicImageAttestationStatement) -> (r: StatementResponse)
        ensures
            r.statement@ == image_attestation_text(statement.subject, statement.src@),
            r.delimiter is None,
    {
        StatementResponse { statement: statement.generate_statement(), delimiter: None }
    }

    /// First step: the capability must be scoped to this flow's service.
    pub fn check_capability(&self, cap: &Capability) -> (r: Result<(), FlowError>)
        ensures
            r is Ok <==> cap.service@ == self.service_key@,
            r matches Err(e) ==> e@ == Failure::ServiceMismatch(self.service_key@, cap.service@),
    {
        if cap.service == self.service_key {
            Ok(())
        } else {
            Err(
                FlowError::ServiceMismatch {
                    expected: self.service_key.clone(),
                    found: cap.service.clone(),
                },
            )
        }
    }

    /// Second step: the outcome of checking the message's signature against
    /// the capability's subject; an error carries the checker's reason.
    pub fn check_message_signature(&self, outcome: Result<(), String>) -> (r: Result<(), FlowError>)
        ensures
            r is Ok <==> outcome is Ok,
            outcome matches Err(e) ==> r matches Err(f) && f@ == Failure::BadMessageSignature(e@),
    {
        match outcome {
            Ok(()) => Ok(()),
            Err(e) => Err(FlowError::BadMessageSignature(e)),
        }
    }

    /// The checks from the validity window at `now` to the choice of resolver.
    /// An error here means that no resolver is to be called.
    pub fn check_delegation(
        &self,
        proof: &DelegatedAttestationProof,
        cap: &Capability,
        msg: &SiweMessage,
        now: i64,
    ) -> (r: Result<DelegateTarget, FlowError>)
        ensures
            result_view(r) == delegation_check(*proof, *cap, *msg, now as int),
    {
        proof {
            reveal_strlit("did:key:");
            reveal_strlit("did:web:");
        }
        let valid = match msg.not_before {
            Some(nb) => nb <= now,
            None => true,
        } && match msg.expiration_time {
            Some(exp) => now < exp,
            None => true,
        };
        if !valid {
            return Err(FlowError::NotValidNow);
        }
        let action = proof.attestation.action();
        if !authorizes_action(&cap.actions, &action) {
            return Err(FlowError::Unauthorized(action));
        }
        let subject = &proof.attestation.statement.subject;
        let address = match subject {
            Subjects::Pkh(Pkh::Eip155(x)) => &x.address,
            _ => {
                return Err(FlowError::UnsupportedSubject(subject.did()));
            },
        };
        if !eq_ignore_ascii_case(address.as_str(), msg.address.as_str()) {
            return Err(
                FlowError::AddressMismatch { subject: address.clone(), signer: msg.address.clone() },
            );
        }
        let (did, key_name) = match split_once_at(msg.uri.as_str(), '#') {
            Some(parts) => parts,
            None => {
                return Err(FlowError::BadDelegateFormat(msg.uri.clone()));
            },
        };
        let method = if starts_with(did.as_str(), "did:key:") {
            DidMethod::Key
        } else if starts_with(did.as_str(), "did:web:") {
            DidMethod::Web
        } else {
            return Err(FlowError::UnsupportedMethod(did));
        };
        let target = DelegateTarget {
            method,
            did_url: msg.uri.clone(),
            did,
            key_name,
            statement: proof.attestation.generate_statement(),
        };
        Ok(target)
    }

    /// The resolver's outcome: a key as JSON text, or the resolver's reason.
    pub fn check_resolution(&self, outcome: Result<String, String>) -> (r: Result<String, FlowError>)
        ensures
            outcome matches Ok(k) ==> r matches Ok(j) && j@ == k@,
            outcome matches Err(e) ==> r matches Err(f) && f@ == Failure::BadLookup(e@),
    {
        match outcome {
            Ok(k) => Ok(k),
            Err(e) => Err(FlowError::BadLookup(e)),
        }
    }

    /// Last step: the outcome of building the delegate's key and checking its
    /// signature over the attestation. On success the credential is minted.
    pub fn issue(&self, proof: &DelegatedAttestationProof, outcome: Result<(), String>) -> (r: Result<
        BasicImageAttestationContent,
        FlowError,
    >)
        ensures
            r is Ok <==> outcome is Ok,
            r matches Ok(c) ==> c.id@ == proof.attestation.statement.subject.did_spec()
                && c.src@ == proof.attestation.statement.src@
                && c.signature@ == proof.attestation_signature@,
            outcome matches Err(e) ==> r matches Err(f) && f@ == Failure::BadDelegateSignature(e@),
    {
        match outcome {
            Ok(()) => {
                let statement = proof.generate_statement();
                Ok(proof.to_content(statement.as_str(), proof.attestation_signature.as_str()))
            },
            Err(e) => Err(FlowError::BadDelegateSignature(e)),
        }
    }
}

/// Relies on chrono's `Utc::now` and `DateTime::timestamp_millis`: the
/// current time in milliseconds since the Unix epoch. The value depends on
/// the clock; nothing is promised of it.
#[verifier::external_body]
fn now_millis() -> (r: i64) {
    chrono::Utc::now().timestamp_millis()
}

impl DelegatedAttestationFlow {
    /// `check_delegation` at the current time; the time read is returned with
    /// the result.
    pub fn check_delegation_now(
        &self,
        proof: &DelegatedAttestationProof,
        cap: &Capability,
        msg: &SiweMessage,
    ) -> (r: (i64, Result<DelegateTarget, FlowError>))
        ensures
            result_view(r.1) == delegation_check(*proof, *cap, *msg, r.0 as int),
    {
        let now = now_millis();
        (now, self.check_delegation(proof, cap, msg, now))
    }
}

/// A delegation that meets every local check yields the target to resolve:
/// the DID and key name split from the message's URI, the resolver its
/// method names, and the attestation text the delegate must have signed.
pub proof fn lemma_valid_delegation_accepted(
    proof: DelegatedAttestationProof,
    cap: Capability,
    msg: SiweMessage,
    now: int,
    address: Seq<char>,
)
    requires
        valid_at(msg, now),
        authorizes(cap.actions@, image_attestation_action()),
        proof.attestation.statement.subject matches Subjects::Pkh(Pkh::Eip155(x)) && x.address@
            == address,
        same_address(address, msg.address@),
        count_of(msg.uri@, '#') == 1,
        did_method(delegate_did(msg.uri@)) is Some,
    ensures
        delegation_check(proof, cap, msg, now) matches Ok(t) && t.did_url == msg.uri@ && t.did
            == delegate_did(msg.uri@) && t.key_name == delegate_key_name(msg.uri@) && Some(
            t.method,
        ) == did_method(delegate_did(msg.uri@)) && t.statement == image_attestation_text(
            proof.attestation.statement.subject,
            proof.attestation.statement.src@,
        ) && delegate_did(msg.uri@) + seq!['#'] + delegate_key_name(msg.uri@) == msg.uri@,
{
    crate::text::lemma_last_index_bounds(msg.uri@, '#');
    assert(delegate_did(msg.uri@) + seq!['#'] + delegate_key_name(msg.uri@) =~= msg.uri@);
}

/// A message whose validity window has ended, or not yet begun, fails at the
/// time check, so no resolver is ever called for it.
pub proof fn lemma_expired_message_rejected(
    proof: DelegatedAttestationProof,
    cap: Capability,
    msg: SiweMessage,
    now: int,
)
    requires
        !valid_at(msg, now),
    ensures
        delegation_check(proof, cap, msg, now) == Err::<DelegateTargetView, Failure>(
            Failure::NotValidNow,
        ),
{
}

/// A capability that lacks the attestation's action type fails at the
/// authorization check, naming that action, before any delegate signature is
/// checked.
pub proof fn lemma_unauthorized_action_rejected(
    proof: DelegatedAttestationProof,
    cap: Capability,
    msg: SiweMessage,
    now: int,
)
    requires
        valid_at(msg, now),
        !authorizes(cap.actions@, image_attestation_action()),
    ensures
        delegation_check(proof, cap, msg, now) == Err::<DelegateTargetView, Failure>(
            Failure::Unauthorized(image_attestation_action()),
        ),
{
}

/// A delegate URI with no `#`, or more than one, is never accepted; where every
/// earlier check passes, it fails with a format error.
pub proof fn lemma_malformed_delegate_rejected(
    proof: DelegatedAttestationProof,
    cap: Capability,
    msg: SiweMessage,
    now: int,
)
    requires
        count_of(msg.uri@, '#') != 1,
    ensures
        delegation_check(proof, cap, msg, now) is Err,
        (valid_at(msg, now) && authorizes(cap.actions@, image_attestation_action())
            && signed_by_subject(proof, msg)) ==> delegation_check(proof, cap, msg, now)
            == Err::<DelegateTargetView, Failure>(Failure::BadDelegateFormat(msg.uri@)),
{
}

/// A delegate DID of any method but `did:key` and `did:web` is never accepted;
/// where every earlier check passes, the error names that DID.
pub proof fn lemma_unsupported_method_rejected(
    proof: DelegatedAttestationProof,
    cap: Capability,
    msg: SiweMessage,
    now: int,
)
    requires
        count_of(msg.uri@, '#') == 1,
        did_method(delegate_did(msg.uri@)) is None,
    ensures
        delegation_check(proof, cap, msg, now) is Err,
        (valid_at(msg, now) && authorizes(cap.actions@, image_attestation_action())
            && signed_by_subject(proof, msg)) ==> delegation_check(proof, cap, msg, now)
            == Err::<DelegateTargetView, Failure>(
            Failure::UnsupportedMethod(delegate_did(msg.uri@)),
        ),
{
}

/// Addresses are compared without regard to letter case: two spellings of one
/// address that differ only in case pass the subject check, and two different
/// addresses fail it with an error that names both.
pub proof fn lemma_address_comparison(
    proof: DelegatedAttestationProof,
    cap: Capability,
    msg: SiweMessage,
    now: int,
    address: Seq<char>,
)
    requires
        valid_at(msg, now),
        authorizes(cap.actions@, image_attestation_action()),
        proof.attestation.statement.subject matches Subjects::Pkh(Pkh::Eip155(x)) && x.address@
            == address,
    ensures
        (address.len() == msg.address@.len() && forall|i: int|
            0 <= i < address.len() ==> crate::text::lower_char(#[trigger] address[i])
                == crate::text::lower_char(msg.address@[i])) ==> !(delegation_check(
            proof,
            cap,
            msg,
            now,
        ) matches Err(Failure::AddressMismatch(_, _))),
        !same_address(address, msg.address@) ==> delegation_check(proof, cap, msg, now)
            == Err::<DelegateTargetView, Failure>(Failure::AddressMismatch(address, msg.address@)),
{
    if address.len() == msg.address@.len() && forall|i: int|
        0 <= i < address.len() ==> crate::text::lower_char(#[trigger] address[i])
            == crate::text::lower_char(msg.address@[i]) {
        assert(lower_seq(address) =~= lower_seq(msg.address@));
    }
}

} // verus!
