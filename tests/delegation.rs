use rebase::attestation::BasicImageAttestationProof;
use rebase::flow::{
    Capability, DelegatedAttestationFlow, DelegatedAttestationProof, DidMethod, FlowError,
    SiweMessage,
};
use rebase::statement::BasicImageAttestationStatement;
use rebase::subject::{Eip155, Pkh, Subjects};

const SIGNER: &str = "0xABCDEFabcdef0123456789ABCDEFabcdef012345";
const NOW: i64 = 1_700_000_000_000;
const HOUR: i64 = 3_600_000;

fn flow() -> DelegatedAttestationFlow {
    DelegatedAttestationFlow { service_key: "rebase".to_string() }
}

fn eth(a: &str) -> Subjects {
    Subjects::Pkh(Pkh::Eip155(Eip155 { address: a.to_string() }))
}

fn capability(actions: &[&str]) -> Capability {
    Capability {
        service: "rebase".to_string(),
        subject: eth(SIGNER),
        actions: actions.iter().map(|a| a.to_string()).collect(),
    }
}

fn message(uri: &str) -> SiweMessage {
    SiweMessage {
        address: SIGNER.to_string(),
        uri: uri.to_string(),
        not_before: Some(NOW - 1),
        expiration_time: Some(NOW + HOUR),
    }
}

fn proof_for(subject: Subjects) -> DelegatedAttestationProof {
    DelegatedAttestationProof {
        attestation: BasicImageAttestationProof {
            statement: BasicImageAttestationStatement {
                subject,
                src: "https://img/1.png".to_string(),
            },
            signature: "inner".to_string(),
        },
        attestation_signature: "delegate-sig".to_string(),
        siwe_message: "msg".to_string(),
        siwe_signature: "siwe-sig".to_string(),
    }
}

fn lowercase_proof() -> DelegatedAttestationProof {
    proof_for(eth(&SIGNER.to_lowercase()))
}

#[test]
fn delegated_attestation_succeeds() {
    let f = flow();
    let cap = capability(&["attest:image"]);
    let proof = lowercase_proof();
    assert_eq!(f.check_capability(&cap), Ok(()));
    assert_eq!(f.check_message_signature(Ok(())), Ok(()));
    let target = f
        .check_delegation(&proof, &cap, &message("did:key:z6MkTest#key-1"), NOW)
        .unwrap();
    assert_eq!(target.method, DidMethod::Key);
    assert_eq!(target.did_url, "did:key:z6MkTest#key-1");
    assert_eq!(target.did, "did:key:z6MkTest");
    assert_eq!(target.key_name, "key-1");
    assert_eq!(target.statement, proof.generate_statement());
    let jwk = f.check_resolution(Ok("{\"kty\":\"OKP\"}".to_string())).unwrap();
    assert_eq!(jwk, "{\"kty\":\"OKP\"}");
    let content = f.issue(&proof, Ok(())).unwrap();
    assert_eq!(content.types(), vec!["VerifiableCredential", "BasicImageAttestation"]);
    assert_eq!(
        content.context(),
        vec!["https://www.w3.org/2018/credentials/v1", "https://spec.rebase.xyz/contexts/v1"]
    );
    assert_eq!(content.id, format!("did:pkh:eip155:1:{}", SIGNER.to_lowercase()));
    assert_eq!(content.signature, "delegate-sig");
}

#[test]
fn did_web_delegate_is_routed_to_web() {
    let t = flow()
        .check_delegation(
            &lowercase_proof(),
            &capability(&["other", "attest:image"]),
            &message("did:web:example.com#owner"),
            NOW,
        )
        .unwrap();
    assert_eq!(t.method, DidMethod::Web);
    assert_eq!(t.did, "did:web:example.com");
    assert_eq!(t.key_name, "owner");
}

#[test]
fn expired_message_fails_before_resolution() {
    let mut m = message("did:key:z6MkTest#key-1");
    m.expiration_time = Some(NOW - 10);
    let r = flow().check_delegation(&lowercase_proof(), &capability(&["attest:image"]), &m, NOW);
    assert_eq!(r, Err(FlowError::NotValidNow));
    let at_end = flow().check_delegation(
        &lowercase_proof(),
        &capability(&["attest:image"]),
        &message("did:key:z6MkTest#key-1"),
        NOW + HOUR,
    );
    assert_eq!(at_end, Err(FlowError::NotValidNow));
}

#[test]
fn message_not_yet_valid_fails() {
    let r = flow().check_delegation(
        &lowercase_proof(),
        &capability(&["attest:image"]),
        &message("did:key:z6MkTest#key-1"),
        NOW - 2,
    );
    assert_eq!(r, Err(FlowError::NotValidNow));
}

#[test]
fn unauthorized_action_fails() {
    let r = flow().check_delegation(
        &lowercase_proof(),
        &capability(&["attest:other"]),
        &message("did:key:z6MkTest#key-1"),
        NOW,
    );
    assert_eq!(r, Err(FlowError::Unauthorized("attest:image".to_string())));
    let empty = flow().check_delegation(
        &lowercase_proof(),
        &capability(&[]),
        &message("did:key:z6MkTest#key-1"),
        NOW,
    );
    assert_eq!(empty, Err(FlowError::Unauthorized("attest:image".to_string())));
}

#[test]
fn non_ethereum_subject_is_unsupported() {
    let r = flow().check_delegation(
        &proof_for(Subjects::DidWeb("did:web:example.com".to_string())),
        &capability(&["attest:image"]),
        &message("did:key:z6MkTest#key-1"),
        NOW,
    );
    assert_eq!(r, Err(FlowError::UnsupportedSubject("did:web:example.com".to_string())));
}

#[test]
fn flipped_address_character_names_both() {
    let flipped = "0xabcdefabcdef0123456789abcdefabcdef012346";
    let r = flow().check_delegation(
        &proof_for(eth(flipped)),
        &capability(&["attest:image"]),
        &message("did:key:z6MkTest#key-1"),
        NOW,
    );
    assert_eq!(
        r,
        Err(FlowError::AddressMismatch {
            subject: flipped.to_string(),
            signer: SIGNER.to_string(),
        })
    );
}

#[test]
fn delegate_uri_without_single_hash_is_malformed() {
    for uri in ["did:key:z6MkTest", "did:key:z6MkTest#a#b", ""] {
        let r = flow().check_delegation(
            &lowercase_proof(),
            &capability(&["attest:image"]),
            &message(uri),
            NOW,
        );
        assert_eq!(r, Err(FlowError::BadDelegateFormat(uri.to_string())));
    }
}

#[test]
fn unsupported_did_method_is_named() {
    let r = flow().check_delegation(
        &lowercase_proof(),
        &capability(&["attest:image"]),
        &message("did:example:123#key-1"),
        NOW,
    );
    assert_eq!(r, Err(FlowError::UnsupportedMethod("did:example:123".to_string())));
}

#[test]
fn capability_for_other_service_fails() {
    let mut cap = capability(&["attest:image"]);
    cap.service = "elsewhere".to_string();
    assert_eq!(
        flow().check_capability(&cap),
        Err(FlowError::ServiceMismatch {
            expected: "rebase".to_string(),
            found: "elsewhere".to_string(),
        })
    );
}

#[test]
fn outside_failures_are_wrapped() {
    let f = flow();
    assert_eq!(
        f.check_message_signature(Err("bad".to_string())),
        Err(FlowError::BadMessageSignature("bad".to_string()))
    );
    assert_eq!(
        f.check_resolution(Err("no doc".to_string())),
        Err(FlowError::BadLookup("no doc".to_string()))
    );
    assert_eq!(
        f.issue(&lowercase_proof(), Err("mismatch".to_string())),
        Err(FlowError::BadDelegateSignature("mismatch".to_string()))
    );
}

#[test]
fn check_at_current_time() {
    let m = SiweMessage {
        address: SIGNER.to_string(),
        uri: "did:key:z6MkTest#key-1".to_string(),
        not_before: None,
        expiration_time: Some(1_000),
    };
    let (now, r) = flow().check_delegation_now(&lowercase_proof(), &capability(&["attest:image"]), &m);
    assert!(now > 1_600_000_000_000);
    assert_eq!(r, Err(FlowError::NotValidNow));
    let open = SiweMessage { expiration_time: None, ..m };
    let (_, ok) = flow().check_delegation_now(&lowercase_proof(), &capability(&["attest:image"]), &open);
    assert!(ok.is_ok());
}

#[test]
fn instructions_repeat_exactly() {
    let f = flow();
    let a = f.instructions();
    assert_eq!(a, f.instructions());
    assert_eq!(
        a.statement,
        "Fill out the presented form to create content in the form of a credential."
    );
    assert_eq!(a.signature, "");
    let st = BasicImageAttestationStatement { subject: eth("0x1"), src: "s".to_string() };
    let resp = f.statement(&st);
    assert_eq!(resp.statement, st.generate_statement());
    assert_eq!(resp.delimiter, None);
}

#[test]
fn error_descriptions_name_the_values() {
    let e = FlowError::AddressMismatch { subject: "0xaa".to_string(), signer: "0xAB".to_string() };
    assert_eq!(e.description(), "Attestation subject is 0xaa but SIWE signer is 0xAB");
    assert_eq!(
        FlowError::UnsupportedMethod("did:example:1".to_string()).description(),
        "Delegate DID must be of did:web or did:key, got did:example:1"
    );
    assert_eq!(FlowError::NotValidNow.description(), "Capability is not valid at this time");
    assert_eq!(
        FlowError::ServiceMismatch { expected: "a".to_string(), found: "b".to_string() }
            .description(),
        "Capability is for service b but this flow serves a"
    );
    assert_eq!(
        FlowError::BadLookup("timeout".to_string()).description(),
        "Could not build JWK from DID: timeout"
    );
}
