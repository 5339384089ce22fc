use base64::Engine;
use compute_worker::b64::base64_of;
use compute_worker::json::canonical_signing_payload;
use compute_worker::signing::{sign_result, verify_detached, Identity};
use compute_worker::task::ResultData;

fn result_data(id: &str, worker: &str, output: f64) -> ResultData {
    ResultData {
        id: id.to_string(),
        worker: worker.to_string(),
        output: output.to_bits(),
        kind: Some("arithmetic".to_string()),
        payload: None,
    }
}

fn number_text(x: f64) -> Vec<u8> {
    serde_json::to_vec(&x).unwrap()
}

#[test]
fn public_key_is_32_bytes_and_base64_matches() {
    let identity = Identity::generate().unwrap();
    let pk = identity.public_key_bytes();
    assert_eq!(pk.len(), 32);
    let expected = base64::engine::general_purpose::STANDARD.encode(pk.as_slice());
    assert_eq!(identity.public_key_base64(), expected);
}

#[test]
fn base64_known_vectors() {
    assert_eq!(base64_of(&Vec::new()), "");
    assert_eq!(base64_of(&vec![1, 2, 3]), "AQID");
    assert_eq!(base64_of(&vec![255]), "/w==");
    assert_eq!(base64_of(&vec![77, 97]), "TWE=");
    let long: Vec<u8> = (0..=255u8).collect();
    assert_eq!(base64_of(&long), base64::engine::general_purpose::STANDARD.encode(&long));
}

#[test]
fn canonical_payload_matches_reference_serializer() {
    let id = "task \"quoted\" \\ line\nbreak\ttab\u{1} à";
    let worker = "worker-π";
    let output = 0.1f64 + 0.2f64;
    let canonical = canonical_signing_payload(id, worker, &number_text(output));
    let expected = format!(
        "{{\"id\":{},\"worker\":{},\"output\":{}}}",
        serde_json::to_string(id).unwrap(),
        serde_json::to_string(worker).unwrap(),
        serde_json::to_string(&output).unwrap(),
    );
    assert_eq!(canonical, expected.into_bytes());
}

#[test]
fn signing_roundtrip_verifies() {
    let identity = Identity::generate().unwrap();
    let result = result_data("task-7", "worker-node", 42.5);
    let attestation = sign_result(&identity, &result, &number_text(42.5)).unwrap();
    assert_eq!(attestation.signature.len(), 64);
    assert_eq!(
        attestation.signature_b64,
        base64::engine::general_purpose::STANDARD.encode(&attestation.signature)
    );
    assert!(verify_detached(
        identity.public_key_bytes(),
        &attestation.canonical,
        &attestation.signature
    ));
}

#[test]
fn verification_fails_when_id_worker_or_output_changes() {
    let identity = Identity::generate().unwrap();
    let result = result_data("task-7", "worker-node", 42.5);
    let attestation = sign_result(&identity, &result, &number_text(42.5)).unwrap();
    let pk = identity.public_key_bytes();

    let other_id = canonical_signing_payload("task-8", "worker-node", &number_text(42.5));
    assert!(!verify_detached(pk, &other_id, &attestation.signature));

    let other_worker = canonical_signing_payload("task-7", "worker-2", &number_text(42.5));
    assert!(!verify_detached(pk, &other_worker, &attestation.signature));

    let other_output = canonical_signing_payload("task-7", "worker-node", &number_text(43.5));
    assert!(!verify_detached(pk, &other_output, &attestation.signature));
}

#[test]
fn kind_and_payload_do_not_affect_the_signature() {
    let identity = Identity::generate().unwrap();
    let mut plain = result_data("task-7", "worker-node", 42.5);
    let attestation = sign_result(&identity, &plain, &number_text(42.5)).unwrap();

    plain.kind = Some("analytics".to_string());
    plain.payload = Some(compute_worker::task::Metadata::MeanCount { count: 3 });
    let relabeled = sign_result(&identity, &plain, &number_text(42.5)).unwrap();

    assert_eq!(attestation.canonical, relabeled.canonical);
    assert!(verify_detached(
        identity.public_key_bytes(),
        &relabeled.canonical,
        &attestation.signature
    ));
}

#[test]
fn fresh_identities_differ() {
    let a = Identity::generate().unwrap();
    let b = Identity::generate().unwrap();
    assert_ne!(a.public_key_bytes(), b.public_key_bytes());
}
