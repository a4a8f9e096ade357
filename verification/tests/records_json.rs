use serde_json::Value;
use v_contractx::canonical::{push_json_string, push_json_uint_array, push_vector};
use v_contractx::certification::{AuthRatio, CertificationState};
use v_contractx::errors::KernelError;
use v_contractx::record::{make_record_id, Record};
use v_contractx::types::{EntityId, JsonEnvelope, OperationKind, RecordId, RegionId, SpaceId, Vector};

fn obj(pairs: Vec<(&str, Value)>) -> Value {
    let mut m = serde_json::Map::new();
    for (k, v) in pairs {
        m.insert(k.to_string(), v);
    }
    Value::Object(m)
}

#[test]
fn record_ids_join_prefix_and_clock() {
    assert_eq!(make_record_id("create", 7), RecordId("create-7".to_string()));
    assert_eq!(make_record_id("reconstruct", 0), RecordId("reconstruct-0".to_string()));
    assert_eq!(make_record_id("p", 18_446_744_073_709_551_615), RecordId("p-18446744073709551615".to_string()));
}

#[test]
fn strings_are_escaped_as_json_requires() {
    for text in ["plain", "quote\" back\\slash", "line\nfeed\ttab\r\u{8}\u{c}", "ctl\u{1}\u{1f}", "caf\u{e9} \u{1f600}", ""] {
        let mut buf = Vec::new();
        push_json_string(&mut buf, text);
        assert_eq!(buf, serde_json::to_vec(text).unwrap());
    }
}

#[test]
fn vectors_encode_as_objects_of_components() {
    let v = Vector::new(vec![0, 12, 18_446_744_073_709_551_615]);
    let mut buf = Vec::new();
    push_vector(&mut buf, &v);
    let expected = obj(vec![(
        "components",
        Value::Array(vec![Value::from(0u64), Value::from(12u64), Value::from(u64::MAX)]),
    )]);
    assert_eq!(buf, serde_json::to_vec(&expected).unwrap());
    let mut list = Vec::new();
    push_json_uint_array(&mut list, &vec![u128::MAX]);
    assert_eq!(list, b"[340282366920938463463374607431768211455]".to_vec());
}

fn sample_record() -> Record {
    Record {
        record_id: RecordId("certify-3".to_string()),
        parent_record_ids: vec![RecordId("create-1".to_string()), RecordId("create-2".to_string())],
        event_kind: OperationKind::Certify,
        space_id: SpaceId("space-a".to_string()),
        region_id: RegionId("region-1".to_string()),
        entity_id: EntityId("wallet-a".to_string()),
        projection_id: None,
        v_before: Vector::new(vec![1, 2]),
        v_after: Vector::new(vec![1, 2]),
        parameters: JsonEnvelope(b"{\"k\":1}".to_vec()),
        certification_state: CertificationState::Uncertified,
        auth_ratio: AuthRatio(5),
        timestamp: 9,
        logical_clock: 3,
        proof: Some("p".to_string()),
        initiator_pk: "pk-a".to_string(),
        signature: None,
        hash: String::new(),
        version: "1.1".to_string(),
        settlement_ref: None,
        is_failure: false,
        failure_reason: None,
    }
}

#[test]
fn canonical_bytes_list_every_field_but_the_hash() {
    let expected = "{\"record_id\":\"certify-3\",\"parent_record_ids\":[\"create-1\",\"create-2\"],\"event_kind\":\"Certify\",\"space_id\":\"space-a\",\"region_id\":\"region-1\",\"entity_id\":\"wallet-a\",\"projection_id\":null,\"v_before\":{\"components\":[1,2]},\"v_after\":{\"components\":[1,2]},\"parameters\":{\"k\":1},\"certification_state\":\"Uncertified\",\"auth_ratio\":5,\"timestamp\":9,\"logical_clock\":3,\"proof\":\"p\",\"initiator_pk\":\"pk-a\",\"signature\":null,\"version\":\"1.1\",\"settlement_ref\":null,\"is_failure\":false,\"failure_reason\":null}";
    let record = sample_record();
    assert_eq!(String::from_utf8(record.canonical_bytes().unwrap()).unwrap(), expected);
    let mut hashed = record.clone();
    hashed.hash = "anything".to_string();
    assert_eq!(hashed.canonical_bytes().unwrap(), record.canonical_bytes().unwrap());
}

#[test]
fn hash_is_blake3_of_canonical_bytes() {
    let record = sample_record();
    let bytes = record.canonical_bytes().unwrap();
    let expected = blake3::hash(&bytes).to_hex().to_string();
    let computed = record.recompute_hash().unwrap();
    assert_eq!(computed, expected);
    assert_eq!(computed.len(), 64);
    assert_ne!(computed.as_bytes(), bytes.as_slice());
}

#[test]
fn verify_hash_detects_tampering() {
    let mut record = sample_record();
    record.hash = record.recompute_hash().unwrap();
    assert_eq!(record.verify_hash(), Ok(()));
    let expected = record.hash.clone();
    record.hash = "bad".to_string();
    assert_eq!(
        record.verify_hash(),
        Err(KernelError::RecordIntegrityViolation(format!("hash mismatch: expected {}, found bad", expected)))
    );
    let mut changed = sample_record();
    changed.hash = expected.clone();
    changed.timestamp = 10;
    assert!(changed.verify_hash().is_err());
}
