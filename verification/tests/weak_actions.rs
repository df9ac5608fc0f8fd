use memstore::actions::{del, key_exists, Response};
use memstore::data::Data;
use memstore::kvengine::KVEngine;
use memstore::registry::HealthGate;

fn d(s: &str) -> Data {
    Data::from_vec(s.as_bytes().to_vec())
}

fn engine_with(pairs: &[(&str, &str)]) -> KVEngine {
    let mut kve = KVEngine::new(false);
    for (k, v) in pairs {
        assert!(kve.true_if_insert(d(k), d(v)));
    }
    kve
}

#[test]
fn exists_counts_present_keys() {
    let kve = engine_with(&[("x", "1")]);
    let act = vec![d("x"), d("z")];
    assert_eq!(key_exists(&kve, &act), Response::Count(1));
    assert_eq!(kve.len(), 1);
}

#[test]
fn exists_counts_per_request_entry() {
    let kve = engine_with(&[("x", "1")]);
    let act = vec![d("x"), d("x")];
    assert_eq!(key_exists(&kve, &act), Response::Count(2));
}

#[test]
fn exists_empty_batch_is_action_error() {
    let kve = engine_with(&[("x", "1")]);
    let act: Vec<Data> = Vec::new();
    assert_eq!(key_exists(&kve, &act), Response::ActionError);
}

#[test]
fn exists_encoding_error_on_invalid_key() {
    let mut kve = KVEngine::new(true);
    assert!(kve.true_if_insert(d("x"), d("1")));
    let act = vec![d("x"), Data::from_vec(vec![0xff])];
    assert_eq!(key_exists(&kve, &act), Response::EncodingError);
}

#[test]
fn del_counts_removed_keys() {
    let mut kve = engine_with(&[("x", "1")]);
    let gate = HealthGate::new(true);
    let act = vec![d("x"), d("z")];
    assert_eq!(del(&gate, &mut kve, &act), Response::Count(1));
    assert_eq!(kve.len(), 0);
    assert!(kve.take_snapshot(&d("x")).is_none());
}

#[test]
fn del_counts_duplicate_key_once() {
    let mut kve = engine_with(&[("x", "1")]);
    let gate = HealthGate::new(true);
    let act = vec![d("x"), d("x")];
    assert_eq!(del(&gate, &mut kve, &act), Response::Count(1));
    assert_eq!(kve.len(), 0);
}

#[test]
fn del_server_error_without_removing() {
    let mut kve = engine_with(&[("x", "1")]);
    let gate = HealthGate::new(false);
    let act = vec![d("x")];
    assert_eq!(del(&gate, &mut kve, &act), Response::ServerError);
    assert_eq!(kve.len(), 1);
}

#[test]
fn del_encoding_error_removes_nothing() {
    let mut kve = KVEngine::new(true);
    assert!(kve.true_if_insert(d("x"), d("1")));
    let gate = HealthGate::new(true);
    let act = vec![Data::from_vec(vec![0xff]), d("x")];
    assert_eq!(del(&gate, &mut kve, &act), Response::EncodingError);
    assert_eq!(kve.len(), 1);
}

#[test]
fn del_empty_batch_is_action_error() {
    let mut kve = engine_with(&[("x", "1")]);
    let gate = HealthGate::new(true);
    let act: Vec<Data> = Vec::new();
    assert_eq!(del(&gate, &mut kve, &act), Response::ActionError);
    assert_eq!(kve.len(), 1);
}

#[test]
fn del_skips_validation_when_unconstrained() {
    // a table without the UTF-8 constraint accepts raw byte keys
    let mut kve = KVEngine::new(false);
    let raw = Data::from_vec(vec![0xff, 0x00]);
    assert!(kve.true_if_insert(raw.clone_data(), d("v")));
    let gate = HealthGate::new(true);
    let act = vec![raw];
    assert_eq!(del(&gate, &mut kve, &act), Response::Count(1));
    assert_eq!(kve.len(), 0);
}

#[test]
fn del_on_constrained_table_with_valid_keys() {
    let mut kve = KVEngine::new(true);
    assert!(kve.true_if_insert(d("x"), d("1")));
    let gate = HealthGate::new(true);
    let act = vec![d("x"), d("y")];
    assert_eq!(del(&gate, &mut kve, &act), Response::Count(1));
    assert_eq!(kve.len(), 0);
}
