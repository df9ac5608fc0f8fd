use memstore::coremap::Coremap;
use memstore::data::Data;
use memstore::kvengine::KVEngine;

fn d(s: &str) -> Data {
    Data::from_vec(s.as_bytes().to_vec())
}

#[test]
fn data_roundtrip_and_equality() {
    let v = vec![1u8, 2, 3];
    let data = Data::from_vec(v.clone());
    assert_eq!(data.len(), 3);
    assert_eq!(data.as_slice(), &v[..]);
    assert!(data.content_eq(&Data::from_vec(vec![1u8, 2, 3])));
    assert!(!data.content_eq(&Data::from_vec(vec![1u8, 2])));
    assert!(data.clone_data().content_eq(&data));
}

#[test]
fn coremap_insert_get_len() {
    let mut map: Coremap<u64> = Coremap::new();
    assert_eq!(map.len(), 0);
    assert!(map.true_if_insert(d("a"), 7));
    assert!(!map.true_if_insert(d("a"), 8));
    assert!(map.true_if_insert(d("b"), 9));
    assert_eq!(map.len(), 2);
    assert_eq!(map.get(&d("a")), Some(&7));
    assert_eq!(map.get(&d("b")), Some(&9));
    assert_eq!(map.get(&d("c")), None);
    assert!(map.contains_key(&d("a")));
    assert!(!map.contains_key(&d("c")));
}

#[test]
fn coremap_unconditional_removal() {
    let mut map: Coremap<u64> = Coremap::new();
    assert!(map.true_if_insert(d("a"), 1));
    assert!(map.true_if_removed(&d("a")));
    assert!(!map.true_if_removed(&d("a")));
    assert_eq!(map.len(), 0);
}

#[test]
fn coremap_remove_if_consults_predicate() {
    let mut map: Coremap<u64> = Coremap::new();
    assert!(map.true_if_insert(d("a"), 1));
    assert!(!map.remove_if(&d("a"), |v: &u64| *v == 2));
    assert_eq!(map.get(&d("a")), Some(&1));
    assert!(map.remove_if(&d("a"), |v: &u64| *v == 1));
    assert_eq!(map.get(&d("a")), None);
}

#[test]
fn engine_snapshot_captures_current_value() {
    let mut kve = KVEngine::new(false);
    assert!(kve.true_if_insert(d("k"), d("v1")));
    let snap = kve.take_snapshot(&d("k")).expect("present");
    assert!(snap.content_eq(&d("v1")));
    assert!(kve.take_snapshot(&d("missing")).is_none());
    assert!(kve.exists_unchecked(&d("k")));
    assert!(!kve.exists_unchecked(&d("missing")));
}

#[test]
fn stale_snapshot_loses_to_newer_write() {
    // snapshot v1, let a "concurrent" writer change the value to v2: the
    // conditional removal must not fire and v2 must survive
    let mut kve = KVEngine::new(false);
    assert!(kve.true_if_insert(d("k"), d("v1")));
    let snap = kve.take_snapshot(&d("k")).expect("present");
    assert!(kve.remove_unchecked(&d("k")));
    assert!(kve.true_if_insert(d("k"), d("v2")));
    assert!(!kve.remove_if_value_matches(&d("k"), &snap));
    let now = kve.take_snapshot(&d("k")).expect("still present");
    assert!(now.content_eq(&d("v2")));
}

#[test]
fn fresh_snapshot_removes_value() {
    let mut kve = KVEngine::new(false);
    assert!(kve.true_if_insert(d("k"), d("v1")));
    let snap = kve.take_snapshot(&d("k")).expect("present");
    assert!(kve.remove_if_value_matches(&d("k"), &snap));
    assert!(kve.take_snapshot(&d("k")).is_none());
}

#[test]
fn engine_reports_encoding_requirements() {
    let plain = KVEngine::new(false);
    assert!(!plain.needs_key_encoding());
    assert!(!plain.get_key_encoder().checks_utf8);
    assert!(plain.get_key_encoder().is_ok(&Data::from_vec(vec![0xff])));
    let encoded = KVEngine::new(true);
    assert!(encoded.needs_key_encoding());
    assert!(encoded.get_key_encoder().checks_utf8);
    assert!(encoded.get_key_encoder().is_ok(&d("ok")));
    assert!(!encoded.get_key_encoder().is_ok(&Data::from_vec(vec![0xff])));
}

#[test]
fn default_engine_is_empty_and_unconstrained() {
    let kve = KVEngine::default();
    assert_eq!(kve.len(), 0);
    assert!(!kve.needs_key_encoding());
}
