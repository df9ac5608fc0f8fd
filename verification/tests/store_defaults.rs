use memstore::data::Data;
use memstore::memstore::{Keyspace, Memstore, Namespace, Table};

fn d(s: &str) -> Data {
    Data::from_vec(s.as_bytes().to_vec())
}

fn assert_empty_kv(table: &Table) {
    match table {
        Table::KV(engine) => assert_eq!(engine.len(), 0),
    }
}

#[test]
fn new_default_seeds_default_tree() {
    let store = Memstore::new_default();
    let ns = store.get_namespace_atomic_ref(d("default")).expect("default namespace");
    let ks = ns.get_keyspace_atomic_ref(d("default")).expect("default keyspace");
    let table = ks.get_table_atomic_ref(d("default")).expect("default table");
    let system = ks.get_table_atomic_ref(d("_system")).expect("system table");
    assert_empty_kv(&table);
    assert_empty_kv(&system);
    assert!(ks.get_table_atomic_ref(d("other")).is_none());
    assert!(ns.get_keyspace_atomic_ref(d("other")).is_none());
    assert!(store.get_namespace_atomic_ref(d("other")).is_none());
}

#[test]
fn new_empty_has_no_namespaces() {
    let store = Memstore::new_empty();
    assert!(store.get_namespace_atomic_ref(d("default")).is_none());
}

#[test]
fn empty_namespace_has_no_keyspaces() {
    let ns = Namespace::empty();
    assert!(ns.get_keyspace_atomic_ref(d("default")).is_none());
}

#[test]
fn empty_keyspace_has_no_tables() {
    let ks = Keyspace::empty();
    assert!(ks.get_table_atomic_ref(d("default")).is_none());
}

#[test]
fn default_namespace_carries_default_keyspace() {
    let ns = Namespace::empty_default();
    let ks = ns.get_keyspace_atomic_ref(d("default")).expect("default keyspace");
    assert!(ks.get_table_atomic_ref(d("default")).is_some());
    assert!(ks.get_table_atomic_ref(d("_system")).is_some());
}
