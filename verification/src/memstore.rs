//! The in-memory store: the node owns namespaces, a namespace owns
//! keyspaces, a keyspace owns tables, and a table is backed by a key/value
//! engine. Every level is a `Coremap` keyed by a byte-string name, and every
//! descendant is handed out as a reference-counted handle, so a connection
//! can keep a deep table alive without holding any ancestor. Default
//! construction seeds one namespace `default` holding one keyspace `default`
//! with the two tables `default` and `_system`.

use std::sync::Arc;

use vstd::prelude::*;

use crate::coremap::Coremap;
use crate::data::Data;
use crate::kvengine::KVEngine;

verus! {

/// Relies on `Arc::clone`: the clone is a new handle onto the same shared
/// allocation.
#[verifier::external_body]
fn arc_clone<T>(a: &Arc<T>) -> (r: Arc<T>)
    ensures
        r == *a,
{
    Arc::clone(a)
}

/// The name `default`, as bytes.
pub open spec fn name_default() -> Seq<u8> {
    seq![100u8, 101u8, 102u8, 97u8, 117u8, 108u8, 116u8]
}

/// The name `_system`, as bytes.
pub open spec fn name_system() -> Seq<u8> {
    seq![95u8, 115u8, 121u8, 115u8, 116u8, 101u8, 109u8]
}

/// The byte string `default`.
pub fn default_name_data() -> (d: Data)
    ensures
        d@ == name_default(),
{
    let v: Vec<u8> = vec![100u8, 101u8, 102u8, 97u8, 117u8, 108u8, 116u8];
    proof {
        assert(v@ =~= name_default());
    }
    Data::from_vec(v)
}

/// The byte string `_system`.
pub fn system_name_data() -> (d: Data)
    ensures
        d@ == name_system(),
{
    let v: Vec<u8> = vec![95u8, 115u8, 121u8, 115u8, 116u8, 101u8, 109u8];
    proof {
        assert(v@ =~= name_system());
    }
    Data::from_vec(v)
}

/// This is for the future where every node is allocated a shard.
#[derive(Debug)]
pub enum ClusterShardRange {
    SingleNode,
}

impl Default for ClusterShardRange {
    fn default() -> (r: Self)
        ensures
            r == ClusterShardRange::SingleNode,
    {
        Self::SingleNode
    }
}

/// This is for the future for determining the replication strategy.
#[derive(Debug)]
pub enum ReplicationStrategy {
    /// Single node, no replica sets.
    Default,
}

impl Default for ReplicationStrategy {
    fn default() -> (r: Self)
        ensures
            r == ReplicationStrategy::Default,
    {
        Self::Default
    }
}

/// The snapshot schedule a keyspace may carry; none is configured by
/// default.
#[derive(Debug)]
pub struct SnapshotStatus {
    /// How many snapshots of this keyspace are retained.
    pub max: usize,
}

/// The underlying table type. This is the place for the other data models.
pub enum Table {
    /// A key/value store.
    KV(KVEngine),
}

/// An engine-backed table holding nothing, with no key constraint.
pub open spec fn is_empty_kv_table(t: Table) -> bool {
    &&& t matches Table::KV(e)
    &&& (t matches Table::KV(e) ==> e@ == Map::<Seq<u8>, Seq<u8>>::empty()
        && !e.spec_needs_key_encoding())
}

/// A keyspace houses all the other tables.
pub struct Keyspace {
    /// The tables.
    tables: Coremap<Arc<Table>>,
    /// Current state of the disk flush status; true means it is safe to go
    /// ahead with writes.
    flush_state_healthy: bool,
    /// The snapshot configuration for this keyspace.
    snap_config: Option<SnapshotStatus>,
    /// The replication strategy for this keyspace.
    replication_strategy: ReplicationStrategy,
}

/// The shape `Keyspace::empty_default` promises: exactly the two seeded
/// tables, both empty, flushes healthy, no snapshot schedule, single-node
/// replication.
pub open spec fn is_default_keyspace(ks: Keyspace) -> bool {
    &&& ks.spec_tables().dom() == Set::<Seq<u8>>::empty().insert(name_default()).insert(
        name_system(),
    )
    &&& is_empty_kv_table(*ks.spec_tables()[name_default()])
    &&& is_empty_kv_table(*ks.spec_tables()[name_system()])
    &&& ks.spec_flush_state_healthy()
    &&& ks.spec_snap_config() is None
    &&& ks.spec_replication_strategy() == ReplicationStrategy::Default
}

impl Keyspace {
    /// The tables, by name.
    pub closed spec fn spec_tables(&self) -> Map<Seq<u8>, Arc<Table>> {
        self.tables@
    }

    /// Whether the disk flush status permits writes.
    pub closed spec fn spec_flush_state_healthy(&self) -> bool {
        self.flush_state_healthy
    }

    /// The configured snapshot schedule, if any.
    pub closed spec fn spec_snap_config(&self) -> Option<SnapshotStatus> {
        self.snap_config
    }

    /// The configured replication strategy.
    pub closed spec fn spec_replication_strategy(&self) -> ReplicationStrategy {
        self.replication_strategy
    }

    /// A new keyspace seeded with the two default tables, `default` and
    /// `_system`.
    pub fn empty_default() -> (r: Self)
        ensures
            is_default_keyspace(r),
    {
        let ht: Coremap<Arc<Table>> = Coremap::new();
        let mut ht = ht;
        // add the default table
        let _ = ht.true_if_insert(default_name_data(), Arc::new(Table::KV(KVEngine::default())));
        // add the system table
        let _ = ht.true_if_insert(system_name_data(), Arc::new(Table::KV(KVEngine::default())));
        proof {
            assert(name_default() != name_system()) by {
                assert(name_default()[0] == 100u8);
                assert(name_system()[0] == 95u8);
            }
            assert(ht@.dom() =~= Set::<Seq<u8>>::empty().insert(name_default()).insert(
                name_system(),
            ));
        }
        Self {
            tables: ht,
            flush_state_healthy: true,
            snap_config: None,
            replication_strategy: ReplicationStrategy::default(),
        }
    }

    /// A new empty keyspace with zero tables.
    pub fn empty() -> (r: Self)
        ensures
            r.spec_tables() == Map::<Seq<u8>, Arc<Table>>::empty(),
            r.spec_flush_state_healthy(),
            r.spec_snap_config() is None,
            r.spec_replication_strategy() == ReplicationStrategy::Default,
    {
        Self {
            tables: Coremap::new(),
            flush_state_healthy: true,
            snap_config: None,
            replication_strategy: ReplicationStrategy::default(),
        }
    }

    /// An atomic reference to a table in this keyspace, if it exists.
    pub fn get_table_atomic_ref(&self, table_identifier: Data) -> (r: Option<Arc<Table>>)
        ensures
            match r {
                Some(t) => self.spec_tables().contains_key(table_identifier@) && t
                    == self.spec_tables()[table_identifier@],
                None => !self.spec_tables().contains_key(table_identifier@),
            },
    {
        match self.tables.get(&table_identifier) {
            Some(t) => Some(arc_clone(t)),
            None => None,
        }
    }
}

/// Namespaces hold keyspaces.
pub struct Namespace {
    /// The keyspaces stored in this namespace.
    keyspaces: Coremap<Arc<Keyspace>>,
    /// The shard range.
    shard_range: ClusterShardRange,
}

/// The shape `Namespace::empty_default` promises: exactly one keyspace
/// `default`, itself of the default shape.
pub open spec fn is_default_namespace(ns: Namespace) -> bool {
    &&& ns.spec_keyspaces().dom() == Set::<Seq<u8>>::empty().insert(name_default())
    &&& is_default_keyspace(*ns.spec_keyspaces()[name_default()])
    &&& ns.spec_shard_range() == ClusterShardRange::SingleNode
}

impl Namespace {
    /// The keyspaces, by name.
    pub closed spec fn spec_keyspaces(&self) -> Map<Seq<u8>, Arc<Keyspace>> {
        self.keyspaces@
    }

    /// The shard range tag.
    pub closed spec fn spec_shard_range(&self) -> ClusterShardRange {
        self.shard_range
    }

    /// An empty namespace with no keyspaces.
    pub fn empty() -> (r: Self)
        ensures
            r.spec_keyspaces() == Map::<Seq<u8>, Arc<Keyspace>>::empty(),
            r.spec_shard_range() == ClusterShardRange::SingleNode,
    {
        Self { keyspaces: Coremap::new(), shard_range: ClusterShardRange::default() }
    }

    /// A namespace seeded with the default keyspace, which carries the
    /// tables `default` and `_system`.
    pub fn empty_default() -> (r: Self)
        ensures
            is_default_namespace(r),
    {
        let mut ks: Coremap<Arc<Keyspace>> = Coremap::new();
        let _ = ks.true_if_insert(default_name_data(), Arc::new(Keyspace::empty_default()));
        proof {
            assert(ks@.dom() =~= Set::<Seq<u8>>::empty().insert(name_default()));
        }
        Self { keyspaces: ks, shard_range: ClusterShardRange::default() }
    }

    /// An atomic reference to a keyspace, if it exists.
    pub fn get_keyspace_atomic_ref(&self, keyspace_identifier: Data) -> (r: Option<Arc<Keyspace>>)
        ensures
            match r {
                Some(ks) => self.spec_keyspaces().contains_key(keyspace_identifier@) && ks
                    == self.spec_keyspaces()[keyspace_identifier@],
                None => !self.spec_keyspaces().contains_key(keyspace_identifier@),
            },
    {
        match self.keyspaces.get(&keyspace_identifier) {
            Some(ks) => Some(arc_clone(ks)),
            None => None,
        }
    }
}

/// The core in-memory table of the node. It houses all namespaces along
/// with the other node properties, and it is the structure cloned and sent
/// around connections for connection-level control over the store.
pub struct Memstore {
    /// The namespaces.
    namespaces: Arc<Coremap<Arc<Namespace>>>,
}

impl Memstore {
    /// The namespaces, by name.
    pub closed spec fn spec_namespaces(&self) -> Map<Seq<u8>, Arc<Namespace>> {
        self.namespaces@
    }

    /// A new empty in-memory table with nothing in it.
    pub fn new_empty() -> (r: Self)
        ensures
            r.spec_namespaces() == Map::<Seq<u8>, Arc<Namespace>>::empty(),
    {
        Self { namespaces: Arc::new(Coremap::new()) }
    }

    /// A new in-memory table seeded with the default namespace, keyspace
    /// and tables: exactly one namespace `default`, holding exactly one
    /// keyspace `default`, holding exactly the two tables `default` and
    /// `_system`. A client that connects without naming a namespace lands
    /// on `default`/`default`; the `_system` table is for the system.
    pub fn new_default() -> (r: Self)
        ensures
            r.spec_namespaces().dom() == Set::<Seq<u8>>::empty().insert(name_default()),
            is_default_namespace(*r.spec_namespaces()[name_default()]),
    {
        let mut n: Coremap<Arc<Namespace>> = Coremap::new();
        let _ = n.true_if_insert(default_name_data(), Arc::new(Namespace::empty_default()));
        proof {
            assert(n@.dom() =~= Set::<Seq<u8>>::empty().insert(name_default()));
        }
        Self { namespaces: Arc::new(n) }
    }

    /// An atomic reference to a namespace, if it exists.
    pub fn get_namespace_atomic_ref(&self, namespace_identifier: Data) -> (r: Option<
        Arc<Namespace>,
    >)
        ensures
            match r {
                Some(ns) => self.spec_namespaces().contains_key(namespace_identifier@) && ns
                    == self.spec_namespaces()[namespace_identifier@],
                None => !self.spec_namespaces().contains_key(namespace_identifier@),
            },
    {
        match self.namespaces.get(&namespace_identifier) {
            Some(ns) => Some(arc_clone(ns)),
            None => None,
        }
    }
}

} // verus!
