//! The key/value engine backing one table: a `Coremap` of byte-string keys
//! to byte-string values plus the table's key-encoding constraint. Every
//! operation is a single map call; "unchecked" operations trust the caller
//! to have validated the key against the encoding contract, which the
//! engine's invariant maintains for everything physically stored.

use vstd::prelude::*;
use vstd::utf8::valid_utf8;

use crate::coremap::Coremap;
use crate::data::Data;

verus! {

/// Relies on `core::str::from_utf8`, which succeeds exactly on well-formed
/// UTF-8 byte sequences.
#[verifier::external_body]
pub(crate) fn slice_is_utf8(b: &[u8]) -> (r: bool)
    ensures
        r == valid_utf8(b@),
{
    core::str::from_utf8(b).is_ok()
}

/// The key-encoding capability a table hands to actions: either no
/// constraint at all, or well-formed UTF-8.
pub struct SingleEncoder {
    /// Whether keys must be well-formed UTF-8.
    pub checks_utf8: bool,
}

impl SingleEncoder {
    /// The set of keys this encoder admits.
    pub open spec fn accepts(&self, k: Seq<u8>) -> bool {
        !self.checks_utf8 || valid_utf8(k)
    }

    /// Validate one key against the table's encoding rules.
    pub fn is_ok(&self, key: &Data) -> (r: bool)
        ensures
            r == self.accepts(key@),
    {
        if self.checks_utf8 {
            slice_is_utf8(key.as_slice())
        } else {
            true
        }
    }
}

/// One atomic conditional-removal step over the abstract table state: the
/// mapping for `k` disappears exactly when it currently holds `expected`,
/// and no other key moves.
pub open spec fn spec_conditional_remove(
    m: Map<Seq<u8>, Seq<u8>>,
    k: Seq<u8>,
    expected: Seq<u8>,
) -> Map<Seq<u8>, Seq<u8>> {
    if m.contains_key(k) && m[k] == expected {
        m.remove(k)
    } else {
        m
    }
}

/// A reader that interleaves with a conditional removal sees no torn state:
/// the map is either untouched or has lost exactly the checked key, and
/// every value still visible is a value the map held before the step. So a
/// lookup racing the removal returns the prior value or nothing — never a
/// value that existed neither before nor after.
pub proof fn lemma_conditional_remove_atomic(
    m: Map<Seq<u8>, Seq<u8>>,
    k: Seq<u8>,
    expected: Seq<u8>,
)
    ensures
        spec_conditional_remove(m, k, expected) == m || spec_conditional_remove(m, k, expected)
            == m.remove(k),
        forall|j: Seq<u8>| #[trigger]
            spec_conditional_remove(m, k, expected).contains_key(j) ==> m.contains_key(j)
                && spec_conditional_remove(m, k, expected)[j] == m[j],
        forall|j: Seq<u8>|
            j != k ==> (#[trigger] spec_conditional_remove(m, k, expected).contains_key(j)
                <==> m.contains_key(j)),
{
}

/// A write that lands between a snapshot and the conditional removal wins:
/// once the key holds `v2` and the removal still expects the stale snapshot
/// `v1`, the removal does not fire and the key retains `v2`.
pub proof fn lemma_snapshot_race_keeps_newer_write(
    m: Map<Seq<u8>, Seq<u8>>,
    k: Seq<u8>,
    v1: Seq<u8>,
    v2: Seq<u8>,
)
    requires
        v1 != v2,
    ensures
        spec_conditional_remove(m.insert(k, v2), k, v1) == m.insert(k, v2),
        spec_conditional_remove(m.insert(k, v2), k, v1)[k] == v2,
{
}

/// The engine for one key/value table.
pub struct KVEngine {
    /// The table data.
    table: Coremap<Data>,
    /// Whether keys must satisfy the UTF-8 encoding contract.
    encoded_k: bool,
}

impl View for KVEngine {
    type V = Map<Seq<u8>, Seq<u8>>;

    closed spec fn view(&self) -> Map<Seq<u8>, Seq<u8>> {
        Map::new(|k: Seq<u8>| self.table@.contains_key(k), |k: Seq<u8>| self.table@[k]@)
    }
}

impl Default for KVEngine {
    /// An empty table with no key-encoding constraint.
    fn default() -> (r: KVEngine)
        ensures
            r@ == Map::<Seq<u8>, Seq<u8>>::empty(),
            !r.spec_needs_key_encoding(),
    {
        let r = KVEngine { table: Coremap::new(), encoded_k: false };
        proof {
            assert(r@ =~= Map::<Seq<u8>, Seq<u8>>::empty());
        }
        r
    }
}

impl KVEngine {
    /// Every key physically stored satisfies the encoding contract it was
    /// checked against when it entered the table.
    #[verifier::type_invariant]
    spec fn wf(&self) -> bool {
        self.encoded_k ==> forall|k: Seq<u8>| #[trigger]
            self.table@.contains_key(k) ==> valid_utf8(k)
    }

    /// Whether this table constrains its keys at all.
    pub closed spec fn spec_needs_key_encoding(&self) -> bool {
        self.encoded_k
    }

    /// What the caller of an "unchecked" operation owes: the key meets the
    /// table's encoding contract.
    pub open spec fn key_ok(&self, k: Seq<u8>) -> bool {
        !self.spec_needs_key_encoding() || valid_utf8(k)
    }

    /// The table holds finitely many keys.
    pub proof fn lemma_dom_finite(&self)
        ensures
            self@.dom().finite(),
    {
        self.table.lemma_dom_finite();
        assert(self@.dom() =~= self.table@.dom());
    }

    /// An empty table, with or without the UTF-8 key constraint.
    pub fn new(encoded_k: bool) -> (r: KVEngine)
        ensures
            r@ == Map::<Seq<u8>, Seq<u8>>::empty(),
            r.spec_needs_key_encoding() == encoded_k,
    {
        let r = KVEngine { table: Coremap::new(), encoded_k };
        proof {
            assert(r@ =~= Map::<Seq<u8>, Seq<u8>>::empty());
        }
        r
    }

    /// Whether actions must validate keys before touching this table.
    pub fn needs_key_encoding(&self) -> (r: bool)
        ensures
            r == self.spec_needs_key_encoding(),
    {
        self.encoded_k
    }

    /// The validation capability matching this table's constraint.
    pub fn get_key_encoder(&self) -> (r: SingleEncoder)
        ensures
            r == (SingleEncoder { checks_utf8: self.spec_needs_key_encoding() }),
    {
        SingleEncoder { checks_utf8: self.encoded_k }
    }

    /// Number of keys stored.
    pub fn len(&self) -> (r: usize)
        ensures
            r == self@.len(),
    {
        proof {
            assert(self@.dom() =~= self.table@.dom());
        }
        self.table.len()
    }

    /// Presence check; "unchecked" because the key's encoding is the
    /// caller's responsibility, not re-validated here.
    pub fn exists_unchecked(&self, key: &Data) -> (r: bool)
        requires
            self.key_ok(key@),
        ensures
            r == self@.contains_key(key@),
    {
        self.table.contains_key(key)
    }

    /// Unconditional removal; true exactly when the key was mapped.
    pub fn remove_unchecked(&mut self, key: &Data) -> (r: bool)
        requires
            old(self).key_ok(key@),
        ensures
            r == old(self)@.contains_key(key@),
            final(self)@ == old(self)@.remove(key@),
            final(self).spec_needs_key_encoding() == old(self).spec_needs_key_encoding(),
    {
        proof {
            use_type_invariant(&*self);
        }
        let mut table: Coremap<Data> = Coremap::new();
        core::mem::swap(&mut table, &mut self.table);
        let r = table.true_if_removed(key);
        self.table = table;
        proof {
            assert(self@ =~= old(self)@.remove(key@));
        }
        r
    }

    /// Capture the value currently under `key`, or note its absence. The
    /// snapshot is an immutable copy sharing the stored payload, fit for a
    /// later compare-and-remove check.
    pub fn take_snapshot(&self, key: &Data) -> (r: Option<Data>)
        ensures
            match r {
                Some(s) => self@.contains_key(key@) && s@ == self@[key@],
                None => !self@.contains_key(key@),
            },
    {
        match self.table.get(key) {
            Some(v) => Some(v.clone_data()),
            None => None,
        }
    }

    /// Remove the mapping for `key` only if it still holds exactly the
    /// snapshot value; a concurrent writer's newer value survives. True
    /// exactly when the removal fired.
    pub fn remove_if_value_matches(&mut self, key: &Data, snapshot: &Data) -> (r: bool)
        ensures
            r == (old(self)@.contains_key(key@) && old(self)@[key@] == snapshot@),
            final(self)@ == spec_conditional_remove(old(self)@, key@, snapshot@),
            final(self).spec_needs_key_encoding() == old(self).spec_needs_key_encoding(),
    {
        proof {
            use_type_invariant(&*self);
        }
        let matches_snapshot = |v: &Data| -> (b: bool)
            ensures
                b == (v@ == snapshot@),
            {
                v.content_eq(snapshot)
            };
        let mut table: Coremap<Data> = Coremap::new();
        core::mem::swap(&mut table, &mut self.table);
        let r = table.remove_if(key, matches_snapshot);
        self.table = table;
        proof {
            if r {
                assert(self@ =~= old(self)@.remove(key@));
            } else {
                assert(self@ =~= old(self)@);
            }
        }
        r
    }

    /// Store `value` under `key` unless the key is mapped; the key must meet
    /// the table's encoding contract, which keeps the stored-keys invariant.
    /// True exactly when the mapping was created.
    pub fn true_if_insert(&mut self, key: Data, value: Data) -> (r: bool)
        requires
            old(self).key_ok(key@),
        ensures
            r == !old(self)@.contains_key(key@),
            r ==> final(self)@ == old(self)@.insert(key@, value@),
            !r ==> final(self)@ == old(self)@,
            final(self).spec_needs_key_encoding() == old(self).spec_needs_key_encoding(),
    {
        proof {
            use_type_invariant(&*self);
        }
        let ghost kv = key@;
        let ghost vv = value@;
        let mut table: Coremap<Data> = Coremap::new();
        core::mem::swap(&mut table, &mut self.table);
        let r = table.true_if_insert(key, value);
        self.table = table;
        proof {
            if r {
                assert(self@ =~= old(self)@.insert(kv, vv));
            }
        }
        r
    }
}

} // verus!
