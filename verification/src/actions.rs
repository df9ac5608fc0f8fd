//! The actions the server runs against one table: the strong multi-key
//! delete built on the snapshot-then-conditional-delete protocol, and the
//! weak `del` / `exists` siblings that need no cross-key atomicity. Each
//! action resolves every input to exactly one response and the contracts
//! pin down both the response and the final table state.

use vstd::prelude::*;

use crate::data::Data;
use crate::kvengine::{KVEngine, SingleEncoder, spec_conditional_remove};
use crate::registry::HealthGate;
use crate::util::{cold_err, likely, unlikely};

verus! {

/// Outcome of a strong action. `OverwriteError` exists for strong actions
/// that can conflict on overwrite; a delete-only protocol proves it
/// unreachable.
#[derive(Clone, Copy, Debug, PartialEq, Eq, Structural)]
pub enum StrongActionResult {
    Okay,
    Nil,
    ServerError,
    EncodingError,
    OverwriteError,
}

/// What an action hands the protocol boundary to serialize: a count or one
/// of the named outcome codes.
#[derive(Clone, Copy, Debug, PartialEq, Eq, Structural)]
pub enum Response {
    Okay,
    Nil,
    ServerError,
    EncodingError,
    ActionError,
    SnapshotDisabled,
    SnapshotBusy,
    SnapshotIllegalName,
    Count(usize),
}

/// Every requested key passes the encoder.
pub open spec fn all_keys_encoded(enc: SingleEncoder, keys: Seq<Data>) -> bool {
    forall|i: int| 0 <= i < keys.len() ==> enc.accepts(#[trigger] keys[i]@)
}

/// Every requested key meets the engine's own encoding contract.
pub open spec fn batch_encoded(kve: KVEngine, keys: Seq<Data>) -> bool {
    forall|i: int| 0 <= i < keys.len() ==> kve.key_ok(#[trigger] keys[i]@)
}

/// Every requested key is currently mapped.
pub open spec fn all_keys_present(m: Map<Seq<u8>, Seq<u8>>, keys: Seq<Data>) -> bool {
    forall|i: int| 0 <= i < keys.len() ==> m.contains_key(#[trigger] keys[i]@)
}

/// The contents of the first `n` requested keys, as a set.
pub open spec fn prefix_view_set(keys: Seq<Data>, n: int) -> Set<Seq<u8>> {
    Set::new(|k: Seq<u8>| exists|i: int| 0 <= i < n && i < keys.len() && #[trigger] keys[i]@ == k)
}

/// The contents of all requested keys, as a set.
pub open spec fn key_view_set(keys: Seq<Data>) -> Set<Seq<u8>> {
    prefix_view_set(keys, keys.len() as int)
}

/// How many of the requested keys are mapped, counted per request entry, so
/// a key asked for twice counts twice.
pub open spec fn present_count(m: Map<Seq<u8>, Seq<u8>>, keys: Seq<Data>) -> nat
    decreases keys.len(),
{
    if keys.len() == 0 {
        0
    } else {
        present_count(m, keys.drop_last()) + if m.contains_key(keys.last()@) {
            1nat
        } else {
            0nat
        }
    }
}

/// Validate the whole batch against the encoder.
fn are_all_keys_encoded(key_encoder: &SingleEncoder, act: &Vec<Data>) -> (r: bool)
    ensures
        r == all_keys_encoded(*key_encoder, act@),
{
    let n = act.len();
    let mut i: usize = 0;
    while i < n
        invariant
            n == act@.len(),
            i <= n,
            forall|j: int| 0 <= j < i ==> key_encoder.accepts(#[trigger] act@[j]@),
        decreases n - i,
    {
        if !key_encoder.is_ok(&act[i]) {
            return false;
        }
        i = i + 1;
    }
    true
}

/// Snapshot the current status of every requested key, then delete while
/// maintaining the concurrency guarantee: each removal fires only on the
/// exact value that was snapshotted, so a write that lands between the
/// snapshot and the removal survives ("happens-before" the delete wins).
///
/// The read pass visits every key even after a failure, collecting encoding
/// errors and absences without mutating anything; an encoding failure aborts
/// the whole batch, then the health gate is re-checked, and only a fully
/// snapshotted batch under a healthy gate commits. A batch is Okay once the
/// conditional removals are issued, whether or not some lost their race.
pub fn snapshot_and_del(
    kve: &mut KVEngine,
    key_encoder: SingleEncoder,
    act: &Vec<Data>,
    gate: &HealthGate,
) -> (r: StrongActionResult)
    ensures
        !all_keys_encoded(key_encoder, act@) ==> r == StrongActionResult::EncodingError
            && final(kve)@ == old(kve)@,
        all_keys_encoded(key_encoder, act@) && !gate.spec_state_okay()
            ==> r == StrongActionResult::ServerError && final(kve)@ == old(kve)@,
        all_keys_encoded(key_encoder, act@) && gate.spec_state_okay() && !all_keys_present(
            old(kve)@,
            act@,
        ) ==> r == StrongActionResult::Nil && final(kve)@ == old(kve)@,
        all_keys_encoded(key_encoder, act@) && gate.spec_state_okay() && all_keys_present(
            old(kve)@,
            act@,
        ) ==> r == StrongActionResult::Okay && final(kve)@ == old(kve)@.remove_keys(
            key_view_set(act@),
        ),
        r != StrongActionResult::OverwriteError,
        final(kve).spec_needs_key_encoding() == old(kve).spec_needs_key_encoding(),
{
    let n = act.len();
    let mut snapshots: Vec<Data> = Vec::new();
    let mut err_enc = false;
    let mut iter_stat_ok = true;
    let mut i: usize = 0;
    while i < n
        invariant
            n == act@.len(),
            i <= n,
            *kve == *old(kve),
            err_enc == exists|j: int| 0 <= j < i && !key_encoder.accepts(#[trigger] act@[j]@),
            iter_stat_ok == (forall|j: int|
                0 <= j < i ==> key_encoder.accepts(#[trigger] act@[j]@)
                    && old(kve)@.contains_key(act@[j]@)),
            iter_stat_ok ==> snapshots@.len() == i,
            iter_stat_ok ==> forall|j: int|
                0 <= j < i ==> #[trigger] snapshots@[j]@ == old(kve)@[act@[j]@],
        decreases n - i,
    {
        let key = &act[i];
        if likely(key_encoder.is_ok(key)) {
            match kve.take_snapshot(key) {
                Some(snap) => {
                    if iter_stat_ok {
                        snapshots.push(snap);
                    }
                },
                None => {
                    iter_stat_ok = false;
                },
            }
        } else {
            err_enc = true;
            iter_stat_ok = false;
        }
        i = i + 1;
    }
    if unlikely(err_enc) {
        return cold_err(StrongActionResult::EncodingError);
    }
    if gate.state_okay() {
        // guarantee upheld: consistency
        if iter_stat_ok {
            // every key exists; issue the conditional removals
            let mut j: usize = 0;
            while j < n
                invariant
                    n == act@.len(),
                    j <= n,
                    snapshots@.len() == n,
                    forall|t: int|
                        0 <= t < n ==> #[trigger] snapshots@[t]@ == old(kve)@[act@[t]@],
                    all_keys_present(old(kve)@, act@),
                    kve@ == old(kve)@.remove_keys(prefix_view_set(act@, j as int)),
                    kve.spec_needs_key_encoding() == old(kve).spec_needs_key_encoding(),
                decreases n - j,
            {
                let ghost m_before = kve@;
                let ghost k = act@[j as int]@;
                // a writer that updated the key after the snapshot would keep
                // its newer value: the removal fires only on the snapshot
                let _ = kve.remove_if_value_matches(&act[j], &snapshots[j]);
                proof {
                    assert(prefix_view_set(act@, j + 1) =~= prefix_view_set(
                        act@,
                        j as int,
                    ).insert(k));
                    assert(spec_conditional_remove(m_before, k, snapshots@[j as int]@)
                        =~= old(kve)@.remove_keys(prefix_view_set(act@, j + 1)));
                }
                j = j + 1;
            }
            proof {
                assert(prefix_view_set(act@, n as int) =~= key_view_set(act@));
            }
            StrongActionResult::Okay
        } else {
            StrongActionResult::Nil
        }
    } else {
        StrongActionResult::ServerError
    }
}

/// Run an `SDEL` query: delete the whole batch as one logical unit. Okay
/// when every requested key existed and the removals were issued; Nil when
/// some requested key was absent (nothing touched); ServerError when the
/// gate refuses writes; EncodingError when any key fails validation
/// (nothing touched); ActionError on an empty batch.
pub fn sdel(gate: &HealthGate, kve: &mut KVEngine, act: &Vec<Data>) -> (r: Response)
    ensures
        act@.len() == 0 ==> r == Response::ActionError && final(kve)@ == old(kve)@,
        act@.len() > 0 && !gate.spec_state_okay() ==> r == Response::ServerError && final(kve)@
            == old(kve)@,
        act@.len() > 0 && gate.spec_state_okay() && !batch_encoded(*old(kve), act@)
            ==> r == Response::EncodingError && final(kve)@ == old(kve)@,
        act@.len() > 0 && gate.spec_state_okay() && batch_encoded(*old(kve), act@)
            && !all_keys_present(old(kve)@, act@) ==> r == Response::Nil
            && final(kve)@ == old(kve)@,
        act@.len() > 0 && gate.spec_state_okay() && batch_encoded(*old(kve), act@)
            && all_keys_present(old(kve)@, act@) ==> r == Response::Okay
            && final(kve)@ == old(kve)@.remove_keys(key_view_set(act@)),
        final(kve).spec_needs_key_encoding() == old(kve).spec_needs_key_encoding(),
{
    if act.len() == 0 {
        return Response::ActionError;
    }
    if gate.state_okay() {
        // guarantee one check: consistency
        let key_encoder = kve.get_key_encoder();
        let outcome = snapshot_and_del(kve, key_encoder, act, gate);
        match outcome {
            StrongActionResult::Okay => Response::Okay,
            StrongActionResult::Nil => {
                // it failed because some key did not exist
                Response::Nil
            },
            StrongActionResult::ServerError => Response::ServerError,
            StrongActionResult::EncodingError => cold_err(Response::EncodingError),
            StrongActionResult::OverwriteError => {
                // never the case: the protocol proves this outcome unreachable
                vstd::pervasive::unreached()
            },
        }
    } else {
        Response::ServerError
    }
}

/// Run a `DEL` query: remove each validated key unconditionally and count
/// how many removals happened. The whole batch aborts with EncodingError
/// when the table constrains keys and any key fails validation; the health
/// flag is consulted once before any removal.
pub fn del(gate: &HealthGate, kve: &mut KVEngine, act: &Vec<Data>) -> (r: Response)
    ensures
        act@.len() == 0 ==> r == Response::ActionError && final(kve)@ == old(kve)@,
        act@.len() > 0 && !batch_encoded(*old(kve), act@) ==> r == Response::EncodingError
            && final(kve)@ == old(kve)@,
        act@.len() > 0 && batch_encoded(*old(kve), act@) && !gate.spec_state_okay()
            ==> r == Response::ServerError && final(kve)@ == old(kve)@,
        act@.len() > 0 && batch_encoded(*old(kve), act@) && gate.spec_state_okay() ==> (
        r matches Response::Count(c) && c == old(kve)@.dom().intersect(
            key_view_set(act@),
        ).len()) && final(kve)@ == old(kve)@.remove_keys(key_view_set(act@)),
        final(kve).spec_needs_key_encoding() == old(kve).spec_needs_key_encoding(),
{
    if act.len() == 0 {
        return Response::ActionError;
    }
    let encoding_is_okay = if kve.needs_key_encoding() {
        let key_encoder = kve.get_key_encoder();
        are_all_keys_encoded(&key_encoder, act)
    } else {
        true
    };
    if likely(encoding_is_okay) {
        if gate.state_okay() {
            let n = act.len();
            let mut many: usize = 0;
            let mut j: usize = 0;
            proof {
                old(kve).lemma_dom_finite();
                assert(old(kve)@.dom().intersect(prefix_view_set(act@, 0))
                    =~= Set::<Seq<u8>>::empty());
            }
            while j < n
                invariant
                    n == act@.len(),
                    j <= n,
                    many <= j,
                    batch_encoded(*old(kve), act@),
                    old(kve)@.dom().finite(),
                    kve@ == old(kve)@.remove_keys(prefix_view_set(act@, j as int)),
                    many == old(kve)@.dom().intersect(prefix_view_set(act@, j as int)).len(),
                    kve.spec_needs_key_encoding() == old(kve).spec_needs_key_encoding(),
                decreases n - j,
            {
                let ghost k = act@[j as int]@;
                let ghost inter = old(kve)@.dom().intersect(prefix_view_set(act@, j as int));
                let removed = kve.remove_unchecked(&act[j]);
                proof {
                    assert(prefix_view_set(act@, j + 1) =~= prefix_view_set(
                        act@,
                        j as int,
                    ).insert(k));
                    assert(kve@ =~= old(kve)@.remove_keys(prefix_view_set(act@, j + 1)));
                    if removed {
                        assert(old(kve)@.dom().intersect(prefix_view_set(act@, j + 1))
                            =~= inter.insert(k));
                        assert(!inter.contains(k));
                    } else {
                        assert(old(kve)@.dom().intersect(prefix_view_set(act@, j + 1))
                            =~= inter);
                    }
                }
                if removed {
                    many = many + 1;
                }
                j = j + 1;
            }
            proof {
                assert(prefix_view_set(act@, n as int) =~= key_view_set(act@));
            }
            Response::Count(many)
        } else {
            Response::ServerError
        }
    } else {
        cold_err(Response::EncodingError)
    }
}

/// Run an `EXISTS` query: count how many of the validated keys are
/// currently present, one per request entry. Never mutates and never
/// consults the health flag; aborts with EncodingError exactly as `del`
/// does.
pub fn key_exists(kve: &KVEngine, act: &Vec<Data>) -> (r: Response)
    ensures
        act@.len() == 0 ==> r == Response::ActionError,
        act@.len() > 0 && !batch_encoded(*kve, act@) ==> r == Response::EncodingError,
        act@.len() > 0 && batch_encoded(*kve, act@) ==> (r matches Response::Count(c) && c
            == present_count(kve@, act@)),
{
    if act.len() == 0 {
        return Response::ActionError;
    }
    let encoding_is_okay = if kve.needs_key_encoding() {
        let key_encoder = kve.get_key_encoder();
        are_all_keys_encoded(&key_encoder, act)
    } else {
        true
    };
    if likely(encoding_is_okay) {
        let n = act.len();
        let mut how_many_of_them_exist: usize = 0;
        let mut j: usize = 0;
        while j < n
            invariant
                n == act@.len(),
                j <= n,
                how_many_of_them_exist <= j,
                batch_encoded(*kve, act@),
                how_many_of_them_exist == present_count(kve@, act@.take(j as int)),
            decreases n - j,
        {
            proof {
                assert(act@.take(j + 1).drop_last() =~= act@.take(j as int));
                assert(act@.take(j + 1).last() == act@[j as int]);
            }
            if kve.exists_unchecked(&act[j]) {
                how_many_of_them_exist = how_many_of_them_exist + 1;
            }
            j = j + 1;
        }
        proof {
            assert(act@.take(n as int) =~= act@);
        }
        Response::Count(how_many_of_them_exist)
    } else {
        Response::EncodingError
    }
}

} // verus!
