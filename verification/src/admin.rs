//! The decision logic of the administrative `MKSNAP` action. The snapshot
//! engine itself is an external collaborator that only receives a cloned
//! store handle; this module validates the request — argument count, UTF-8
//! encoding of a requested name, and the security check that refuses any
//! root or parent-directory path component — and translates the engine's
//! outcome codes into responses.

use vstd::prelude::*;
use vstd::utf8::valid_utf8;

use crate::actions::Response;
use crate::data::Data;
use crate::kvengine::slice_is_utf8;

verus! {

/// A `..` path component starts at `i`: two dots delimited by the start,
/// the end, or `/` separators.
pub open spec fn parent_component_at(s: Seq<u8>, i: int) -> bool {
    &&& 0 <= i
    &&& i + 2 <= s.len()
    &&& s[i] == 46u8
    &&& s[i + 1] == 46u8
    &&& (i == 0 || s[i - 1] == 47u8)
    &&& (i + 2 == s.len() || s[i + 2] == 47u8)
}

/// The name names the root directory or climbs toward a parent directory,
/// which a snapshot name must never do.
pub open spec fn illegal_snapshot_name(s: Seq<u8>) -> bool {
    ||| s.len() > 0 && s[0] == 47u8
    ||| exists|i: int| parent_component_at(s, i)
}

/// Sanitize a snapshot name against directory traversal: refuse a leading
/// `/` (root) and any `..` component.
pub fn is_illegal_snapshot_name(name: &[u8]) -> (r: bool)
    ensures
        r == illegal_snapshot_name(name@),
{
    let n = name.len();
    if n > 0 && name[0] == 47u8 {
        return true;
    }
    let mut i: usize = 0;
    while i < n
        invariant
            n == name@.len(),
            i <= n,
            forall|j: int| 0 <= j < i ==> !parent_component_at(name@, j),
        decreases n - i,
    {
        if n - i >= 2 && name[i] == 46u8 && name[i + 1] == 46u8 && (i == 0 || name[i - 1] == 47u8)
            && (n - i == 2 || name[i + 2] == 47u8) {
            proof {
                assert(parent_component_at(name@, i as int));
            }
            return true;
        }
        proof {
            assert(!parent_component_at(name@, i as int));
        }
        i = i + 1;
    }
    proof {
        assert forall|j: int| !parent_component_at(name@, j) by {
            if j + 2 <= name@.len() && j >= 0 {
                assert(0 <= j < n);
            }
        }
    }
    false
}

/// What the action decided to do with a snapshot request.
pub enum SnapshotDecision {
    /// No argument: snapshot to the configured default destination.
    DefaultSnapshot,
    /// One well-formed argument: snapshot to the named destination.
    RemoteSnapshot(Data),
    /// The request is refused outright with this response.
    Refuse(Response),
}

/// Validate a `MKSNAP` request. Zero arguments ask for the default
/// snapshot; exactly one argument names a destination, which must be UTF-8
/// and free of root or parent-directory components; any other argument
/// count is an action error. No snapshot work happens here.
pub fn mksnap_decide(act: &Vec<Data>) -> (r: SnapshotDecision)
    ensures
        act@.len() == 0 ==> r == SnapshotDecision::DefaultSnapshot,
        act@.len() == 1 && !valid_utf8(act@[0]@) ==> r == SnapshotDecision::Refuse(
            Response::EncodingError,
        ),
        act@.len() == 1 && valid_utf8(act@[0]@) && illegal_snapshot_name(act@[0]@)
            ==> r == SnapshotDecision::Refuse(Response::SnapshotIllegalName),
        act@.len() == 1 && valid_utf8(act@[0]@) && !illegal_snapshot_name(act@[0]@) ==> (
        r matches SnapshotDecision::RemoteSnapshot(d) && d@ == act@[0]@),
        act@.len() > 1 ==> r == SnapshotDecision::Refuse(Response::ActionError),
{
    if act.len() == 0 {
        // traditional snapshot to the default destination
        SnapshotDecision::DefaultSnapshot
    } else if act.len() == 1 {
        // remote snapshot; vet the requested name
        let name = &act[0];
        if !slice_is_utf8(name.as_slice()) {
            return SnapshotDecision::Refuse(Response::EncodingError);
        }
        if is_illegal_snapshot_name(name.as_slice()) {
            return SnapshotDecision::Refuse(Response::SnapshotIllegalName);
        }
        SnapshotDecision::RemoteSnapshot(name.clone_data())
    } else {
        SnapshotDecision::Refuse(Response::ActionError)
    }
}

/// Translate the snapshot engine's outcome for a default snapshot. The
/// engine only ever returns these four codes; the caller checks before
/// translating.
pub fn mksnap_code_response(code: u8) -> (r: Response)
    requires
        code <= 3,
    ensures
        code == 0 ==> r == Response::Okay,
        code == 1 ==> r == Response::ServerError,
        code == 2 ==> r == Response::SnapshotDisabled,
        code == 3 ==> r == Response::SnapshotBusy,
{
    match code {
        0 => Response::Okay,
        1 => Response::ServerError,
        2 => Response::SnapshotDisabled,
        3 => Response::SnapshotBusy,
        _ => vstd::pervasive::unreached(),
    }
}

/// Translate the snapshot engine's outcome for a named (remote) snapshot,
/// which cannot be refused as disabled.
pub fn mkrsnap_code_response(code: u8) -> (r: Response)
    requires
        code == 0 || code == 1 || code == 3,
    ensures
        code == 0 ==> r == Response::Okay,
        code == 1 ==> r == Response::ServerError,
        code == 3 ==> r == Response::SnapshotBusy,
{
    match code {
        0 => Response::Okay,
        1 => Response::ServerError,
        3 => Response::SnapshotBusy,
        _ => vstd::pervasive::unreached(),
    }
}

} // verus!
