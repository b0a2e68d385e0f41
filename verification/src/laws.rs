use vstd::prelude::*;

use crate::candidate::CandidateRecord;
use crate::errors::CoordinatorError;
use crate::lifecycle::ReportedState;
use crate::model::{
    append_t, cleanup_t, drain_t, register_t, route_remote_t, state_changed_t, teardown_t,
    CoordState,
};

verus! {

/// Law: sessions created while others are live get pairwise distinct
/// identifiers. The allocator hands out an id live for no current session
/// (see [`crate::coordinator::get_id`]), and registering such an id grows the
/// live set by exactly that id, so no two live sessions ever share one.
pub proof fn lemma_session_ids_distinct(m: CoordState, id: u32)
    requires
        !m.live(id),
    ensures
        register_t(m, id).live(id),
        register_t(m, id).sessions.dom() =~= m.sessions.dom().insert(id),
        forall|j: u32| m.live(j) ==> j != id,
{
}

/// Law: registering a session loses no buffered candidate. Whatever was
/// discovered for any id before registration completed — the expected
/// callback/registration race — is still buffered afterwards, and a session
/// with no early discoveries starts with nothing buffered.
pub proof fn lemma_register_preserves_buffers(m: CoordState, id: u32)
    ensures
        forall|j: u32| register_t(m, id).buffered(j) == m.buffered(j),
{
    assert forall|j: u32| register_t(m, id).buffered(j) == m.buffered(j) by {
        if j == id {
            assert(register_t(m, id).buffers[id] == m.buffered(id));
        }
    }
}

/// Law: draining is exhaustive and idempotent on repetition. One drain
/// returns everything buffered for the id; a second drain with no
/// intervening discovery returns the empty sequence and changes nothing.
pub proof fn lemma_drain_exhaustive_and_idempotent(m: CoordState, id: u32)
    ensures
        drain_t(m, id).1 == m.buffered(id),
        drain_t(drain_t(m, id).0, id).1 == Seq::<CandidateRecord>::empty(),
        drain_t(drain_t(m, id).0, id).0 == drain_t(m, id).0,
{
    let m1 = drain_t(m, id).0;
    assert(!m1.buffers.contains_key(id));
    assert(m1.buffers.remove(id) =~= m1.buffers);
    assert(drain_t(m1, id).0 =~= m1);
}

/// Law: discovery order is preserved. Candidates discovered for a session
/// are drained oldest first, appended after whatever was already buffered.
pub proof fn lemma_discovery_order_preserved(
    m: CoordState,
    id: u32,
    c1: CandidateRecord,
    c2: CandidateRecord,
)
    ensures
        drain_t(append_t(append_t(m, id, c1), id, c2), id).1 == m.buffered(id).push(c1).push(c2),
{
    let m1 = append_t(m, id, c1);
    assert(m1.buffered(id) == m.buffered(id).push(c1));
    let m2 = append_t(m1, id, c2);
    assert(m2.buffered(id) == m.buffered(id).push(c1).push(c2));
}

/// Law: a remote candidate for an id absent from the live map is answered
/// with an unknown-session outcome; routing mutates no state, so the live
/// map and the buffers are untouched.
pub proof fn lemma_unknown_session_rejected(m: CoordState, id: u32)
    requires
        !m.live(id),
    ensures
        route_remote_t(m, id) == Err::<(), CoordinatorError>(CoordinatorError::UnknownSession),
{
}

/// Law: after a teardown the id is gone from both maps, and every further
/// message addressed to it gets the absent-id treatment (see
/// [`lemma_absent_id_uniform`]): tearing down again, routing a remote
/// candidate, draining, or reporting a state all behave exactly as for an id
/// that never existed.
pub proof fn lemma_teardown_forgets(m: CoordState, id: u32, reported: ReportedState)
    ensures
        !teardown_t(m, id).live(id),
        teardown_t(m, id).buffered(id) == Seq::<CandidateRecord>::empty(),
        route_remote_t(teardown_t(m, id), id) == Err::<(), CoordinatorError>(
            CoordinatorError::UnknownSession,
        ),
        drain_t(teardown_t(m, id), id).1 == Seq::<CandidateRecord>::empty(),
        drain_t(teardown_t(m, id), id).0 == teardown_t(m, id),
        state_changed_t(teardown_t(m, id), id, reported) == (teardown_t(m, id), false),
        teardown_t(teardown_t(m, id), id) == teardown_t(m, id),
{
    let m1 = teardown_t(m, id);
    assert(!m1.buffers.contains_key(id));
    assert(m1.buffers.remove(id) =~= m1.buffers);
    assert(m1.sessions.remove(id) =~= m1.sessions);
    assert(drain_t(m1, id).0 =~= m1);
    assert(teardown_t(m1, id) =~= m1);
}

/// Law: messages addressed to an id that is not live and has nothing
/// buffered are uniform no-ops, whether the id was torn down or never
/// existed: routing reports an unknown session, draining yields nothing and
/// leaves every observation unchanged, and a state report changes nothing.
pub proof fn lemma_absent_id_uniform(m: CoordState, id: u32, reported: ReportedState)
    requires
        !m.live(id),
        m.buffered(id) == Seq::<CandidateRecord>::empty(),
    ensures
        route_remote_t(m, id) == Err::<(), CoordinatorError>(CoordinatorError::UnknownSession),
        drain_t(m, id).1 == Seq::<CandidateRecord>::empty(),
        drain_t(m, id).0.sessions == m.sessions,
        drain_t(m, id).0.buffered(id) == Seq::<CandidateRecord>::empty(),
        forall|j: u32| j != id ==> drain_t(m, id).0.buffered(j) == m.buffered(j),
        state_changed_t(m, id, reported) == (m, false),
{
    assert(!drain_t(m, id).0.buffers.contains_key(id));
}

/// Law: cleanup with any number of live sessions leaves zero live sessions
/// and nothing buffered. The abstract state is emptied unconditionally, so a
/// failure releasing one session's engine handle — which happens outside the
/// coordinator, against the identifiers it returned — cannot keep another
/// session alive.
pub proof fn lemma_cleanup_leaves_nothing_live(m: CoordState)
    ensures
        cleanup_t(m).sessions.dom() =~= Set::<u32>::empty(),
        forall|id: u32| !cleanup_t(m).live(id),
        forall|id: u32| cleanup_t(m).buffered(id) == Seq::<CandidateRecord>::empty(),
{
}

} // verus!
