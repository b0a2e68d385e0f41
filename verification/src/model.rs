use vstd::prelude::*;

use crate::candidate::CandidateRecord;
use crate::errors::CoordinatorError;
use crate::lifecycle::{advance_spec, report_is_terminal, Lifecycle, ReportedState};

verus! {

/// Abstract state of the coordinator: the live-session map and the
/// per-session buffers of locally discovered candidates. Every executable
/// coordinator operation is specified as one of the transition functions
/// below on this state.
#[verifier::ext_equal]
pub ghost struct CoordState {
    pub sessions: Map<u32, Lifecycle>,
    pub buffers: Map<u32, Seq<CandidateRecord>>,
}

impl CoordState {
    /// A session identifier is live when it is in the live-session map.
    pub open spec fn live(self, id: u32) -> bool {
        self.sessions.contains_key(id)
    }

    /// The candidates buffered for `id`, oldest first; a session with no
    /// buffer has nothing buffered.
    pub open spec fn buffered(self, id: u32) -> Seq<CandidateRecord> {
        if self.buffers.contains_key(id) {
            self.buffers[id]
        } else {
            Seq::empty()
        }
    }

    /// The state with no live sessions and no buffers.
    pub open spec fn empty() -> CoordState {
        CoordState { sessions: Map::empty(), buffers: Map::empty() }
    }
}

/// Registering a newly negotiated session: the id enters the live map in the
/// `Negotiating` phase with its candidate buffer present — empty, unless
/// candidates for the id were discovered before registration completed (an
/// expected race, see [`append_t`]), in which case they are kept.
pub open spec fn register_t(m: CoordState, id: u32) -> CoordState {
    CoordState {
        sessions: m.sessions.insert(id, Lifecycle::Negotiating),
        buffers: m.buffers.insert(id, m.buffered(id)),
    }
}

/// A locally discovered candidate is appended at the tail of `id`'s buffer,
/// creating the buffer if absent; it is never rejected, since a candidate may
/// legitimately arrive before its session is registered.
pub open spec fn append_t(m: CoordState, id: u32, c: CandidateRecord) -> CoordState {
    CoordState { sessions: m.sessions, buffers: m.buffers.insert(id, m.buffered(id).push(c)) }
}

/// Draining removes and returns the whole buffer for `id` atomically;
/// an absent buffer yields the empty sequence, never an error.
pub open spec fn drain_t(m: CoordState, id: u32) -> (CoordState, Seq<CandidateRecord>) {
    (CoordState { sessions: m.sessions, buffers: m.buffers.remove(id) }, m.buffered(id))
}

/// Routing a remote candidate mutates nothing: it succeeds exactly on live
/// sessions and reports an unknown session otherwise.
pub open spec fn route_remote_t(m: CoordState, id: u32) -> Result<(), CoordinatorError> {
    if m.live(id) {
        Ok(())
    } else {
        Err(CoordinatorError::UnknownSession)
    }
}

/// An engine state report advances the session's lifecycle phase; the second
/// component says whether the coordinator must enqueue a teardown for `id`
/// (it must exactly on a terminal report for a live session). A report for an
/// id that is not live is a no-op.
pub open spec fn state_changed_t(m: CoordState, id: u32, reported: ReportedState) -> (
    CoordState,
    bool,
) {
    if m.live(id) {
        (
            CoordState {
                sessions: m.sessions.insert(id, advance_spec(m.sessions[id], reported)),
                buffers: m.buffers,
            },
            report_is_terminal(reported),
        )
    } else {
        (m, false)
    }
}

/// Tearing a session down removes it from the live map and discards its
/// buffer; on an id that is not live it changes nothing.
pub open spec fn teardown_t(m: CoordState, id: u32) -> CoordState {
    CoordState { sessions: m.sessions.remove(id), buffers: m.buffers.remove(id) }
}

/// Cleanup tears down every live session: afterwards nothing is live and
/// nothing is buffered, whatever happens to the engine handles released
/// outside the coordinator.
pub open spec fn cleanup_t(m: CoordState) -> CoordState {
    CoordState::empty()
}

} // verus!
