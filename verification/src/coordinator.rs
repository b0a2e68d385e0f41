use rand::Rng;
use vstd::prelude::*;

use crate::candidate::CandidateRecord;
use crate::errors::CoordinatorError;
use crate::lifecycle::{advance, is_terminal_report, Lifecycle, ReportedState};
use crate::model::{
    append_t, cleanup_t, drain_t, register_t, route_remote_t, state_changed_t, teardown_t,
    CoordState,
};
use crate::table::Table;

verus! {

/// The sequence each buffered vector stands for.
pub open spec fn records_of(v: Vec<CandidateRecord>) -> Seq<CandidateRecord> {
    v@
}

/// The abstract buffer map that a concrete table of vectors stands for.
pub open spec fn buffers_view(m: Map<u32, Vec<CandidateRecord>>) -> Map<u32, Seq<CandidateRecord>> {
    m.map_values(|v: Vec<CandidateRecord>| records_of(v))
}

proof fn lemma_buffers_view_contains(m: Map<u32, Vec<CandidateRecord>>, k: u32)
    ensures
        buffers_view(m).contains_key(k) <==> m.contains_key(k),
        m.contains_key(k) ==> buffers_view(m)[k] == m[k]@,
{
}

proof fn lemma_buffers_view_insert(m: Map<u32, Vec<CandidateRecord>>, k: u32, v: Vec<CandidateRecord>)
    ensures
        buffers_view(m.insert(k, v)) =~= buffers_view(m).insert(k, v@),
{
}

proof fn lemma_buffers_view_remove(m: Map<u32, Vec<CandidateRecord>>, k: u32)
    ensures
        buffers_view(m.remove(k)) =~= buffers_view(m).remove(k),
{
}

proof fn lemma_buffers_view_empty()
    ensures
        buffers_view(Map::empty()) =~= Map::<u32, Seq<CandidateRecord>>::empty(),
{
}

/// The connection coordinator: sole owner of the live-session map and of the
/// per-session candidate buffers. The surrounding process serializes all
/// messages through one queue and applies each to this state, one at a time,
/// by calling the methods below; that total order is what makes draining
/// atomic and session creation race-free.
pub struct Coordinator {
    sessions: Table<Lifecycle>,
    buffers: Table<Vec<CandidateRecord>>,
}

impl View for Coordinator {
    type V = CoordState;

    closed spec fn view(&self) -> CoordState {
        CoordState { sessions: self.sessions@, buffers: buffers_view(self.buffers@) }
    }
}

impl Coordinator {
    /// Both tables keep their keys distinct.
    pub closed spec fn wf(&self) -> bool {
        self.sessions.wf() && self.buffers.wf()
    }

    /// A coordinator starts with no live sessions and no buffered candidates.
    pub fn new() -> (c: Coordinator)
        ensures
            c.wf(),
            c@ == CoordState::empty(),
    {
        let c = Coordinator { sessions: Table::new(), buffers: Table::new() };
        proof {
            lemma_buffers_view_empty();
            assert(c@ =~= CoordState::empty());
        }
        c
    }

    /// Whether `id` is in the live-session map.
    pub fn is_live(&self, id: u32) -> (r: bool)
        ensures
            r == self@.live(id),
    {
        self.sessions.contains(id)
    }

    /// The lifecycle phase of session `id`, if it is live.
    pub fn session_state(&self, id: u32) -> (r: Option<Lifecycle>)
        requires
            self.wf(),
        ensures
            match r {
                Some(st) => self@.live(id) && st == self@.sessions[id],
                None => !self@.live(id),
            },
    {
        match self.sessions.get(id) {
            Some(st) => Some(*st),
            None => None,
        }
    }

    /// The identifiers of all live sessions, pairwise distinct, one per
    /// live session.
    pub fn live_ids(&self) -> (r: Vec<u32>)
        requires
            self.wf(),
        ensures
            forall|k: u32| r@.contains(k) <==> self@.live(k),
            r@.no_duplicates(),
            r@.len() == self@.sessions.dom().len(),
    {
        self.sessions.keys()
    }

    /// First step of session creation: allocate an identifier not equal to
    /// any currently live one. Exceeding the retry bound is identifier-space
    /// exhaustion, fatal for this request only; with no live session at all,
    /// no draw can collide, so allocation is owed to succeed.
    pub fn begin_create_session(&self) -> (r: Result<u32, CoordinatorError>)
        ensures
            r matches Ok(id) ==> !self@.live(id),
            r matches Err(e) ==> e == CoordinatorError::IdentifierExhaustion,
            self@.sessions.dom() =~= Set::<u32>::empty() ==> r matches Ok(_),
    {
        match get_id(self) {
            Some(id) => Ok(id),
            None => Err(CoordinatorError::IdentifierExhaustion),
        }
    }

    /// Second step of session creation, after the engine has negotiated the
    /// offer: on a successful negotiation the session is registered under `id`
    /// in the `Negotiating` phase with its candidate buffer present — empty,
    /// unless candidates for `id` arrived before registration completed, in
    /// which case they are kept — and the answer is returned to the caller
    /// together with the id. If the engine rejected the offer, nothing is
    /// registered and no resource is retained.
    pub fn create_session(&mut self, id: u32, negotiated: Option<String>) -> (r: Result<
        (String, u32),
        CoordinatorError,
    >)
        requires
            old(self).wf(),
        ensures
            final(self).wf(),
            negotiated matches Some(answer) ==> final(self)@ == register_t(old(self)@, id) && r
                == Ok::<(String, u32), CoordinatorError>((answer, id)),
            negotiated is None ==> final(self)@ == old(self)@ && r == Err::<
                (String, u32),
                CoordinatorError,
            >(CoordinatorError::EngineNegotiationFailure),
    {
        match negotiated {
            Some(answer) => {
                let ghost m0 = self@;
                let ghost b0 = self.buffers@;
                self.sessions.insert(id, Lifecycle::Negotiating);
                if !self.buffers.contains(id) {
                    let empty_buffer: Vec<CandidateRecord> = Vec::new();
                    proof {
                        lemma_buffers_view_insert(b0, id, empty_buffer);
                        lemma_buffers_view_contains(b0, id);
                    }
                    self.buffers.insert(id, empty_buffer);
                }
                proof {
                    lemma_buffers_view_contains(b0, id);
                    assert(self@.buffers =~= m0.buffers.insert(id, m0.buffered(id)));
                    assert(self@ =~= register_t(m0, id));
                }
                Ok((answer, id))
            },
            None => Err(CoordinatorError::EngineNegotiationFailure),
        }
    }

    /// Decide where a remote candidate goes: to the engine handle of a live
    /// session, or nowhere. Mutates nothing; an unknown session is an
    /// explicit outcome, never a crash. The engine call itself happens
    /// outside the coordinator and its failure is surfaced to the caller
    /// unchanged.
    pub fn add_remote_candidate(&self, id: u32) -> (r: Result<(), CoordinatorError>)
        ensures
            r == route_remote_t(self@, id),
    {
        if self.is_live(id) {
            Ok(())
        } else {
            Err(CoordinatorError::UnknownSession)
        }
    }

    /// A locally discovered candidate joins the tail of `id`'s buffer; the
    /// buffer is created if absent, and the discovery order is preserved.
    pub fn local_candidate_discovered(&mut self, id: u32, candidate: CandidateRecord)
        requires
            old(self).wf(),
        ensures
            final(self).wf(),
            final(self)@ == append_t(old(self)@, id, candidate),
    {
        let ghost m0 = self@;
        let ghost b0 = self.buffers@;
        let mut records = match self.buffers.remove(id) {
            Some(v) => v,
            None => Vec::new(),
        };
        proof {
            lemma_buffers_view_contains(b0, id);
        }
        records.push(candidate);
        let ghost b1 = self.buffers@;
        proof {
            lemma_buffers_view_remove(b0, id);
            lemma_buffers_view_insert(b1, id, records);
        }
        self.buffers.insert(id, records);
        proof {
            assert(self@.buffers =~= m0.buffers.insert(id, m0.buffered(id).push(candidate)));
            assert(self@ =~= append_t(m0, id, candidate));
        }
    }

    /// Remove and return everything buffered for `id`, oldest first; an
    /// unknown or already drained id yields the empty vector, never an error,
    /// since polling before any candidate exists is an expected race.
    pub fn drain_local_candidates(&mut self, id: u32) -> (r: Vec<CandidateRecord>)
        requires
            old(self).wf(),
        ensures
            final(self).wf(),
            final(self)@ == drain_t(old(self)@, id).0,
            r@ == drain_t(old(self)@, id).1,
    {
        let ghost m0 = self@;
        let ghost b0 = self.buffers@;
        let r = match self.buffers.remove(id) {
            Some(v) => v,
            None => Vec::new(),
        };
        proof {
            lemma_buffers_view_contains(b0, id);
            lemma_buffers_view_remove(b0, id);
            assert(self@ =~= drain_t(m0, id).0);
        }
        r
    }

    /// Apply an engine state report to `id`'s lifecycle phase. Returns true
    /// exactly when the report is terminal for a live session: the caller
    /// must then enqueue a teardown message for `id` rather than tear down
    /// inline, preserving message ordering. A report for an id that is not
    /// live is a no-op that still lets the caller acknowledge it.
    pub fn peer_state_changed(&mut self, id: u32, reported: ReportedState) -> (r: bool)
        requires
            old(self).wf(),
        ensures
            final(self).wf(),
            final(self)@ == state_changed_t(old(self)@, id, reported).0,
            r == state_changed_t(old(self)@, id, reported).1,
    {
        let ghost m0 = self@;
        let current = match self.sessions.get(id) {
            Some(st) => *st,
            None => {
                return false;
            },
        };
        let next = advance(current, reported);
        self.sessions.insert(id, next);
        proof {
            assert(self@ =~= state_changed_t(m0, id, reported).0);
        }
        is_terminal_report(reported)
    }

    /// Tear session `id` down: it leaves the live map and its buffer is
    /// discarded. Returns whether the session was live, so that the caller
    /// can release the engine handle it holds for `id`. Safe on an id that
    /// is not live: a no-op.
    pub fn teardown(&mut self, id: u32) -> (r: bool)
        requires
            old(self).wf(),
        ensures
            final(self).wf(),
            final(self)@ == teardown_t(old(self)@, id),
            r == old(self)@.live(id),
    {
        let ghost m0 = self@;
        let ghost b0 = self.buffers@;
        let had_session = match self.sessions.remove(id) {
            Some(_) => true,
            None => false,
        };
        let _ = self.buffers.remove(id);
        proof {
            lemma_buffers_view_remove(b0, id);
            assert(self@ =~= teardown_t(m0, id));
        }
        had_session
    }

    /// Tear down every live session: afterwards nothing is live and nothing
    /// is buffered. Returns the identifiers that were live, pairwise
    /// distinct, so that the caller can release each engine handle; the maps
    /// are cleared unconditionally, so a failure releasing one handle cannot
    /// keep another session alive.
    pub fn cleanup(&mut self) -> (r: Vec<u32>)
        requires
            old(self).wf(),
        ensures
            final(self).wf(),
            final(self)@ == cleanup_t(old(self)@),
            forall|k: u32| r@.contains(k) <==> old(self)@.live(k),
            r@.no_duplicates(),
            r@.len() == old(self)@.sessions.dom().len(),
    {
        let ids = self.sessions.keys();
        self.sessions.clear();
        self.buffers.clear();
        proof {
            lemma_buffers_view_empty();
            assert(self@ =~= CoordState::empty());
        }
        ids
    }
}

/// Relies on rand::thread_rng and rand::Rng::gen_range, which panics only on
/// an empty range: one uniformly random draw from the whole identifier space.
/// Nothing is assumed of the value.
#[verifier::external_body]
fn random_session_id() -> u32 {
    rand::thread_rng().gen_range(0..=u32::MAX)
}

/// Allocate a session identifier not equal to any currently live one, by
/// randomized generation with a bounded retry loop against the live set.
/// `None` means the identifier space looks exhausted: a capacity alarm that
/// fails this request alone, never the coordinator. With no live session the
/// very first draw is fresh, so allocation cannot fail.
pub fn get_id(c: &Coordinator) -> (r: Option<u32>)
    ensures
        r matches Some(id) ==> !c@.live(id),
        c@.sessions.dom() =~= Set::<u32>::empty() ==> r matches Some(_),
{
    get_id_with_count(c, 0)
}

fn get_id_with_count(c: &Coordinator, iteration: u8) -> (r: Option<u32>)
    ensures
        r matches Some(id) ==> !c@.live(id),
        iteration < 100 && c@.sessions.dom() =~= Set::<u32>::empty() ==> r matches Some(_),
    decreases 100 - iteration,
{
    if iteration >= 100 {
        return None;
    }
    let id = random_session_id();
    if c.is_live(id) {
        get_id_with_count(c, iteration + 1)
    } else {
        Some(id)
    }
}

} // verus!
