use signaling_coordinator::candidate::CandidateRecord;
use signaling_coordinator::coordinator::{get_id, Coordinator};
use signaling_coordinator::errors::CoordinatorError;
use signaling_coordinator::lifecycle::{Lifecycle, ReportedState};

fn record(fragment: &str, mid: Option<&str>, index: Option<u16>) -> CandidateRecord {
    CandidateRecord {
        candidate: fragment.to_string(),
        sdp_mid: mid.map(|m| m.to_string()),
        sdp_mline_index: index,
    }
}

fn create(c: &mut Coordinator, answer: &str) -> u32 {
    let id = get_id(c).expect("identifier space exhausted");
    let created = c.create_session(id, Some(answer.to_string()));
    let (got_answer, got_id) = created.expect("registration failed");
    assert_eq!(got_answer, answer);
    assert_eq!(got_id, id);
    id
}

#[test]
fn fresh_ids_are_distinct_among_live() {
    let mut c = Coordinator::new();
    let a = create(&mut c, "answer-a");
    let b = create(&mut c, "answer-b");
    let d = create(&mut c, "answer-c");
    assert_ne!(a, b);
    assert_ne!(a, d);
    assert_ne!(b, d);
    let mut live = c.live_ids();
    live.sort_unstable();
    let mut expected = vec![a, b, d];
    expected.sort_unstable();
    assert_eq!(live, expected);
}

#[test]
fn allocator_avoids_live_ids() {
    let mut c = Coordinator::new();
    let id = create(&mut c, "answer");
    for _ in 0..32 {
        let fresh = get_id(&c).expect("identifier space exhausted");
        assert_ne!(fresh, id);
        assert!(!c.is_live(fresh));
    }
}

#[test]
fn allocation_succeeds_with_no_live_sessions() {
    let c = Coordinator::new();
    assert!(get_id(&c).is_some());
    assert!(c.begin_create_session().is_ok());
}

#[test]
fn begin_create_session_allocates_fresh_id() {
    let mut c = Coordinator::new();
    let first = create(&mut c, "answer");
    let fresh = c.begin_create_session().expect("identifier space exhausted");
    assert_ne!(fresh, first);
    assert!(!c.is_live(fresh));
}

#[test]
fn drain_returns_all_then_empty() {
    let mut c = Coordinator::new();
    let id = create(&mut c, "answer");
    c.local_candidate_discovered(id, record("candidate:1 host", Some("0"), Some(0)));
    let first = c.drain_local_candidates(id);
    assert_eq!(first.len(), 1);
    assert_eq!(first[0].candidate, "candidate:1 host");
    let second = c.drain_local_candidates(id);
    assert!(second.is_empty());
}

#[test]
fn drain_preserves_discovery_order() {
    let mut c = Coordinator::new();
    let id = create(&mut c, "answer");
    let c1 = record("candidate:1 first", Some("0"), Some(0));
    let c2 = record("candidate:2 second", Some("1"), Some(1));
    c.local_candidate_discovered(id, c1.clone());
    c.local_candidate_discovered(id, c2.clone());
    let drained = c.drain_local_candidates(id);
    assert_eq!(drained, vec![c1, c2]);
}

#[test]
fn candidate_before_registration_is_kept() {
    let mut c = Coordinator::new();
    let id = get_id(&c).expect("identifier space exhausted");
    let early = record("candidate:0 early", None, None);
    c.local_candidate_discovered(id, early.clone());
    let created = c.create_session(id, Some("answer".to_string()));
    assert!(created.is_ok());
    let drained = c.drain_local_candidates(id);
    assert_eq!(drained, vec![early]);
}

#[test]
fn unknown_session_is_rejected_without_state_change() {
    let mut c = Coordinator::new();
    let id = create(&mut c, "answer");
    c.local_candidate_discovered(id, record("candidate:1 host", None, None));
    let absent = id.wrapping_add(1);
    assert_eq!(
        c.add_remote_candidate(absent),
        Err(CoordinatorError::UnknownSession)
    );
    assert_eq!(c.live_ids(), vec![id]);
    let drained = c.drain_local_candidates(id);
    assert_eq!(drained.len(), 1);
}

#[test]
fn remote_candidate_routes_to_live_session() {
    let mut c = Coordinator::new();
    let id = create(&mut c, "answer");
    assert_eq!(c.add_remote_candidate(id), Ok(()));
}

#[test]
fn engine_rejection_leaves_no_session() {
    let mut c = Coordinator::new();
    let id = get_id(&c).expect("identifier space exhausted");
    let created = c.create_session(id, None);
    assert_eq!(created, Err(CoordinatorError::EngineNegotiationFailure));
    assert!(!c.is_live(id));
    assert!(c.live_ids().is_empty());
}

#[test]
fn teardown_makes_id_behave_as_never_existed() {
    let mut c = Coordinator::new();
    let id = create(&mut c, "answer");
    c.local_candidate_discovered(id, record("candidate:1 host", None, None));
    assert!(c.teardown(id));
    let never_existed = id.wrapping_add(1);
    assert_eq!(c.add_remote_candidate(id), c.add_remote_candidate(never_existed));
    assert_eq!(
        c.add_remote_candidate(id),
        Err(CoordinatorError::UnknownSession)
    );
    assert_eq!(
        c.drain_local_candidates(id),
        c.drain_local_candidates(never_existed)
    );
    assert!(c.drain_local_candidates(id).is_empty());
    assert_eq!(c.session_state(id), None);
    assert!(!c.peer_state_changed(id, ReportedState::Disconnected));
}

#[test]
fn teardown_of_absent_id_is_a_noop() {
    let mut c = Coordinator::new();
    assert!(!c.teardown(12345));
    assert!(c.live_ids().is_empty());
}

#[test]
fn cleanup_leaves_zero_live_sessions() {
    let mut c = Coordinator::new();
    let a = create(&mut c, "answer-a");
    let b = create(&mut c, "answer-b");
    let d = create(&mut c, "answer-c");
    c.local_candidate_discovered(a, record("candidate:1 host", None, None));
    let mut released = c.cleanup();
    released.sort_unstable();
    let mut expected = vec![a, b, d];
    expected.sort_unstable();
    assert_eq!(released, expected);
    assert!(c.live_ids().is_empty());
    assert!(!c.is_live(a));
    assert!(c.drain_local_candidates(a).is_empty());
}

#[test]
fn cleanup_of_empty_coordinator_releases_nothing() {
    let mut c = Coordinator::new();
    assert!(c.cleanup().is_empty());
    assert!(c.live_ids().is_empty());
}

#[test]
fn peer_state_reports_advance_lifecycle() {
    let mut c = Coordinator::new();
    let id = create(&mut c, "answer");
    assert_eq!(c.session_state(id), Some(Lifecycle::Negotiating));
    assert!(!c.peer_state_changed(id, ReportedState::Connecting));
    assert_eq!(c.session_state(id), Some(Lifecycle::Negotiating));
    assert!(!c.peer_state_changed(id, ReportedState::Connected));
    assert_eq!(c.session_state(id), Some(Lifecycle::Connected));
    assert!(c.peer_state_changed(id, ReportedState::Disconnected));
    assert_eq!(c.session_state(id), Some(Lifecycle::Disconnecting));
    assert!(c.peer_state_changed(id, ReportedState::Closed));
    assert_eq!(c.session_state(id), Some(Lifecycle::Closed));
    assert!(c.teardown(id));
    assert!(!c.peer_state_changed(id, ReportedState::Failed));
}

#[test]
fn failed_report_requests_teardown() {
    let mut c = Coordinator::new();
    let id = create(&mut c, "answer");
    assert!(c.peer_state_changed(id, ReportedState::Failed));
    assert_eq!(c.session_state(id), Some(Lifecycle::Disconnecting));
    assert!(c.is_live(id));
}
