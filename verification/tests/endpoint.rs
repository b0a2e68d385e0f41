use signaling_coordinator::candidate::CandidateRecord;
use signaling_coordinator::coordinator::{get_id, Coordinator};
use signaling_coordinator::endpoint::{
    get_ice_candidates, ice_candidate, ice_candidate_status, new_offer, ConnectionMessage,
    STATUS_INTERNAL_ERROR, STATUS_NOT_FOUND, STATUS_OK, STATUS_UNAUTHORIZED,
};
use signaling_coordinator::errors::CoordinatorError;

fn record(fragment: &str, mid: Option<&str>, index: Option<u16>) -> CandidateRecord {
    CandidateRecord {
        candidate: fragment.to_string(),
        sdp_mid: mid.map(|m| m.to_string()),
        sdp_mline_index: index,
    }
}

#[test]
fn new_offer_builds_a_new_connection_message() {
    let msg = new_offer("v=0 offer-a".to_string());
    assert_eq!(
        msg,
        ConnectionMessage::NewConnection { offer: "v=0 offer-a".to_string() }
    );
}

#[test]
fn candidate_post_without_session_identity_is_unauthorized() {
    let outcome = ice_candidate(None, record("candidate:1 host", Some("0"), Some(0)));
    assert_eq!(outcome, Err(STATUS_UNAUTHORIZED));
}

#[test]
fn candidate_post_with_session_identity_reaches_the_queue() {
    let cand = record("candidate:1 host", Some("0"), Some(0));
    let outcome = ice_candidate(Some(5), cand.clone());
    assert_eq!(
        outcome,
        Ok(ConnectionMessage::AddRemoteCandidate { id: 5, candidate: cand })
    );
}

#[test]
fn candidate_post_status_mapping() {
    assert_eq!(ice_candidate_status(None), STATUS_INTERNAL_ERROR);
    assert_eq!(ice_candidate_status(Some(Ok(()))), STATUS_OK);
    assert_eq!(
        ice_candidate_status(Some(Err(CoordinatorError::UnknownSession))),
        STATUS_UNAUTHORIZED
    );
    assert_eq!(
        ice_candidate_status(Some(Err(CoordinatorError::EngineNegotiationFailure))),
        STATUS_INTERNAL_ERROR
    );
    assert_eq!(
        ice_candidate_status(Some(Err(CoordinatorError::IdentifierExhaustion))),
        STATUS_INTERNAL_ERROR
    );
}

#[test]
fn candidate_poll_without_session_identity_is_not_found() {
    assert_eq!(get_ice_candidates(None), Err(STATUS_NOT_FOUND));
}

#[test]
fn candidate_poll_with_session_identity_reaches_the_queue() {
    assert_eq!(
        get_ice_candidates(Some(9)),
        Ok(ConnectionMessage::GetIceCandidates { id: 9 })
    );
}

#[test]
fn offer_then_candidate_poll_roundtrip() {
    let mut c = Coordinator::new();

    let offer_msg = new_offer("v=0 offer-a".to_string());
    let id = match offer_msg {
        ConnectionMessage::NewConnection { offer } => {
            assert_eq!(offer, "v=0 offer-a");
            let id = get_id(&c).expect("identifier space exhausted");
            let (answer, got_id) = c
                .create_session(id, Some("v=0 answer-a".to_string()))
                .expect("registration failed");
            assert_eq!(answer, "v=0 answer-a");
            assert_eq!(got_id, id);
            id
        }
        other => panic!("unexpected message {:?}", other),
    };

    c.local_candidate_discovered(id, record("candidate:1 udp host", Some("0"), Some(0)));

    let poll = get_ice_candidates(Some(id)).expect("live identity must reach the queue");
    let polled_id = match poll {
        ConnectionMessage::GetIceCandidates { id: polled } => polled,
        other => panic!("unexpected message {:?}", other),
    };
    let first = c.drain_local_candidates(polled_id);
    assert_eq!(
        first,
        vec![record("candidate:1 udp host", Some("0"), Some(0))]
    );

    let second = c.drain_local_candidates(polled_id);
    assert!(second.is_empty());
}
