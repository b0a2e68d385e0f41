use vstd::prelude::*;

use crate::candidate::CandidateRecord;
use crate::errors::CoordinatorError;
use crate::lifecycle::ReportedState;

verus! {

pub const STATUS_OK: u16 = 200;

pub const STATUS_UNAUTHORIZED: u16 = 401;

pub const STATUS_NOT_FOUND: u16 = 404;

pub const STATUS_INTERNAL_ERROR: u16 = 500;

/// The coordinator's inbound message protocol, one value per request or
/// engine notification. Reply channels and engine handles stay with the
/// process that runs the queue; the coordinator sees only these plain values.
///
/// `NewConnection` asks for a session (its engine negotiation happens at the
/// queue, between [`crate::coordinator::Coordinator::begin_create_session`]
/// and [`crate::coordinator::Coordinator::create_session`]);
/// `AddRemoteCandidate` routes a candidate from the remote peer to a live
/// session's engine handle; `AddLocalCandidate` buffers a locally discovered
/// candidate; `GetIceCandidates` drains that buffer; `PeerStateChanged`
/// forwards an engine state report; `ConnectionClosed` tears one session
/// down; `Cleanup` tears all of them down.
#[derive(Debug, Clone, PartialEq, Eq)]
pub enum ConnectionMessage {
    NewConnection { offer: String },
    AddRemoteCandidate { id: u32, candidate: CandidateRecord },
    AddLocalCandidate { id: u32, candidate: CandidateRecord },
    GetIceCandidates { id: u32 },
    PeerStateChanged { id: u32, reported: ReportedState },
    ConnectionClosed { id: u32 },
    Cleanup,
}

/// Decision core of the new-offer endpoint: every offer becomes a
/// new-connection message for the coordinator queue; the caller's previous
/// session identity, if any, is simply forgotten by the cookie layer.
pub fn new_offer(offer: String) -> (r: ConnectionMessage)
    ensures
        r == (ConnectionMessage::NewConnection { offer }),
{
    ConnectionMessage::NewConnection { offer }
}

/// Decision core of the candidate-post endpoint: a request bearing no live
/// session identity is rejected as unauthorized, and no message reaches the
/// coordinator; with an identity, the candidate becomes a coordinator
/// message for that session.
pub fn ice_candidate(session_id: Option<u32>, candidate: CandidateRecord) -> (r: Result<
    ConnectionMessage,
    u16,
>)
    ensures
        session_id is None ==> r == Err::<ConnectionMessage, u16>(STATUS_UNAUTHORIZED),
        session_id matches Some(id) ==> r == Ok::<ConnectionMessage, u16>(
            (ConnectionMessage::AddRemoteCandidate { id, candidate }),
        ),
{
    match session_id {
        Some(id) => Ok(ConnectionMessage::AddRemoteCandidate { id, candidate }),
        None => Err(STATUS_UNAUTHORIZED),
    }
}

/// How the candidate-post endpoint answers, given the coordinator's reply:
/// no reply at all means the coordinator is unreachable or the reply channel
/// was lost, an internal error; an unknown session is the client's fault; an
/// engine failure is surfaced as an internal error; otherwise the candidate
/// was accepted.
pub open spec fn ice_candidate_status_spec(reply: Option<Result<(), CoordinatorError>>) -> u16 {
    match reply {
        None => STATUS_INTERNAL_ERROR,
        Some(Ok(())) => STATUS_OK,
        Some(Err(CoordinatorError::UnknownSession)) => STATUS_UNAUTHORIZED,
        Some(Err(CoordinatorError::EngineNegotiationFailure)) => STATUS_INTERNAL_ERROR,
        Some(Err(CoordinatorError::IdentifierExhaustion)) => STATUS_INTERNAL_ERROR,
    }
}

/// Executable form of [`ice_candidate_status_spec`].
pub fn ice_candidate_status(reply: Option<Result<(), CoordinatorError>>) -> (r: u16)
    ensures
        r == ice_candidate_status_spec(reply),
{
    match reply {
        None => STATUS_INTERNAL_ERROR,
        Some(Ok(())) => STATUS_OK,
        Some(Err(CoordinatorError::UnknownSession)) => STATUS_UNAUTHORIZED,
        Some(Err(CoordinatorError::EngineNegotiationFailure)) => STATUS_INTERNAL_ERROR,
        Some(Err(CoordinatorError::IdentifierExhaustion)) => STATUS_INTERNAL_ERROR,
    }
}

/// Decision core of the candidate-poll endpoint: a request bearing no live
/// session identity is answered not-found, and no message reaches the
/// coordinator; with an identity, the poll becomes a drain message for that
/// session.
pub fn get_ice_candidates(session_id: Option<u32>) -> (r: Result<ConnectionMessage, u16>)
    ensures
        session_id is None ==> r == Err::<ConnectionMessage, u16>(STATUS_NOT_FOUND),
        session_id matches Some(id) ==> r == Ok::<ConnectionMessage, u16>(
            (ConnectionMessage::GetIceCandidates { id }),
        ),
{
    match session_id {
        Some(id) => Ok(ConnectionMessage::GetIceCandidates { id }),
        None => Err(STATUS_NOT_FOUND),
    }
}

} // verus!
