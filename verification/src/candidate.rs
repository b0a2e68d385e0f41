use vstd::prelude::*;

verus! {

/// One discovered network path (an ICE candidate), immutable once created.
///
/// `candidate` is the SDP fragment describing the path; `sdp_mid` and
/// `sdp_mline_index` name the media line the candidate belongs to, when known.
/// The order in which candidates are discovered within a session is
/// meaningful and is preserved by the coordinator's buffers.
#[derive(Debug, Clone, PartialEq, Eq)]
pub struct CandidateRecord {
    pub candidate: String,
    pub sdp_mid: Option<String>,
    pub sdp_mline_index: Option<u16>,
}

} // verus!
