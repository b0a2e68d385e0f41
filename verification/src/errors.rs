use vstd::prelude::*;

verus! {

/// Failure outcomes of coordinator operations.
///
/// - `UnknownSession`: the message named a session identifier not present in
///   the live map; the state is left untouched.
/// - `EngineNegotiationFailure`: the peer-connection engine rejected or failed
///   an offer, answer, or candidate; no partial session is left registered.
/// - `IdentifierExhaustion`: the allocator could not find a fresh identifier
///   within its retry bound; fatal for the one request only, never for the
///   coordinator itself.
#[derive(Clone, Copy, Debug, PartialEq, Eq, Structural)]
pub enum CoordinatorError {
    UnknownSession,
    EngineNegotiationFailure,
    IdentifierExhaustion,
}

} // verus!
