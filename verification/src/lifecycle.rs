use vstd::prelude::*;

verus! {

/// Coarse-grained phase of one peer session, owned by the coordinator.
///
/// A session starts in `Negotiating` when its offer is accepted and an answer
/// is generated, moves to `Connected` when the engine reports an established
/// transport, to `Disconnecting` when the engine reports a lost or failed
/// transport, and to `Closed` when the engine itself reports the connection
/// closed; a terminal report makes the coordinator tear the session down.
#[derive(Clone, Copy, Debug, PartialEq, Eq, Structural)]
pub enum Lifecycle {
    Negotiating,
    Connected,
    Disconnecting,
    Closed,
}

/// Transport state as reported asynchronously by the peer-connection engine,
/// forwarded to the coordinator as an ordinary message.
#[derive(Clone, Copy, Debug, PartialEq, Eq, Structural)]
pub enum ReportedState {
    New,
    Connecting,
    Connected,
    Disconnected,
    Failed,
    Closed,
}

/// A terminal report means the transport is gone for good: the coordinator
/// reacts by enqueueing a teardown for the session rather than tearing it
/// down inline, preserving the one-message-at-a-time ordering.
pub open spec fn report_is_terminal(reported: ReportedState) -> bool {
    match reported {
        ReportedState::Disconnected => true,
        ReportedState::Failed => true,
        ReportedState::Closed => true,
        ReportedState::New => false,
        ReportedState::Connecting => false,
        ReportedState::Connected => false,
    }
}

/// Next lifecycle phase after the engine reports `reported`; reports that
/// carry no lifecycle information (`New`, `Connecting`) leave the phase as it
/// was.
pub open spec fn advance_spec(current: Lifecycle, reported: ReportedState) -> Lifecycle {
    match reported {
        ReportedState::Connected => Lifecycle::Connected,
        ReportedState::Disconnected => Lifecycle::Disconnecting,
        ReportedState::Failed => Lifecycle::Disconnecting,
        ReportedState::Closed => Lifecycle::Closed,
        ReportedState::New => current,
        ReportedState::Connecting => current,
    }
}

/// Executable form of [`advance_spec`].
pub fn advance(current: Lifecycle, reported: ReportedState) -> (next: Lifecycle)
    ensures
        next == advance_spec(current, reported),
{
    match reported {
        ReportedState::Connected => Lifecycle::Connected,
        ReportedState::Disconnected => Lifecycle::Disconnecting,
        ReportedState::Failed => Lifecycle::Disconnecting,
        ReportedState::Closed => Lifecycle::Closed,
        ReportedState::New => current,
        ReportedState::Connecting => current,
    }
}

/// Executable form of [`report_is_terminal`].
pub fn is_terminal_report(reported: ReportedState) -> (r: bool)
    ensures
        r == report_is_terminal(reported),
{
    match reported {
        ReportedState::Disconnected => true,
        ReportedState::Failed => true,
        ReportedState::Closed => true,
        ReportedState::New => false,
        ReportedState::Connecting => false,
        ReportedState::Connected => false,
    }
}

} // verus!
