use vstd::prelude::*;

verus! {

/// Why a connection was reported lost to the protocol.
#[derive(Clone, Copy, Debug, PartialEq, Eq)]
pub enum LostReason {
    /// Reading or processing TLS records failed ("SSL handshake failed").
    HandshakeFailed,
    /// Writing TLS records to the socket failed ("SSL write failed").
    WriteFailed,
}

/// An effect that a transport step asks its driver (the event loop) to perform,
/// in the order in which the step returns them.
#[derive(Clone, Copy, Debug, PartialEq, Eq)]
pub enum Action {
    /// Stop watching the socket for readability.
    RemoveReader,
    /// Stop watching the socket for writability.
    RemoveWriter,
    /// Watch the socket for readability again.
    AddReader,
    /// Call the protocol's `connection_lost` with the given reason (or none).
    ConnectionLost(Option<LostReason>),
    /// Drop the stream from the event loop and close it.
    CloseStream,
}

/// The actions that report a lost connection: the protocol is told, then the stream closes.
pub open spec fn conn_lost_actions(reason: Option<LostReason>) -> Seq<Action> {
    seq![Action::ConnectionLost(reason), Action::CloseStream]
}

/// The actions of reporting the connection lost with `reason` and closing the stream.
pub fn call_conn_lost(reason: Option<LostReason>) -> (actions: Vec<Action>)
    ensures
        actions@ == conn_lost_actions(reason),
{
    let mut actions: Vec<Action> = Vec::new();
    actions.push(Action::ConnectionLost(reason));
    actions.push(Action::CloseStream);
    actions
}

/// What one socket transfer (a `read_tls` or `write_tls` against the socket) came to.
#[derive(Clone, Copy, Debug, PartialEq, Eq)]
pub enum IoOutcome {
    /// This many bytes moved.
    Transferred(usize),
    /// The socket would block.
    WouldBlock,
    /// The transfer failed otherwise.
    Failed,
}

/// What a loop that writes TLS records to the socket does after one transfer.
#[derive(Clone, Copy, Debug, PartialEq, Eq)]
pub enum FlushStep {
    /// Write again.
    Continue,
    /// Stop: nothing more was written, or the socket would block.
    Done,
    /// Stop with an error.
    Failed,
}

/// The decision of the socket-flush loop: a transfer of zero bytes or a blocked socket
/// ends it, any other transfer continues it, and an error fails it.
pub open spec fn flush_step_of(o: IoOutcome) -> FlushStep {
    match o {
        IoOutcome::Transferred(n) => if n == 0 { FlushStep::Done } else { FlushStep::Continue },
        IoOutcome::WouldBlock => FlushStep::Done,
        IoOutcome::Failed => FlushStep::Failed,
    }
}

/// Decides what the socket-flush loop does after one `write_tls`.
pub fn flush_step(o: IoOutcome) -> (r: FlushStep)
    ensures
        r == flush_step_of(o),
{
    match o {
        IoOutcome::Transferred(0) => FlushStep::Done,
        IoOutcome::Transferred(_) => FlushStep::Continue,
        IoOutcome::WouldBlock => FlushStep::Done,
        IoOutcome::Failed => FlushStep::Failed,
    }
}

} // verus!
