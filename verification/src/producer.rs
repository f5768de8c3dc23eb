//! Decisions of a producer's connection to one consumer.
//!
//! The connection repeatedly takes a work item from the shared queue, writes
//! it to the consumer, reads the consumer's result and forwards it. A work
//! item whose write fails goes back to the queue; a work item whose result
//! cannot be read is lost. Every failure ends the connection.
use vstd::prelude::*;

verus! {

/// Why a producer's connection ended.
#[derive(Debug, Clone, Copy, PartialEq, Eq, Structural)]
pub enum ProducerEnd {
    /// The queue of work was closed.
    WorkChannelClosed,
    /// Writing a work item to the consumer failed; the item was put back.
    WriteFailed,
    /// Reading the result of a work item failed; the item is consumed.
    ResultLost,
    /// The channel of results was closed.
    ResultChannelClosed,
}

/// Where a producer's connection stands.
#[derive(Debug, PartialEq, Eq)]
pub enum ProducerState<W> {
    /// Waiting for a work item from the queue.
    AwaitingWork,
    /// Writing this work item to the consumer.
    Writing(W),
    /// Waiting for the consumer's result.
    AwaitingResult,
    /// Forwarding a result to the channel of results.
    Forwarding,
    /// The connection has ended.
    Closed(ProducerEnd),
}

/// What happened since the last action.
#[derive(Debug, PartialEq, Eq)]
pub enum ProducerEvent<W, R> {
    WorkReceived(W),
    WorkChannelClosed,
    WorkWritten,
    WriteFailed,
    ResultRead(R),
    ReadFailed,
    ResultForwarded,
    ResultChannelClosed,
}

/// What the connection does next.
#[derive(Debug, PartialEq, Eq)]
pub enum ProducerAction<W, R> {
    /// Take the next work item from the queue.
    ReceiveWork,
    /// Write the pending work item to the consumer.
    WriteWork,
    /// Read the consumer's result.
    ReadResult,
    /// Send this result to the channel of results.
    ForwardResult(R),
    /// Put this work item back on the queue; the connection has ended.
    Requeue(W),
    /// End the connection.
    Stop(ProducerEnd),
}

/// The next state and action, or `None` when the state does not expect the
/// event.
pub open spec fn producer_next<W, R>(s: ProducerState<W>, e: ProducerEvent<W, R>) -> Option<
    (ProducerState<W>, ProducerAction<W, R>),
> {
    match (s, e) {
        (ProducerState::AwaitingWork, ProducerEvent::WorkReceived(w)) => Some(
            (ProducerState::Writing(w), ProducerAction::WriteWork),
        ),
        (ProducerState::AwaitingWork, ProducerEvent::WorkChannelClosed) => Some(
            (
                ProducerState::Closed(ProducerEnd::WorkChannelClosed),
                ProducerAction::Stop(ProducerEnd::WorkChannelClosed),
            ),
        ),
        (ProducerState::Writing(_), ProducerEvent::WorkWritten) => Some(
            (ProducerState::AwaitingResult, ProducerAction::ReadResult),
        ),
        (ProducerState::Writing(w), ProducerEvent::WriteFailed) => Some(
            (ProducerState::Closed(ProducerEnd::WriteFailed), ProducerAction::Requeue(w)),
        ),
        (ProducerState::AwaitingResult, ProducerEvent::ResultRead(r)) => Some(
            (ProducerState::Forwarding, ProducerAction::ForwardResult(r)),
        ),
        (ProducerState::AwaitingResult, ProducerEvent::ReadFailed) => Some(
            (
                ProducerState::Closed(ProducerEnd::ResultLost),
                ProducerAction::Stop(ProducerEnd::ResultLost),
            ),
        ),
        (ProducerState::Forwarding, ProducerEvent::ResultForwarded) => Some(
            (ProducerState::AwaitingWork, ProducerAction::ReceiveWork),
        ),
        (ProducerState::Forwarding, ProducerEvent::ResultChannelClosed) => Some(
            (
                ProducerState::Closed(ProducerEnd::ResultChannelClosed),
                ProducerAction::Stop(ProducerEnd::ResultChannelClosed),
            ),
        ),
        _ => None,
    }
}

/// The state of a new connection and its first action.
pub fn producer_start<W, R>() -> (r: (ProducerState<W>, ProducerAction<W, R>))
    ensures
        r == (ProducerState::<W>::AwaitingWork, ProducerAction::<W, R>::ReceiveWork),
{
    (ProducerState::AwaitingWork, ProducerAction::ReceiveWork)
}

/// Whether `s` expects the event `e`.
pub fn producer_expects<W, R>(s: &ProducerState<W>, e: &ProducerEvent<W, R>) -> (r: bool)
    ensures
        r == producer_next(*s, *e) is Some,
{
    match (s, e) {
        (ProducerState::AwaitingWork, ProducerEvent::WorkReceived(_)) => true,
        (ProducerState::AwaitingWork, ProducerEvent::WorkChannelClosed) => true,
        (ProducerState::Writing(_), ProducerEvent::WorkWritten) => true,
        (ProducerState::Writing(_), ProducerEvent::WriteFailed) => true,
        (ProducerState::AwaitingResult, ProducerEvent::ResultRead(_)) => true,
        (ProducerState::AwaitingResult, ProducerEvent::ReadFailed) => true,
        (ProducerState::Forwarding, ProducerEvent::ResultForwarded) => true,
        (ProducerState::Forwarding, ProducerEvent::ResultChannelClosed) => true,
        _ => false,
    }
}

/// The work item that the connection is writing, if any.
pub fn pending_work<W>(s: &ProducerState<W>) -> (r: Option<&W>)
    ensures
        match *s {
            ProducerState::Writing(w) => r == Some(&w),
            _ => r is None,
        },
{
    match s {
        ProducerState::Writing(w) => Some(w),
        _ => None,
    }
}

/// Takes one step: the next state and the action to perform.
pub fn producer_step<W, R>(s: ProducerState<W>, e: ProducerEvent<W, R>) -> (r: (
    ProducerState<W>,
    ProducerAction<W, R>,
))
    requires
        producer_next(s, e) is Some,
    ensures
        producer_next(s, e) == Some(r),
{
    match (s, e) {
        (ProducerState::AwaitingWork, ProducerEvent::WorkReceived(w)) => (
            ProducerState::Writing(w),
            ProducerAction::WriteWork,
        ),
        (ProducerState::Writing(_), ProducerEvent::WorkWritten) => (
            ProducerState::AwaitingResult,
            ProducerAction::ReadResult,
        ),
        (ProducerState::Writing(w), ProducerEvent::WriteFailed) => (
            ProducerState::Closed(ProducerEnd::WriteFailed),
            ProducerAction::Requeue(w),
        ),
        (ProducerState::AwaitingResult, ProducerEvent::ResultRead(r)) => (
            ProducerState::Forwarding,
            ProducerAction::ForwardResult(r),
        ),
        (ProducerState::Forwarding, ProducerEvent::ResultForwarded) => (
            ProducerState::AwaitingWork,
            ProducerAction::ReceiveWork,
        ),
        (_, ProducerEvent::WorkChannelClosed) => (
            ProducerState::Closed(ProducerEnd::WorkChannelClosed),
            ProducerAction::Stop(ProducerEnd::WorkChannelClosed),
        ),
        (_, ProducerEvent::ReadFailed) => (
            ProducerState::Closed(ProducerEnd::ResultLost),
            ProducerAction::Stop(ProducerEnd::ResultLost),
        ),
        (_, _) => (
            ProducerState::Closed(ProducerEnd::ResultChannelClosed),
            ProducerAction::Stop(ProducerEnd::ResultChannelClosed),
        ),
    }
}

/// A work item taken from the queue is never dropped before it reaches the
/// consumer: the write either succeeds, and the connection waits for the
/// result, or fails, and the item goes back to the queue.
pub proof fn lemma_work_not_dropped<W, R>(w: W, e: ProducerEvent<W, R>)
    requires
        producer_next(ProducerState::<W>::Writing(w), e) is Some,
    ensures
        producer_next(ProducerState::<W>::Writing(w), e) == Some(
            (ProducerState::<W>::AwaitingResult, ProducerAction::<W, R>::ReadResult),
        ) || producer_next(ProducerState::<W>::Writing(w), e) == Some(
            (ProducerState::<W>::Closed(ProducerEnd::WriteFailed), ProducerAction::<W, R>::Requeue(w)),
        ),
{
}

/// A successful round trip hands the work item to the consumer, forwards
/// exactly the result that was read, and returns to waiting for work.
pub proof fn lemma_round_trip<W, R>(w: W, r: R)
    ensures
        ({
            let s0 = ProducerState::<W>::AwaitingWork;
            let (s1, a1) = producer_next(s0, ProducerEvent::<W, R>::WorkReceived(w))->0;
            let (s2, a2) = producer_next(s1, ProducerEvent::<W, R>::WorkWritten)->0;
            let (s3, a3) = producer_next(s2, ProducerEvent::<W, R>::ResultRead(r))->0;
            let (s4, a4) = producer_next(s3, ProducerEvent::<W, R>::ResultForwarded)->0;
            &&& s1 == ProducerState::<W>::Writing(w) && a1 == ProducerAction::<W, R>::WriteWork
            &&& a2 == ProducerAction::<W, R>::ReadResult
            &&& a3 == ProducerAction::<W, R>::ForwardResult(r)
            &&& s4 == s0 && a4 == ProducerAction::<W, R>::ReceiveWork
        }),
{
}

/// Every failure ends the connection, and an ended connection expects no
/// further event.
pub proof fn lemma_failure_closes<W, R>(s: ProducerState<W>, e: ProducerEvent<W, R>, end: ProducerEnd)
    ensures
        (e is WorkChannelClosed || e is WriteFailed || e is ReadFailed || e is ResultChannelClosed)
            && producer_next(s, e) is Some ==> producer_next(s, e).unwrap().0 is Closed,
        producer_next(ProducerState::<W>::Closed(end), e) is None,
{
}

} // verus!
