//! Decisions of a consumer's connection to one producer.
//!
//! The connection repeatedly reads a work item pushed by the producer, hands
//! it to the local workers, waits for the worker's result and writes it back.
//! Every failure ends the connection.
use vstd::prelude::*;

verus! {

/// Why a consumer's connection ended.
#[derive(Debug, Clone, Copy, PartialEq, Eq, Structural)]
pub enum ConsumerEnd {
    /// Reading a work item from the producer failed.
    ReadFailed,
    /// The channel to the workers was closed.
    WorkChannelClosed,
    /// The worker dropped the result sender without answering.
    ResultSenderDropped,
    /// Writing the result to the producer failed.
    WriteFailed,
}

/// Where a consumer's connection stands.
#[derive(Debug, Clone, Copy, PartialEq, Eq, Structural)]
pub enum ConsumerState {
    /// Waiting for the producer's next work item.
    ReadingWork,
    /// Handing a work item to the workers.
    Dispatching,
    /// Waiting for the worker's result.
    AwaitingResult,
    /// Writing a result to the producer.
    WritingResult,
    /// The connection has ended.
    Closed(ConsumerEnd),
}

/// What happened since the last action.
#[derive(Debug, PartialEq, Eq)]
pub enum ConsumerEvent<W, R> {
    WorkRead(W),
    ReadFailed,
    Dispatched,
    WorkChannelClosed,
    ResultReady(R),
    ResultSenderDropped,
    ResultWritten,
    WriteFailed,
}

/// What the connection does next.
#[derive(Debug, PartialEq, Eq)]
pub enum ConsumerAction<W, R> {
    /// Read the producer's next work item.
    ReadWork,
    /// Hand this work item to the workers, with a fresh result channel.
    Dispatch(W),
    /// Wait for the worker's result.
    AwaitResult,
    /// Write this result to the producer.
    WriteResult(R),
    /// End the connection.
    Stop(ConsumerEnd),
}

/// The next state and action, or `None` when the state does not expect the
/// event.
pub open spec fn consumer_next<W, R>(s: ConsumerState, e: ConsumerEvent<W, R>) -> Option<
    (ConsumerState, ConsumerAction<W, R>),
> {
    match (s, e) {
        (ConsumerState::ReadingWork, ConsumerEvent::WorkRead(w)) => Some(
            (ConsumerState::Dispatching, ConsumerAction::Dispatch(w)),
        ),
        (ConsumerState::ReadingWork, ConsumerEvent::ReadFailed) => Some(
            (
                ConsumerState::Closed(ConsumerEnd::ReadFailed),
                ConsumerAction::Stop(ConsumerEnd::ReadFailed),
            ),
        ),
        (ConsumerState::Dispatching, ConsumerEvent::Dispatched) => Some(
            (ConsumerState::AwaitingResult, ConsumerAction::AwaitResult),
        ),
        (ConsumerState::Dispatching, ConsumerEvent::WorkChannelClosed) => Some(
            (
                ConsumerState::Closed(ConsumerEnd::WorkChannelClosed),
                ConsumerAction::Stop(ConsumerEnd::WorkChannelClosed),
            ),
        ),
        (ConsumerState::AwaitingResult, ConsumerEvent::ResultReady(r)) => Some(
            (ConsumerState::WritingResult, ConsumerAction::WriteResult(r)),
        ),
        (ConsumerState::AwaitingResult, ConsumerEvent::ResultSenderDropped) => Some(
            (
                ConsumerState::Closed(ConsumerEnd::ResultSenderDropped),
                ConsumerAction::Stop(ConsumerEnd::ResultSenderDropped),
            ),
        ),
        (ConsumerState::WritingResult, ConsumerEvent::ResultWritten) => Some(
            (ConsumerState::ReadingWork, ConsumerAction::ReadWork),
        ),
        (ConsumerState::WritingResult, ConsumerEvent::WriteFailed) => Some(
            (
                ConsumerState::Closed(ConsumerEnd::WriteFailed),
                ConsumerAction::Stop(ConsumerEnd::WriteFailed),
            ),
        ),
        _ => None,
    }
}

/// The state of a new connection and its first action.
pub fn consumer_start<W, R>() -> (r: (ConsumerState, ConsumerAction<W, R>))
    ensures
        r == (ConsumerState::ReadingWork, ConsumerAction::<W, R>::ReadWork),
{
    (ConsumerState::ReadingWork, ConsumerAction::ReadWork)
}

/// Whether `s` expects the event `e`.
pub fn consumer_expects<W, R>(s: ConsumerState, e: &ConsumerEvent<W, R>) -> (r: bool)
    ensures
        r == consumer_next(s, *e) is Some,
{
    match (s, e) {
        (ConsumerState::ReadingWork, ConsumerEvent::WorkRead(_)) => true,
        (ConsumerState::ReadingWork, ConsumerEvent::ReadFailed) => true,
        (ConsumerState::Dispatching, ConsumerEvent::Dispatched) => true,
        (ConsumerState::Dispatching, ConsumerEvent::WorkChannelClosed) => true,
        (ConsumerState::AwaitingResult, ConsumerEvent::ResultReady(_)) => true,
        (ConsumerState::AwaitingResult, ConsumerEvent::ResultSenderDropped) => true,
        (ConsumerState::WritingResult, ConsumerEvent::ResultWritten) => true,
        (ConsumerState::WritingResult, ConsumerEvent::WriteFailed) => true,
        _ => false,
    }
}

/// Takes one step: the next state and the action to perform.
pub fn consumer_step<W, R>(s: ConsumerState, e: ConsumerEvent<W, R>) -> (r: (
    ConsumerState,
    ConsumerAction<W, R>,
))
    requires
        consumer_next(s, e) is Some,
    ensures
        consumer_next(s, e) == Some(r),
{
    match e {
        ConsumerEvent::WorkRead(w) => (ConsumerState::Dispatching, ConsumerAction::Dispatch(w)),
        ConsumerEvent::Dispatched => (ConsumerState::AwaitingResult, ConsumerAction::AwaitResult),
        ConsumerEvent::ResultReady(r) => (
            ConsumerState::WritingResult,
            ConsumerAction::WriteResult(r),
        ),
        ConsumerEvent::ResultWritten => (ConsumerState::ReadingWork, ConsumerAction::ReadWork),
        ConsumerEvent::ReadFailed => (
            ConsumerState::Closed(ConsumerEnd::ReadFailed),
            ConsumerAction::Stop(ConsumerEnd::ReadFailed),
        ),
        ConsumerEvent::WorkChannelClosed => (
            ConsumerState::Closed(ConsumerEnd::WorkChannelClosed),
            ConsumerAction::Stop(ConsumerEnd::WorkChannelClosed),
        ),
        ConsumerEvent::ResultSenderDropped => (
            ConsumerState::Closed(ConsumerEnd::ResultSenderDropped),
            ConsumerAction::Stop(ConsumerEnd::ResultSenderDropped),
        ),
        ConsumerEvent::WriteFailed => (
            ConsumerState::Closed(ConsumerEnd::WriteFailed),
            ConsumerAction::Stop(ConsumerEnd::WriteFailed),
        ),
    }
}

/// A successful round trip hands exactly the work item that was read to the
/// workers, writes back exactly the result they produced, and returns to
/// reading work.
pub proof fn lemma_round_trip<W, R>(w: W, r: R)
    ensures
        ({
            let s0 = ConsumerState::ReadingWork;
            let (s1, a1) = consumer_next(s0, ConsumerEvent::<W, R>::WorkRead(w))->0;
            let (s2, a2) = consumer_next(s1, ConsumerEvent::<W, R>::Dispatched)->0;
            let (s3, a3) = consumer_next(s2, ConsumerEvent::<W, R>::ResultReady(r))->0;
            let (s4, a4) = consumer_next(s3, ConsumerEvent::<W, R>::ResultWritten)->0;
            &&& a1 == ConsumerAction::<W, R>::Dispatch(w)
            &&& a2 == ConsumerAction::<W, R>::AwaitResult
            &&& a3 == ConsumerAction::<W, R>::WriteResult(r)
            &&& s4 == s0 && a4 == ConsumerAction::<W, R>::ReadWork
        }),
{
}

/// Every failure ends the connection, and an ended connection expects no
/// further event.
pub proof fn lemma_failure_closes<W, R>(s: ConsumerState, e: ConsumerEvent<W, R>, end: ConsumerEnd)
    ensures
        (e is ReadFailed || e is WorkChannelClosed || e is ResultSenderDropped || e is WriteFailed)
            && consumer_next(s, e) is Some ==> consumer_next(s, e).unwrap().0 is Closed,
        consumer_next(ConsumerState::Closed(end), e) is None,
{
}

} // verus!
