//! Messages that peers exchange.
use vstd::prelude::*;

verus! {

/// A request from one peer to another.
#[derive(Debug, PartialEq, Eq)]
pub enum MessageRequest<R> {
    /// A peer requests the identity of another peer.
    WhoAreYou,
    /// A consumer requests work from a producer.
    RequestWork,
    /// A consumer sends the result of a work item to the producer.
    /// The producer should respond with an acknowledgment.
    RespondWork(R),
}

/// A response to a [`MessageRequest`].
#[derive(Debug, PartialEq, Eq)]
pub enum MessageResponse<I, W> {
    /// The peer is a consumer.
    MeConsumer,
    /// The peer is a producer with the given initialization data.
    MeProducer(I),
    /// The producer has no work to provide.
    NoWorkAvailable,
    /// The producer provides the given work.
    SomeWork(W),
    /// Generic acknowledgment of a message.
    /// Used when no response is needed.
    Acknowledge,
}

} // verus!
