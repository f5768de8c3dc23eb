use distributed_channel::consumer::{
    consumer_expects, consumer_start, consumer_step, ConsumerAction, ConsumerEnd, ConsumerEvent,
    ConsumerState,
};
use distributed_channel::producer::{
    pending_work, producer_expects, producer_start, producer_step, ProducerAction, ProducerEnd,
    ProducerEvent, ProducerState,
};

#[test]
fn producer_round_trip() {
    let (s, a) = producer_start::<u32, String>();
    assert_eq!(s, ProducerState::AwaitingWork);
    assert_eq!(a, ProducerAction::ReceiveWork);
    let (s, a) = producer_step(s, ProducerEvent::<u32, String>::WorkReceived(5));
    assert_eq!(pending_work(&s), Some(&5));
    assert_eq!(a, ProducerAction::WriteWork);
    let (s, a) = producer_step(s, ProducerEvent::<u32, String>::WorkWritten);
    assert_eq!(pending_work(&s), None);
    assert_eq!(a, ProducerAction::ReadResult);
    let (s, a) = producer_step(s, ProducerEvent::ResultRead("ten".to_string()));
    assert_eq!(a, ProducerAction::ForwardResult("ten".to_string()));
    let (s, a) = producer_step(s, ProducerEvent::<u32, String>::ResultForwarded);
    assert_eq!(s, ProducerState::AwaitingWork);
    assert_eq!(a, ProducerAction::ReceiveWork);
}

#[test]
fn producer_requeues_work_on_write_failure() {
    let (s, _) = producer_step::<u32, ()>(ProducerState::AwaitingWork, ProducerEvent::WorkReceived(9));
    let (s, a) = producer_step::<u32, ()>(s, ProducerEvent::WriteFailed);
    assert_eq!(a, ProducerAction::Requeue(9));
    assert_eq!(s, ProducerState::Closed(ProducerEnd::WriteFailed));
    assert!(!producer_expects::<u32, ()>(&s, &ProducerEvent::WorkReceived(1)));
}

#[test]
fn producer_loses_work_on_read_failure() {
    let (s, a) = producer_step::<u32, ()>(ProducerState::AwaitingResult, ProducerEvent::ReadFailed);
    assert_eq!(a, ProducerAction::Stop(ProducerEnd::ResultLost));
    assert_eq!(s, ProducerState::Closed(ProducerEnd::ResultLost));
}

#[test]
fn producer_stops_when_channels_close() {
    let (_, a) = producer_step::<u32, ()>(ProducerState::AwaitingWork, ProducerEvent::WorkChannelClosed);
    assert_eq!(a, ProducerAction::Stop(ProducerEnd::WorkChannelClosed));
    let (_, a) = producer_step::<u32, ()>(ProducerState::Forwarding, ProducerEvent::ResultChannelClosed);
    assert_eq!(a, ProducerAction::Stop(ProducerEnd::ResultChannelClosed));
}

#[test]
fn producer_expects_only_matching_events() {
    assert!(producer_expects::<u32, ()>(&ProducerState::AwaitingWork, &ProducerEvent::WorkReceived(1)));
    assert!(!producer_expects::<u32, ()>(&ProducerState::AwaitingWork, &ProducerEvent::WorkWritten));
    assert!(producer_expects::<u32, ()>(&ProducerState::Writing(1), &ProducerEvent::WriteFailed));
    assert!(!producer_expects::<u32, ()>(&ProducerState::Forwarding, &ProducerEvent::ReadFailed));
}

#[test]
fn consumer_round_trip() {
    let (s, a) = consumer_start::<u32, u64>();
    assert_eq!(s, ConsumerState::ReadingWork);
    assert_eq!(a, ConsumerAction::ReadWork);
    let (s, a) = consumer_step(s, ConsumerEvent::<u32, u64>::WorkRead(21));
    assert_eq!(a, ConsumerAction::Dispatch(21));
    let (s, a) = consumer_step(s, ConsumerEvent::<u32, u64>::Dispatched);
    assert_eq!(a, ConsumerAction::AwaitResult);
    let (s, a) = consumer_step(s, ConsumerEvent::<u32, u64>::ResultReady(42));
    assert_eq!(a, ConsumerAction::WriteResult(42));
    let (s, a) = consumer_step(s, ConsumerEvent::<u32, u64>::ResultWritten);
    assert_eq!(s, ConsumerState::ReadingWork);
    assert_eq!(a, ConsumerAction::ReadWork);
}

#[test]
fn consumer_failures_end_connection() {
    let cases = [
        (ConsumerState::ReadingWork, ConsumerEvent::<u32, u64>::ReadFailed, ConsumerEnd::ReadFailed),
        (ConsumerState::Dispatching, ConsumerEvent::WorkChannelClosed, ConsumerEnd::WorkChannelClosed),
        (ConsumerState::AwaitingResult, ConsumerEvent::ResultSenderDropped, ConsumerEnd::ResultSenderDropped),
        (ConsumerState::WritingResult, ConsumerEvent::WriteFailed, ConsumerEnd::WriteFailed),
    ];
    for (s, e, end) in cases {
        assert!(consumer_expects(s, &e));
        let (s2, a) = consumer_step(s, e);
        assert_eq!(s2, ConsumerState::Closed(end));
        assert_eq!(a, ConsumerAction::Stop(end));
        assert!(!consumer_expects(s2, &ConsumerEvent::<u32, u64>::WorkRead(0)));
    }
}

#[test]
fn consumer_expects_only_matching_events() {
    assert!(!consumer_expects(ConsumerState::ReadingWork, &ConsumerEvent::<u32, u64>::Dispatched));
    assert!(consumer_expects(ConsumerState::AwaitingResult, &ConsumerEvent::<u32, u64>::ResultReady(1)));
}
