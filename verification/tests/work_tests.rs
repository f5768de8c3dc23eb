use distributed_channel::message::{MessageRequest, MessageResponse};
use distributed_channel::work::{process, Init, WorkDefinition, WorkResult};

#[test]
fn process_doubles_id() {
    assert_eq!(process(WorkDefinition { id: 21 }), WorkResult { id: 42 });
    assert_eq!(process(WorkDefinition { id: 0 }), WorkResult { id: 0 });
    assert_eq!(process(WorkDefinition { id: u32::MAX / 2 }), WorkResult { id: u32::MAX - 1 });
}

#[test]
fn message_values() {
    let r: MessageRequest<u32> = MessageRequest::RespondWork(3);
    assert_eq!(r, MessageRequest::RespondWork(3));
    assert_ne!(MessageRequest::<u32>::WhoAreYou, MessageRequest::RequestWork);
    let resp: MessageResponse<Init, WorkDefinition> = MessageResponse::MeProducer(Init { id: 123 });
    assert_eq!(resp, MessageResponse::MeProducer(Init { id: 123 }));
    assert_ne!(
        MessageResponse::<Init, WorkDefinition>::SomeWork(WorkDefinition { id: 1 }),
        MessageResponse::NoWorkAvailable
    );
}
