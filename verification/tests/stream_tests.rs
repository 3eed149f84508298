use notification_service::ack::{AckBook, Chunk};
use notification_service::handler::{create_stream_group, register_event};
use notification_service::model::{EventType, Hierarchy, Relation, ResourceType, StreamGroup};
use notification_service::notification::EventNotificationMessage;
use notification_service::token::TokenHeader;
use notification_service::status::{Failure, StatusCode};
use notification_service::stream::{
    deliver, deliver_fresh, output_turn, receive, release_chunks, BusMessage, Handshake,
    HandshakeEvent, HandshakeStep, Inbound, OutputTurn, ReadStreamGroupMessagesRequest,
    StreamAction, ERROR_CHANNEL_CAPACITY, PULL_EXPIRY_MILLIS,
};

fn opened() -> Handshake {
    Handshake::begin(TokenHeader::Value("test".to_string())).unwrap()
}

fn frame(close: bool, action: Option<StreamAction>) -> Inbound {
    Inbound::Frame(ReadStreamGroupMessagesRequest {
        close,
        stream_action: action,
    })
}

fn ack(ids: &[&str]) -> Option<StreamAction> {
    Some(StreamAction::Ack(ids.iter().map(|s| s.to_string()).collect()))
}

fn group() -> StreamGroup {
    StreamGroup {
        id: "group-1".to_string(),
        event_type: 6,
        resource_type: 1,
        resource_id: "p".to_string(),
        notify_on_sub_resource: true,
    }
}

fn payload(id: &str) -> Vec<u8> {
    EventNotificationMessage {
        resource: 1,
        resource_id: id.to_string(),
        updated_type: 6,
    }
    .encode()
}

#[test]
fn ack_as_first_frame_is_an_invalid_argument() {
    let (state, step) = opened().step(HandshakeEvent::FirstFrame(frame(false, ack(&["x"]))));
    assert_eq!(state, Handshake::Rejected);
    assert_eq!(step, HandshakeStep::Reject(Failure::AckBeforeInit));
    assert_eq!(Failure::AckBeforeInit.code(), StatusCode::InvalidArgument);
    assert!(!state.is_running());
}

#[test]
fn first_frame_without_init_is_refused() {
    let cases = [
        (Inbound::Ended, Failure::InitRequired, StatusCode::InvalidArgument),
        (Inbound::Broken, Failure::StreamHandling, StatusCode::Internal),
        (frame(false, None), Failure::MissingStreamAction, StatusCode::InvalidArgument),
        (frame(true, ack(&[])), Failure::AckBeforeInit, StatusCode::InvalidArgument),
    ];
    for (first, failure, code) in cases {
        let (state, step) = opened().step(HandshakeEvent::FirstFrame(first));
        assert_eq!(state, Handshake::Rejected);
        assert_eq!(failure.code(), code);
        assert_eq!(step, HandshakeStep::Reject(failure));
    }
}

#[test]
fn handshake_runs_through_all_stages() {
    let init = frame(false, Some(StreamAction::Init("group-1".to_string())));
    let (state, step) = opened().step(HandshakeEvent::FirstFrame(init));
    assert_eq!(state, Handshake::AwaitingStreamGroup);
    assert_eq!(
        step,
        HandshakeStep::LookUp {
            stream_group_id: "group-1".to_string(),
            token: "test".to_string()
        }
    );
    let (state, step) = state.step(HandshakeEvent::StreamGroup(Some(group())));
    assert_eq!(
        state,
        Handshake::AwaitingAuthorization {
            stream_group_id: "group-1".to_string()
        }
    );
    assert_eq!(
        step,
        HandshakeStep::Authorize {
            resource: 1,
            resource_action: 6,
            resource_id: "p".to_string()
        }
    );
    let (state, step) = state.step(HandshakeEvent::Authorization(Some(true)));
    assert_eq!(state, Handshake::AwaitingHandler);
    assert_eq!(
        step,
        HandshakeStep::Attach {
            stream_group_id: "group-1".to_string()
        }
    );
    let (state, step) = state.step(HandshakeEvent::Handler(true));
    assert_eq!(state, Handshake::Running);
    assert_eq!(step, HandshakeStep::Run);
    assert!(state.is_running());
}

#[test]
fn handshake_needs_a_token() {
    assert_eq!(
        Handshake::begin(TokenHeader::Missing),
        Err(Failure::MissingToken)
    );
    assert_eq!(
        Handshake::begin(TokenHeader::Unreadable),
        Err(Failure::UnreadableToken)
    );
    assert_eq!(
        Handshake::begin(TokenHeader::Value("t".to_string())),
        Ok(Handshake::AwaitingInit {
            token: "t".to_string()
        })
    );
}

#[test]
fn handshake_refusals() {
    let (state, step) = Handshake::AwaitingStreamGroup.step(HandshakeEvent::StreamGroup(None));
    assert_eq!(state, Handshake::Rejected);
    assert_eq!(step, HandshakeStep::Reject(Failure::StreamGroupLookupFailed));
    assert_eq!(Failure::StreamGroupLookupFailed.code(), StatusCode::Internal);

    let awaiting = || Handshake::AwaitingAuthorization {
        stream_group_id: "g".to_string(),
    };
    let (state, step) = awaiting().step(HandshakeEvent::Authorization(Some(false)));
    assert_eq!(state, Handshake::Rejected);
    assert_eq!(step, HandshakeStep::Reject(Failure::NotAllowed));
    assert_eq!(Failure::NotAllowed.code(), StatusCode::PermissionDenied);
    let (state, step) = awaiting().step(HandshakeEvent::Authorization(None));
    assert_eq!(state, Handshake::Rejected);
    assert_eq!(step, HandshakeStep::Reject(Failure::AuthorizationUnavailable));

    let (state, step) = Handshake::AwaitingHandler.step(HandshakeEvent::Handler(false));
    assert_eq!(state, Handshake::Rejected);
    assert_eq!(step, HandshakeStep::Reject(Failure::HandlerNotCreated));

    let (state, step) = Handshake::Rejected.step(HandshakeEvent::Handler(true));
    assert_eq!(state, Handshake::Rejected);
    assert_eq!(step, HandshakeStep::Reject(Failure::StreamHandling));
    let (state, _) = Handshake::Running.step(HandshakeEvent::Authorization(Some(true)));
    assert_eq!(state, Handshake::Rejected);
}

#[test]
fn ack_book_records_and_releases() {
    let mut book: AckBook<u64> = AckBook::new();
    assert!(book.is_empty());
    book.record("a".to_string(), vec![1, 2, 3]);
    book.record("b".to_string(), vec![]);
    assert!(book.contains(&"a".to_string()));
    assert!(book.contains(&"b".to_string()));
    assert!(!book.contains(&"c".to_string()));
    assert!(!book.is_empty());
    assert_eq!(book.release(&"c".to_string()), None);
    assert_eq!(book.release(&"a".to_string()), Some(vec![1, 2, 3]));
    assert!(!book.contains(&"a".to_string()));
    assert!(book.contains(&"b".to_string()));
    assert_eq!(book.release(&"a".to_string()), None);
    assert_eq!(book.release(&"b".to_string()), Some(vec![]));
    assert!(book.is_empty());
}

#[test]
fn ack_book_record_replaces_a_known_id() {
    let mut book: AckBook<u64> = AckBook::new();
    book.record("a".to_string(), vec![1]);
    book.record("b".to_string(), vec![2]);
    book.record("a".to_string(), vec![3, 4]);
    assert_eq!(book.release(&"a".to_string()), Some(vec![3, 4]));
    assert_eq!(book.release(&"a".to_string()), None);
    assert_eq!(book.release(&"b".to_string()), Some(vec![2]));
}

#[test]
fn second_init_is_an_invalid_argument() {
    let mut book: AckBook<u64> = AckBook::new();
    book.record("a".to_string(), vec![1]);
    let outcome = receive(
        &mut book,
        frame(false, Some(StreamAction::Init("group-1".to_string()))),
    );
    assert_eq!(outcome.failure, Some(Failure::RepeatedInit));
    assert_eq!(Failure::RepeatedInit.code(), StatusCode::InvalidArgument);
    assert!(Failure::RepeatedInit.ends_stream());
    assert!(outcome.stop);
    assert!(!outcome.close);
    assert!(outcome.released.is_empty());
    assert!(book.contains(&"a".to_string()));
}

#[test]
fn unknown_chunk_id_is_an_invalid_argument() {
    let mut book: AckBook<u64> = AckBook::new();
    book.record("a".to_string(), vec![1]);
    let outcome = receive(&mut book, frame(false, ack(&["never"])));
    assert_eq!(outcome.failure, Some(Failure::UnknownChunk("never".to_string())));
    assert_eq!(
        Failure::UnknownChunk("never".to_string()).code(),
        StatusCode::InvalidArgument
    );
    assert_eq!(
        Failure::UnknownChunk("never".to_string()).message(),
        "unknown ack chunk id never"
    );
    assert!(outcome.stop);
    assert!(outcome.released.is_empty());
    assert!(book.contains(&"a".to_string()));
}

#[test]
fn ack_releases_known_chunks_in_order() {
    let mut book: AckBook<u64> = AckBook::new();
    book.record("a".to_string(), vec![1, 2]);
    book.record("b".to_string(), vec![3]);
    book.record("c".to_string(), vec![4]);
    let outcome = receive(&mut book, frame(false, ack(&["b", "a"])));
    assert_eq!(outcome.failure, None);
    assert!(!outcome.stop);
    assert!(!outcome.close);
    assert_eq!(
        outcome.released,
        vec![
            Chunk {
                id: "b".to_string(),
                messages: vec![3]
            },
            Chunk {
                id: "a".to_string(),
                messages: vec![1, 2]
            },
        ]
    );
    assert!(!book.contains(&"a".to_string()));
    assert!(!book.contains(&"b".to_string()));
    assert!(book.contains(&"c".to_string()));
}

#[test]
fn ack_stops_at_the_first_unknown_id() {
    let mut book: AckBook<u64> = AckBook::new();
    book.record("a".to_string(), vec![1]);
    book.record("b".to_string(), vec![2]);
    let outcome = receive(&mut book, frame(false, ack(&["a", "a", "b"])));
    assert_eq!(outcome.failure, Some(Failure::UnknownChunk("a".to_string())));
    assert!(outcome.stop);
    assert_eq!(
        outcome.released,
        vec![Chunk {
            id: "a".to_string(),
            messages: vec![1]
        }]
    );
    assert!(book.contains(&"b".to_string()));

    let (released, unknown) = release_chunks(&mut book, &vec!["b".to_string()]);
    assert_eq!(released.len(), 1);
    assert_eq!(unknown, None);
    assert!(book.is_empty());
    let (released, unknown) = release_chunks(&mut book, &vec![]);
    assert!(released.is_empty());
    assert_eq!(unknown, None);
}

#[test]
fn close_flag_is_handed_on() {
    let mut book: AckBook<u64> = AckBook::new();
    let outcome = receive(&mut book, frame(true, ack(&[])));
    assert!(outcome.close);
    assert!(!outcome.stop);
    assert_eq!(outcome.failure, None);
    let outcome = receive(&mut book, frame(true, None));
    assert!(outcome.close);
    assert!(outcome.stop);
    assert_eq!(outcome.failure, Some(Failure::MissingStreamAction));
    let outcome = receive(&mut book, Inbound::Ended);
    assert!(!outcome.close);
    assert!(outcome.stop);
    assert_eq!(outcome.failure, None);
    let outcome = receive(&mut book, Inbound::Broken);
    assert!(outcome.stop);
    assert_eq!(outcome.failure, Some(Failure::InputReadFailed));
    assert_eq!(Failure::InputReadFailed.code(), StatusCode::Internal);
}

#[test]
fn output_side_ends_once_close_is_set() {
    assert_eq!(output_turn(true, None), OutputTurn::Finish);
    assert_eq!(
        output_turn(true, Some(Failure::RepeatedInit)),
        OutputTurn::Finish
    );
    assert_eq!(output_turn(false, None), OutputTurn::Pull);
    assert_eq!(
        output_turn(false, Some(Failure::RepeatedInit)),
        OutputTurn::Report {
            failure: Failure::RepeatedInit,
            finish: true
        }
    );
    assert_eq!(
        output_turn(false, Some(Failure::UnknownChunk("x".to_string()))),
        OutputTurn::Report {
            failure: Failure::UnknownChunk("x".to_string()),
            finish: true
        }
    );
    assert_eq!(
        output_turn(false, Some(Failure::AckFailed("x".to_string()))),
        OutputTurn::Report {
            failure: Failure::AckFailed("x".to_string()),
            finish: false
        }
    );
    assert_eq!(
        output_turn(false, Some(Failure::InputReadFailed)),
        OutputTurn::Report {
            failure: Failure::InputReadFailed,
            finish: true
        }
    );
    assert_eq!(PULL_EXPIRY_MILLIS, 250);
    assert_eq!(ERROR_CHANNEL_CAPACITY, 10);
}

#[test]
fn deliver_records_before_it_responds() {
    let mut book: AckBook<BusMessage<u64>> = AckBook::new();
    let batch = vec![
        BusMessage {
            payload: payload("alpha"),
            handle: 11,
        },
        BusMessage {
            payload: payload("beta"),
            handle: 12,
        },
    ];
    let response = deliver(&mut book, "chunk-1".to_string(), batch)
        .unwrap()
        .unwrap();
    assert_eq!(response.ack_chunk_id, "chunk-1");
    assert_eq!(response.notification.len(), 2);
    assert_eq!(
        response.notification[0].message,
        Some(EventNotificationMessage {
            resource: 1,
            resource_id: "alpha".to_string(),
            updated_type: 6
        })
    );
    assert_eq!(response.notification[0].sequence, 0);
    assert_eq!(
        response.notification[1].message.as_ref().unwrap().resource_id,
        "beta"
    );
    assert!(book.contains(&"chunk-1".to_string()));
    let released = book.release(&"chunk-1".to_string()).unwrap();
    assert_eq!(released.len(), 2);
    assert_eq!(released[0].handle, 11);
    assert_eq!(released[1].handle, 12);
}

#[test]
fn empty_batch_yields_no_response() {
    let mut book: AckBook<BusMessage<u64>> = AckBook::new();
    assert_eq!(deliver(&mut book, "chunk-1".to_string(), vec![]), Ok(None));
    assert!(book.is_empty());
    assert_eq!(deliver_fresh(&mut book, vec![]), Ok(None));
    assert!(book.is_empty());
}

#[test]
fn undecodable_payload_is_an_internal_failure() {
    let mut book: AckBook<BusMessage<u64>> = AckBook::new();
    let batch = vec![
        BusMessage {
            payload: payload("alpha"),
            handle: 1,
        },
        BusMessage {
            payload: vec![0xff, 0xff],
            handle: 2,
        },
    ];
    assert_eq!(
        deliver(&mut book, "chunk-1".to_string(), batch),
        Err(Failure::UndecodablePayload)
    );
    assert!(book.contains(&"chunk-1".to_string()));
}

#[test]
fn fresh_chunk_ids_are_uuids() {
    let mut book: AckBook<BusMessage<u64>> = AckBook::new();
    let first = deliver_fresh(
        &mut book,
        vec![BusMessage {
            payload: payload("p"),
            handle: 1,
        }],
    )
    .unwrap()
    .unwrap();
    let second = deliver_fresh(
        &mut book,
        vec![BusMessage {
            payload: payload("p"),
            handle: 2,
        }],
    )
    .unwrap()
    .unwrap();
    assert_eq!(first.ack_chunk_id.chars().count(), 36);
    assert_eq!(second.ack_chunk_id.chars().count(), 36);
    assert_ne!(first.ack_chunk_id, second.ack_chunk_id);
    assert!(book.contains(&first.ack_chunk_id));
    assert!(book.contains(&second.ack_chunk_id));
}

#[test]
fn project_event_reaches_a_subscriber_and_is_acknowledged() {
    let publication = register_event(
        ResourceType::Project,
        "p".to_string(),
        EventType::All,
        &Relation::empty(),
    )
    .unwrap();
    let consumer = create_stream_group(
        "group-1".to_string(),
        &Hierarchy::empty(),
        ResourceType::Project,
        "p".to_string(),
        true,
    )
    .unwrap();
    let scope = consumer.filter_subject.strip_suffix(">").unwrap();
    assert!(publication.subjects.iter().all(|s| s.starts_with(scope)));

    let mut book: AckBook<BusMessage<u64>> = AckBook::new();
    let batch = vec![BusMessage {
        payload: publication.payload.clone(),
        handle: 7,
    }];
    let response = deliver_fresh(&mut book, batch).unwrap().unwrap();
    assert_eq!(response.notification.len(), 1);
    assert!(!response.ack_chunk_id.is_empty());
    assert_eq!(
        response.notification[0].message,
        Some(EventNotificationMessage {
            resource: 1,
            resource_id: "p".to_string(),
            updated_type: 6
        })
    );
    assert!(book.contains(&response.ack_chunk_id));

    let outcome = receive(
        &mut book,
        frame(false, ack(&[response.ack_chunk_id.as_str()])),
    );
    assert_eq!(outcome.failure, None);
    assert_eq!(outcome.released.len(), 1);
    assert_eq!(outcome.released[0].messages.len(), 1);
    assert_eq!(outcome.released[0].messages[0].handle, 7);
    assert!(!book.contains(&response.ack_chunk_id));
    assert!(book.is_empty());
}
