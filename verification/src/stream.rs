//! The delivery and acknowledgement protocol of one streaming call: the
//! handshake that admits a client, what the frames of a running call do to
//! the acknowledgement book, and how a batch of the bus becomes a chunk.

use vstd::prelude::*;
use crate::ack::{AckBook, Chunk};
use crate::ident::mint_uuid;
use crate::model::{texts, StreamGroup};
use crate::notification::{notification_decoding, EventNotificationMessage};
use crate::token::{read_token, TokenHeader};
use crate::status::{Failure, StatusCode};

verus! {

/// How long one pull from the consumer of a stream group may wait, in
/// milliseconds. A call that was asked to close ends within this time.
pub const PULL_EXPIRY_MILLIS: u64 = 250;

/// How many failures may wait between the input side and the output side of
/// a call.
pub const ERROR_CHANNEL_CAPACITY: usize = 10;

/// What a client asks for in a frame.
#[derive(Clone, Debug, PartialEq, Eq)]
pub enum StreamAction {
    /// Attach to the stream group with this id.
    Init(String),
    /// Acknowledge the chunks with these ids.
    Ack(Vec<String>),
}

/// One frame a client sends on a streaming call.
#[derive(Clone, Debug, PartialEq, Eq)]
pub struct ReadStreamGroupMessagesRequest {
    pub close: bool,
    pub stream_action: Option<StreamAction>,
}

/// What reading the next frame of a client gave.
#[derive(Clone, Debug, PartialEq, Eq)]
pub enum Inbound {
    /// The client has ended its side of the call.
    Ended,
    /// The frame could not be read.
    Broken,
    /// A frame.
    Frame(ReadStreamGroupMessagesRequest),
}

/// One notification of a chunk.
#[derive(Clone, Debug, PartialEq, Eq)]
pub struct NotificationStreamResponse {
    pub message: Option<EventNotificationMessage>,
    pub sequence: u64,
}

/// One frame the server sends: the notifications of a chunk and the id under
/// which the client acknowledges them.
#[derive(Clone, Debug, PartialEq, Eq)]
pub struct ReadStreamGroupMessagesResponse {
    pub notification: Vec<NotificationStreamResponse>,
    pub ack_chunk_id: String,
}

/// A message pulled from the bus: its payload, and the handle by which it is
/// acknowledged on the bus.
#[derive(Debug, PartialEq, Eq)]
pub struct BusMessage<H> {
    pub payload: Vec<u8>,
    pub handle: H,
}

/// Where the handshake of a streaming call stands.
#[derive(Debug, PartialEq, Eq)]
pub enum Handshake {
    /// No frame has been read yet; the token of the caller is known.
    AwaitingInit { token: String },
    /// The registry is being asked for the stream group.
    AwaitingStreamGroup,
    /// The authorization service is being asked whether the caller may read
    /// the stream group with this id.
    AwaitingAuthorization { stream_group_id: String },
    /// A handler is being attached to the consumer of the stream group.
    AwaitingHandler,
    /// The client is admitted: chunks go out and acknowledgements come in.
    Running,
    /// The call has been refused.
    Rejected,
}

/// What the handshake is told.
#[derive(Debug, PartialEq, Eq)]
pub enum HandshakeEvent {
    /// What reading the first frame gave.
    FirstFrame(Inbound),
    /// The stream group the registry holds, or `None` where it could not be
    /// had.
    StreamGroup(Option<StreamGroup>),
    /// The answer of the authorization service, or `None` where it gave none.
    Authorization(Option<bool>),
    /// Whether a handler could be attached to the consumer.
    Handler(bool),
}

/// What the handshake asks for next.
#[derive(Debug, PartialEq, Eq)]
pub enum HandshakeStep {
    /// Ask the registry for the stream group with this id, on behalf of the
    /// caller with this token.
    LookUp { stream_group_id: String, token: String },
    /// Ask the authorization service; the numbers are those of the stream
    /// group.
    Authorize { resource: i32, resource_action: i32, resource_id: String },
    /// Attach a handler to the consumer with this name.
    Attach { stream_group_id: String },
    /// Start the input and the output side of the call.
    Run,
    /// End the call with this failure, without any response frame.
    Reject(Failure),
}

/// Why a first frame does not open a call, or `None` where it does.
pub open spec fn first_frame_fault(first: Inbound) -> Option<Failure> {
    match first {
        Inbound::Ended => Some(Failure::InitRequired),
        Inbound::Broken => Some(Failure::StreamHandling),
        Inbound::Frame(frame) => match frame.stream_action {
            None => Some(Failure::MissingStreamAction),
            Some(StreamAction::Ack(_)) => Some(Failure::AckBeforeInit),
            Some(StreamAction::Init(_)) => None,
        },
    }
}

/// The transition of the handshake: the state after an event, and what is to
/// be done next. An event that does not answer what the state waits for
/// refuses the call.
pub open spec fn handshake_step(state: Handshake, event: HandshakeEvent) -> (
    Handshake,
    HandshakeStep,
) {
    match (state, event) {
        (Handshake::AwaitingInit { token }, HandshakeEvent::FirstFrame(first)) => match first {
            Inbound::Frame(
                ReadStreamGroupMessagesRequest {
                    stream_action: Some(StreamAction::Init(stream_group_id)),
                    ..
                },
            ) => (Handshake::AwaitingStreamGroup, HandshakeStep::LookUp { stream_group_id, token }),
            _ => (Handshake::Rejected, HandshakeStep::Reject(first_frame_fault(first).unwrap())),
        },
        (Handshake::AwaitingStreamGroup, HandshakeEvent::StreamGroup(Some(stream_group))) => (
            Handshake::AwaitingAuthorization { stream_group_id: stream_group.id },
            HandshakeStep::Authorize {
                resource: stream_group.resource_type,
                resource_action: stream_group.event_type,
                resource_id: stream_group.resource_id,
            },
        ),
        (Handshake::AwaitingStreamGroup, HandshakeEvent::StreamGroup(None)) => (
            Handshake::Rejected,
            HandshakeStep::Reject(Failure::StreamGroupLookupFailed),
        ),
        (
            Handshake::AwaitingAuthorization { stream_group_id },
            HandshakeEvent::Authorization(Some(true)),
        ) => (Handshake::AwaitingHandler, HandshakeStep::Attach { stream_group_id }),
        (Handshake::AwaitingAuthorization { .. }, HandshakeEvent::Authorization(Some(false))) => (
            Handshake::Rejected,
            HandshakeStep::Reject(Failure::NotAllowed),
        ),
        (Handshake::AwaitingAuthorization { .. }, HandshakeEvent::Authorization(None)) => (
            Handshake::Rejected,
            HandshakeStep::Reject(Failure::AuthorizationUnavailable),
        ),
        (Handshake::AwaitingHandler, HandshakeEvent::Handler(true)) => (
            Handshake::Running,
            HandshakeStep::Run,
        ),
        (Handshake::AwaitingHandler, HandshakeEvent::Handler(false)) => (
            Handshake::Rejected,
            HandshakeStep::Reject(Failure::HandlerNotCreated),
        ),
        _ => (Handshake::Rejected, HandshakeStep::Reject(Failure::StreamHandling)),
    }
}

impl Handshake {
    /// Opens the handshake of a call: a call without a readable token is
    /// refused before anything is read from it.
    pub fn begin(header: TokenHeader) -> (handshake: Result<Handshake, Failure>)
        ensures
            match header {
                TokenHeader::Missing => handshake == Err::<Handshake, Failure>(
                    Failure::MissingToken,
                ),
                TokenHeader::Unreadable => handshake == Err::<Handshake, Failure>(
                    Failure::UnreadableToken,
                ),
                TokenHeader::Value(token) => handshake == Ok::<Handshake, Failure>(
                    Handshake::AwaitingInit { token },
                ),
            },
    {
        match read_token(header) {
            Ok(token) => Ok(Handshake::AwaitingInit { token }),
            Err(failure) => Err(failure),
        }
    }

    /// Whether the client has been admitted.
    pub fn is_running(&self) -> (running: bool)
        ensures
            running == (*self == Handshake::Running),
    {
        match self {
            Handshake::Running => true,
            _ => false,
        }
    }

    /// Takes the handshake one event further and says what to do next.
    pub fn step(self, event: HandshakeEvent) -> (next: (Handshake, HandshakeStep))
        ensures
            next == handshake_step(self, event),
    {
        match (self, event) {
            (Handshake::AwaitingInit { token }, HandshakeEvent::FirstFrame(first)) => match first {
                Inbound::Ended => (
                    Handshake::Rejected,
                    HandshakeStep::Reject(Failure::InitRequired),
                ),
                Inbound::Broken => (
                    Handshake::Rejected,
                    HandshakeStep::Reject(Failure::StreamHandling),
                ),
                Inbound::Frame(frame) => match frame.stream_action {
                    None => (
                        Handshake::Rejected,
                        HandshakeStep::Reject(Failure::MissingStreamAction),
                    ),
                    Some(StreamAction::Ack(_)) => (
                        Handshake::Rejected,
                        HandshakeStep::Reject(Failure::AckBeforeInit),
                    ),
                    Some(StreamAction::Init(stream_group_id)) => (
                        Handshake::AwaitingStreamGroup,
                        HandshakeStep::LookUp { stream_group_id, token },
                    ),
                },
            },
            (Handshake::AwaitingStreamGroup, HandshakeEvent::StreamGroup(found)) => match found {
                Some(stream_group) => (
                    Handshake::AwaitingAuthorization { stream_group_id: stream_group.id },
                    HandshakeStep::Authorize {
                        resource: stream_group.resource_type,
                        resource_action: stream_group.event_type,
                        resource_id: stream_group.resource_id,
                    },
                ),
                None => (
                    Handshake::Rejected,
                    HandshakeStep::Reject(Failure::StreamGroupLookupFailed),
                ),
            },
            (
                Handshake::AwaitingAuthorization { stream_group_id },
                HandshakeEvent::Authorization(answer),
            ) => match answer {
                Some(true) => (
                    Handshake::AwaitingHandler,
                    HandshakeStep::Attach { stream_group_id },
                ),
                Some(false) => (Handshake::Rejected, HandshakeStep::Reject(Failure::NotAllowed)),
                None => (
                    Handshake::Rejected,
                    HandshakeStep::Reject(Failure::AuthorizationUnavailable),
                ),
            },
            (Handshake::AwaitingHandler, HandshakeEvent::Handler(attached)) => if attached {
                (Handshake::Running, HandshakeStep::Run)
            } else {
                (Handshake::Rejected, HandshakeStep::Reject(Failure::HandlerNotCreated))
            },
            _ => (Handshake::Rejected, HandshakeStep::Reject(Failure::StreamHandling)),
        }
    }
}

/// A first frame that is not an init frame refuses the call with an invalid
/// argument, and nothing but the refusal is asked for: no response frame goes
/// out.
pub proof fn lemma_first_frame_must_be_init(token: String, frame: ReadStreamGroupMessagesRequest)
    requires
        !(frame.stream_action matches Some(StreamAction::Init(_))),
    ensures
        handshake_step(
            Handshake::AwaitingInit { token },
            HandshakeEvent::FirstFrame(Inbound::Frame(frame)),
        ).0 == Handshake::Rejected,
        handshake_step(
            Handshake::AwaitingInit { token },
            HandshakeEvent::FirstFrame(Inbound::Frame(frame)),
        ).1 matches HandshakeStep::Reject(failure) && failure.status()
            == StatusCode::InvalidArgument,
{
}

/// A call runs only after its handshake has gone through every stage: a
/// handler was attached, which is asked for only once the authorization
/// service has agreed, which is asked only for a stream group the registry
/// holds, which is looked up only for an init frame. A refused call stays
/// refused.
pub proof fn lemma_running_needs_full_handshake(state: Handshake, event: HandshakeEvent)
    ensures
        handshake_step(state, event).0 == Handshake::Running ==> state == Handshake::AwaitingHandler
            && event == HandshakeEvent::Handler(true),
        handshake_step(state, event).0 == Handshake::AwaitingHandler ==> (state matches
            Handshake::AwaitingAuthorization { .. }) && event == HandshakeEvent::Authorization(
            Some(true),
        ),
        (handshake_step(state, event).0 matches Handshake::AwaitingAuthorization { .. }) ==> state
            == Handshake::AwaitingStreamGroup && (event matches HandshakeEvent::StreamGroup(
            Some(_),
        )),
        handshake_step(state, event).0 == Handshake::AwaitingStreamGroup ==> (state matches
            Handshake::AwaitingInit { .. }) && (event matches HandshakeEvent::FirstFrame(
            Inbound::Frame(
                ReadStreamGroupMessagesRequest { stream_action: Some(StreamAction::Init(_)), .. },
            ),
        )),
        !(handshake_step(state, event).0 matches Handshake::AwaitingInit { .. }),
        state == Handshake::Rejected ==> handshake_step(state, event).0 == Handshake::Rejected,
        (handshake_step(state, event).1 matches HandshakeStep::Reject(_)) == (handshake_step(
            state,
            event,
        ).0 == Handshake::Rejected),
{
}

/// The book without the chunks whose ids stand in `ids`.
pub open spec fn without_chunks<M>(book: Map<Seq<char>, Seq<M>>, ids: Seq<Seq<char>>) -> Map<
    Seq<char>,
    Seq<M>,
> {
    Map::new(|id: Seq<char>| book.contains_key(id) && !ids.contains(id), |id: Seq<char>| book[id])
}

/// What acknowledging the chunk ids `ids`, one after the other, does to a
/// book. The ids are released in their order up to the first one the book
/// does not know at its turn, which is then `unknown`; an id that stands in
/// `ids` a second time is unknown at its second turn. Each released chunk
/// carries the messages recorded under its id.
pub open spec fn acknowledged<M>(
    before: Map<Seq<char>, Seq<M>>,
    after: Map<Seq<char>, Seq<M>>,
    ids: Seq<Seq<char>>,
    released: Seq<Chunk<M>>,
    unknown: Option<Seq<char>>,
) -> bool {
    let count = released.len() as int;
    &&& count <= ids.len()
    &&& forall|i: int| 0 <= i < count ==> before.contains_key(#[trigger] ids[i])
    &&& forall|i: int|
        0 <= i < count ==> (#[trigger] released[i]).id@ == ids[i] && released[i].messages@
            == before[ids[i]]
    &&& forall|i: int, j: int| 0 <= i < j < count ==> ids[i] != ids[j]
    &&& after == without_chunks(before, ids.take(count))
    &&& unknown.is_some() == (count < ids.len())
    &&& unknown matches Some(id) ==> id == ids[count] && !after.contains_key(id)
}

/// What the input side of a running call does with what it read.
pub struct InputOutcome<M> {
    /// The frame asks to close the call.
    pub close: bool,
    /// The chunks the frame acknowledged, in the order of the frame. Their
    /// messages are to be acknowledged on the bus.
    pub released: Vec<Chunk<M>>,
    /// What is to be reported to the client through the output side.
    pub failure: Option<Failure>,
    /// The input side ends.
    pub stop: bool,
}

/// Takes the chunks with the given ids out of the book, one after the other,
/// and stops at the first id the book does not know.
pub fn release_chunks<M>(book: &mut AckBook<M>, chunk_ids: &Vec<String>) -> (result: (
    Vec<Chunk<M>>,
    Option<String>,
))
    ensures
        acknowledged(
            old(book)@,
            final(book)@,
            texts(chunk_ids@),
            result.0@,
            match result.1 {
                Some(id) => Some(id@),
                None => None,
            },
        ),
{
    let ghost before = book@;
    let ghost ids = texts(chunk_ids@);
    let mut released: Vec<Chunk<M>> = Vec::new();
    let mut at: usize = 0;
    proof {
        assert(book@ =~= without_chunks(before, ids.take(0)));
    }
    while at < chunk_ids.len()
        invariant
            before == old(book)@,
            ids == texts(chunk_ids@),
            at <= chunk_ids@.len(),
            released@.len() == at,
            forall|i: int| 0 <= i < at ==> before.contains_key(#[trigger] ids[i]),
            forall|i: int|
                0 <= i < at ==> (#[trigger] released@[i]).id@ == ids[i] && released@[i].messages@
                    == before[ids[i]],
            forall|i: int, j: int| 0 <= i < j < at ==> ids[i] != ids[j],
            book@ == without_chunks(before, ids.take(at as int)),
        decreases chunk_ids@.len() - at,
    {
        let chunk_id = &chunk_ids[at];
        assert(chunk_id@ == ids[at as int]);
        let ghost current = book@;
        match book.release(chunk_id) {
            Some(messages) => {
                proof {
                    let done = ids.take(at as int);
                    let next = ids.take(at as int + 1);
                    assert(next =~= done.push(ids[at as int]));
                    assert(current == without_chunks(before, done));
                    assert(current.contains_key(ids[at as int]));
                    assert(before.contains_key(ids[at as int]));
                    assert(!done.contains(ids[at as int]));
                    assert(messages@ == before[ids[at as int]]);
                    assert forall|j: int| 0 <= j < at implies ids[j] != ids[at as int] by {
                        assert(done[j] == ids[j]);
                    }
                    assert forall|id: Seq<char>| next.contains(id) == (done.contains(id) || id
                        == ids[at as int]) by {
                        if done.contains(id) {
                            let k = choose|k: int| 0 <= k < done.len() && done[k] == id;
                            assert(next[k] == id);
                        }
                        if id == ids[at as int] {
                            assert(next[at as int] == id);
                        }
                        if next.contains(id) {
                            let k = choose|k: int| 0 <= k < next.len() && next[k] == id;
                            if k < at {
                                assert(done[k] == id);
                            }
                        }
                    }
                    assert(book@ =~= without_chunks(before, next));
                }
                released.push(Chunk { id: chunk_id.clone(), messages });
                at += 1;
            },
            None => {
                return (released, Some(chunk_id.clone()));
            },
        }
    }
    proof {
        assert(ids.take(at as int) =~= ids);
    }
    (released, None)
}

/// What a running call does with what its input side read.
///
/// The end of the client's side ends the input side quietly. A frame that
/// cannot be read, a frame without a stream action, a second init frame and
/// an acknowledgement of a chunk id that the book does not know each end the
/// input side and are reported. An acknowledgement releases its chunks from
/// the book in the order of the frame, up to the first unknown one. The close
/// flag of the frame is handed on whatever else the frame holds.
pub fn receive<M>(book: &mut AckBook<M>, inbound: Inbound) -> (outcome: InputOutcome<M>)
    ensures
        match inbound {
            Inbound::Ended => outcome.failure.is_none() && outcome.stop && !outcome.close
                && outcome.released@.len() == 0 && final(book)@ == old(book)@,
            Inbound::Broken => outcome.failure == Some(Failure::InputReadFailed) && outcome.stop
                && !outcome.close && outcome.released@.len() == 0 && final(book)@ == old(book)@,
            Inbound::Frame(frame) => outcome.close == frame.close && match frame.stream_action {
                None => outcome.failure == Some(Failure::MissingStreamAction) && outcome.stop
                    && outcome.released@.len() == 0 && final(book)@ == old(book)@,
                Some(StreamAction::Init(_)) => outcome.failure == Some(Failure::RepeatedInit)
                    && outcome.stop && outcome.released@.len() == 0 && final(book)@ == old(
                    book,
                )@,
                Some(StreamAction::Ack(chunk_ids)) => {
                    &&& outcome.stop == outcome.failure.is_some()
                    &&& match outcome.failure {
                        Some(Failure::UnknownChunk(id)) => acknowledged(
                            old(book)@,
                            final(book)@,
                            texts(chunk_ids@),
                            outcome.released@,
                            Some(id@),
                        ),
                        Some(_) => false,
                        None => acknowledged(
                            old(book)@,
                            final(book)@,
                            texts(chunk_ids@),
                            outcome.released@,
                            None,
                        ),
                    }
                },
            },
        },
{
    match inbound {
        Inbound::Ended => InputOutcome {
            close: false,
            released: Vec::new(),
            failure: None,
            stop: true,
        },
        Inbound::Broken => InputOutcome {
            close: false,
            released: Vec::new(),
            failure: Some(Failure::InputReadFailed),
            stop: true,
        },
        Inbound::Frame(frame) => {
            let close = frame.close;
            match frame.stream_action {
                None => InputOutcome {
                    close,
                    released: Vec::new(),
                    failure: Some(Failure::MissingStreamAction),
                    stop: true,
                },
                Some(StreamAction::Init(_)) => InputOutcome {
                    close,
                    released: Vec::new(),
                    failure: Some(Failure::RepeatedInit),
                    stop: true,
                },
                Some(StreamAction::Ack(chunk_ids)) => {
                    let (released, unknown) = release_chunks(book, &chunk_ids);
                    match unknown {
                        Some(id) => InputOutcome {
                            close,
                            released,
                            failure: Some(Failure::UnknownChunk(id)),
                            stop: true,
                        },
                        None => InputOutcome { close, released, failure: None, stop: false },
                    }
                },
            }
        },
    }
}

/// What the output side of a running call does at the start of a turn.
#[derive(Clone, Debug, PartialEq, Eq)]
pub enum OutputTurn {
    /// The call was asked to close: the output side ends.
    Finish,
    /// Report the failure to the client; where `finish` holds the output side
    /// ends after that, else it goes on to pull.
    Report { failure: Failure, finish: bool },
    /// Pull a batch from the consumer.
    Pull,
}

/// Decides the turn of the output side from the close flag and from what
/// waits in the error channel. Once the close flag is set no further batch
/// is pulled. A violation of the protocol ends the call once it is reported;
/// a failed acknowledgement on the bus is reported and the call goes on.
pub fn output_turn(close_requested: bool, pending: Option<Failure>) -> (turn: OutputTurn)
    ensures
        close_requested ==> turn == OutputTurn::Finish,
        !close_requested ==> match pending {
            Some(failure) => turn == (OutputTurn::Report { failure, finish: failure.is_fatal() }),
            None => turn == OutputTurn::Pull,
        },
{
    if close_requested {
        OutputTurn::Finish
    } else {
        match pending {
            Some(failure) => {
                let finish = failure.ends_stream();
                OutputTurn::Report { failure, finish }
            },
            None => OutputTurn::Pull,
        }
    }
}

/// Every payload of the batch holds a notification.
pub open spec fn all_decodable<H>(batch: Seq<BusMessage<H>>) -> bool {
    forall|i: int| 0 <= i < batch.len() ==> notification_decoding(
        (#[trigger] batch[i]).payload@,
    ).is_some()
}

/// The response frame carries the chunk id and, for each message of the
/// batch and in its order, the notification its payload holds.
pub open spec fn carries_batch<H>(
    response: ReadStreamGroupMessagesResponse,
    chunk_id: Seq<char>,
    batch: Seq<BusMessage<H>>,
) -> bool {
    &&& response.ack_chunk_id@ == chunk_id
    &&& response.notification@.len() == batch.len()
    &&& forall|i: int|
        0 <= i < batch.len() ==> {
            &&& (#[trigger] response.notification@[i]).sequence == 0
            &&& response.notification@[i].message matches Some(message)
            &&& notification_decoding(batch[i].payload@) == Some(message.content())
        }
}

/// What the decoder makes of each payload of the batch, in the order of the
/// batch; `None` stands for a payload that holds no notification.
fn decode_batch<H>(batch: &Vec<BusMessage<H>>) -> (decoded: Vec<Option<EventNotificationMessage>>)
    ensures
        decoded@.len() == batch@.len(),
        forall|i: int|
            0 <= i < batch@.len() ==> match #[trigger] decoded@[i] {
                Some(message) => notification_decoding(batch@[i].payload@) == Some(
                    message.content(),
                ),
                None => notification_decoding(batch@[i].payload@).is_none(),
            },
{
    let mut decoded: Vec<Option<EventNotificationMessage>> = Vec::new();
    let mut at: usize = 0;
    while at < batch.len()
        invariant
            at <= batch@.len(),
            decoded@.len() == at,
            forall|i: int|
                0 <= i < at ==> match #[trigger] decoded@[i] {
                    Some(message) => notification_decoding(batch@[i].payload@) == Some(
                        message.content(),
                    ),
                    None => notification_decoding(batch@[i].payload@).is_none(),
                },
        decreases batch@.len() - at,
    {
        match EventNotificationMessage::decode(batch[at].payload.as_slice()) {
            Ok(message) => {
                decoded.push(Some(message));
            },
            Err(_) => {
                decoded.push(None);
            },
        }
        at += 1;
    }
    decoded
}

/// The response frame for a chunk, from what the decoder made of each of its
/// payloads. Where every payload held a notification the frame carries them
/// in their order, each with sequence number zero, under the chunk id. One
/// payload without a notification fails the whole chunk.
pub fn chunk_response(
    chunk_id: String,
    decoded: &Vec<Option<EventNotificationMessage>>,
) -> (response: Result<ReadStreamGroupMessagesResponse, Failure>)
    ensures
        response.is_ok() == (forall|i: int|
            0 <= i < decoded@.len() ==> (#[trigger] decoded@[i]).is_some()),
        match response {
            Ok(response) => {
                &&& response.ack_chunk_id == chunk_id
                &&& response.notification@.len() == decoded@.len()
                &&& forall|i: int|
                    0 <= i < decoded@.len() ==> (#[trigger] response.notification@[i]).message
                        == decoded@[i] && response.notification@[i].sequence == 0
            },
            Err(failure) => failure == Failure::UndecodablePayload,
        },
{
    let mut notification: Vec<NotificationStreamResponse> = Vec::new();
    let mut at: usize = 0;
    while at < decoded.len()
        invariant
            at <= decoded@.len(),
            notification@.len() == at,
            forall|i: int| 0 <= i < at ==> (#[trigger] decoded@[i]).is_some(),
            forall|i: int|
                0 <= i < at ==> (#[trigger] notification@[i]).message == decoded@[i]
                    && notification@[i].sequence == 0,
        decreases decoded@.len() - at,
    {
        match &decoded[at] {
            Some(message) => {
                notification.push(
                    NotificationStreamResponse { message: Some(message.duplicate()), sequence: 0 },
                );
            },
            None => {
                assert(decoded@[at as int].is_none());
                return Err(Failure::UndecodablePayload);
            },
        }
        at += 1;
    }
    Ok(ReadStreamGroupMessagesResponse { notification, ack_chunk_id: chunk_id })
}

/// Turns a batch pulled from the bus into the chunk with the given id.
///
/// An empty batch leaves the book as it is and yields no response. Any other
/// batch is recorded in the book under the chunk id; the response, which
/// carries that id, exists only together with the record, so no chunk id
/// reaches a client before the book knows it. Where a payload of the batch
/// holds no notification the batch is recorded all the same and the failure
/// to read it is returned in place of a response.
pub fn deliver<H>(
    book: &mut AckBook<BusMessage<H>>,
    chunk_id: String,
    batch: Vec<BusMessage<H>>,
) -> (response: Result<Option<ReadStreamGroupMessagesResponse>, Failure>)
    ensures
        batch@.len() == 0 ==> final(book)@ == old(book)@ && response == Ok::<
            Option<ReadStreamGroupMessagesResponse>,
            Failure,
        >(None),
        batch@.len() > 0 ==> final(book)@ == old(book)@.insert(chunk_id@, batch@),
        batch@.len() > 0 ==> match response {
            Ok(Some(response)) => all_decodable(batch@) && carries_batch(
                response,
                chunk_id@,
                batch@,
            ),
            Ok(None) => false,
            Err(failure) => !all_decodable(batch@) && failure == Failure::UndecodablePayload,
        },
{
    if batch.len() == 0 {
        return Ok(None);
    }
    let decoded = decode_batch(&batch);
    proof {
        if all_decodable(batch@) {
            assert forall|i: int| 0 <= i < decoded@.len() implies (
            #[trigger] decoded@[i]).is_some() by {
                assert(notification_decoding(batch@[i].payload@).is_some());
            }
        }
        if forall|i: int| 0 <= i < decoded@.len() ==> (#[trigger] decoded@[i]).is_some() {
            assert forall|i: int| 0 <= i < batch@.len() implies notification_decoding(
                (#[trigger] batch@[i]).payload@,
            ).is_some() by {
                assert(decoded@[i].is_some());
            }
        }
    }
    let ack_chunk_id = chunk_id.clone();
    let ghost messages = batch@;
    book.record(chunk_id, batch);
    match chunk_response(ack_chunk_id, &decoded) {
        Ok(response) => {
            proof {
                assert forall|i: int| 0 <= i < messages.len() implies {
                    &&& (#[trigger] response.notification@[i]).sequence == 0
                    &&& response.notification@[i].message matches Some(message)
                    &&& notification_decoding(messages[i].payload@) == Some(message.content())
                } by {
                    assert(response.notification@[i].message == decoded@[i]);
                }
            }
            Ok(Some(response))
        },
        Err(failure) => Err(failure),
    }
}

/// Turns a batch pulled from the bus into a chunk under a chunk id minted for
/// it. Whatever id was minted: an empty batch changes nothing and yields no
/// response; any other batch is recorded in the book under the minted id,
/// which is the id the response carries.
pub fn deliver_fresh<H>(book: &mut AckBook<BusMessage<H>>, batch: Vec<BusMessage<H>>) -> (response:
    Result<Option<ReadStreamGroupMessagesResponse>, Failure>)
    ensures
        batch@.len() == 0 ==> final(book)@ == old(book)@ && response == Ok::<
            Option<ReadStreamGroupMessagesResponse>,
            Failure,
        >(None),
        batch@.len() > 0 ==> match response {
            Ok(Some(response)) => {
                &&& all_decodable(batch@)
                &&& response.ack_chunk_id@.len() == 36
                &&& final(book)@ == old(book)@.insert(response.ack_chunk_id@, batch@)
                &&& carries_batch(response, response.ack_chunk_id@, batch@)
            },
            Ok(None) => false,
            Err(failure) => {
                &&& !all_decodable(batch@)
                &&& failure == Failure::UndecodablePayload
                &&& exists|chunk_id: Seq<char>|
                    chunk_id.len() == 36 && final(book)@ == #[trigger] old(book)@.insert(
                        chunk_id,
                        batch@,
                    )
            },
        },
{
    let chunk_id = mint_uuid();
    let ghost minted = chunk_id@;
    let response = deliver(book, chunk_id, batch);
    proof {
        if batch@.len() > 0 {
            assert(final(book)@ == old(book)@.insert(minted, batch@));
        }
    }
    response
}

/// What an acknowledgement leaves behind: no released chunk is still in the
/// book, so none can be acknowledged again; no chunk id is released twice by
/// one frame; a chunk whose id the frame does not name stays in the book as
/// it was; and a frame that starts with an id the book does not know
/// releases nothing.
pub proof fn lemma_acknowledged_once<M>(
    before: Map<Seq<char>, Seq<M>>,
    after: Map<Seq<char>, Seq<M>>,
    ids: Seq<Seq<char>>,
    released: Seq<Chunk<M>>,
    unknown: Option<Seq<char>>,
)
    requires
        acknowledged(before, after, ids, released, unknown),
    ensures
        forall|i: int|
            0 <= i < released.len() ==> !after.contains_key((#[trigger] released[i]).id@),
        forall|i: int, j: int|
            0 <= i < j < released.len() ==> (#[trigger] released[i]).id@ != (
            #[trigger] released[j]).id@,
        forall|id: Seq<char>|
            !ids.contains(id) ==> (#[trigger] after.contains_key(id)) == before.contains_key(id),
        forall|id: Seq<char>| #[trigger] after.contains_key(id) ==> after[id] == before[id],
        ids.len() > 0 && !before.contains_key(ids[0]) ==> released.len() == 0 && unknown == Some(
            ids[0],
        ) && after == before,
        ids.len() == 0 ==> released.len() == 0 && unknown.is_none() && after == before,
{
    let count = released.len() as int;
    let done = ids.take(count);
    assert forall|i: int| 0 <= i < released.len() implies !after.contains_key(
        (#[trigger] released[i]).id@,
    ) by {
        assert(done[i] == ids[i]);
        assert(done.contains(ids[i]));
    }
    assert forall|i: int, j: int| 0 <= i < j < released.len() implies (#[trigger] released[i]).id@
        != (#[trigger] released[j]).id@ by {
        assert(ids[i] != ids[j]);
    }
    assert forall|id: Seq<char>| !ids.contains(id) implies (#[trigger] after.contains_key(id))
        == before.contains_key(id) by {
        if done.contains(id) {
            let k = choose|k: int| 0 <= k < done.len() && done[k] == id;
            assert(ids[k] == id);
        }
    }
    if ids.len() > 0 && !before.contains_key(ids[0]) {
        if count > 0 {
            assert(before.contains_key(ids[0]));
        }
        assert(done =~= Seq::<Seq<char>>::empty());
        assert(after =~= before);
    }
    if ids.len() == 0 {
        assert(done =~= Seq::<Seq<char>>::empty());
        assert(after =~= before);
    }
}

/// Every violation of the protocol by the client is an invalid argument and
/// ends the call: an acknowledgement before the init frame, a frame without
/// a stream action, a second init frame, and the acknowledgement of a chunk
/// id that was never handed out. A failed acknowledgement on the bus is an
/// internal failure and does not end the call.
pub proof fn lemma_protocol_violations(chunk_id: String)
    ensures
        Failure::AckBeforeInit.status() == StatusCode::InvalidArgument,
        Failure::InitRequired.status() == StatusCode::InvalidArgument,
        Failure::MissingStreamAction.status() == StatusCode::InvalidArgument
            && Failure::MissingStreamAction.is_fatal(),
        Failure::RepeatedInit.status() == StatusCode::InvalidArgument
            && Failure::RepeatedInit.is_fatal(),
        Failure::UnknownChunk(chunk_id).status() == StatusCode::InvalidArgument
            && Failure::UnknownChunk(chunk_id).is_fatal(),
        Failure::AckFailed(chunk_id).status() == StatusCode::Internal && !Failure::AckFailed(
            chunk_id,
        ).is_fatal(),
{
}

} // verus!
