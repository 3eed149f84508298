//! What a call can fail with, and the status code each failure is reported
//! under.

use vstd::prelude::*;

verus! {

/// The status codes under which failures reach a caller.
#[derive(Clone, Copy, Debug, PartialEq, Eq, Structural)]
pub enum StatusCode {
    Unauthenticated,
    PermissionDenied,
    InvalidArgument,
    Internal,
    Unimplemented,
}

/// Every way in which a call of the gateway can fail.
#[derive(Clone, Debug, PartialEq, Eq)]
pub enum Failure {
    /// The token header is absent.
    MissingToken,
    /// The token header is present but cannot be read as text.
    UnreadableToken,
    /// The internal token differs from the shared secret.
    BadToken,
    /// The resource kind is one that no entry point accepts, or one for which
    /// no query is derived.
    UnsupportedResource,
    /// An event could not be handed to the bus.
    EmitFailed,
    /// The authorization service could not be asked.
    AuthorizationUnavailable,
    /// The authorization service denied the creation of a stream group.
    InsufficientPermissions,
    /// The resource service could not be asked.
    HierarchyUnavailable,
    /// The resource service knows no ancestors where they are needed.
    NoHierarchy,
    /// The registry or the bus did not create the stream group.
    StreamGroupNotCreated,
    /// The stream ended before its first frame.
    InitRequired,
    /// The first frame could not be read.
    StreamHandling,
    /// The first frame acknowledges instead of initiating.
    AckBeforeInit,
    /// A frame carries no stream action.
    MissingStreamAction,
    /// The registry could not be asked for the stream group.
    StreamGroupLookupFailed,
    /// The authorization service denied reading the stream group.
    NotAllowed,
    /// No handler could be attached to the consumer of the stream group.
    HandlerNotCreated,
    /// A later frame could not be read.
    InputReadFailed,
    /// A second init frame arrived.
    RepeatedInit,
    /// The registry holds no stream group with the id.
    StreamGroupNotFound,
    /// An acknowledged chunk id was never handed out, or was acknowledged
    /// before.
    UnknownChunk(String),
    /// The bus refused the acknowledgement of a message of the chunk.
    AckFailed(String),
    /// No batch could be pulled from the bus.
    EventSystemReadFailed,
    /// A message of the bus does not hold a notification.
    UndecodablePayload,
    /// The call is reserved and does nothing yet.
    NotImplemented,
}

impl Failure {
    /// The status code a failure is reported under.
    pub open spec fn status(self) -> StatusCode {
        match self {
            Failure::MissingToken => StatusCode::Unauthenticated,
            Failure::BadToken | Failure::InsufficientPermissions | Failure::NotAllowed =>
                StatusCode::PermissionDenied,
            Failure::UnreadableToken
            | Failure::UnsupportedResource
            | Failure::InitRequired
            | Failure::AckBeforeInit
            | Failure::MissingStreamAction
            | Failure::RepeatedInit
            | Failure::StreamGroupNotFound
            | Failure::UnknownChunk(_) => StatusCode::InvalidArgument,
            Failure::EmitFailed
            | Failure::AuthorizationUnavailable
            | Failure::HierarchyUnavailable
            | Failure::NoHierarchy
            | Failure::StreamGroupNotCreated
            | Failure::StreamHandling
            | Failure::StreamGroupLookupFailed
            | Failure::HandlerNotCreated
            | Failure::InputReadFailed
            | Failure::AckFailed(_)
            | Failure::EventSystemReadFailed
            | Failure::UndecodablePayload => StatusCode::Internal,
            Failure::NotImplemented => StatusCode::Unimplemented,
        }
    }

    /// The text that accompanies a failure.
    pub open spec fn text(self) -> Seq<char> {
        match self {
            Failure::MissingToken => "authentication header required and was not found"@,
            Failure::UnreadableToken => "could not read token"@,
            Failure::BadToken => "bad token"@,
            Failure::UnsupportedResource => "unsupported resource type"@,
            Failure::EmitFailed => "could not emit event"@,
            Failure::AuthorizationUnavailable => "internal error when authorizing request"@,
            Failure::InsufficientPermissions => "unsufficient permissions"@,
            Failure::HierarchyUnavailable => "could not read resource hierarchy"@,
            Failure::NoHierarchy => "no hierarchy found, cannot create query string"@,
            Failure::StreamGroupNotCreated => "could not create stream group"@,
            Failure::InitRequired => "init message required to initiate streaming"@,
            Failure::StreamHandling => "error on stream handling"@,
            Failure::AckBeforeInit => "an init message needs to be send before any ack message"@,
            Failure::MissingStreamAction => "could not read stream action value"@,
            Failure::StreamGroupLookupFailed => "internal error requesting stream group"@,
            Failure::NotAllowed => "not allowed to perform call"@,
            Failure::HandlerNotCreated => "could not create stream group handler"@,
            Failure::InputReadFailed => "error reading from input stream"@,
            Failure::RepeatedInit => "init can only be used once in request"@,
            Failure::StreamGroupNotFound => "stream group id not found"@,
            Failure::UnknownChunk(id) => "unknown ack chunk id "@ + id@,
            Failure::AckFailed(id) => "error when acknowledging ack chunk with id "@ + id@,
            Failure::EventSystemReadFailed => "error reading from event system"@,
            Failure::UndecodablePayload => "could not read notification from event system"@,
            Failure::NotImplemented => "not yet implemented"@,
        }
    }

    /// Whether the failure ends a streaming call: every violation of the
    /// protocol does, a transient failure of the bus does not.
    pub open spec fn is_fatal(self) -> bool {
        self.status() != StatusCode::Internal || self == Failure::InputReadFailed
    }

    /// The status code the failure is reported under.
    pub fn code(&self) -> (code: StatusCode)
        ensures
            code == self.status(),
    {
        match self {
            Failure::MissingToken => StatusCode::Unauthenticated,
            Failure::BadToken | Failure::InsufficientPermissions | Failure::NotAllowed =>
                StatusCode::PermissionDenied,
            Failure::UnreadableToken
            | Failure::UnsupportedResource
            | Failure::InitRequired
            | Failure::AckBeforeInit
            | Failure::MissingStreamAction
            | Failure::RepeatedInit
            | Failure::StreamGroupNotFound
            | Failure::UnknownChunk(_) => StatusCode::InvalidArgument,
            Failure::NotImplemented => StatusCode::Unimplemented,
            _ => StatusCode::Internal,
        }
    }

    /// The text that accompanies the failure.
    pub fn message(&self) -> (message: String)
        ensures
            message@ == self.text(),
    {
        match self {
            Failure::MissingToken => String::from_str(
                "authentication header required and was not found",
            ),
            Failure::UnreadableToken => String::from_str("could not read token"),
            Failure::BadToken => String::from_str("bad token"),
            Failure::UnsupportedResource => String::from_str("unsupported resource type"),
            Failure::EmitFailed => String::from_str("could not emit event"),
            Failure::AuthorizationUnavailable => String::from_str(
                "internal error when authorizing request",
            ),
            Failure::InsufficientPermissions => String::from_str("unsufficient permissions"),
            Failure::HierarchyUnavailable => String::from_str("could not read resource hierarchy"),
            Failure::NoHierarchy => String::from_str(
                "no hierarchy found, cannot create query string",
            ),
            Failure::StreamGroupNotCreated => String::from_str("could not create stream group"),
            Failure::InitRequired => String::from_str(
                "init message required to initiate streaming",
            ),
            Failure::StreamHandling => String::from_str("error on stream handling"),
            Failure::AckBeforeInit => String::from_str(
                "an init message needs to be send before any ack message",
            ),
            Failure::MissingStreamAction => String::from_str("could not read stream action value"),
            Failure::StreamGroupLookupFailed => String::from_str(
                "internal error requesting stream group",
            ),
            Failure::NotAllowed => String::from_str("not allowed to perform call"),
            Failure::HandlerNotCreated => String::from_str("could not create stream group handler"),
            Failure::InputReadFailed => String::from_str("error reading from input stream"),
            Failure::RepeatedInit => String::from_str("init can only be used once in request"),
            Failure::StreamGroupNotFound => String::from_str("stream group id not found"),
            Failure::UnknownChunk(id) => String::from_str("unknown ack chunk id ").concat(
                id.as_str(),
            ),
            Failure::AckFailed(id) => String::from_str(
                "error when acknowledging ack chunk with id ",
            ).concat(id.as_str()),
            Failure::EventSystemReadFailed => String::from_str("error reading from event system"),
            Failure::UndecodablePayload => String::from_str(
                "could not read notification from event system",
            ),
            Failure::NotImplemented => String::from_str("not yet implemented"),
        }
    }

    /// Whether a streaming call ends once this failure has been reported.
    pub fn ends_stream(&self) -> (fatal: bool)
        ensures
            fatal == self.is_fatal(),
            self.status() == StatusCode::InvalidArgument ==> fatal,
    {
        match self {
            Failure::InputReadFailed => true,
            _ => match self.code() {
                StatusCode::Internal => false,
                _ => true,
            },
        }
    }
}

} // verus!
