//! The decisions of the two services: who may emit an event and what is
//! published for it, and the steps by which a stream group comes to be.

use vstd::prelude::*;
use crate::handler::{
    create_stream_group,
    event_subjects_of,
    has_query,
    register_event,
    stream_group_query_of,
    ConsumerConfig,
    Publication,
};
use crate::model::{
    texts,
    EventType,
    Hierarchy,
    Relation,
    ResourceAction,
    ResourceType,
    StreamGroup,
};
use crate::notification::notification_encoding;
use crate::status::Failure;
use crate::token::{read_token, token_matches, TokenHeader};

verus! {

/// The header that carries the token of a caller of the public service.
pub const TOKEN_METADATA_NAME: &'static str = "api-token";

/// The header that carries the shared secret of the internal service.
pub const INTERNAL_AUTHZ_TOKEN: &'static str = "internal-token";

/// The stream of the bus on which all consumers are created.
pub const DEFAULT_STREAM_NAME: &'static str = "STORAGE_UPDATES";

/// A request to emit an event; the numbers are those of the wire schema.
#[derive(Clone, Debug, PartialEq, Eq)]
pub struct EmitEventRequest {
    pub event_resource: i32,
    pub resource_id: String,
    pub event_type: i32,
    pub relations: Vec<Relation>,
}

/// Why an emit request is refused, or `None` where it is served.
pub open spec fn emit_fault(header: TokenHeader, secret: Seq<char>, event_resource: i32) -> Option<
    Failure,
> {
    match header {
        TokenHeader::Missing => Some(Failure::MissingToken),
        TokenHeader::Unreadable => Some(Failure::UnreadableToken),
        TokenHeader::Value(token) => if token@ != secret {
            Some(Failure::BadToken)
        } else if !ResourceType::of_wire(event_resource as int).is_concrete() {
            Some(Failure::UnsupportedResource)
        } else {
            None
        },
    }
}

/// What is to be published for an emit request: one publication for each
/// relation of the request, in their order.
///
/// The request is refused without a token, with a token that is not the
/// shared secret, and for a resource kind that names no resource.
pub fn emit_event(header: TokenHeader, internal_token: &String, request: EmitEventRequest) -> (
    publications: Result<Vec<Publication>, Failure>)
    ensures
        match publications {
            Ok(publications) => {
                &&& emit_fault(header, internal_token@, request.event_resource).is_none()
                &&& publications@.len() == request.relations@.len()
                &&& forall|i: int|
                    0 <= i < publications@.len() ==> {
                        &&& texts((#[trigger] publications@[i]).subjects@) == event_subjects_of(
                            ResourceType::of_wire(request.event_resource as int),
                            request.resource_id@,
                            request.relations@[i],
                        )
                        &&& publications@[i].payload@ == notification_encoding(
                            ResourceType::of_wire(request.event_resource as int).wire() as i32,
                            request.resource_id@,
                            EventType::of_wire(request.event_type as int).wire() as i32,
                        )
                    }
            },
            Err(failure) => emit_fault(header, internal_token@, request.event_resource) == Some(
                failure,
            ),
        },
{
    let token = match read_token(header) {
        Ok(token) => token,
        Err(failure) => {
            return Err(failure);
        },
    };
    if !token_matches(&token, internal_token) {
        return Err(Failure::BadToken);
    }
    let resource_type = ResourceType::from_wire(request.event_resource);
    let event_type = EventType::from_wire(request.event_type);
    match resource_type {
        ResourceType::Unspecified | ResourceType::All => {
            return Err(Failure::UnsupportedResource);
        },
        _ => {},
    }
    let mut publications: Vec<Publication> = Vec::new();
    let mut at: usize = 0;
    while at < request.relations.len()
        invariant
            at <= request.relations@.len(),
            publications@.len() == at,
            resource_type == ResourceType::of_wire(request.event_resource as int),
            event_type == EventType::of_wire(request.event_type as int),
            resource_type.is_concrete(),
            forall|i: int|
                0 <= i < at ==> {
                    &&& texts((#[trigger] publications@[i]).subjects@) == event_subjects_of(
                        resource_type,
                        request.resource_id@,
                        request.relations@[i],
                    )
                    &&& publications@[i].payload@ == notification_encoding(
                        resource_type.wire() as i32,
                        request.resource_id@,
                        event_type.wire() as i32,
                    )
                },
        decreases request.relations@.len() - at,
    {
        match register_event(
            resource_type,
            request.resource_id.clone(),
            event_type,
            &request.relations[at],
        ) {
            Ok(publication) => {
                publications.push(publication);
            },
            Err(failure) => {
                return Err(failure);
            },
        }
        at += 1;
    }
    Ok(publications)
}

/// A request for a stream group on a resource.
#[derive(Clone, Debug, PartialEq, Eq)]
pub struct CreateEventStreamingGroupRequest {
    pub resource: i32,
    pub resource_id: String,
    pub include_subresource: bool,
}

/// How far the creation of a stream group has come.
#[derive(Clone, Copy, Debug, PartialEq, Eq, Structural)]
pub enum GroupStage {
    /// The authorization service is being asked.
    Authorizing,
    /// The resource service is being asked for the ancestors.
    ReadingHierarchy,
    /// The registry is being asked to mint the group.
    Registering,
    /// The consumer is being created on the bus.
    CreatingConsumer,
    /// The id of the group has been returned.
    Done,
    /// The call has failed.
    Failed,
}

/// What the creation of a stream group is told.
#[derive(Clone, Debug, PartialEq, Eq)]
pub enum GroupEvent {
    /// The answer of the authorization service, or `None` where it gave none.
    Authorization(Option<bool>),
    /// The ancestor chains the resource service knows, or `None` where it
    /// could not be asked.
    Hierarchies(Option<Vec<Hierarchy>>),
    /// The group the registry minted, or `None` where it minted none.
    StreamGroup(Option<StreamGroup>),
    /// Whether the consumer was created on the bus.
    Consumer(bool),
}

/// What the creation of a stream group asks for next.
#[derive(Clone, Debug, PartialEq, Eq)]
pub enum GroupStep {
    /// Ask the authorization service whether the caller may read the
    /// resource.
    Authorize { resource: i32, resource_action: i32, resource_id: String },
    /// Ask the resource service for the ancestors of the resource.
    ReadHierarchy { resource_type: i32, resource_id: String },
    /// Ask the registry to mint a group and to record its parameters.
    Register {
        token: String,
        event_type: i32,
        resource_type: i32,
        resource_id: String,
        notify_on_sub_resource: bool,
    },
    /// Create this consumer on the default stream.
    CreateConsumer(ConsumerConfig),
    /// Return the id of the group to the caller.
    Reply { stream_group_id: String },
    /// Fail the call.
    Fail(Failure),
}

/// The creation of one stream group, from the request to the reply.
#[derive(Debug, PartialEq, Eq)]
pub struct GroupCreation {
    pub request: CreateEventStreamingGroupRequest,
    pub token: String,
    pub stage: GroupStage,
    pub hierarchy: Hierarchy,
    pub stream_group_id: String,
}

/// Why a request for a stream group is refused before anything is asked of
/// another service, or `None` where it is taken up.
pub open spec fn group_request_fault(header: TokenHeader, resource: i32) -> Option<Failure> {
    match header {
        TokenHeader::Missing => Some(Failure::MissingToken),
        TokenHeader::Unreadable => Some(Failure::UnreadableToken),
        TokenHeader::Value(_) => if has_query(ResourceType::of_wire(resource as int)) {
            None
        } else {
            Some(Failure::UnsupportedResource)
        },
    }
}

/// The ancestors the consumer is derived from: the first chain the resource
/// service gave. A project needs none.
pub open spec fn hierarchy_missing(resource: i32, hierarchies: Seq<Hierarchy>) -> bool {
    hierarchies.len() == 0 && ResourceType::of_wire(resource as int) != ResourceType::Project
}

/// The transition of the creation of a stream group: what an event makes of
/// a creation, and what is asked for next. An event that does not answer
/// what the stage waits for fails the call.
pub open spec fn group_transition(
    before: GroupCreation,
    event: GroupEvent,
    after: GroupCreation,
    step: GroupStep,
) -> bool {
    let request = before.request;
    &&& after.request == request
    &&& after.token == before.token
    &&& (step matches GroupStep::Fail(_)) == (after.stage == GroupStage::Failed)
    &&& match (before.stage, event) {
        (GroupStage::Authorizing, GroupEvent::Authorization(Some(true))) => {
            &&& after.stage == GroupStage::ReadingHierarchy
            &&& step == GroupStep::ReadHierarchy {
                resource_type: request.resource,
                resource_id: request.resource_id,
            }
        },
        (GroupStage::Authorizing, GroupEvent::Authorization(Some(false))) => step
            == GroupStep::Fail(Failure::InsufficientPermissions),
        (GroupStage::Authorizing, GroupEvent::Authorization(None)) => step == GroupStep::Fail(
            Failure::AuthorizationUnavailable,
        ),
        (GroupStage::ReadingHierarchy, GroupEvent::Hierarchies(None)) => step == GroupStep::Fail(
            Failure::HierarchyUnavailable,
        ),
        (GroupStage::ReadingHierarchy, GroupEvent::Hierarchies(Some(hierarchies))) => {
            if hierarchy_missing(request.resource, hierarchies@) {
                step == GroupStep::Fail(Failure::NoHierarchy)
            } else {
                &&& after.stage == GroupStage::Registering
                &&& hierarchies@.len() > 0 ==> after.hierarchy == hierarchies@[0]
                &&& hierarchies@.len() == 0 ==> after.hierarchy.project_id@.len() == 0
                &&& step == GroupStep::Register {
                    token: before.token,
                    event_type: EventType::All.wire() as i32,
                    resource_type: request.resource,
                    resource_id: request.resource_id,
                    notify_on_sub_resource: request.include_subresource,
                }
            }
        },
        (GroupStage::Registering, GroupEvent::StreamGroup(None)) => step == GroupStep::Fail(
            Failure::StreamGroupNotCreated,
        ),
        (GroupStage::Registering, GroupEvent::StreamGroup(Some(stream_group))) => {
            if has_query(ResourceType::of_wire(request.resource as int)) {
                &&& after.stage == GroupStage::CreatingConsumer
                &&& after.stream_group_id == stream_group.id
                &&& step matches GroupStep::CreateConsumer(consumer)
                &&& consumer.name == stream_group.id
                &&& consumer.filter_subject@ == stream_group_query_of(
                    ResourceType::of_wire(request.resource as int),
                    request.resource_id@,
                    before.hierarchy,
                    request.include_subresource,
                )
            } else {
                step == GroupStep::Fail(Failure::UnsupportedResource)
            }
        },
        (GroupStage::CreatingConsumer, GroupEvent::Consumer(true)) => {
            &&& after.stage == GroupStage::Done
            &&& step == GroupStep::Reply { stream_group_id: before.stream_group_id }
        },
        (GroupStage::CreatingConsumer, GroupEvent::Consumer(false)) => step == GroupStep::Fail(
            Failure::StreamGroupNotCreated,
        ),
        _ => step == GroupStep::Fail(Failure::StreamGroupNotCreated),
    }
}

impl GroupCreation {
    /// Takes up a request for a stream group. A request without a readable
    /// token, or for a kind of resource that has no query, is refused;
    /// every other request first asks the authorization service whether the
    /// caller may read the resource.
    pub fn begin(header: TokenHeader, request: CreateEventStreamingGroupRequest) -> (started:
        Result<(GroupCreation, GroupStep), Failure>)
        ensures
            match started {
                Ok((creation, step)) => {
                    &&& group_request_fault(header, request.resource).is_none()
                    &&& header == TokenHeader::Value(creation.token)
                    &&& creation.request == request
                    &&& creation.stage == GroupStage::Authorizing
                    &&& step == GroupStep::Authorize {
                        resource: request.resource,
                        resource_action: ResourceAction::Read.wire() as i32,
                        resource_id: request.resource_id,
                    }
                },
                Err(failure) => group_request_fault(header, request.resource) == Some(failure),
            },
    {
        let token = match read_token(header) {
            Ok(token) => token,
            Err(failure) => {
                return Err(failure);
            },
        };
        match ResourceType::from_wire(request.resource) {
            ResourceType::Project | ResourceType::Collection => {},
            _ => {
                return Err(Failure::UnsupportedResource);
            },
        }
        let step = GroupStep::Authorize {
            resource: request.resource,
            resource_action: ResourceAction::Read.wire_value(),
            resource_id: request.resource_id.clone(),
        };
        let creation = GroupCreation {
            request,
            token,
            stage: GroupStage::Authorizing,
            hierarchy: Hierarchy::empty(),
            stream_group_id: String::new(),
        };
        Ok((creation, step))
    }

    /// Takes the creation one event further and says what to do next.
    pub fn step(self, event: GroupEvent) -> (next: (GroupCreation, GroupStep))
        ensures
            group_transition(self, event, next.0, next.1),
    {
        let GroupCreation { request, token, stage, hierarchy, stream_group_id } = self;
        match (stage, event) {
            (GroupStage::Authorizing, GroupEvent::Authorization(Some(true))) => {
                let step = GroupStep::ReadHierarchy {
                    resource_type: request.resource,
                    resource_id: request.resource_id.clone(),
                };
                (
                    GroupCreation {
                        request,
                        token,
                        stage: GroupStage::ReadingHierarchy,
                        hierarchy,
                        stream_group_id,
                    },
                    step,
                )
            },
            (GroupStage::Authorizing, GroupEvent::Authorization(Some(false))) => (
                GroupCreation {
                    request,
                    token,
                    stage: GroupStage::Failed,
                    hierarchy,
                    stream_group_id,
                },
                GroupStep::Fail(Failure::InsufficientPermissions),
            ),
            (GroupStage::Authorizing, GroupEvent::Authorization(None)) => (
                GroupCreation {
                    request,
                    token,
                    stage: GroupStage::Failed,
                    hierarchy,
                    stream_group_id,
                },
                GroupStep::Fail(Failure::AuthorizationUnavailable),
            ),
            (GroupStage::ReadingHierarchy, GroupEvent::Hierarchies(None)) => (
                GroupCreation {
                    request,
                    token,
                    stage: GroupStage::Failed,
                    hierarchy,
                    stream_group_id,
                },
                GroupStep::Fail(Failure::HierarchyUnavailable),
            ),
            (GroupStage::ReadingHierarchy, GroupEvent::Hierarchies(Some(hierarchies))) => {
                let mut hierarchies = hierarchies;
                let is_project = match ResourceType::from_wire(request.resource) {
                    ResourceType::Project => true,
                    _ => false,
                };
                if hierarchies.len() == 0 && !is_project {
                    (
                        GroupCreation {
                            request,
                            token,
                            stage: GroupStage::Failed,
                            hierarchy,
                            stream_group_id,
                        },
                        GroupStep::Fail(Failure::NoHierarchy),
                    )
                } else {
                    let first = if hierarchies.len() == 0 {
                        Hierarchy::empty()
                    } else {
                        hierarchies.swap_remove(0)
                    };
                    let step = GroupStep::Register {
                        token: token.clone(),
                        event_type: EventType::All.wire_value(),
                        resource_type: request.resource,
                        resource_id: request.resource_id.clone(),
                        notify_on_sub_resource: request.include_subresource,
                    };
                    (
                        GroupCreation {
                            request,
                            token,
                            stage: GroupStage::Registering,
                            hierarchy: first,
                            stream_group_id,
                        },
                        step,
                    )
                }
            },
            (GroupStage::Registering, GroupEvent::StreamGroup(None)) => (
                GroupCreation {
                    request,
                    token,
                    stage: GroupStage::Failed,
                    hierarchy,
                    stream_group_id,
                },
                GroupStep::Fail(Failure::StreamGroupNotCreated),
            ),
            (GroupStage::Registering, GroupEvent::StreamGroup(Some(stream_group))) => {
                match create_stream_group(
                    stream_group.id.clone(),
                    &hierarchy,
                    ResourceType::from_wire(request.resource),
                    request.resource_id.clone(),
                    request.include_subresource,
                ) {
                    Ok(consumer) => (
                        GroupCreation {
                            request,
                            token,
                            stage: GroupStage::CreatingConsumer,
                            hierarchy,
                            stream_group_id: stream_group.id,
                        },
                        GroupStep::CreateConsumer(consumer),
                    ),
                    Err(failure) => (
                        GroupCreation {
                            request,
                            token,
                            stage: GroupStage::Failed,
                            hierarchy,
                            stream_group_id,
                        },
                        GroupStep::Fail(failure),
                    ),
                }
            },
            (GroupStage::CreatingConsumer, GroupEvent::Consumer(true)) => {
                let step = GroupStep::Reply { stream_group_id: stream_group_id.clone() };
                (
                    GroupCreation {
                        request,
                        token,
                        stage: GroupStage::Done,
                        hierarchy,
                        stream_group_id,
                    },
                    step,
                )
            },
            (GroupStage::CreatingConsumer, GroupEvent::Consumer(false)) => (
                GroupCreation {
                    request,
                    token,
                    stage: GroupStage::Failed,
                    hierarchy,
                    stream_group_id,
                },
                GroupStep::Fail(Failure::StreamGroupNotCreated),
            ),
            _ => (
                GroupCreation {
                    request,
                    token,
                    stage: GroupStage::Failed,
                    hierarchy,
                    stream_group_id,
                },
                GroupStep::Fail(Failure::StreamGroupNotCreated),
            ),
        }
    }
}

/// Where the authorization service denies, the call fails with a denial and
/// asks for nothing else: the registry is asked to mint a group only by a
/// creation that has passed the authorization and read the hierarchy, and
/// a failed creation only fails again.
pub proof fn lemma_no_group_without_authorization(
    before: GroupCreation,
    event: GroupEvent,
    after: GroupCreation,
    step: GroupStep,
)
    requires
        group_transition(before, event, after, step),
    ensures
        before.stage == GroupStage::Authorizing && event == GroupEvent::Authorization(Some(false))
            ==> step == GroupStep::Fail(Failure::InsufficientPermissions) && after.stage
            == GroupStage::Failed,
        (step matches GroupStep::Register { .. }) ==> before.stage == GroupStage::ReadingHierarchy,
        after.stage == GroupStage::ReadingHierarchy ==> before.stage == GroupStage::Authorizing
            && event == GroupEvent::Authorization(Some(true)),
        (step matches GroupStep::CreateConsumer(_)) ==> before.stage == GroupStage::Registering,
        before.stage == GroupStage::Failed || before.stage == GroupStage::Done ==> after.stage
            == GroupStage::Failed,
{
}

/// Deleting a stream group is reserved: the call is answered as not yet
/// implemented, whatever the id.
pub fn delete_event_streaming_group(stream_group_id: &String) -> (deleted: Result<(), Failure>)
    ensures
        deleted == Err::<(), Failure>(Failure::NotImplemented),
{
    Err(Failure::NotImplemented)
}

} // verus!
