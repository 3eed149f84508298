//! The domain layer above the bus: on which subjects an event is published,
//! and to which query the consumer of a stream group is bound.

use vstd::prelude::*;
use crate::model::{texts, EventType, Hierarchy, Relation, ResourceType};
use crate::notification::{notification_encoding, EventNotificationMessage};
use crate::status::Failure;
use crate::subject::{base_subject_of, query_of, subject_of, NatsIOUtils};

verus! {

/// What must be placed on the bus for one event: the same payload on each of
/// the subjects.
#[derive(Clone, Debug, PartialEq, Eq)]
pub struct Publication {
    pub subjects: Vec<String>,
    pub payload: Vec<u8>,
}

/// The consumer that backs a stream group: its durable name and the query it
/// is bound to.
#[derive(Clone, Debug, PartialEq, Eq)]
pub struct ConsumerConfig {
    pub name: String,
    pub filter_subject: String,
}

/// One subject for each shared object group above the resource, in the order
/// of the relation; each names the resource as a member of that group.
pub open spec fn object_group_subjects(relation: Relation, resource_id: Seq<char>) -> Seq<
    Seq<char>,
> {
    Seq::new(
        relation.object_groups@.len(),
        |i: int|
            subject_of(
                seq![
                    relation.project@,
                    relation.collection@,
                    relation.object_groups@[i].shared_object_group_id@,
                    resource_id,
                ],
                true,
            ),
    )
}

/// The subjects on which an event is published, so that every query that
/// covers the resource captures it. An event whose kind is no concrete kind
/// has none.
pub open spec fn event_subjects_of(
    resource_type: ResourceType,
    resource_id: Seq<char>,
    relation: Relation,
) -> Seq<Seq<char>> {
    match resource_type {
        ResourceType::Project => seq![subject_of(seq![resource_id], false)],
        ResourceType::Collection => seq![subject_of(seq![relation.project@, resource_id], false)],
        ResourceType::ObjectGroup => object_group_subjects(relation, resource_id),
        ResourceType::Object => object_group_subjects(relation, resource_id).push(
            subject_of(
                seq![relation.project@, relation.collection@, relation.shared_object@, resource_id],
                false,
            ),
        ),
        _ => Seq::empty(),
    }
}

/// How many subjects an event is published on.
pub open spec fn subject_count(resource_type: ResourceType, object_groups: nat) -> nat {
    match resource_type {
        ResourceType::Project | ResourceType::Collection => 1,
        ResourceType::ObjectGroup => object_groups,
        ResourceType::Object => object_groups + 1,
        _ => 0,
    }
}

/// The kinds of resources a stream group can be bound to.
pub open spec fn has_query(resource_type: ResourceType) -> bool {
    resource_type == ResourceType::Project || resource_type == ResourceType::Collection
}

/// The query a stream group on the resource is bound to.
pub open spec fn stream_group_query_of(
    resource_type: ResourceType,
    resource_id: Seq<char>,
    hierarchy: Hierarchy,
    include_subresources: bool,
) -> Seq<char> {
    if resource_type == ResourceType::Project {
        query_of(base_subject_of(seq![resource_id], false), include_subresources)
    } else {
        query_of(
            base_subject_of(seq![hierarchy.project_id@, resource_id], false),
            include_subresources,
        )
    }
}

/// An event on an object is published once for each shared object group above
/// it and once more for the object itself; an event on an object group once
/// for each shared object group; an event on a project or a collection once.
pub proof fn lemma_fan_out_count(
    resource_type: ResourceType,
    resource_id: Seq<char>,
    relation: Relation,
)
    ensures
        event_subjects_of(resource_type, resource_id, relation).len() == subject_count(
            resource_type,
            relation.object_groups@.len(),
        ),
        resource_type == ResourceType::Object ==> event_subjects_of(
            resource_type,
            resource_id,
            relation,
        ).len() == relation.object_groups@.len() + 1,
        resource_type == ResourceType::ObjectGroup ==> event_subjects_of(
            resource_type,
            resource_id,
            relation,
        ).len() == relation.object_groups@.len(),
        resource_type == ResourceType::Project || resource_type == ResourceType::Collection
            ==> event_subjects_of(resource_type, resource_id, relation).len() == 1,
{
}

fn subjects_of_object_groups(resource_id: &String, relation: &Relation) -> (subjects: Vec<String>)
    ensures
        texts(subjects@) == object_group_subjects(*relation, resource_id@),
{
    let mut subjects: Vec<String> = Vec::new();
    let mut at: usize = 0;
    while at < relation.object_groups.len()
        invariant
            at <= relation.object_groups@.len(),
            subjects@.len() == at,
            forall|i: int|
                0 <= i < at ==> (#[trigger] subjects@[i])@ == object_group_subjects(
                    *relation,
                    resource_id@,
                )[i],
        decreases relation.object_groups@.len() - at,
    {
        let subject = NatsIOUtils::object_group_subject(
            relation.project.clone(),
            relation.collection.clone(),
            relation.object_groups[at].shared_object_group_id.clone(),
            resource_id.clone(),
        );
        subjects.push(subject);
        at += 1;
    }
    proof {
        assert(texts(subjects@) =~= object_group_subjects(*relation, resource_id@));
    }
    subjects
}

/// The subjects on which an event is published. The kinds `Unspecified` and
/// `All` name no resource and are refused.
pub fn event_subjects(
    resource_type: ResourceType,
    resource_id: &String,
    relation: &Relation,
) -> (subjects: Result<Vec<String>, Failure>)
    ensures
        subjects.is_ok() == resource_type.is_concrete(),
        match subjects {
            Ok(subjects) => texts(subjects@) == event_subjects_of(
                resource_type,
                resource_id@,
                *relation,
            ) && subjects@.len() == subject_count(resource_type, relation.object_groups@.len()),
            Err(failure) => failure == Failure::UnsupportedResource,
        },
{
    match resource_type {
        ResourceType::Project => {
            let subjects = vec![NatsIOUtils::project_subject(resource_id.clone())];
            proof {
                assert(texts(subjects@) =~= event_subjects_of(
                    resource_type,
                    resource_id@,
                    *relation,
                ));
            }
            Ok(subjects)
        },
        ResourceType::Collection => {
            let subjects = vec![
                NatsIOUtils::collection_subject(relation.project.clone(), resource_id.clone()),
            ];
            proof {
                assert(texts(subjects@) =~= event_subjects_of(
                    resource_type,
                    resource_id@,
                    *relation,
                ));
            }
            Ok(subjects)
        },
        ResourceType::ObjectGroup => Ok(subjects_of_object_groups(resource_id, relation)),
        ResourceType::Object => {
            let mut subjects = subjects_of_object_groups(resource_id, relation);
            let object_subject = NatsIOUtils::object_subject(
                relation.project.clone(),
                relation.collection.clone(),
                relation.shared_object.clone(),
                resource_id.clone(),
            );
            subjects.push(object_subject);
            proof {
                assert(texts(subjects@) =~= event_subjects_of(
                    resource_type,
                    resource_id@,
                    *relation,
                ));
            }
            Ok(subjects)
        },
        _ => Err(Failure::UnsupportedResource),
    }
}

/// What has to be published for an event: the notification, encoded, on
/// every subject of the event. Nothing is published for an event whose kind
/// is `Unspecified` or `All`.
pub fn register_event(
    resource_type: ResourceType,
    resource_id: String,
    event_type: EventType,
    relation: &Relation,
) -> (publication: Result<Publication, Failure>)
    ensures
        publication.is_ok() == resource_type.is_concrete(),
        match publication {
            Ok(publication) => {
                &&& texts(publication.subjects@) == event_subjects_of(
                    resource_type,
                    resource_id@,
                    *relation,
                )
                &&& publication.subjects@.len() == subject_count(
                    resource_type,
                    relation.object_groups@.len(),
                )
                &&& publication.payload@ == notification_encoding(
                    resource_type.wire() as i32,
                    resource_id@,
                    event_type.wire() as i32,
                )
            },
            Err(failure) => failure == Failure::UnsupportedResource,
        },
{
    match event_subjects(resource_type, &resource_id, relation) {
        Ok(subjects) => {
            let message = EventNotificationMessage {
                resource: resource_type.wire_value(),
                resource_id,
                updated_type: event_type.wire_value(),
            };
            Ok(Publication { subjects, payload: message.encode() })
        },
        Err(failure) => Err(failure),
    }
}

/// The consumer to create for a stream group: named by the id of the group
/// and bound to the query of the resource. Queries exist for projects and
/// collections; every other kind is refused.
pub fn create_stream_group(
    stream_group_id: String,
    hierarchy: &Hierarchy,
    resource_type: ResourceType,
    resource_id: String,
    include_subresources: bool,
) -> (consumer: Result<ConsumerConfig, Failure>)
    ensures
        consumer.is_ok() == has_query(resource_type),
        match consumer {
            Ok(consumer) => consumer.name == stream_group_id && consumer.filter_subject@
                == stream_group_query_of(
                resource_type,
                resource_id@,
                *hierarchy,
                include_subresources,
            ),
            Err(failure) => failure == Failure::UnsupportedResource,
        },
{
    match resource_type {
        ResourceType::Project => Ok(
            ConsumerConfig {
                name: stream_group_id,
                filter_subject: NatsIOUtils::project_query(resource_id, include_subresources),
            },
        ),
        ResourceType::Collection => Ok(
            ConsumerConfig {
                name: stream_group_id,
                filter_subject: NatsIOUtils::collection_query(
                    hierarchy.project_id.clone(),
                    resource_id,
                    include_subresources,
                ),
            },
        ),
        _ => Err(Failure::UnsupportedResource),
    }
}

} // verus!
