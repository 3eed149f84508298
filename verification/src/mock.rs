//! Stand-ins for the services around the gateway: a registry of stream
//! groups held in memory, an authorization service that agrees to
//! everything, and a resource service with a fixed hierarchy.

use vstd::prelude::*;
use crate::ident::mint_uuid;
use crate::model::{Hierarchy, ResourceType, StreamGroup};
use crate::status::Failure;

verus! {

/// What the registry is asked to record for a new stream group; the numbers
/// are those of the wire schema.
#[derive(Clone, Debug, PartialEq, Eq)]
pub struct CreateStreamGroupRequest {
    pub token: String,
    pub event_type: i32,
    pub resource_type: i32,
    pub resource_id: String,
    pub notify_on_sub_resource: bool,
}

/// The stream group that was recorded last under `id`, if any.
pub open spec fn latest_group(groups: Seq<StreamGroup>, id: Seq<char>) -> Option<StreamGroup>
    decreases groups.len(),
{
    if groups.len() == 0 {
        None
    } else if groups.last().id@ == id {
        Some(groups.last())
    } else {
        latest_group(groups.drop_last(), id)
    }
}

/// A registry of stream groups held in memory.
pub struct StorageEndpointMock {
    pub stream_groups: Vec<StreamGroup>,
}

impl StorageEndpointMock {
    /// A registry without stream groups.
    pub fn new() -> (registry: StorageEndpointMock)
        ensures
            registry.stream_groups@.len() == 0,
    {
        StorageEndpointMock { stream_groups: Vec::new() }
    }

    /// Mints a stream group with the parameters of the request and an id of
    /// its own, and records it.
    pub fn create_stream_group(&mut self, request: CreateStreamGroupRequest) -> (stream_group:
        StreamGroup)
        ensures
            final(self).stream_groups@ == old(self).stream_groups@.push(stream_group),
            stream_group.id@.len() == 36,
            stream_group.event_type == request.event_type,
            stream_group.resource_type == request.resource_type,
            stream_group.resource_id == request.resource_id,
            stream_group.notify_on_sub_resource == request.notify_on_sub_resource,
            latest_group(final(self).stream_groups@, stream_group.id@) == Some(stream_group),
    {
        let id = mint_uuid();
        let recorded = StreamGroup {
            id: id.clone(),
            event_type: request.event_type,
            resource_type: request.resource_type,
            resource_id: request.resource_id.clone(),
            notify_on_sub_resource: request.notify_on_sub_resource,
        };
        let stream_group = StreamGroup {
            id,
            event_type: request.event_type,
            resource_type: request.resource_type,
            resource_id: request.resource_id,
            notify_on_sub_resource: request.notify_on_sub_resource,
        };
        self.stream_groups.push(recorded);
        proof {
            assert(final(self).stream_groups@.last() == stream_group);
        }
        stream_group
    }

    /// The stream group recorded under the id. An id that no group was
    /// recorded under is an invalid argument.
    pub fn get_stream_group(&self, stream_group_id: &String) -> (found: Result<
        StreamGroup,
        Failure,
    >)
        ensures
            match found {
                Ok(stream_group) => latest_group(self.stream_groups@, stream_group_id@) == Some(
                    stream_group,
                ),
                Err(failure) => failure == Failure::StreamGroupNotFound && latest_group(
                    self.stream_groups@,
                    stream_group_id@,
                ).is_none(),
            },
    {
        let mut remaining: usize = self.stream_groups.len();
        proof {
            assert(self.stream_groups@.take(remaining as int) =~= self.stream_groups@);
        }
        while remaining > 0
            invariant
                remaining <= self.stream_groups@.len(),
                latest_group(self.stream_groups@, stream_group_id@) == latest_group(
                    self.stream_groups@.take(remaining as int),
                    stream_group_id@,
                ),
            decreases remaining,
        {
            let candidate = &self.stream_groups[remaining - 1];
            proof {
                let upto = self.stream_groups@.take(remaining as int);
                assert(upto.last() == *candidate);
                assert(upto.drop_last() =~= self.stream_groups@.take(remaining as int - 1));
            }
            if candidate.id == *stream_group_id {
                return Ok(
                    StreamGroup {
                        id: candidate.id.clone(),
                        event_type: candidate.event_type,
                        resource_type: candidate.resource_type,
                        resource_id: candidate.resource_id.clone(),
                        notify_on_sub_resource: candidate.notify_on_sub_resource,
                    },
                );
            }
            remaining -= 1;
        }
        Err(Failure::StreamGroupNotFound)
    }

    /// Deleting a stream group is reserved.
    pub fn delete_stream_group(&self, stream_group_id: &String) -> (deleted: Result<(), Failure>)
        ensures
            deleted == Err::<(), Failure>(Failure::NotImplemented),
    {
        Err(Failure::NotImplemented)
    }

    /// Shared revisions are reserved.
    pub fn get_shared_revision(&self) -> (revision: Result<(), Failure>)
        ensures
            revision == Err::<(), Failure>(Failure::NotImplemented),
    {
        Err(Failure::NotImplemented)
    }
}

/// An authorization service that agrees to every request.
pub struct AuthzEndpointMock {}

impl AuthzEndpointMock {
    /// Agrees.
    pub fn authorize(&self) -> (ok: bool)
        ensures
            ok,
    {
        true
    }
}

/// The ancestors the fixed hierarchy names for a kind of resource: the
/// project for every kind, the collection from collections downwards, the
/// object for objects and object groups.
pub open spec fn fixed_hierarchy(hierarchy: Hierarchy, resource_type: ResourceType) -> bool {
    &&& hierarchy.project_id@ == "project_id"@
    &&& hierarchy.collection_id@ =~= if resource_type == ResourceType::Project {
        Seq::<char>::empty()
    } else {
        "collection_id"@
    }
    &&& hierarchy.object_id@ =~= if resource_type == ResourceType::Object || resource_type
        == ResourceType::ObjectGroup {
        "object_id"@
    } else {
        Seq::<char>::empty()
    }
    &&& hierarchy.object_group_ids@.len() == 0
}

/// A resource service in which every resource has the same ancestors.
pub struct ResourceInfoMock {}

impl ResourceInfoMock {
    /// The one hierarchy of a resource of the given kind. The kinds that
    /// name no resource are refused.
    pub fn get_resource_hierarchy(&self, resource_type: i32) -> (hierarchies: Result<
        Vec<Hierarchy>,
        Failure,
    >)
        ensures
            hierarchies.is_ok() == ResourceType::of_wire(resource_type as int).is_concrete(),
            match hierarchies {
                Ok(hierarchies) => hierarchies@.len() == 1 && fixed_hierarchy(
                    hierarchies@[0],
                    ResourceType::of_wire(resource_type as int),
                ),
                Err(failure) => failure == Failure::UnsupportedResource,
            },
    {
        let mut hierarchy = Hierarchy::empty();
        hierarchy.project_id = String::from_str("project_id");
        match ResourceType::from_wire(resource_type) {
            ResourceType::Project => {},
            ResourceType::Collection => {
                hierarchy.collection_id = String::from_str("collection_id");
            },
            ResourceType::ObjectGroup | ResourceType::Object => {
                hierarchy.collection_id = String::from_str("collection_id");
                hierarchy.object_id = String::from_str("object_id");
            },
            _ => {
                return Err(Failure::UnsupportedResource);
            },
        }
        Ok(vec![hierarchy])
    }
}

} // verus!
