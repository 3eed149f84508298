//! The data the gateway reasons about: the kinds of resources and events as
//! they stand in the wire schema, the ancestors of a resource, and a stream
//! group.

use vstd::prelude::*;

verus! {

/// The kind of a resource. `Unspecified` and `All` exist in the wire schema
/// only; no entry point accepts them.
#[derive(Clone, Copy, Debug, PartialEq, Eq, Structural)]
pub enum ResourceType {
    Unspecified,
    Project,
    Collection,
    ObjectGroup,
    Object,
    All,
}

/// What happened to a resource.
#[derive(Clone, Copy, Debug, PartialEq, Eq, Structural)]
pub enum EventType {
    Unspecified,
    Created,
    Available,
    Updated,
    MetadataUpdated,
    Deleted,
    All,
}

/// What a caller wants to do with a resource.
#[derive(Clone, Copy, Debug, PartialEq, Eq, Structural)]
pub enum ResourceAction {
    Unspecified,
    Create,
    Append,
    Update,
    Read,
    Delete,
}

impl ResourceType {
    /// The number that stands for the kind on the wire.
    pub open spec fn wire(self) -> int {
        match self {
            ResourceType::Unspecified => 0,
            ResourceType::Project => 1,
            ResourceType::Collection => 2,
            ResourceType::ObjectGroup => 3,
            ResourceType::Object => 4,
            ResourceType::All => 5,
        }
    }

    /// The kind a number of the wire stands for; a number that names no kind
    /// reads as `Unspecified`.
    pub open spec fn of_wire(value: int) -> ResourceType {
        if value == 1 {
            ResourceType::Project
        } else if value == 2 {
            ResourceType::Collection
        } else if value == 3 {
            ResourceType::ObjectGroup
        } else if value == 4 {
            ResourceType::Object
        } else if value == 5 {
            ResourceType::All
        } else {
            ResourceType::Unspecified
        }
    }

    /// Whether events and stream groups may name this kind.
    pub open spec fn is_concrete(self) -> bool {
        self != ResourceType::Unspecified && self != ResourceType::All
    }

    /// The number that stands for the kind on the wire.
    pub fn wire_value(self) -> (value: i32)
        ensures
            value == self.wire(),
    {
        match self {
            ResourceType::Unspecified => 0,
            ResourceType::Project => 1,
            ResourceType::Collection => 2,
            ResourceType::ObjectGroup => 3,
            ResourceType::Object => 4,
            ResourceType::All => 5,
        }
    }

    /// Reads a kind from its number on the wire.
    pub fn from_wire(value: i32) -> (kind: ResourceType)
        ensures
            kind == ResourceType::of_wire(value as int),
    {
        if value == 1 {
            ResourceType::Project
        } else if value == 2 {
            ResourceType::Collection
        } else if value == 3 {
            ResourceType::ObjectGroup
        } else if value == 4 {
            ResourceType::Object
        } else if value == 5 {
            ResourceType::All
        } else {
            ResourceType::Unspecified
        }
    }
}

impl EventType {
    /// The number that stands for the event type on the wire.
    pub open spec fn wire(self) -> int {
        match self {
            EventType::Unspecified => 0,
            EventType::Created => 1,
            EventType::Available => 2,
            EventType::Updated => 3,
            EventType::MetadataUpdated => 4,
            EventType::Deleted => 5,
            EventType::All => 6,
        }
    }

    /// The event type a number of the wire stands for; a number that names
    /// none reads as `Unspecified`.
    pub open spec fn of_wire(value: int) -> EventType {
        if value == 1 {
            EventType::Created
        } else if value == 2 {
            EventType::Available
        } else if value == 3 {
            EventType::Updated
        } else if value == 4 {
            EventType::MetadataUpdated
        } else if value == 5 {
            EventType::Deleted
        } else if value == 6 {
            EventType::All
        } else {
            EventType::Unspecified
        }
    }

    /// The number that stands for the event type on the wire.
    pub fn wire_value(self) -> (value: i32)
        ensures
            value == self.wire(),
    {
        match self {
            EventType::Unspecified => 0,
            EventType::Created => 1,
            EventType::Available => 2,
            EventType::Updated => 3,
            EventType::MetadataUpdated => 4,
            EventType::Deleted => 5,
            EventType::All => 6,
        }
    }

    /// Reads an event type from its number on the wire.
    pub fn from_wire(value: i32) -> (event_type: EventType)
        ensures
            event_type == EventType::of_wire(value as int),
    {
        if value == 1 {
            EventType::Created
        } else if value == 2 {
            EventType::Available
        } else if value == 3 {
            EventType::Updated
        } else if value == 4 {
            EventType::MetadataUpdated
        } else if value == 5 {
            EventType::Deleted
        } else if value == 6 {
            EventType::All
        } else {
            EventType::Unspecified
        }
    }
}

impl ResourceAction {
    /// The number that stands for the action on the wire.
    pub open spec fn wire(self) -> int {
        match self {
            ResourceAction::Unspecified => 0,
            ResourceAction::Create => 1,
            ResourceAction::Append => 2,
            ResourceAction::Update => 3,
            ResourceAction::Read => 4,
            ResourceAction::Delete => 5,
        }
    }

    /// The number that stands for the action on the wire.
    pub fn wire_value(self) -> (value: i32)
        ensures
            value == self.wire(),
    {
        match self {
            ResourceAction::Unspecified => 0,
            ResourceAction::Create => 1,
            ResourceAction::Append => 2,
            ResourceAction::Update => 3,
            ResourceAction::Read => 4,
            ResourceAction::Delete => 5,
        }
    }
}

/// Reading a kind back from its number gives the kind, and likewise for an
/// event type.
pub proof fn lemma_wire_round_trip(kind: ResourceType, event_type: EventType)
    ensures
        ResourceType::of_wire(kind.wire()) == kind,
        EventType::of_wire(event_type.wire()) == event_type,
{
}

/// The strings of a list as character sequences.
pub open spec fn texts(strings: Seq<String>) -> Seq<Seq<char>> {
    Seq::new(strings.len(), |i: int| strings[i]@)
}

/// One shared object group above an object or object group.
#[derive(Clone, Debug, PartialEq, Eq)]
pub struct ObjectGroupRelation {
    pub shared_object_group_id: String,
    pub object_group_ids: Vec<String>,
}

/// The ancestors of the resource an event is about.
#[derive(Clone, Debug, PartialEq, Eq)]
pub struct Relation {
    pub shared_object: String,
    pub object_groups: Vec<ObjectGroupRelation>,
    pub collection: String,
    pub project: String,
}

/// The chain of resources above a resource, as the resource service gives it.
#[derive(Clone, Debug, PartialEq, Eq)]
pub struct Hierarchy {
    pub object_id: String,
    pub object_group_ids: Vec<String>,
    pub collection_id: String,
    pub project_id: String,
}

/// A stream group as the registry records it. The numbers are those of the
/// wire schema.
#[derive(Clone, Debug, PartialEq, Eq)]
pub struct StreamGroup {
    pub id: String,
    pub event_type: i32,
    pub resource_type: i32,
    pub resource_id: String,
    pub notify_on_sub_resource: bool,
}

impl Relation {
    /// A relation without ancestors, as it accompanies an event on a project.
    pub fn empty() -> (relation: Relation)
        ensures
            relation.shared_object@.len() == 0,
            relation.object_groups@.len() == 0,
            relation.collection@.len() == 0,
            relation.project@.len() == 0,
    {
        Relation {
            shared_object: String::new(),
            object_groups: Vec::new(),
            collection: String::new(),
            project: String::new(),
        }
    }
}

impl Hierarchy {
    /// A hierarchy that names no resource.
    pub fn empty() -> (hierarchy: Hierarchy)
        ensures
            hierarchy.object_id@.len() == 0,
            hierarchy.object_group_ids@.len() == 0,
            hierarchy.collection_id@.len() == 0,
            hierarchy.project_id@.len() == 0,
    {
        Hierarchy {
            object_id: String::new(),
            object_group_ids: Vec::new(),
            collection_id: String::new(),
            project_id: String::new(),
        }
    }
}

} // verus!
