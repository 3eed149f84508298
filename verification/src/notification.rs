//! The notification that travels over the bus for every event, and its wire
//! form.

use vstd::prelude::*;
use crate::status::Failure;

verus! {

/// The notification of one event: the numbers of the resource kind and of the
/// event type as the wire schema has them, and the id of the resource.
#[derive(Clone, Debug, PartialEq, Eq)]
pub struct EventNotificationMessage {
    pub resource: i32,
    pub resource_id: String,
    pub updated_type: i32,
}

/// The bytes of the protobuf encoding of a notification with the given
/// resource kind, resource id and event type.
pub uninterp spec fn notification_encoding(
    resource: i32,
    resource_id: Seq<char>,
    updated_type: i32,
) -> Seq<u8>;

/// The resource kind, resource id and event type of the notification that the
/// protobuf decoder reads from the bytes, or `None` where it rejects them.
pub uninterp spec fn notification_decoding(payload: Seq<u8>) -> Option<(i32, Seq<char>, i32)>;

impl EventNotificationMessage {
    /// What the notification says: resource kind, resource id, event type.
    pub open spec fn content(self) -> (i32, Seq<char>, i32) {
        (self.resource, self.resource_id@, self.updated_type)
    }

    /// A second notification that says the same.
    pub fn duplicate(&self) -> (copy: EventNotificationMessage)
        ensures
            copy == *self,
    {
        EventNotificationMessage {
            resource: self.resource,
            resource_id: self.resource_id.clone(),
            updated_type: self.updated_type,
        }
    }

    /// The bytes under which the notification is published.
    pub fn encode(&self) -> (payload: Vec<u8>)
        ensures
            payload@ == notification_encoding(
                self.resource,
                self.resource_id@,
                self.updated_type,
            ),
    {
        encode_notification(self.resource, &self.resource_id, self.updated_type)
    }

    /// Reads a notification from the payload of a message of the bus.
    pub fn decode(payload: &[u8]) -> (decoded: Result<EventNotificationMessage, Failure>)
        ensures
            decoded.is_ok() == notification_decoding(payload@).is_some(),
            match decoded {
                Ok(message) => notification_decoding(payload@) == Some(message.content()),
                Err(failure) => failure == Failure::UndecodablePayload,
            },
    {
        Self::from_decoded(decode_notification(payload))
    }

    /// What the decoder's answer means for the caller: the notification, or
    /// the failure to read one.
    pub fn from_decoded(decoded: Option<(i32, String, i32)>) -> (message: Result<
        EventNotificationMessage,
        Failure,
    >)
        ensures
            message.is_ok() == decoded.is_some(),
            match (message, decoded) {
                (Ok(message), Some(fields)) => message.content() == (
                    fields.0,
                    fields.1@,
                    fields.2,
                ),
                (Err(failure), None) => failure == Failure::UndecodablePayload,
                _ => false,
            },
    {
        match decoded {
            Some((resource, resource_id, updated_type)) => Ok(
                EventNotificationMessage { resource, resource_id, updated_type },
            ),
            None => Err(Failure::UndecodablePayload),
        }
    }
}

/// Calls prost's `Message::encode_to_vec` on the `EventNotificationMessage`
/// of aruna_rust_api that holds the three fields. The bytes it returns depend
/// on the fields alone and are named by `notification_encoding`; nothing more
/// is claimed of them.
#[verifier::external_body]
fn encode_notification(resource: i32, resource_id: &String, updated_type: i32) -> (payload: Vec<u8>)
    ensures
        payload@ == notification_encoding(resource, resource_id@, updated_type),
{
    let wire = aruna_rust_api::api::notification::services::v1::EventNotificationMessage {
        resource,
        resource_id: resource_id.clone(),
        updated_type,
    };
    prost::Message::encode_to_vec(&wire)
}

/// Calls prost's `Message::decode` for the `EventNotificationMessage` of
/// aruna_rust_api on the bytes. Whether the decoder accepts the bytes, and
/// the three fields it then reads, depend on the bytes alone and are named by
/// `notification_decoding`; nothing more is claimed of them.
#[verifier::external_body]
fn decode_notification(payload: &[u8]) -> (decoded: Option<(i32, String, i32)>)
    ensures
        match decoded {
            Some(fields) => notification_decoding(payload@) == Some(
                (fields.0, fields.1@, fields.2),
            ),
            None => notification_decoding(payload@).is_none(),
        },
{
    let read: Result<
        aruna_rust_api::api::notification::services::v1::EventNotificationMessage,
        prost::DecodeError,
    > = prost::Message::decode(payload);
    match read {
        Ok(wire) => Some((wire.resource, wire.resource_id, wire.updated_type)),
        Err(_) => None,
    }
}

} // verus!
