//! A notification gateway between a storage event bus and its subscribers:
//! the subjects an event is published on, the queries stream groups are bound
//! to, and the rules of the delivery and acknowledgement protocol.

pub mod ack;
pub mod handler;
pub mod ident;
pub mod mock;
pub mod model;
pub mod notification;
pub mod server;
pub mod status;
pub mod stream;
pub mod subject;
pub mod token;
