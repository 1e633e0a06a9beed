//! The domain types shared by the store, the handlers and the client: the
//! singleton house, rooms, devices, their creation payloads, and the wire
//! shape of an error body.
//!
//! Identifiers are opaque values compared only for equality; on the wire they
//! travel in a canonical decimal text form (see `ids`).

use vstd::prelude::*;

verus! {

/// The singleton top-level resource. The API only ever reads it.
#[derive(Debug, Clone)]
pub struct House {
    pub name: String,
}

/// A named container of devices, identified by an opaque id issued by the
/// store on creation and immutable thereafter.
#[derive(Debug, Clone)]
pub struct Room {
    pub id: u64,
    pub name: String,
}

/// Creation payload for a room: only the mutable field, never the id.
#[derive(Debug, Clone)]
pub struct NewRoom {
    pub name: String,
}

/// A named leaf resource scoped to exactly one room. Both `id` and `room_id`
/// are immutable; a device cannot be re-parented.
#[derive(Debug, Clone)]
pub struct Device {
    pub id: u64,
    pub room_id: u64,
    pub name: String,
}

/// Creation payload for a device: only the name; the owning room comes from
/// the request path.
#[derive(Debug, Clone)]
pub struct NewDevice {
    pub name: String,
}

/// The canonical shape of any non-success response body.
#[derive(Debug, Clone)]
pub struct Error {
    pub error: String,
}

} // verus!
