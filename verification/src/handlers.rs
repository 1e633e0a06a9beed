//! The request handler layer: one function per route.
//!
//! A handler validates the path identifiers first — a segment that is not a
//! well-formed identifier is rejected as `Malformed` before the store is
//! touched — then performs the store call and pairs the outcome with its
//! status code. A device is always addressed through its declared owning
//! room, and a device under a different room is answered exactly like an
//! unknown one: nothing about other rooms' contents leaks through a
//! `NotFound`.

use vstd::prelude::*;
use crate::domain::{Device, House, NewDevice, NewRoom, Room};
use crate::error::Error;
use crate::ids::{parse_id, parse_id_spec};
use crate::store::{
    create_device_post, create_room_post, delete_device_post, delete_room_post, devices_of_room,
    find_device, find_room, update_device_post, update_room_post, Store,
};

verus! {

/// Serves the singleton house read: `200` with the house, or `NotFound`
/// when none was seeded.
pub fn get_house(store: &Store) -> (r: Result<(u16, House), Error>)
    ensures
        match store.house {
            Some(h) => r matches Ok(p) && p.0 == 200 && p.1 == h,
            None => r matches Err(e) && e == Error::NotFound,
        },
{
    match store.get_house() {
        Ok(h) => Ok((200, h)),
        Err(e) => Err(e),
    }
}

/// Serves the room listing: always `200`, with every room in creation
/// order.
pub fn list_rooms(store: &Store) -> (r: (u16, Vec<Room>))
    ensures
        r.0 == 200,
        r.1@ == store.rooms@,
{
    (200, store.list_rooms())
}

/// Serves room creation: `201` with the stored room under its fresh
/// identifier; a backend failure surfaces as `Internal`.
pub fn create_room(store: &mut Store, new_room: NewRoom) -> (r: Result<(u16, Room), Error>)
    requires
        old(store).wf(),
    ensures
        final(store).wf(),
        old(store).next_id < u64::MAX ==> (r matches Ok(p) && p.0 == 201 && create_room_post(
            *old(store),
            *final(store),
            p.1,
            new_room.name,
        )),
        old(store).next_id == u64::MAX ==> (r matches Err(e) && e is Internal && *final(store)
            == *old(store)),
{
    match store.create_room(new_room) {
        Ok(room) => Ok((201, room)),
        Err(e) => Err(e),
    }
}

/// Serves a room read: `Malformed` on a bad path segment, `NotFound` for an
/// unknown id, otherwise `200` with the room.
pub fn get_room(store: &Store, room_id: &str) -> (r: Result<(u16, Room), Error>)
    ensures
        parse_id_spec(room_id@) is None ==> (r matches Err(e) && e == Error::Malformed),
        parse_id_spec(room_id@) matches Some(id) ==> match find_room(store.rooms@, id) {
            Some(room) => r matches Ok(p) && p.0 == 200 && p.1 == room,
            None => r matches Err(e) && e == Error::NotFound,
        },
{
    match parse_id(room_id) {
        None => Err(Error::Malformed),
        Some(id) => match store.get_room(id) {
            Ok(room) => Ok((200, room)),
            Err(e) => Err(e),
        },
    }
}

/// Serves a room update (full replace, both PATCH and PUT): `Malformed` on
/// a bad path segment, `NotFound` for an unknown id with no write,
/// otherwise `200` with the renamed room.
pub fn update_room(store: &mut Store, room_id: &str, new_room: NewRoom) -> (r: Result<
    (u16, Room),
    Error,
>)
    requires
        old(store).wf(),
    ensures
        final(store).wf(),
        parse_id_spec(room_id@) is None ==> (r matches Err(e) && e == Error::Malformed && *final(store) == *old(store)),
        parse_id_spec(room_id@) matches Some(id) ==> match find_room(old(store).rooms@, id) {
            Some(_) => r matches Ok(p) && p.0 == 200 && update_room_post(
                *old(store),
                *final(store),
                id,
                new_room.name,
                p.1,
            ),
            None => r matches Err(e) && e == Error::NotFound && *final(store) == *old(store),
        },
{
    match parse_id(room_id) {
        None => Err(Error::Malformed),
        Some(id) => match store.update_room(id, new_room) {
            Ok(room) => Ok((200, room)),
            Err(e) => Err(e),
        },
    }
}

/// Serves a room deletion: `Malformed` on a bad path segment, `NotFound`
/// for an unknown id with no write, otherwise `204` after the room and all
/// its devices went in one step.
pub fn delete_room(store: &mut Store, room_id: &str) -> (r: Result<u16, Error>)
    requires
        old(store).wf(),
    ensures
        final(store).wf(),
        parse_id_spec(room_id@) is None ==> (r matches Err(e) && e == Error::Malformed && *final(store) == *old(store)),
        parse_id_spec(room_id@) matches Some(id) ==> match find_room(old(store).rooms@, id) {
            Some(_) => r matches Ok(status) && status == 204 && delete_room_post(
                *old(store),
                *final(store),
                id,
            ),
            None => r matches Err(e) && e == Error::NotFound && *final(store) == *old(store),
        },
{
    match parse_id(room_id) {
        None => Err(Error::Malformed),
        Some(id) => match store.delete_room(id) {
            Ok(_) => Ok(204),
            Err(e) => Err(e),
        },
    }
}

/// Serves the device listing of a room: `Malformed` on a bad path segment,
/// otherwise `200` with exactly the devices owned by that room.
pub fn list_devices(store: &Store, room_id: &str) -> (r: Result<(u16, Vec<Device>), Error>)
    ensures
        parse_id_spec(room_id@) is None ==> (r matches Err(e) && e == Error::Malformed),
        parse_id_spec(room_id@) matches Some(id) ==> (r matches Ok(p) && p.0 == 200 && p.1@
            == devices_of_room(store.devices@, id)),
{
    match parse_id(room_id) {
        None => Err(Error::Malformed),
        Some(id) => Ok((200, store.list_devices(id))),
    }
}

/// Serves device creation under a room: `Malformed` on a bad path segment;
/// `NotFound` — and no insert — when the room does not exist; otherwise
/// `201` with the stored device under its fresh identifier.
pub fn create_device(store: &mut Store, room_id: &str, new_device: NewDevice) -> (r: Result<
    (u16, Device),
    Error,
>)
    requires
        old(store).wf(),
    ensures
        final(store).wf(),
        parse_id_spec(room_id@) is None ==> (r matches Err(e) && e == Error::Malformed && *final(store) == *old(store)),
        parse_id_spec(room_id@) matches Some(id) ==> {
            &&& find_room(old(store).rooms@, id) is None ==> (r matches Err(e) && e
                == Error::NotFound && *final(store) == *old(store))
            &&& find_room(old(store).rooms@, id) is Some && old(store).next_id < u64::MAX ==> (
            r matches Ok(p) && p.0 == 201 && create_device_post(
                *old(store),
                *final(store),
                id,
                p.1,
                new_device.name,
            ))
            &&& find_room(old(store).rooms@, id) is Some && old(store).next_id == u64::MAX ==> (
            r matches Err(e) && e is Internal && *final(store) == *old(store))
        },
{
    match parse_id(room_id) {
        None => Err(Error::Malformed),
        Some(id) => match store.create_device(id, new_device) {
            Ok(device) => Ok((201, device)),
            Err(e) => Err(e),
        },
    }
}

/// Serves a device read, scoped by both keys: `Malformed` on a bad path
/// segment; `NotFound` when the key pair matches nothing — a device under
/// a different room included; otherwise `200` with the device.
pub fn get_device(store: &Store, room_id: &str, device_id: &str) -> (r: Result<
    (u16, Device),
    Error,
>)
    ensures
        parse_id_spec(room_id@) is None || parse_id_spec(device_id@) is None ==> (r matches Err(e)
            && e == Error::Malformed),
        parse_id_spec(room_id@) matches Some(rid) ==> (parse_id_spec(device_id@) matches Some(
            did,
        ) ==> match find_device(store.devices@, rid, did) {
            Some(device) => r matches Ok(p) && p.0 == 200 && p.1 == device,
            None => r matches Err(e) && e == Error::NotFound,
        }),
{
    match (parse_id(room_id), parse_id(device_id)) {
        (Some(rid), Some(did)) => match store.get_device(rid, did) {
            Ok(device) => Ok((200, device)),
            Err(e) => Err(e),
        },
        _ => Err(Error::Malformed),
    }
}

/// Serves a device update (full replace, both PATCH and PUT), scoped by
/// both keys: `Malformed` on a bad path segment, `NotFound` with no write
/// when the key pair matches nothing, otherwise `200` with the renamed
/// device.
pub fn update_device(
    store: &mut Store,
    room_id: &str,
    device_id: &str,
    new_device: NewDevice,
) -> (r: Result<(u16, Device), Error>)
    requires
        old(store).wf(),
    ensures
        final(store).wf(),
        parse_id_spec(room_id@) is None || parse_id_spec(device_id@) is None ==> (r matches Err(e)
            && e == Error::Malformed && *final(store) == *old(store)),
        parse_id_spec(room_id@) matches Some(rid) ==> (parse_id_spec(device_id@) matches Some(
            did,
        ) ==> match find_device(old(store).devices@, rid, did) {
            Some(_) => r matches Ok(p) && p.0 == 200 && update_device_post(
                *old(store),
                *final(store),
                rid,
                did,
                new_device.name,
                p.1,
            ),
            None => r matches Err(e) && e == Error::NotFound && *final(store) == *old(store),
        }),
{
    match (parse_id(room_id), parse_id(device_id)) {
        (Some(rid), Some(did)) => match store.update_device(rid, did, new_device) {
            Ok(device) => Ok((200, device)),
            Err(e) => Err(e),
        },
        _ => Err(Error::Malformed),
    }
}

/// Serves a device deletion, scoped by both keys: `Malformed` on a bad path
/// segment, `NotFound` with no write when the key pair matches nothing,
/// otherwise `204`.
pub fn delete_device(store: &mut Store, room_id: &str, device_id: &str) -> (r: Result<u16, Error>)
    requires
        old(store).wf(),
    ensures
        final(store).wf(),
        parse_id_spec(room_id@) is None || parse_id_spec(device_id@) is None ==> (r matches Err(e)
            && e == Error::Malformed && *final(store) == *old(store)),
        parse_id_spec(room_id@) matches Some(rid) ==> (parse_id_spec(device_id@) matches Some(
            did,
        ) ==> match find_device(old(store).devices@, rid, did) {
            Some(_) => r matches Ok(status) && status == 204 && delete_device_post(
                *old(store),
                *final(store),
                rid,
                did,
            ),
            None => r matches Err(e) && e == Error::NotFound && *final(store) == *old(store),
        }),
{
    match (parse_id(room_id), parse_id(device_id)) {
        (Some(rid), Some(did)) => match store.delete_device(rid, did) {
            Ok(_) => Ok(204),
            Err(e) => Err(e),
        },
        _ => Err(Error::Malformed),
    }
}

/// Serves the report placeholder route.
pub fn get_report() -> (r: String)
    ensures
        r@ == "get_report"@,
{
    "get_report".to_owned()
}

} // verus!
