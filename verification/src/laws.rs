//! The laws the store keeps across calls, proved once and for all states
//! and inputs. Each law is stated over the same spec functions the store's
//! own contracts use, so it composes directly with them.

use vstd::prelude::*;
use crate::domain::{Device, Room};
use crate::store::{
    create_device_post, create_room_post, delete_room_post, devices_of_room, find_device,
    find_room, lemma_devices_without_room_props, lemma_find_device_index,
    lemma_find_device_props, lemma_find_room_index, lemma_find_room_props,
    lemma_rooms_without_props, update_room_post, Store,
};

verus! {

broadcast use vstd::seq_lib::group_filter_ensures;

/// When no room of `s` carries `id`, looking it up misses.
pub proof fn lemma_absent_room_find_none(s: Seq<Room>, id: u64)
    requires
        forall|i: int| 0 <= i < s.len() ==> s[i].id != id,
    ensures
        find_room(s, id) is None,
{
    lemma_find_room_props(s, id);
    match find_room(s, id) {
        Some(r) => {
            let k = choose|k: int| 0 <= k < s.len() && s[k] == r;
            assert(false);
        },
        None => {},
    }
}

/// When no device of `s` carries `id` under `room_id`, looking it up
/// misses.
pub proof fn lemma_absent_device_find_none(s: Seq<Device>, room_id: u64, id: u64)
    requires
        forall|i: int| 0 <= i < s.len() ==> !(s[i].id == id && s[i].room_id == room_id),
    ensures
        find_device(s, room_id, id) is None,
{
    lemma_find_device_props(s, room_id, id);
    match find_device(s, room_id, id) {
        Some(d) => {
            let k = choose|k: int| 0 <= k < s.len() && s[k] == d;
            assert(false);
        },
        None => {},
    }
}

/// Round trip: creating a room and then fetching the identifier it came
/// back under yields exactly the created room, for every valid creation
/// payload and every well-formed starting state.
pub proof fn lemma_create_room_then_get(pre: Store, post: Store, room: Room, name: String)
    requires
        pre.wf(),
        create_room_post(pre, post, room, name),
    ensures
        find_room(post.rooms@, room.id) == Some(room),
{
    let n = pre.rooms@.len() as int;
    assert(post.rooms@[n] == room);
    assert forall|j: int| 0 <= j < n implies post.rooms@[j].id != room.id by {
        assert(post.rooms@[j] == pre.rooms@[j]);
    }
    lemma_find_room_index(post.rooms@, room.id, n);
}

/// Round trip for devices: creating a device under an existing room and
/// then fetching it through that room yields exactly the created device.
pub proof fn lemma_create_device_then_get(
    pre: Store,
    post: Store,
    room_id: u64,
    device: Device,
    name: String,
)
    requires
        pre.wf(),
        create_device_post(pre, post, room_id, device, name),
    ensures
        find_device(post.devices@, room_id, device.id) == Some(device),
{
    let n = pre.devices@.len() as int;
    assert(post.devices@[n] == device);
    assert forall|j: int| 0 <= j < n implies post.devices@[j].id != device.id by {
        assert(post.devices@[j] == pre.devices@[j]);
    }
    lemma_find_device_index(post.devices@, room_id, device.id, n);
}

/// A freshly issued identifier never collides with one already in the
/// store — identifiers are not recycled.
pub proof fn lemma_issued_id_fresh(pre: Store, post: Store, room: Room, name: String)
    requires
        pre.wf(),
        create_room_post(pre, post, room, name),
    ensures
        forall|i: int| 0 <= i < pre.rooms@.len() ==> pre.rooms@[i].id != room.id,
        forall|i: int| 0 <= i < pre.devices@.len() ==> pre.devices@[i].id != room.id,
{
}

/// An identifier the store never issued misses every room: `getRoom`,
/// `updateRoom` and `deleteRoom` all report `NotFound` for it, since each
/// of their contracts turns on `find_room`.
pub proof fn lemma_unissued_room_id_not_found(s: Store, id: u64)
    requires
        s.wf(),
        id >= s.next_id,
    ensures
        find_room(s.rooms@, id) is None,
{
    lemma_absent_room_find_none(s.rooms@, id);
}

/// The cascade leaves nothing behind: after a room deletion, the deleted
/// room owns no device — its listing is empty and every device lookup
/// under it misses.
pub proof fn lemma_delete_room_cascades(pre: Store, post: Store, id: u64)
    requires
        pre.wf(),
        delete_room_post(pre, post, id),
    ensures
        devices_of_room(post.devices@, id) == Seq::<Device>::empty(),
        forall|device_id: u64| #[trigger] find_device(post.devices@, id, device_id) is None,
{
    lemma_devices_without_room_props(pre.devices@, id);
    lemma_devices_of_room_empty(post.devices@, id);
    assert forall|device_id: u64|
        #[trigger] find_device(post.devices@, id, device_id) is None by {
        lemma_absent_device_find_none(post.devices@, id, device_id);
    }
}

/// A room listing of `room_id` never carries a device of another room, for
/// any population of rooms and devices.
pub proof fn lemma_list_devices_scoped(devices: Seq<Device>, room_id: u64)
    ensures
        forall|i: int|
            0 <= i < devices_of_room(devices, room_id).len() ==> (#[trigger] devices_of_room(
                devices,
                room_id,
            )[i]).room_id == room_id,
{
}

/// Delete and update racing on the same room, serialized with the delete
/// first: the update then finds nothing, reports `NotFound` and writes
/// nothing — exactly one of the two observes success, and a deleted room
/// is never resurrected by a late update.
pub proof fn lemma_delete_then_update_room(pre: Store, mid: Store, id: u64)
    requires
        pre.wf(),
        delete_room_post(pre, mid, id),
    ensures
        find_room(mid.rooms@, id) is None,
{
    lemma_rooms_without_props(pre.rooms@, id);
    lemma_absent_room_find_none(mid.rooms@, id);
}

/// The same race serialized with the update first: the update leaves the
/// room in place — renaming never deletes — so the delete still finds it
/// and succeeds. Whichever order the backend serializes, the room is gone
/// once the delete has succeeded.
pub proof fn lemma_update_then_delete_room(
    pre: Store,
    mid: Store,
    id: u64,
    name: String,
    room: Room,
)
    requires
        pre.wf(),
        update_room_post(pre, mid, id, name, room),
    ensures
        find_room(mid.rooms@, id) is Some,
{
    lemma_find_room_props(pre.rooms@, id);
    match find_room(pre.rooms@, id) {
        Some(r) => {
            let k = choose|k: int| 0 <= k < pre.rooms@.len() && pre.rooms@[k] == r;
            assert forall|j: int| 0 <= j < k implies mid.rooms@[j].id != id by {
                assert(pre.rooms@[j].id != pre.rooms@[k].id);
            }
            assert(mid.rooms@[k].id == id);
            lemma_find_room_index(mid.rooms@, id, k);
        },
        None => {},
    }
}

/// Filtering for a room that owns nothing in `s` yields the empty listing.
proof fn lemma_devices_of_room_empty(s: Seq<Device>, room_id: u64)
    requires
        forall|i: int| 0 <= i < s.len() ==> s[i].room_id != room_id,
    ensures
        devices_of_room(s, room_id) == Seq::<Device>::empty(),
    decreases s.len(),
{
    reveal(Seq::filter);
    if s.len() == 0 {
        assert(s =~= Seq::<Device>::empty());
    } else {
        lemma_devices_of_room_empty(s.drop_last(), room_id);
    }
}

} // verus!
