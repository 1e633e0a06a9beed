//! The resource store: the single source of truth for the house, its rooms
//! and their devices.
//!
//! Identifiers are issued from a monotone counter, so an identifier, once
//! issued, is never reused even after deletion. Every mutation checks
//! existence and applies the change in one call, so an existence check and
//! the mutation it guards are never split by an observable gap. Deleting a
//! room removes its devices in the same step, never leaving orphans.

use vstd::prelude::*;
use crate::domain::{Device, House, NewDevice, NewRoom, Room};
use crate::error::Error;

verus! {

broadcast use vstd::seq_lib::group_filter_ensures;

/// The devices that belong to room `room_id`, in stored (creation) order.
pub open spec fn devices_of_room(s: Seq<Device>, room_id: u64) -> Seq<Device> {
    s.filter(|d: Device| d.room_id == room_id)
}

/// What a cascade leaves behind: `s` without any device of room `room_id`.
pub open spec fn devices_without_room(s: Seq<Device>, room_id: u64) -> Seq<Device> {
    s.filter(|d: Device| d.room_id != room_id)
}

/// `s` without the device keyed by both `room_id` and `id`.
pub open spec fn devices_without(s: Seq<Device>, room_id: u64, id: u64) -> Seq<Device> {
    s.filter(|d: Device| !(d.id == id && d.room_id == room_id))
}

/// `s` without the room carrying `id`.
pub open spec fn rooms_without(s: Seq<Room>, id: u64) -> Seq<Room> {
    s.filter(|r: Room| r.id != id)
}

/// The first room of `s` carrying `id` — the only one, in a well-formed
/// store.
pub open spec fn find_room(s: Seq<Room>, id: u64) -> Option<Room>
    decreases s.len(),
{
    if s.len() == 0 {
        None
    } else if s[0].id == id {
        Some(s[0])
    } else {
        find_room(s.drop_first(), id)
    }
}

/// The first device of `s` carrying `id` and owned by `room_id`. A device
/// under a different room is indistinguishable from an absent one.
pub open spec fn find_device(s: Seq<Device>, room_id: u64, id: u64) -> Option<Device>
    decreases s.len(),
{
    if s.len() == 0 {
        None
    } else if s[0].id == id && s[0].room_id == room_id {
        Some(s[0])
    } else {
        find_device(s.drop_first(), room_id, id)
    }
}

/// Some room of `s` carries `id`.
pub open spec fn room_id_present(s: Seq<Room>, id: u64) -> bool {
    exists|i: int| 0 <= i < s.len() && s[i].id == id
}

/// `s` with room `id` renamed to `name` and every other room unchanged.
pub open spec fn rooms_renamed(s: Seq<Room>, id: u64, name: String) -> Seq<Room> {
    s.map_values(
        |r: Room|
            if r.id == id {
                Room { id: r.id, name }
            } else {
                r
            },
    )
}

/// `s` with the device keyed `(room_id, id)` renamed to `name` and every
/// other device unchanged.
pub open spec fn devices_renamed(s: Seq<Device>, room_id: u64, id: u64, name: String) -> Seq<
    Device,
> {
    s.map_values(
        |d: Device|
            if d.id == id && d.room_id == room_id {
                Device { id: d.id, room_id: d.room_id, name }
            } else {
                d
            },
    )
}

/// A found room carries the looked-up id and sits in the sequence; a miss
/// means no room carries it.
pub proof fn lemma_find_room_props(s: Seq<Room>, id: u64)
    ensures
        match find_room(s, id) {
            Some(r) => r.id == id && s.contains(r),
            None => forall|i: int| 0 <= i < s.len() ==> s[i].id != id,
        },
    decreases s.len(),
{
    if s.len() > 0 && s[0].id != id {
        lemma_find_room_props(s.drop_first(), id);
        match find_room(s.drop_first(), id) {
            Some(r) => {
                let j = choose|j: int|
                    0 <= j < s.drop_first().len() && s.drop_first()[j] == r;
                assert(s[j + 1] == r);
            },
            None => {
                assert forall|i: int| 0 <= i < s.len() implies s[i].id != id by {
                    if i > 0 {
                        assert(s.drop_first()[i - 1] == s[i]);
                    }
                }
            },
        }
    }
}

/// The looked-up room is the one at the first index carrying the id.
pub proof fn lemma_find_room_index(s: Seq<Room>, id: u64, i: int)
    requires
        0 <= i < s.len(),
        s[i].id == id,
        forall|j: int| 0 <= j < i ==> s[j].id != id,
    ensures
        find_room(s, id) == Some(s[i]),
    decreases s.len(),
{
    if i > 0 {
        assert forall|j: int| 0 <= j < i - 1 implies s.drop_first()[j].id != id by {
            assert(s.drop_first()[j] == s[j + 1]);
        }
        lemma_find_room_index(s.drop_first(), id, i - 1);
    }
}

/// The device counterpart of `lemma_find_room_props`.
pub proof fn lemma_find_device_props(s: Seq<Device>, room_id: u64, id: u64)
    ensures
        match find_device(s, room_id, id) {
            Some(d) => d.id == id && d.room_id == room_id && s.contains(d),
            None => forall|i: int|
                0 <= i < s.len() ==> !(s[i].id == id && s[i].room_id == room_id),
        },
    decreases s.len(),
{
    if s.len() > 0 && !(s[0].id == id && s[0].room_id == room_id) {
        lemma_find_device_props(s.drop_first(), room_id, id);
        match find_device(s.drop_first(), room_id, id) {
            Some(d) => {
                let j = choose|j: int|
                    0 <= j < s.drop_first().len() && s.drop_first()[j] == d;
                assert(s[j + 1] == d);
            },
            None => {
                assert forall|i: int| 0 <= i < s.len() implies !(s[i].id == id
                    && s[i].room_id == room_id) by {
                    if i > 0 {
                        assert(s.drop_first()[i - 1] == s[i]);
                    }
                }
            },
        }
    }
}

/// The device counterpart of `lemma_find_room_index`.
pub proof fn lemma_find_device_index(s: Seq<Device>, room_id: u64, id: u64, i: int)
    requires
        0 <= i < s.len(),
        s[i].id == id,
        s[i].room_id == room_id,
        forall|j: int| 0 <= j < i ==> !(s[j].id == id && s[j].room_id == room_id),
    ensures
        find_device(s, room_id, id) == Some(s[i]),
    decreases s.len(),
{
    if i > 0 {
        assert forall|j: int| 0 <= j < i - 1 implies !(s.drop_first()[j].id == id
            && s.drop_first()[j].room_id == room_id) by {
            assert(s.drop_first()[j] == s[j + 1]);
        }
        lemma_find_device_index(s.drop_first(), room_id, id, i - 1);
    }
}

/// Removing a room keeps ids unique, keeps every survivor, loses the
/// removed id, and invents nothing.
pub(crate) proof fn lemma_rooms_without_props(s: Seq<Room>, id: u64)
    requires
        forall|i: int, j: int| 0 <= i < j < s.len() ==> s[i].id != s[j].id,
    ensures
        forall|i: int, j: int|
            0 <= i < j < rooms_without(s, id).len() ==> rooms_without(s, id)[i].id
                != rooms_without(s, id)[j].id,
        forall|i: int| 0 <= i < rooms_without(s, id).len() ==> rooms_without(s, id)[i].id != id,
        forall|i: int|
            0 <= i < rooms_without(s, id).len() ==> s.contains(#[trigger] rooms_without(s, id)[i]),
        forall|k: int|
            0 <= k < s.len() && (#[trigger] s[k]).id != id ==> rooms_without(s, id).contains(s[k]),
    decreases s.len(),
{
    reveal(Seq::filter);
    if s.len() > 0 {
        lemma_rooms_without_props(s.drop_last(), id);
        let t = rooms_without(s, id);
        let sub = rooms_without(s.drop_last(), id);
        assert forall|i: int| 0 <= i < sub.len() implies s.contains(#[trigger] sub[i]) by {
            let k = choose|k: int| 0 <= k < s.drop_last().len() && s.drop_last()[k] == sub[i];
            assert(s[k] == sub[i]);
        }
        if s.last().id != id {
            assert(t == sub.push(s.last()));
            assert forall|i: int, j: int| 0 <= i < j < t.len() implies t[i].id != t[j].id by {
                if j < t.len() - 1 {
                    assert(t[i] == sub[i] && t[j] == sub[j]);
                } else {
                    assert(t[i] == sub[i]);
                    let k = choose|k: int| 0 <= k < s.drop_last().len() && s.drop_last()[k]
                        == sub[i];
                    assert(s[k].id != s[s.len() - 1].id);
                }
            }
            assert(t.last() == s[s.len() - 1]);
        } else {
            assert(t == sub);
        }
        assert forall|k: int|
            0 <= k < s.len() && (#[trigger] s[k]).id != id implies t.contains(s[k]) by {
            if k < s.len() - 1 {
                assert(s.drop_last()[k] == s[k]);
                assert(sub.contains(s[k]));
                let m = choose|m: int| 0 <= m < sub.len() && sub[m] == s[k];
                assert(t[m] == s[k]);
            } else {
                assert(t.last() == s[k]);
            }
        }
    }
}

/// The device-side counterparts of `lemma_rooms_without_props`, for the two
/// ways devices are removed: by owning room (the cascade) and by full key.
pub(crate) proof fn lemma_devices_without_room_props(s: Seq<Device>, room_id: u64)
    requires
        forall|i: int, j: int| 0 <= i < j < s.len() ==> s[i].id != s[j].id,
    ensures
        forall|i: int, j: int|
            0 <= i < j < devices_without_room(s, room_id).len() ==> devices_without_room(
                s,
                room_id,
            )[i].id != devices_without_room(s, room_id)[j].id,
        forall|i: int|
            0 <= i < devices_without_room(s, room_id).len() ==> devices_without_room(
                s,
                room_id,
            )[i].room_id != room_id,
        forall|i: int|
            0 <= i < devices_without_room(s, room_id).len() ==> s.contains(
                #[trigger] devices_without_room(s, room_id)[i],
            ),
    decreases s.len(),
{
    reveal(Seq::filter);
    if s.len() > 0 {
        lemma_devices_without_room_props(s.drop_last(), room_id);
        let t = devices_without_room(s, room_id);
        let sub = devices_without_room(s.drop_last(), room_id);
        assert forall|i: int| 0 <= i < sub.len() implies s.contains(#[trigger] sub[i]) by {
            let k = choose|k: int| 0 <= k < s.drop_last().len() && s.drop_last()[k] == sub[i];
            assert(s[k] == sub[i]);
        }
        if s.last().room_id != room_id {
            assert(t == sub.push(s.last()));
            assert forall|i: int, j: int| 0 <= i < j < t.len() implies t[i].id != t[j].id by {
                if j < t.len() - 1 {
                    assert(t[i] == sub[i] && t[j] == sub[j]);
                } else {
                    assert(t[i] == sub[i]);
                    let k = choose|k: int| 0 <= k < s.drop_last().len() && s.drop_last()[k]
                        == sub[i];
                    assert(s[k].id != s[s.len() - 1].id);
                }
            }
            assert(t.last() == s[s.len() - 1]);
        } else {
            assert(t == sub);
        }
    }
}

pub(crate) proof fn lemma_devices_without_props(s: Seq<Device>, room_id: u64, id: u64)
    requires
        forall|i: int, j: int| 0 <= i < j < s.len() ==> s[i].id != s[j].id,
    ensures
        forall|i: int, j: int|
            0 <= i < j < devices_without(s, room_id, id).len() ==> devices_without(
                s,
                room_id,
                id,
            )[i].id != devices_without(s, room_id, id)[j].id,
        forall|i: int|
            0 <= i < devices_without(s, room_id, id).len() ==> !((#[trigger] devices_without(
                s,
                room_id,
                id,
            )[i]).id == id && devices_without(s, room_id, id)[i].room_id == room_id),
        forall|i: int|
            0 <= i < devices_without(s, room_id, id).len() ==> s.contains(
                #[trigger] devices_without(s, room_id, id)[i],
            ),
    decreases s.len(),
{
    reveal(Seq::filter);
    if s.len() > 0 {
        lemma_devices_without_props(s.drop_last(), room_id, id);
        let t = devices_without(s, room_id, id);
        let sub = devices_without(s.drop_last(), room_id, id);
        assert forall|i: int| 0 <= i < sub.len() implies s.contains(#[trigger] sub[i]) by {
            let k = choose|k: int| 0 <= k < s.drop_last().len() && s.drop_last()[k] == sub[i];
            assert(s[k] == sub[i]);
        }
        if !(s.last().id == id && s.last().room_id == room_id) {
            assert(t == sub.push(s.last()));
            assert forall|i: int, j: int| 0 <= i < j < t.len() implies t[i].id != t[j].id by {
                if j < t.len() - 1 {
                    assert(t[i] == sub[i] && t[j] == sub[j]);
                } else {
                    assert(t[i] == sub[i]);
                    let k = choose|k: int| 0 <= k < s.drop_last().len() && s.drop_last()[k]
                        == sub[i];
                    assert(s[k].id != s[s.len() - 1].id);
                }
            }
            assert(t.last() == s[s.len() - 1]);
        } else {
            assert(t == sub);
        }
    }
}

/// The store: the seeded house, rooms and devices in creation order, and
/// the next identifier to issue.
pub struct Store {
    pub house: Option<House>,
    pub rooms: Vec<Room>,
    pub devices: Vec<Device>,
    pub next_id: u64,
}

impl Store {
    /// Well-formedness: identifiers are unique per entity type and below the
    /// issue counter, and every device's owning room exists (referential
    /// integrity).
    pub open spec fn wf(self) -> bool {
        &&& forall|i: int, j: int|
            0 <= i < j < self.rooms@.len() ==> self.rooms@[i].id != self.rooms@[j].id
        &&& forall|i: int| 0 <= i < self.rooms@.len() ==> self.rooms@[i].id < self.next_id
        &&& forall|i: int, j: int|
            0 <= i < j < self.devices@.len() ==> self.devices@[i].id != self.devices@[j].id
        &&& forall|i: int| 0 <= i < self.devices@.len() ==> self.devices@[i].id < self.next_id
        &&& forall|i: int|
            0 <= i < self.devices@.len() ==> room_id_present(
                self.rooms@,
                self.devices@[i].room_id,
            )
    }

    /// A fresh store around the externally seeded house row, owning nothing
    /// and with no identifier issued yet.
    pub fn new(house: Option<House>) -> (s: Store)
        ensures
            s.house == house,
            s.rooms@ == Seq::<Room>::empty(),
            s.devices@ == Seq::<Device>::empty(),
            s.next_id == 0,
            s.wf(),
    {
        Store { house, rooms: Vec::new(), devices: Vec::new(), next_id: 0 }
    }

    /// Reads the singleton house; `NotFound` when none was seeded.
    pub fn get_house(&self) -> (r: Result<House, Error>)
        ensures
            match self.house {
                Some(h) => r matches Ok(g) && g == h,
                None => r matches Err(e) && e == Error::NotFound,
            },
    {
        match &self.house {
            Some(h) => Ok(House { name: h.name.clone() }),
            None => Err(Error::NotFound),
        }
    }

    /// All rooms, in creation order; an empty sequence is not an error.
    pub fn list_rooms(&self) -> (r: Vec<Room>)
        ensures
            r@ == self.rooms@,
    {
        let mut out: Vec<Room> = Vec::new();
        let n = self.rooms.len();
        let mut i: usize = 0;
        while i < n
            invariant
                i <= n,
                n == self.rooms@.len(),
                out@ == self.rooms@.take(i as int),
            decreases n - i,
        {
            let room = &self.rooms[i];
            out.push(Room { id: room.id, name: room.name.clone() });
            proof {
                assert(out@ =~= self.rooms@.take(i as int + 1));
            }
            i = i + 1;
        }
        proof {
            assert(self.rooms@.take(n as int) =~= self.rooms@);
        }
        out
    }

    fn find_room_index(&self, id: u64) -> (r: Option<usize>)
        ensures
            match r {
                Some(i) => i < self.rooms@.len() && self.rooms@[i as int].id == id
                    && find_room(self.rooms@, id) == Some(self.rooms@[i as int]),
                None => find_room(self.rooms@, id) is None,
            },
    {
        let n = self.rooms.len();
        let mut i: usize = 0;
        while i < n
            invariant
                i <= n,
                n == self.rooms@.len(),
                forall|j: int| 0 <= j < i ==> self.rooms@[j].id != id,
            decreases n - i,
        {
            if self.rooms[i].id == id {
                proof {
                    lemma_find_room_index(self.rooms@, id, i as int);
                }
                return Some(i);
            }
            i = i + 1;
        }
        proof {
            lemma_find_room_props(self.rooms@, id);
        }
        None
    }

    fn find_device_index(&self, room_id: u64, id: u64) -> (r: Option<usize>)
        ensures
            match r {
                Some(i) => i < self.devices@.len() && self.devices@[i as int].id == id
                    && self.devices@[i as int].room_id == room_id
                    && find_device(self.devices@, room_id, id) == Some(
                    self.devices@[i as int],
                ),
                None => find_device(self.devices@, room_id, id) is None,
            },
    {
        let n = self.devices.len();
        let mut i: usize = 0;
        while i < n
            invariant
                i <= n,
                n == self.devices@.len(),
                forall|j: int|
                    0 <= j < i ==> !(self.devices@[j].id == id && self.devices@[j].room_id
                        == room_id),
            decreases n - i,
        {
            let d = &self.devices[i];
            if d.id == id && d.room_id == room_id {
                proof {
                    lemma_find_device_index(self.devices@, room_id, id, i as int);
                }
                return Some(i);
            }
            i = i + 1;
        }
        proof {
            lemma_find_device_props(self.devices@, room_id, id);
        }
        None
    }

    /// Looks a room up by id; `NotFound` when no room carries it.
    pub fn get_room(&self, id: u64) -> (r: Result<Room, Error>)
        ensures
            match find_room(self.rooms@, id) {
                Some(room) => r matches Ok(g) && g == room,
                None => r matches Err(e) && e == Error::NotFound,
            },
    {
        match self.find_room_index(id) {
            Some(i) => {
                let room = &self.rooms[i];
                Ok(Room { id: room.id, name: room.name.clone() })
            },
            None => Err(Error::NotFound),
        }
    }

    /// Creates a room under a freshly issued identifier. Succeeds unless the
    /// backend itself fails — here, only when the identifier space is
    /// exhausted.
    pub fn create_room(&mut self, new_room: NewRoom) -> (r: Result<Room, Error>)
        requires
            old(self).wf(),
        ensures
            final(self).wf(),
            old(self).next_id < u64::MAX ==> (r matches Ok(room) && create_room_post(
                *old(self),
                *final(self),
                room,
                new_room.name,
            )),
            old(self).next_id == u64::MAX ==> (r matches Err(e) && e is Internal && *final(self)
                == *old(self)),
    {
        if self.next_id == u64::MAX {
            return Err(Error::Internal("identifier space exhausted".to_owned()));
        }
        let id = self.next_id;
        self.next_id = self.next_id + 1;
        let room = Room { id, name: new_room.name };
        self.rooms.push(Room { id, name: room.name.clone() });
        proof {
            assert forall|k: int|
                0 <= k < self.devices@.len() implies room_id_present(
                self.rooms@,
                self.devices@[k].room_id,
            ) by {
                let j = choose|j: int|
                    0 <= j < old(self).rooms@.len() && old(self).rooms@[j].id == old(
                        self,
                    ).devices@[k].room_id;
                assert(self.rooms@[j].id == self.devices@[k].room_id);
            }
        }
        Ok(room)
    }

    /// Renames the room carrying `id` in one atomic step: when no room
    /// carries it, reports `NotFound` and performs no write.
    pub fn update_room(&mut self, id: u64, new_room: NewRoom) -> (r: Result<Room, Error>)
        requires
            old(self).wf(),
        ensures
            final(self).wf(),
            find_room(old(self).rooms@, id) is Some ==> (r matches Ok(room) && update_room_post(
                *old(self),
                *final(self),
                id,
                new_room.name,
                room,
            )),
            find_room(old(self).rooms@, id) is None ==> (r matches Err(e) && e == Error::NotFound
                && *final(self) == *old(self)),
    {
        match self.find_room_index(id) {
            None => Err(Error::NotFound),
            Some(i) => {
                let room = Room { id, name: new_room.name };
                let stored = Room { id, name: room.name.clone() };
                self.rooms.remove(i);
                self.rooms.insert(i, stored);
                proof {
                    assert forall|j: int|
                        0 <= j < old(self).rooms@.len() && j != i implies old(self).rooms@[j].id
                        != id by {
                        if j < i as int {
                            assert(old(self).rooms@[j].id != old(self).rooms@[i as int].id);
                        } else {
                            assert(old(self).rooms@[i as int].id != old(self).rooms@[j].id);
                        }
                    }
                    assert(self.rooms@ =~= rooms_renamed(old(self).rooms@, id, room.name));
                    assert forall|k: int|
                        0 <= k < self.devices@.len() implies room_id_present(
                        self.rooms@,
                        self.devices@[k].room_id,
                    ) by {
                        let j = choose|j: int|
                            0 <= j < old(self).rooms@.len() && old(self).rooms@[j].id == old(
                                self,
                            ).devices@[k].room_id;
                        assert(self.rooms@[j].id == self.devices@[k].room_id);
                    }
                }
                Ok(room)
            },
        }
    }

    /// Deletes the room carrying `id` and, as the same atomic step, every
    /// device it owns — the cascade never leaves an orphan. When no room
    /// carries the id, reports `NotFound` and performs no write.
    pub fn delete_room(&mut self, id: u64) -> (r: Result<(), Error>)
        requires
            old(self).wf(),
        ensures
            final(self).wf(),
            find_room(old(self).rooms@, id) is Some ==> (r matches Ok(u) && delete_room_post(
                *old(self),
                *final(self),
                id,
            )),
            find_room(old(self).rooms@, id) is None ==> (r matches Err(e) && e == Error::NotFound
                && *final(self) == *old(self)),
    {
        if self.find_room_index(id).is_none() {
            return Err(Error::NotFound);
        }
        let n = self.rooms.len();
        let mut rooms2: Vec<Room> = Vec::new();
        let mut i: usize = 0;
        while i < n
            invariant
                i <= n,
                n == self.rooms@.len(),
                rooms2@ == rooms_without(self.rooms@.take(i as int), id),
            decreases n - i,
        {
            let room = &self.rooms[i];
            proof {
                reveal(Seq::filter);
                assert(self.rooms@.take(i as int + 1).drop_last() =~= self.rooms@.take(i as int));
                assert(self.rooms@.take(i as int + 1).last() == self.rooms@[i as int]);
            }
            if room.id != id {
                rooms2.push(Room { id: room.id, name: room.name.clone() });
            }
            i = i + 1;
        }
        proof {
            assert(self.rooms@.take(n as int) =~= self.rooms@);
        }
        let m = self.devices.len();
        let mut devices2: Vec<Device> = Vec::new();
        let mut k: usize = 0;
        while k < m
            invariant
                k <= m,
                m == self.devices@.len(),
                devices2@ == devices_without_room(self.devices@.take(k as int), id),
            decreases m - k,
        {
            let d = &self.devices[k];
            proof {
                reveal(Seq::filter);
                assert(self.devices@.take(k as int + 1).drop_last() =~= self.devices@.take(
                    k as int,
                ));
                assert(self.devices@.take(k as int + 1).last() == self.devices@[k as int]);
            }
            if d.room_id != id {
                devices2.push(Device { id: d.id, room_id: d.room_id, name: d.name.clone() });
            }
            k = k + 1;
        }
        proof {
            assert(self.devices@.take(m as int) =~= self.devices@);
        }
        self.rooms = rooms2;
        self.devices = devices2;
        proof {
            lemma_rooms_without_props(old(self).rooms@, id);
            lemma_devices_without_room_props(old(self).devices@, id);
            assert forall|t: int|
                0 <= t < self.rooms@.len() implies self.rooms@[t].id < self.next_id by {
                let w = choose|w: int|
                    0 <= w < old(self).rooms@.len() && old(self).rooms@[w] == self.rooms@[t];
            }
            assert forall|t: int|
                0 <= t < self.devices@.len() implies self.devices@[t].id < self.next_id by {
                let w = choose|w: int|
                    0 <= w < old(self).devices@.len() && old(self).devices@[w] == self.devices@[t];
            }
            assert forall|t: int|
                0 <= t < self.devices@.len() implies room_id_present(
                self.rooms@,
                self.devices@[t].room_id,
            ) by {
                let w = choose|w: int|
                    0 <= w < old(self).devices@.len() && old(self).devices@[w] == self.devices@[t];
                let j = choose|j: int|
                    0 <= j < old(self).rooms@.len() && old(self).rooms@[j].id == old(
                        self,
                    ).devices@[w].room_id;
                assert(old(self).rooms@[j].id != id);
                assert(rooms_without(old(self).rooms@, id).contains(old(self).rooms@[j]));
                let v = choose|v: int|
                    0 <= v < self.rooms@.len() && self.rooms@[v] == old(self).rooms@[j];
                assert(self.rooms@[v].id == self.devices@[t].room_id);
            }
        }
        Ok(())
    }

    /// The devices owned by `room_id`, in creation order, and nothing else.
    /// Whether the room itself must exist is the caller's decision: the
    /// store only filters.
    pub fn list_devices(&self, room_id: u64) -> (r: Vec<Device>)
        ensures
            r@ == devices_of_room(self.devices@, room_id),
    {
        let n = self.devices.len();
        let mut out: Vec<Device> = Vec::new();
        let mut i: usize = 0;
        while i < n
            invariant
                i <= n,
                n == self.devices@.len(),
                out@ == devices_of_room(self.devices@.take(i as int), room_id),
            decreases n - i,
        {
            let d = &self.devices[i];
            proof {
                reveal(Seq::filter);
                assert(self.devices@.take(i as int + 1).drop_last() =~= self.devices@.take(
                    i as int,
                ));
                assert(self.devices@.take(i as int + 1).last() == self.devices@[i as int]);
            }
            if d.room_id == room_id {
                out.push(Device { id: d.id, room_id: d.room_id, name: d.name.clone() });
            }
            i = i + 1;
        }
        proof {
            assert(self.devices@.take(n as int) =~= self.devices@);
        }
        out
    }

    /// Creates a device under `room_id` with a freshly issued identifier.
    /// When the room does not exist, reports `NotFound` and inserts nothing:
    /// the existence check and the insert are one atomic step.
    pub fn create_device(&mut self, room_id: u64, new_device: NewDevice) -> (r: Result<
        Device,
        Error,
    >)
        requires
            old(self).wf(),
        ensures
            final(self).wf(),
            find_room(old(self).rooms@, room_id) is None ==> (r matches Err(e) && e
                == Error::NotFound && *final(self) == *old(self)),
            find_room(old(self).rooms@, room_id) is Some && old(self).next_id < u64::MAX ==> (
            r matches Ok(device) && create_device_post(
                *old(self),
                *final(self),
                room_id,
                device,
                new_device.name,
            )),
            find_room(old(self).rooms@, room_id) is Some && old(self).next_id == u64::MAX ==> (
            r matches Err(e) && e is Internal && *final(self) == *old(self)),
    {
        match self.find_room_index(room_id) {
            None => Err(Error::NotFound),
            Some(at) => {
                if self.next_id == u64::MAX {
                    return Err(Error::Internal("identifier space exhausted".to_owned()));
                }
                let id = self.next_id;
                self.next_id = self.next_id + 1;
                let device = Device { id, room_id, name: new_device.name };
                self.devices.push(
                    Device { id, room_id, name: device.name.clone() },
                );
                proof {
                    assert forall|k: int|
                        0 <= k < self.devices@.len() implies room_id_present(
                        self.rooms@,
                        self.devices@[k].room_id,
                    ) by {
                        if k < old(self).devices@.len() {
                            let j = choose|j: int|
                                0 <= j < old(self).rooms@.len() && old(self).rooms@[j].id == old(
                                    self,
                                ).devices@[k].room_id;
                            assert(self.rooms@[j].id == self.devices@[k].room_id);
                        } else {
                            assert(self.rooms@[at as int].id == room_id);
                        }
                    }
                }
                Ok(device)
            },
        }
    }

    /// Looks a device up by its room and its id; a device under a different
    /// room is reported exactly like an absent one.
    pub fn get_device(&self, room_id: u64, id: u64) -> (r: Result<Device, Error>)
        ensures
            match find_device(self.devices@, room_id, id) {
                Some(device) => r matches Ok(g) && g == device,
                None => r matches Err(e) && e == Error::NotFound,
            },
    {
        match self.find_device_index(room_id, id) {
            Some(i) => {
                let d = &self.devices[i];
                Ok(Device { id: d.id, room_id: d.room_id, name: d.name.clone() })
            },
            None => Err(Error::NotFound),
        }
    }

    /// Renames the device keyed `(room_id, id)` in one atomic step: when the
    /// key matches nothing, reports `NotFound` and performs no write.
    pub fn update_device(&mut self, room_id: u64, id: u64, new_device: NewDevice) -> (r: Result<
        Device,
        Error,
    >)
        requires
            old(self).wf(),
        ensures
            final(self).wf(),
            find_device(old(self).devices@, room_id, id) is Some ==> (r matches Ok(device)
                && update_device_post(
                *old(self),
                *final(self),
                room_id,
                id,
                new_device.name,
                device,
            )),
            find_device(old(self).devices@, room_id, id) is None ==> (r matches Err(e) && e
                == Error::NotFound && *final(self) == *old(self)),
    {
        match self.find_device_index(room_id, id) {
            None => Err(Error::NotFound),
            Some(i) => {
                let device = Device { id, room_id, name: new_device.name };
                let stored = Device { id, room_id, name: device.name.clone() };
                self.devices.remove(i);
                self.devices.insert(i, stored);
                proof {
                    assert forall|j: int|
                        0 <= j < old(self).devices@.len() && j != i implies old(
                        self,
                    ).devices@[j].id != id by {
                        if j < i as int {
                            assert(old(self).devices@[j].id != old(self).devices@[i as int].id);
                        } else {
                            assert(old(self).devices@[i as int].id != old(self).devices@[j].id);
                        }
                    }
                    assert(self.devices@ =~= devices_renamed(
                        old(self).devices@,
                        room_id,
                        id,
                        device.name,
                    ));
                    assert forall|k: int|
                        0 <= k < self.devices@.len() implies room_id_present(
                        self.rooms@,
                        self.devices@[k].room_id,
                    ) by {
                        let j = choose|j: int|
                            0 <= j < old(self).rooms@.len() && old(self).rooms@[j].id == old(
                                self,
                            ).devices@[k].room_id;
                        assert(self.rooms@[j].id == self.devices@[k].room_id);
                    }
                }
                Ok(device)
            },
        }
    }

    /// Deletes the device keyed `(room_id, id)` in one atomic step: when the
    /// key matches nothing, reports `NotFound` and performs no write.
    pub fn delete_device(&mut self, room_id: u64, id: u64) -> (r: Result<(), Error>)
        requires
            old(self).wf(),
        ensures
            final(self).wf(),
            find_device(old(self).devices@, room_id, id) is Some ==> (r matches Ok(u)
                && delete_device_post(*old(self), *final(self), room_id, id)),
            find_device(old(self).devices@, room_id, id) is None ==> (r matches Err(e) && e
                == Error::NotFound && *final(self) == *old(self)),
    {
        if self.find_device_index(room_id, id).is_none() {
            return Err(Error::NotFound);
        }
        let m = self.devices.len();
        let mut devices2: Vec<Device> = Vec::new();
        let mut k: usize = 0;
        while k < m
            invariant
                k <= m,
                m == self.devices@.len(),
                devices2@ == devices_without(self.devices@.take(k as int), room_id, id),
            decreases m - k,
        {
            let d = &self.devices[k];
            proof {
                reveal(Seq::filter);
                assert(self.devices@.take(k as int + 1).drop_last() =~= self.devices@.take(
                    k as int,
                ));
                assert(self.devices@.take(k as int + 1).last() == self.devices@[k as int]);
            }
            if !(d.id == id && d.room_id == room_id) {
                devices2.push(Device { id: d.id, room_id: d.room_id, name: d.name.clone() });
            }
            k = k + 1;
        }
        proof {
            assert(self.devices@.take(m as int) =~= self.devices@);
        }
        self.devices = devices2;
        proof {
            lemma_devices_without_props(old(self).devices@, room_id, id);
            assert forall|t: int|
                0 <= t < self.devices@.len() implies self.devices@[t].id < self.next_id by {
                let w = choose|w: int|
                    0 <= w < old(self).devices@.len() && old(self).devices@[w] == self.devices@[t];
            }
            assert forall|t: int|
                0 <= t < self.devices@.len() implies room_id_present(
                self.rooms@,
                self.devices@[t].room_id,
            ) by {
                let w = choose|w: int|
                    0 <= w < old(self).devices@.len() && old(self).devices@[w] == self.devices@[t];
            }
        }
        Ok(())
    }
}

/// What a successful room creation does: the returned room carries the
/// freshly issued identifier and the payload's name, and is appended behind
/// the existing rooms; nothing else moves.
pub open spec fn create_room_post(pre: Store, post: Store, room: Room, name: String) -> bool {
    &&& room.id == pre.next_id
    &&& room.name == name
    &&& post.rooms@ == pre.rooms@.push(room)
    &&& post.devices@ == pre.devices@
    &&& post.house == pre.house
    &&& post.next_id == pre.next_id + 1
}

/// What a successful room update does: only the name of the addressed room
/// changes; identifiers, the other rooms, the devices and the issue counter
/// all stay.
pub open spec fn update_room_post(
    pre: Store,
    post: Store,
    id: u64,
    name: String,
    room: Room,
) -> bool {
    &&& find_room(pre.rooms@, id) is Some
    &&& room.id == id
    &&& room.name == name
    &&& post.rooms@ == rooms_renamed(pre.rooms@, id, name)
    &&& post.devices@ == pre.devices@
    &&& post.house == pre.house
    &&& post.next_id == pre.next_id
}

/// What a successful room deletion does: the room goes, and with it — in
/// the same step — every device it owned; the issue counter stays, so the
/// id is never reused.
pub open spec fn delete_room_post(pre: Store, post: Store, id: u64) -> bool {
    &&& find_room(pre.rooms@, id) is Some
    &&& post.rooms@ == rooms_without(pre.rooms@, id)
    &&& post.devices@ == devices_without_room(pre.devices@, id)
    &&& post.house == pre.house
    &&& post.next_id == pre.next_id
}

/// What a successful device creation does: the returned device carries the
/// freshly issued identifier, the owning room from the path, and the
/// payload's name, and is appended behind the existing devices; the rooms
/// do not move.
pub open spec fn create_device_post(
    pre: Store,
    post: Store,
    room_id: u64,
    device: Device,
    name: String,
) -> bool {
    &&& room_id_present(pre.rooms@, room_id)
    &&& device.id == pre.next_id
    &&& device.room_id == room_id
    &&& device.name == name
    &&& post.devices@ == pre.devices@.push(device)
    &&& post.rooms@ == pre.rooms@
    &&& post.house == pre.house
    &&& post.next_id == pre.next_id + 1
}

/// What a successful device update does: only the name of the addressed
/// device changes; its id and owning room are immutable, and everything
/// else stays.
pub open spec fn update_device_post(
    pre: Store,
    post: Store,
    room_id: u64,
    id: u64,
    name: String,
    device: Device,
) -> bool {
    &&& find_device(pre.devices@, room_id, id) is Some
    &&& device.id == id
    &&& device.room_id == room_id
    &&& device.name == name
    &&& post.devices@ == devices_renamed(pre.devices@, room_id, id, name)
    &&& post.rooms@ == pre.rooms@
    &&& post.house == pre.house
    &&& post.next_id == pre.next_id
}

/// What a successful device deletion does: exactly the addressed device
/// goes; everything else stays, and the id is never reused.
pub open spec fn delete_device_post(pre: Store, post: Store, room_id: u64, id: u64) -> bool {
    &&& find_device(pre.devices@, room_id, id) is Some
    &&& post.devices@ == devices_without(pre.devices@, room_id, id)
    &&& post.rooms@ == pre.rooms@
    &&& post.house == pre.house
    &&& post.next_id == pre.next_id
}

} // verus!
