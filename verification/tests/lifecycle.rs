//! Store-level lifecycle behaviour on concrete populations.

use house_api::domain::{House, NewDevice, NewRoom};
use house_api::error::Error;
use house_api::store::Store;

#[test]
fn create_then_get_room_round_trips() {
    let mut store = Store::new(None);
    let created = store.create_room(NewRoom { name: "Kitchen".to_string() }).unwrap();
    let fetched = store.get_room(created.id).unwrap();
    assert_eq!(fetched.id, created.id);
    assert_eq!(fetched.name, "Kitchen");
}

#[test]
fn unknown_room_id_reports_not_found_everywhere() {
    let mut store = Store::new(None);
    let created = store.create_room(NewRoom { name: "Kitchen".to_string() }).unwrap();
    let unused = created.id + 1;
    assert!(matches!(store.get_room(unused), Err(Error::NotFound)));
    assert!(matches!(
        store.update_room(unused, NewRoom { name: "Pantry".to_string() }),
        Err(Error::NotFound)
    ));
    assert!(matches!(store.delete_room(unused), Err(Error::NotFound)));
    // the failed calls wrote nothing
    assert_eq!(store.list_rooms().len(), 1);
    assert_eq!(store.get_room(created.id).unwrap().name, "Kitchen");
}

#[test]
fn delete_room_cascades_to_its_devices() {
    let mut store = Store::new(None);
    let kitchen = store.create_room(NewRoom { name: "Kitchen".to_string() }).unwrap();
    let cellar = store.create_room(NewRoom { name: "Cellar".to_string() }).unwrap();
    let fridge = store
        .create_device(kitchen.id, NewDevice { name: "Fridge".to_string() })
        .unwrap();
    let oven = store
        .create_device(kitchen.id, NewDevice { name: "Oven".to_string() })
        .unwrap();
    let heater = store
        .create_device(cellar.id, NewDevice { name: "Heater".to_string() })
        .unwrap();

    store.delete_room(kitchen.id).unwrap();

    assert!(store.list_devices(kitchen.id).is_empty());
    assert!(matches!(store.get_device(kitchen.id, fridge.id), Err(Error::NotFound)));
    assert!(matches!(store.get_device(kitchen.id, oven.id), Err(Error::NotFound)));
    // the other room and its device are untouched
    let remaining = store.list_devices(cellar.id);
    assert_eq!(remaining.len(), 1);
    assert_eq!(remaining[0].id, heater.id);
    assert_eq!(remaining[0].name, "Heater");
}

#[test]
fn create_device_under_unknown_room_inserts_nothing() {
    let mut store = Store::new(None);
    let room = store.create_room(NewRoom { name: "Kitchen".to_string() }).unwrap();
    let unused = room.id + 1;
    assert!(matches!(
        store.create_device(unused, NewDevice { name: "Ghost".to_string() }),
        Err(Error::NotFound)
    ));
    // no orphan anywhere
    assert!(store.list_devices(unused).is_empty());
    assert!(store.list_devices(room.id).is_empty());
}

#[test]
fn list_devices_never_leaks_across_rooms() {
    let mut store = Store::new(None);
    let kitchen = store.create_room(NewRoom { name: "Kitchen".to_string() }).unwrap();
    let cellar = store.create_room(NewRoom { name: "Cellar".to_string() }).unwrap();
    store.create_device(kitchen.id, NewDevice { name: "Fridge".to_string() }).unwrap();
    store.create_device(cellar.id, NewDevice { name: "Heater".to_string() }).unwrap();
    store.create_device(kitchen.id, NewDevice { name: "Oven".to_string() }).unwrap();

    let kitchen_devices = store.list_devices(kitchen.id);
    assert_eq!(kitchen_devices.len(), 2);
    for d in &kitchen_devices {
        assert_eq!(d.room_id, kitchen.id);
    }
    let cellar_devices = store.list_devices(cellar.id);
    assert_eq!(cellar_devices.len(), 1);
    assert_eq!(cellar_devices[0].room_id, cellar.id);
    assert_eq!(cellar_devices[0].name, "Heater");
}

#[test]
fn delete_before_update_means_exactly_one_success() {
    let mut store = Store::new(None);
    let room = store.create_room(NewRoom { name: "Kitchen".to_string() }).unwrap();
    // serialized with the delete first: the delete succeeds ...
    assert!(store.delete_room(room.id).is_ok());
    // ... and the racing update observes NotFound and resurrects nothing
    assert!(matches!(
        store.update_room(room.id, NewRoom { name: "Pantry".to_string() }),
        Err(Error::NotFound)
    ));
    assert!(matches!(store.get_room(room.id), Err(Error::NotFound)));
    assert!(store.list_rooms().is_empty());
}

#[test]
fn identifiers_are_never_reused_after_deletion() {
    let mut store = Store::new(None);
    let first = store.create_room(NewRoom { name: "Kitchen".to_string() }).unwrap();
    store.delete_room(first.id).unwrap();
    let second = store.create_room(NewRoom { name: "Cellar".to_string() }).unwrap();
    assert_ne!(first.id, second.id);
    assert!(matches!(store.get_room(first.id), Err(Error::NotFound)));
}

#[test]
fn update_changes_only_the_name() {
    let mut store = Store::new(None);
    let kitchen = store.create_room(NewRoom { name: "Kitchen".to_string() }).unwrap();
    let cellar = store.create_room(NewRoom { name: "Cellar".to_string() }).unwrap();
    let updated = store
        .update_room(kitchen.id, NewRoom { name: "Pantry".to_string() })
        .unwrap();
    assert_eq!(updated.id, kitchen.id);
    assert_eq!(updated.name, "Pantry");
    // the other room kept both its id and its name
    let other = store.get_room(cellar.id).unwrap();
    assert_eq!(other.name, "Cellar");
    let rooms = store.list_rooms();
    assert_eq!(rooms.len(), 2);
    assert_eq!(rooms[0].name, "Pantry");
    assert_eq!(rooms[1].name, "Cellar");
}

#[test]
fn device_update_and_delete_are_scoped_by_both_keys() {
    let mut store = Store::new(None);
    let kitchen = store.create_room(NewRoom { name: "Kitchen".to_string() }).unwrap();
    let cellar = store.create_room(NewRoom { name: "Cellar".to_string() }).unwrap();
    let fridge = store
        .create_device(kitchen.id, NewDevice { name: "Fridge".to_string() })
        .unwrap();
    // the right device under the wrong room is as good as absent
    assert!(matches!(store.get_device(cellar.id, fridge.id), Err(Error::NotFound)));
    assert!(matches!(
        store.update_device(cellar.id, fridge.id, NewDevice { name: "X".to_string() }),
        Err(Error::NotFound)
    ));
    assert!(matches!(store.delete_device(cellar.id, fridge.id), Err(Error::NotFound)));
    // under its own room it is fully addressable
    let renamed = store
        .update_device(kitchen.id, fridge.id, NewDevice { name: "Fridge v2".to_string() })
        .unwrap();
    assert_eq!(renamed.id, fridge.id);
    assert_eq!(renamed.room_id, kitchen.id);
    assert_eq!(renamed.name, "Fridge v2");
    store.delete_device(kitchen.id, fridge.id).unwrap();
    assert!(store.list_devices(kitchen.id).is_empty());
}

#[test]
fn house_is_read_only_and_may_be_absent() {
    let seeded = Store::new(Some(House { name: "Home".to_string() }));
    assert_eq!(seeded.get_house().unwrap().name, "Home");
    let empty = Store::new(None);
    assert!(matches!(empty.get_house(), Err(Error::NotFound)));
}
