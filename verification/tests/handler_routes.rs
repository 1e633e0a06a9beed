//! Route-level behaviour: path validation, status codes and wire bodies.

use house_api::domain::{House, NewDevice, NewRoom};
use house_api::error::Error;
use house_api::handlers;
use house_api::ids::format_id;
use house_api::store::Store;

#[test]
fn end_to_end_kitchen_fridge_scenario() {
    let mut store = Store::new(None);

    let (status, room) = handlers::create_room(
        &mut store,
        NewRoom { name: "Kitchen".to_string() },
    )
    .unwrap();
    assert_eq!(status, 201);
    let room_seg = format_id(room.id);

    let (status, device) = handlers::create_device(
        &mut store,
        &room_seg,
        NewDevice { name: "Fridge".to_string() },
    )
    .unwrap();
    assert_eq!(status, 201);
    assert_eq!(device.room_id, room.id);
    let device_seg = format_id(device.id);

    let (status, listed) = handlers::list_devices(&store, &room_seg).unwrap();
    assert_eq!(status, 200);
    assert_eq!(listed.len(), 1);
    assert_eq!(listed[0].id, device.id);
    assert_eq!(listed[0].room_id, room.id);
    assert_eq!(listed[0].name, "Fridge");

    let (status, updated) = handlers::update_device(
        &mut store,
        &room_seg,
        &device_seg,
        NewDevice { name: "Fridge v2".to_string() },
    )
    .unwrap();
    assert_eq!(status, 200);
    assert_eq!(updated.id, device.id);
    assert_eq!(updated.room_id, room.id);
    assert_eq!(updated.name, "Fridge v2");

    let status = handlers::delete_room(&mut store, &room_seg).unwrap();
    assert_eq!(status, 204);
    assert!(matches!(
        handlers::get_device(&store, &room_seg, &device_seg),
        Err(Error::NotFound)
    ));
}

#[test]
fn get_room_with_unused_id_maps_to_404_with_error_body() {
    let store = Store::new(None);
    let err = handlers::get_room(&store, "12345").unwrap_err();
    assert!(matches!(err, Error::NotFound));
    let (status, body) = err.into_response();
    assert_eq!(status, 404);
    assert!(!body.error.is_empty());
}

#[test]
fn malformed_path_segment_maps_to_400_not_404() {
    let mut store = Store::new(None);
    for bad in ["", "abc", "12a", "-3", "18446744073709551616"] {
        assert!(matches!(handlers::get_room(&store, bad), Err(Error::Malformed)));
        assert!(matches!(
            handlers::delete_room(&mut store, bad),
            Err(Error::Malformed)
        ));
        assert!(matches!(
            handlers::get_device(&store, bad, "1"),
            Err(Error::Malformed)
        ));
        assert!(matches!(
            handlers::get_device(&store, "1", bad),
            Err(Error::Malformed)
        ));
    }
    let (status, _) = Error::Malformed.into_response();
    assert_eq!(status, 400);
}

#[test]
fn house_route_reads_the_seeded_row() {
    let store = Store::new(Some(House { name: "Home".to_string() }));
    let (status, house) = handlers::get_house(&store).unwrap();
    assert_eq!(status, 200);
    assert_eq!(house.name, "Home");

    let empty = Store::new(None);
    assert!(matches!(handlers::get_house(&empty), Err(Error::NotFound)));
}

#[test]
fn room_routes_report_their_status_codes() {
    let mut store = Store::new(None);
    let (status, rooms) = handlers::list_rooms(&store);
    assert_eq!(status, 200);
    assert!(rooms.is_empty());

    let (status, room) = handlers::create_room(
        &mut store,
        NewRoom { name: "Kitchen".to_string() },
    )
    .unwrap();
    assert_eq!(status, 201);

    let seg = format_id(room.id);
    let (status, fetched) = handlers::get_room(&store, &seg).unwrap();
    assert_eq!(status, 200);
    assert_eq!(fetched.name, "Kitchen");

    let (status, renamed) = handlers::update_room(
        &mut store,
        &seg,
        NewRoom { name: "Pantry".to_string() },
    )
    .unwrap();
    assert_eq!(status, 200);
    assert_eq!(renamed.name, "Pantry");

    assert_eq!(handlers::delete_room(&mut store, &seg).unwrap(), 204);
    assert!(matches!(handlers::get_room(&store, &seg), Err(Error::NotFound)));
}

#[test]
fn listing_devices_of_an_unknown_room_is_empty_not_an_error() {
    let store = Store::new(None);
    let (status, devices) = handlers::list_devices(&store, "7").unwrap();
    assert_eq!(status, 200);
    assert!(devices.is_empty());
}

#[test]
fn create_device_under_unknown_room_maps_to_404() {
    let mut store = Store::new(None);
    assert!(matches!(
        handlers::create_device(&mut store, "7", NewDevice { name: "Ghost".to_string() }),
        Err(Error::NotFound)
    ));
}

#[test]
fn error_kinds_map_to_their_canonical_responses() {
    let (status, body) = Error::NotFound.into_response();
    assert_eq!(status, 404);
    assert_eq!(body.error, "not found");

    let (status, body) = Error::Malformed.into_response();
    assert_eq!(status, 400);
    assert_eq!(body.error, "malformed request");

    let wrapped = Error::from_internal("pool exhausted".to_string());
    assert_eq!(wrapped.status(), 500);
    let (status, body) = wrapped.into_response();
    assert_eq!(status, 500);
    // the cause stays diagnostic: the wire body never carries it
    assert_eq!(body.error, "internal error");
}

#[test]
fn report_route_answers_its_fixed_text() {
    assert_eq!(handlers::get_report(), "get_report");
}
