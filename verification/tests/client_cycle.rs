//! The client-side decision table and request-path building.

use house_api::client::{
    classify_status, device_path, devices_path, handle_response, house_path, make_url,
    report_path, room_path, rooms_path, Error, StatusKind,
};
use house_api::domain::Room;

#[test]
fn status_classification_is_a_closed_table() {
    assert_eq!(classify_status(200), StatusKind::Success);
    assert_eq!(classify_status(201), StatusKind::Success);
    assert_eq!(classify_status(404), StatusKind::NotFound);
    assert_eq!(classify_status(500), StatusKind::ServerError);
    assert_eq!(classify_status(204), StatusKind::Unexpected);
    assert_eq!(classify_status(400), StatusKind::Unexpected);
    assert_eq!(classify_status(418), StatusKind::Unexpected);
}

#[test]
fn success_statuses_yield_the_decoded_body() {
    let room = Room { id: 4, name: "Kitchen".to_string() };
    let out = handle_response(200, Some(room), None).unwrap();
    assert_eq!(out.id, 4);
    assert_eq!(out.name, "Kitchen");

    let created = Room { id: 5, name: "Cellar".to_string() };
    let out = handle_response(201, Some(created), None).unwrap();
    assert_eq!(out.id, 5);
}

#[test]
fn undecodable_success_body_is_malformed() {
    let r: Result<Room, Error> = handle_response(200, None, None);
    assert!(matches!(r, Err(Error::Malformed)));
}

#[test]
fn not_found_ignores_the_body() {
    let r: Result<Room, Error> = handle_response(404, None, Some("ignored".to_string()));
    assert!(matches!(r, Err(Error::NotFound)));
}

#[test]
fn server_error_surfaces_the_message_when_it_decoded() {
    let r: Result<Room, Error> = handle_response(500, None, Some("boom".to_string()));
    match r {
        Err(Error::ServerError(Some(message))) => assert_eq!(message, "boom"),
        other => panic!("unexpected outcome: {other:?}"),
    }
    let r: Result<Room, Error> = handle_response(500, None, None);
    assert!(matches!(r, Err(Error::ServerError(None))));
}

#[test]
fn unrecognized_statuses_carry_the_raw_code() {
    let r: Result<Room, Error> = handle_response(418, None, None);
    match r {
        Err(Error::UnexpectedStatus(code)) => assert_eq!(code, 418),
        other => panic!("unexpected outcome: {other:?}"),
    }
}

#[test]
fn request_paths_take_the_canonical_identifier_text() {
    assert_eq!(house_path(), "/");
    assert_eq!(rooms_path(), "/rooms");
    assert_eq!(report_path(), "/report");
    assert_eq!(room_path(7), "/rooms/7");
    assert_eq!(devices_path(7), "/rooms/7/devices");
    assert_eq!(device_path(7, 12), "/rooms/7/devices/12");
    assert_eq!(room_path(u64::MAX), format!("/rooms/{}", u64::MAX));
}

#[test]
fn urls_are_the_base_glued_to_the_path() {
    assert_eq!(
        make_url("http://localhost:3000", "/rooms/1"),
        "http://localhost:3000/rooms/1"
    );
    assert_eq!(make_url("", "/"), "/");
}
