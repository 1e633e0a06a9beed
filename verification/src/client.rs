//! The client side of the request/response cycle: building request paths
//! and interpreting responses.
//!
//! The transport itself (issuing the HTTP call, decoding JSON) stays
//! outside; this module fixes what the client does with what came back. A
//! response is interpreted by its status code alone through a closed
//! classification — a new server status forces a conscious decision here —
//! and the body is never parsed for control flow beyond decoding the
//! expected shape.

use vstd::prelude::*;
use vstd::string::StringExecFns;
use crate::ids::{format_id, id_chars};

verus! {

/// Every way a client call can fail.
#[derive(Debug)]
pub enum Error {
    /// The request never produced a response.
    Transport,
    /// A success response arrived, but its body did not decode as the
    /// expected shape.
    Malformed,
    /// The server answered 404: the addressed entity does not exist.
    NotFound,
    /// The server reported an internal failure, with its message when the
    /// error body decoded.
    ServerError(Option<String>),
    /// A status code outside the recognized set, carried raw.
    UnexpectedStatus(u16),
}

/// The closed classification of response status codes.
#[derive(Debug, Clone, Copy, PartialEq, Eq, Structural)]
pub enum StatusKind {
    /// 200 or 201: decode the body as the expected success shape.
    Success,
    /// 404: the entity does not exist; the body is ignored.
    NotFound,
    /// 500: surface the server's message when the error body decodes.
    ServerError,
    /// Anything else the client cannot interpret.
    Unexpected,
}

/// How each status code is classified.
pub open spec fn classify_status_spec(status: u16) -> StatusKind {
    if status == 200 || status == 201 {
        StatusKind::Success
    } else if status == 404 {
        StatusKind::NotFound
    } else if status == 500 {
        StatusKind::ServerError
    } else {
        StatusKind::Unexpected
    }
}

/// Classifies a status code; tells the caller what to decode before calling
/// `handle_response`.
pub fn classify_status(status: u16) -> (k: StatusKind)
    ensures
        k == classify_status_spec(status),
{
    if status == 200 || status == 201 {
        StatusKind::Success
    } else if status == 404 {
        StatusKind::NotFound
    } else if status == 500 {
        StatusKind::ServerError
    } else {
        StatusKind::Unexpected
    }
}

/// The full client-side decision table. `decoded` is the outcome of
/// decoding the body as the expected success shape, `error_message` the
/// message of the error body, when one decoded; each is consulted only on
/// the status that calls for it.
pub fn handle_response<T>(status: u16, decoded: Option<T>, error_message: Option<String>) -> (r:
    Result<T, Error>)
    ensures
        classify_status_spec(status) == StatusKind::Success ==> (match decoded {
            Some(v) => r matches Ok(g) && g == v,
            None => r matches Err(e) && e == Error::Malformed,
        }),
        classify_status_spec(status) == StatusKind::NotFound ==> (r matches Err(e) && e
            == Error::NotFound),
        classify_status_spec(status) == StatusKind::ServerError ==> (r matches Err(e) && e
            == Error::ServerError(error_message)),
        classify_status_spec(status) == StatusKind::Unexpected ==> (r matches Err(e) && e
            == Error::UnexpectedStatus(status)),
{
    match classify_status(status) {
        StatusKind::Success => match decoded {
            Some(v) => Ok(v),
            None => Err(Error::Malformed),
        },
        StatusKind::NotFound => Err(Error::NotFound),
        StatusKind::ServerError => Err(Error::ServerError(error_message)),
        StatusKind::Unexpected => Err(Error::UnexpectedStatus(status)),
    }
}

/// Glues a request path onto the base URL.
pub fn make_url(api_url: &str, path: &str) -> (r: String)
    ensures
        r@ == api_url@ + path@,
{
    let mut url = api_url.to_owned();
    url.append(path);
    url
}

/// The path of the house read.
pub fn house_path() -> (r: String)
    ensures
        r@ == "/"@,
{
    "/".to_owned()
}

/// The path of the room collection.
pub fn rooms_path() -> (r: String)
    ensures
        r@ == "/rooms"@,
{
    "/rooms".to_owned()
}

/// The path of one room.
pub fn room_path(id: u64) -> (r: String)
    ensures
        r@ == "/rooms/"@ + id_chars(id),
{
    let mut p = "/rooms/".to_owned();
    let id_text = format_id(id);
    p.append(id_text.as_str());
    p
}

/// The path of one room's device collection.
pub fn devices_path(room_id: u64) -> (r: String)
    ensures
        r@ == "/rooms/"@ + id_chars(room_id) + "/devices"@,
{
    let mut p = room_path(room_id);
    p.append("/devices");
    p
}

/// The path of one device, addressed through its owning room.
pub fn device_path(room_id: u64, device_id: u64) -> (r: String)
    ensures
        r@ == "/rooms/"@ + id_chars(room_id) + "/devices/"@ + id_chars(device_id),
{
    let mut p = room_path(room_id);
    p.append("/devices/");
    let id_text = format_id(device_id);
    p.append(id_text.as_str());
    proof {
        assert(p@ =~= "/rooms/"@ + id_chars(room_id) + "/devices/"@ + id_chars(device_id));
    }
    p
}

/// The path of the report route.
pub fn report_path() -> (r: String)
    ensures
        r@ == "/report"@,
{
    "/report".to_owned()
}

} // verus!
