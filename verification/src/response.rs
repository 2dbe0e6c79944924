//! The response unwrapper.
//!
//! Given the status and body of an executed request, these functions
//! validate the status, decode the body as the endpoint's envelope and
//! yield the domain records or a typed error. A non-success status is a
//! transport error before the body is looked at; on a 2xx status each
//! function succeeds exactly when [`json_of`] of the body is a well-formed
//! envelope, and then the result equals its decoded elements in upstream
//! order. There is no partial result: an envelope decodes fully or not at
//! all, and a body that does not decode is a transport error with the
//! decode failure embedded.

use vstd::prelude::*;
use vstd::string::StringExecFns;
use crate::digits::spec_decode_uint;
use crate::error::{DecodeError, Error, TransportError};
use crate::json::{
    chatters_shape, extract_chatters_wire, extract_stream_wire, extract_user_wire,
    get_u64_field, item_opt_string, item_string, item_string_array, item_u64, json_member,
    json_of, obj_get, parse_json, stream_item_shape, user_item_shape, Json,
};
use crate::records::{
    decode_stream_fields, decode_user_fields, merge_chatters, Stream, User, Users,
};
use crate::timestamp::{spec_decode_timestamp, ts_of_string};

verus! {

/// An HTTP status that counts as success: the 2xx range.
pub open spec fn is_success_status(status: u16) -> bool {
    200 <= status < 300
}

/// The `data` member of a Helix envelope, when it is present and an array.
pub open spec fn data_array(j: Json) -> Option<Seq<Json>> {
    match json_member(j, "data"@) {
        Some(Json::Arr(items)) => Some(items@),
        _ => None,
    }
}

/// What one element of a Helix `streams` envelope decodes to: every field
/// present with the right JSON kind, the three ids and the timestamp
/// through their adapters, or nothing at all.
pub open spec fn spec_decode_stream_item(j: Json) -> Option<Stream> {
    if stream_item_shape(j) && spec_decode_uint(item_string(j, "id"@)->0@) is Some
        && spec_decode_uint(item_string(j, "user_id"@)->0@) is Some && spec_decode_uint(
        item_string(j, "game_id"@)->0@,
    ) is Some && spec_decode_timestamp(item_string(j, "started_at"@)->0@) is Some {
        Some(
            Stream {
                id: spec_decode_uint(item_string(j, "id"@)->0@)->0,
                user_id: spec_decode_uint(item_string(j, "user_id"@)->0@)->0,
                user_name: item_string(j, "user_name"@)->0,
                game_id: spec_decode_uint(item_string(j, "game_id"@)->0@)->0,
                type_: item_opt_string(j, "type"@)->0,
                title: item_string(j, "title"@)->0,
                viewer_count: item_u64(j, "viewer_count"@)->0,
                started_at: ts_of_string(item_string(j, "started_at"@)->0@),
            },
        )
    } else {
        None
    }
}

/// The whole streams envelope decodes: a `data` array whose every element
/// decodes.
pub open spec fn streams_decode_ok(j: Json) -> bool {
    &&& data_array(j) is Some
    &&& forall|i: int|
        0 <= i < data_array(j)->0.len() ==> spec_decode_stream_item(
            #[trigger] data_array(j)->0[i],
        ) is Some
}

/// The decoded streams of an envelope's `data` array, in upstream order.
pub open spec fn decoded_streams(items: Seq<Json>) -> Seq<Stream> {
    Seq::new(items.len(), |i: int| spec_decode_stream_item(items[i])->0)
}

/// What one element of a Helix `users` envelope decodes to: the three
/// string fields present, the id through the numeric adapter, or nothing
/// at all.
pub open spec fn spec_decode_user_item(j: Json) -> Option<User> {
    if user_item_shape(j) && spec_decode_uint(item_string(j, "id"@)->0@) is Some {
        Some(
            User {
                id: spec_decode_uint(item_string(j, "id"@)->0@)->0,
                login: item_string(j, "login"@)->0,
                display_name: item_string(j, "display_name"@)->0,
            },
        )
    } else {
        None
    }
}

/// The whole users envelope decodes: a `data` array whose every element
/// decodes.
pub open spec fn users_decode_ok(j: Json) -> bool {
    &&& data_array(j) is Some
    &&& forall|i: int|
        0 <= i < data_array(j)->0.len() ==> spec_decode_user_item(
            #[trigger] data_array(j)->0[i],
        ) is Some
}

/// The decoded users of an envelope's `data` array, in upstream order.
pub open spec fn decoded_users(items: Seq<Json>) -> Seq<User> {
    Seq::new(items.len(), |i: int| spec_decode_user_item(items[i])->0)
}

/// The whole chatters envelope decodes: a `chatter_count` that fits the
/// platform's size type, and a `chatters` roster with all seven buckets.
pub open spec fn chatters_decode_ok(j: Json) -> bool {
    &&& item_u64(j, "chatter_count"@) is Some
    &&& item_u64(j, "chatter_count"@)->0 <= usize::MAX
    &&& json_member(j, "chatters"@) is Some
    &&& chatters_shape(json_member(j, "chatters"@)->0)
}

/// The error for a response whose status is outside the 2xx range.
fn status_error(status: u16) -> (r: Error)
    ensures
        r == (Error::TransportError { error: TransportError::Status { status } }),
{
    Error::TransportError { error: TransportError::Status { status } }
}

/// Fold a field-level decode failure into the transport error it surfaces
/// as.
fn decode_error(error: DecodeError) -> (r: Error)
    ensures
        r matches Error::TransportError { error: TransportError::Decode { error: e } } && e
            == error,
{
    Error::TransportError { error: TransportError::Decode { error } }
}

/// The error for a body that is not JSON at all: the parser's diagnostic is
/// retained as the offending value.
fn body_error(message: String) -> (r: Error)
    ensures
        r matches Error::TransportError { error: TransportError::Decode { error: e } }
            && e.field@ == "body"@ && e.value == message,
{
    Error::TransportError {
        error: TransportError::Decode {
            error: DecodeError { field: String::from_str("body"), value: message },
        },
    }
}

/// Unwrap a Helix `streams` response.
///
/// A non-2xx status is exactly the status transport error, and the body is
/// not inspected. On a 2xx status, succeeds exactly when the body is a
/// JSON envelope `{ data: [...] }` whose every element decodes, and then
/// the result is exactly the decoded elements in upstream order — no
/// dedup, no sort, nothing partial; every returned stream is well formed.
/// Any other body is a transport error with the decode failure embedded.
pub fn unwrap_streams_response(status: u16, body: &str) -> (r: Result<Vec<Stream>, Error>)
    ensures
        !is_success_status(status) ==> r == Err::<Vec<Stream>, Error>(
            Error::TransportError { error: TransportError::Status { status } },
        ),
        is_success_status(status) ==> ((r is Ok) <==> (json_of(body@) is Some
            && streams_decode_ok(json_of(body@)->0))),
        r is Ok ==> r->Ok_0@ == decoded_streams(data_array(json_of(body@)->0)->0),
        r is Ok ==> forall|i: int| 0 <= i < r->Ok_0@.len() ==> (#[trigger] r->Ok_0@[i]).wf(),
        r is Err ==> r->Err_0 matches Error::TransportError { .. },
{
    if !(200 <= status && status < 300) {
        return Err(status_error(status));
    }
    let v = match parse_json(body) {
        Ok(v) => v,
        Err(message) => {
            return Err(body_error(message));
        },
    };
    let items = match obj_get(&v, "data") {
        Some(data) => match data {
            Json::Arr(items) => items,
            _ => {
                return Err(decode_error(DecodeError {
                    field: String::from_str("data"),
                    value: String::new(),
                }));
            },
        },
        None => {
            return Err(decode_error(DecodeError {
                field: String::from_str("data"),
                value: String::new(),
            }));
        },
    };
    let mut out: Vec<Stream> = Vec::new();
    let mut i: usize = 0;
    while i < items.len()
        invariant
            is_success_status(status),
            0 <= i <= items@.len(),
            out@.len() == i,
            json_of(body@) == Some(v),
            data_array(v) == Some(items@),
            forall|k: int|
                0 <= k < i ==> spec_decode_stream_item(#[trigger] items@[k]) is Some && out@[k]
                    == spec_decode_stream_item(items@[k])->0,
            forall|k: int| 0 <= k < i ==> (#[trigger] out@[k]).wf(),
        decreases items@.len() - i,
    {
        let wire = match extract_stream_wire(&items[i]) {
            Ok(w) => w,
            Err(e) => {
                return Err(decode_error(e));
            },
        };
        match decode_stream_fields(&wire) {
            Ok(s) => {
                proof {
                    let spec_s = spec_decode_stream_item(items@[i as int])->0;
                    assert(spec_decode_stream_item(items@[i as int]) is Some);
                    assert(s.id == spec_s.id);
                    assert(s.user_name == spec_s.user_name);
                    assert(s.started_at == spec_s.started_at);
                    assert(s == spec_s);
                }
                out.push(s);
            },
            Err(e) => {
                return Err(decode_error(e));
            },
        }
        i = i + 1;
    }
    proof {
        assert(out@ =~= decoded_streams(items@));
    }
    Ok(out)
}

/// Unwrap a Helix `users` response.
///
/// Status and failure behaviour are as for [`unwrap_streams_response`]: on
/// a 2xx status, succeeds exactly when the body is a JSON envelope
/// `{ data: [...] }` whose every element decodes, and then the result is
/// exactly the decoded elements in upstream order.
pub fn unwrap_users_response(status: u16, body: &str) -> (r: Result<Vec<User>, Error>)
    ensures
        !is_success_status(status) ==> r == Err::<Vec<User>, Error>(
            Error::TransportError { error: TransportError::Status { status } },
        ),
        is_success_status(status) ==> ((r is Ok) <==> (json_of(body@) is Some && users_decode_ok(
            json_of(body@)->0,
        ))),
        r is Ok ==> r->Ok_0@ == decoded_users(data_array(json_of(body@)->0)->0),
        r is Err ==> r->Err_0 matches Error::TransportError { .. },
{
    if !(200 <= status && status < 300) {
        return Err(status_error(status));
    }
    let v = match parse_json(body) {
        Ok(v) => v,
        Err(message) => {
            return Err(body_error(message));
        },
    };
    let items = match obj_get(&v, "data") {
        Some(data) => match data {
            Json::Arr(items) => items,
            _ => {
                return Err(decode_error(DecodeError {
                    field: String::from_str("data"),
                    value: String::new(),
                }));
            },
        },
        None => {
            return Err(decode_error(DecodeError {
                field: String::from_str("data"),
                value: String::new(),
            }));
        },
    };
    let mut out: Vec<User> = Vec::new();
    let mut i: usize = 0;
    while i < items.len()
        invariant
            is_success_status(status),
            0 <= i <= items@.len(),
            out@.len() == i,
            json_of(body@) == Some(v),
            data_array(v) == Some(items@),
            forall|k: int|
                0 <= k < i ==> spec_decode_user_item(#[trigger] items@[k]) is Some && out@[k]
                    == spec_decode_user_item(items@[k])->0,
        decreases items@.len() - i,
    {
        let wire = match extract_user_wire(&items[i]) {
            Ok(w) => w,
            Err(e) => {
                return Err(decode_error(e));
            },
        };
        match decode_user_fields(&wire) {
            Ok(u) => {
                proof {
                    let spec_u = spec_decode_user_item(items@[i as int])->0;
                    assert(spec_decode_user_item(items@[i as int]) is Some);
                    assert(u == spec_u);
                }
                out.push(u);
            },
            Err(e) => {
                return Err(decode_error(e));
            },
        }
        i = i + 1;
    }
    proof {
        assert(out@ =~= decoded_users(items@));
    }
    Ok(out)
}

/// Unwrap a TMI chatters response for the given room.
///
/// A non-2xx status is exactly the status transport error. On a 2xx
/// status, succeeds exactly when the body is a JSON envelope
/// `{ chatter_count, chatters: {...} }` with all seven role buckets, and
/// then the result carries the caller's room name (never anything off the
/// wire), the envelope's count, and each bucket's login names in wire
/// order. Any other body is a transport error with the decode failure
/// embedded; nothing partially stitched is ever returned.
pub fn unwrap_chatters_response(room: &str, status: u16, body: &str) -> (r: Result<Users, Error>)
    ensures
        !is_success_status(status) ==> r == Err::<Users, Error>(
            Error::TransportError { error: TransportError::Status { status } },
        ),
        is_success_status(status) ==> ((r is Ok) <==> (json_of(body@) is Some
            && chatters_decode_ok(json_of(body@)->0))),
        r is Ok ==> {
            let c = json_member(json_of(body@)->0, "chatters"@)->0;
            &&& r->Ok_0.room@ == room@
            &&& r->Ok_0.chatter_count == item_u64(json_of(body@)->0, "chatter_count"@)->0
            &&& Some(r->Ok_0.broadcaster@) == item_string_array(c, "broadcaster"@)
            &&& Some(r->Ok_0.vips@) == item_string_array(c, "vips"@)
            &&& Some(r->Ok_0.moderators@) == item_string_array(c, "moderators"@)
            &&& Some(r->Ok_0.staff@) == item_string_array(c, "staff"@)
            &&& Some(r->Ok_0.admins@) == item_string_array(c, "admins"@)
            &&& Some(r->Ok_0.global_mods@) == item_string_array(c, "global_mods"@)
            &&& Some(r->Ok_0.viewers@) == item_string_array(c, "viewers"@)
        },
        r is Err ==> r->Err_0 matches Error::TransportError { .. },
{
    if !(200 <= status && status < 300) {
        return Err(status_error(status));
    }
    let v = match parse_json(body) {
        Ok(v) => v,
        Err(message) => {
            return Err(body_error(message));
        },
    };
    let count = match get_u64_field(&v, "chatter_count") {
        Ok(n) => n,
        Err(e) => {
            return Err(decode_error(e));
        },
    };
    if count > usize::MAX as u64 {
        return Err(decode_error(DecodeError {
            field: String::from_str("chatter_count"),
            value: String::new(),
        }));
    }
    let chatters = match obj_get(&v, "chatters") {
        Some(c) => c,
        None => {
            return Err(decode_error(DecodeError {
                field: String::from_str("chatters"),
                value: String::new(),
            }));
        },
    };
    let wire = match extract_chatters_wire(chatters) {
        Ok(w) => w,
        Err(e) => {
            return Err(decode_error(e));
        },
    };
    Ok(merge_chatters(room, count as usize, wire))
}

} // verus!
