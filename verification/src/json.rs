//! The library's model of wire JSON.
//!
//! The JSON grammar itself is `serde_json`'s business: one trusted wrapper
//! parses the body and converts the result, variant by variant, into the
//! library's own [`Json`] model, under the name [`json_of`]. Everything
//! after the parse — walking the envelope, pulling each field out as a
//! plain value, running the decoding adapters — is verified code over the
//! model, with contracts that pin every result to `json_of` of the body.

use vstd::prelude::*;
use vstd::string::StrSliceExecFns;
use crate::error::DecodeError;
use crate::records::{ChattersWire, StreamWire, UserWire};

verus! {

/// A parsed JSON value, as much of it as the wire format uses: the logic
/// reads strings, unsigned integers, arrays and objects, so any other
/// number collapses into one opaque variant.
#[derive(Debug)]
pub enum Json {
    /// JSON `null`.
    Null,
    /// A JSON boolean.
    Bool(bool),
    /// A JSON number that is an unsigned 64-bit integer.
    UInt(u64),
    /// Any other JSON number (negative, fractional, or too large).
    OtherNum,
    /// A JSON string.
    Str(String),
    /// A JSON array, element order preserved.
    Arr(Vec<Json>),
    /// A JSON object, one entry per member.
    Obj(Vec<(String, Json)>),
}

/// What parsing a body as JSON yields: the model of the document when the
/// body is one, nothing otherwise. The result depends on the body alone.
pub uninterp spec fn json_of(body: Seq<char>) -> Option<Json>;

#[verifier::external_type_specification]
#[verifier::external_body]
pub struct ExValue(serde_json::Value);

/// Unverified helper of [`parse_json`], the second half of its trusted
/// body: the variant-by-variant conversion of a parsed `serde_json::Value`
/// into the model. Numbers that are not unsigned 64-bit integers collapse
/// into the other-number variant, exactly as `Value::as_u64` divides them.
#[verifier::external_body]
fn json_from_value(v: serde_json::Value) -> Json {
    match v {
        serde_json::Value::Null => Json::Null,
        serde_json::Value::Bool(b) => Json::Bool(b),
        serde_json::Value::Number(n) => n.as_u64().map_or(Json::OtherNum, Json::UInt),
        serde_json::Value::String(s) => Json::Str(s),
        serde_json::Value::Array(a) => Json::Arr(a.into_iter().map(json_from_value).collect()),
        serde_json::Value::Object(o) => Json::Obj(
            o.into_iter().map(|(k, m)| (k, json_from_value(m))).collect(),
        ),
    }
}

/// Relies on serde_json::from_str: parse the body, convert the document
/// into the library's model, and hand it over under the name [`json_of`].
/// The parse depends on the body alone and succeeds exactly when the body
/// is a JSON document; a failure is handed back as the parser's own
/// diagnostic, rendered to a plain string.
#[verifier::external_body]
pub(crate) fn parse_json(body: &str) -> (r: Result<Json, String>)
    ensures
        r is Ok <==> json_of(body@) is Some,
        r is Ok ==> r->Ok_0 == json_of(body@)->0,
{
    serde_json::from_str(body).map(json_from_value).map_err(|e| e.to_string())
}

/// The member of an object member list under a key: the value beside the
/// first matching key name.
pub open spec fn spec_obj_get(members: Seq<(String, Json)>, key: Seq<char>) -> Option<Json>
    decreases members.len(),
{
    if members.len() == 0 {
        None
    } else if members[0].0@ == key {
        Some(members[0].1)
    } else {
        spec_obj_get(members.drop_first(), key)
    }
}

/// The member of a JSON value under a key: a lookup when the value is an
/// object, nothing otherwise.
pub open spec fn json_member(j: Json, key: Seq<char>) -> Option<Json> {
    match j {
        Json::Obj(members) => spec_obj_get(members@, key),
        _ => None,
    }
}

/// A mandatory string member: present and a string, nothing otherwise.
pub open spec fn item_string(j: Json, key: Seq<char>) -> Option<String> {
    match json_member(j, key) {
        Some(Json::Str(s)) => Some(s),
        _ => None,
    }
}

/// An optional string member: absent or `null` reads as `None`, a string
/// as `Some`; any other kind is no reading at all.
pub open spec fn item_opt_string(j: Json, key: Seq<char>) -> Option<Option<String>> {
    match json_member(j, key) {
        None => Some(None),
        Some(Json::Null) => Some(None),
        Some(Json::Str(s)) => Some(Some(s)),
        Some(_) => None,
    }
}

/// A mandatory unsigned-integer member: present and an unsigned 64-bit
/// integer, nothing otherwise.
pub open spec fn item_u64(j: Json, key: Seq<char>) -> Option<u64> {
    match json_member(j, key) {
        Some(Json::UInt(n)) => Some(n),
        _ => None,
    }
}

/// Every element of the array is a JSON string.
pub open spec fn all_strings(items: Seq<Json>) -> bool {
    forall|i: int| 0 <= i < items.len() ==> items[i] is Str
}

/// The strings of an all-string array, in order.
pub open spec fn string_values(items: Seq<Json>) -> Seq<String> {
    Seq::new(items.len(), |i: int| items[i]->Str_0)
}

/// A mandatory array-of-strings member: present, an array, every element a
/// string; the strings in order.
pub open spec fn item_string_array(j: Json, key: Seq<char>) -> Option<Seq<String>> {
    match json_member(j, key) {
        Some(Json::Arr(items)) => if all_strings(items@) {
            Some(string_values(items@))
        } else {
            None
        },
        _ => None,
    }
}

/// Compare two strings character by character.
fn str_eq_str(a: &str, b: &str) -> (r: bool)
    ensures
        r == (a@ == b@),
{
    let an: usize = a.unicode_len();
    let bn: usize = b.unicode_len();
    if an != bn {
        return false;
    }
    let mut i: usize = 0;
    while i < an
        invariant
            0 <= i <= an,
            an == a@.len(),
            bn == b@.len(),
            an == bn,
            forall|j: int| 0 <= j < i ==> a@[j] == b@[j],
        decreases an - i,
    {
        if a.get_char(i) != b.get_char(i) {
            return false;
        }
        i = i + 1;
    }
    proof {
        assert(a@ =~= b@);
    }
    true
}

/// Look a key up in a JSON value, yielding exactly what [`json_member`]
/// names.
pub(crate) fn obj_get<'a>(j: &'a Json, key: &str) -> (r: Option<&'a Json>)
    ensures
        json_member(*j, key@) is Some ==> r is Some && *r->0 == json_member(*j, key@)->0,
        json_member(*j, key@) is None ==> r is None,
{
    match j {
        Json::Obj(members) => {
            let n: usize = members.len();
            let mut i: usize = 0;
            proof {
                assert(members@.skip(0) =~= members@);
            }
            while i < n
                invariant
                    0 <= i <= n,
                    n == members@.len(),
                    *j == Json::Obj(*members),
                    spec_obj_get(members@, key@) == spec_obj_get(
                        members@.skip(i as int),
                        key@,
                    ),
                decreases n - i,
            {
                let pair = &members[i];
                proof {
                    assert(members@.skip(i as int).len() > 0);
                    assert(members@.skip(i as int)[0] == members@[i as int]);
                }
                if str_eq_str(pair.0.as_str(), key) {
                    proof {
                        assert(spec_obj_get(members@.skip(i as int), key@) == Some(
                            members@[i as int].1,
                        ));
                        assert(json_member(*j, key@) == Some(pair.1));
                    }
                    return Some(&pair.1);
                }
                proof {
                    assert(members@.skip(i as int).drop_first() =~= members@.skip(i as int + 1));
                    assert(spec_obj_get(members@.skip(i as int), key@) == spec_obj_get(
                        members@.skip(i as int + 1),
                        key@,
                    ));
                }
                i = i + 1;
            }
            proof {
                assert(members@.skip(n as int) =~= Seq::<(String, Json)>::empty());
            }
            None
        },
        _ => None,
    }
}

/// A decode error for a member that is missing or has the wrong JSON kind:
/// there is no raw scalar to retain, so the value is left empty.
fn shape_error(field: &str) -> (r: DecodeError)
    ensures
        r.field@ == field@,
        r.value@ == Seq::<char>::empty(),
{
    let r = DecodeError { field: field.to_owned(), value: String::new() };
    proof {
        assert(r.value@ =~= Seq::<char>::empty());
    }
    r
}

/// Pull a mandatory string member out of a JSON value: succeeds exactly
/// when [`item_string`] names one, with that very string.
pub fn get_string_field(j: &Json, field: &str) -> (r: Result<String, DecodeError>)
    ensures
        r is Ok <==> item_string(*j, field@) is Some,
        r is Ok ==> item_string(*j, field@) == Some(r->Ok_0),
        r is Err ==> r->Err_0.field@ == field@ && r->Err_0.value@ == Seq::<char>::empty(),
{
    match obj_get(j, field) {
        Some(inner) => match inner {
            Json::Str(s) => Ok(s.clone()),
            _ => Err(shape_error(field)),
        },
        None => Err(shape_error(field)),
    }
}

/// Pull an optional string member out of a JSON value: succeeds exactly
/// when [`item_opt_string`] names a reading, with that very reading.
pub fn get_opt_string_field(j: &Json, field: &str) -> (r: Result<Option<String>, DecodeError>)
    ensures
        r is Ok <==> item_opt_string(*j, field@) is Some,
        r is Ok ==> item_opt_string(*j, field@) == Some(r->Ok_0),
        r is Err ==> r->Err_0.field@ == field@ && r->Err_0.value@ == Seq::<char>::empty(),
{
    match obj_get(j, field) {
        Some(inner) => match inner {
            Json::Null => Ok(None),
            Json::Str(s) => Ok(Some(s.clone())),
            _ => Err(shape_error(field)),
        },
        None => Ok(None),
    }
}

/// Pull a mandatory unsigned-integer member out of a JSON value: succeeds
/// exactly when [`item_u64`] names one, with that very number.
pub fn get_u64_field(j: &Json, field: &str) -> (r: Result<u64, DecodeError>)
    ensures
        r is Ok <==> item_u64(*j, field@) is Some,
        r is Ok ==> item_u64(*j, field@) == Some(r->Ok_0),
        r is Err ==> r->Err_0.field@ == field@ && r->Err_0.value@ == Seq::<char>::empty(),
{
    match obj_get(j, field) {
        Some(inner) => match inner {
            Json::UInt(n) => Ok(*n),
            _ => Err(shape_error(field)),
        },
        None => Err(shape_error(field)),
    }
}

/// Pull a mandatory array-of-strings member out of a JSON value: succeeds
/// exactly when [`item_string_array`] names one, with those very strings
/// in order.
pub fn get_string_array_field(j: &Json, field: &str) -> (r: Result<Vec<String>, DecodeError>)
    ensures
        r is Ok <==> item_string_array(*j, field@) is Some,
        r is Ok ==> item_string_array(*j, field@) == Some(r->Ok_0@),
        r is Err ==> r->Err_0.field@ == field@ && r->Err_0.value@ == Seq::<char>::empty(),
{
    let items = match obj_get(j, field) {
        Some(inner) => match inner {
            Json::Arr(items) => items,
            _ => {
                return Err(shape_error(field));
            },
        },
        None => {
            return Err(shape_error(field));
        },
    };
    let mut out: Vec<String> = Vec::new();
    let mut i: usize = 0;
    while i < items.len()
        invariant
            0 <= i <= items@.len(),
            out@.len() == i,
            json_member(*j, field@) == Some(Json::Arr(*items)),
            forall|k: int|
                0 <= k < i ==> (#[trigger] items@[k]) is Str && out@[k] == items@[k]->Str_0,
        decreases items@.len() - i,
    {
        match &items[i] {
            Json::Str(s) => out.push(s.clone()),
            _ => {
                return Err(shape_error(field));
            },
        }
        i = i + 1;
    }
    proof {
        assert(all_strings(items@));
        assert(out@ =~= string_values(items@));
    }
    Ok(out)
}

/// One element of a Helix `streams` envelope has every field the wire
/// shape asks for, each of the right JSON kind.
pub open spec fn stream_item_shape(j: Json) -> bool {
    &&& item_string(j, "id"@) is Some
    &&& item_string(j, "user_id"@) is Some
    &&& item_string(j, "user_name"@) is Some
    &&& item_string(j, "game_id"@) is Some
    &&& item_opt_string(j, "type"@) is Some
    &&& item_string(j, "title"@) is Some
    &&& item_u64(j, "viewer_count"@) is Some
    &&& item_string(j, "started_at"@) is Some
}

/// The wire stream `w` holds exactly the members of the element `j`.
pub open spec fn stream_wire_of_item(w: StreamWire, j: Json) -> bool {
    &&& item_string(j, "id"@) == Some(w.id)
    &&& item_string(j, "user_id"@) == Some(w.user_id)
    &&& item_string(j, "user_name"@) == Some(w.user_name)
    &&& item_string(j, "game_id"@) == Some(w.game_id)
    &&& item_opt_string(j, "type"@) == Some(w.type_)
    &&& item_string(j, "title"@) == Some(w.title)
    &&& item_u64(j, "viewer_count"@) == Some(w.viewer_count)
    &&& item_string(j, "started_at"@) == Some(w.started_at)
}

/// Read one element of a Helix `streams` envelope into the wire shape,
/// field by field; the decoding adapters have not run yet. Succeeds
/// exactly when every field is present with the right JSON kind, and then
/// the wire record holds exactly the element's members.
pub fn extract_stream_wire(j: &Json) -> (r: Result<StreamWire, DecodeError>)
    ensures
        r is Ok <==> stream_item_shape(*j),
        r is Ok ==> stream_wire_of_item(r->Ok_0, *j),
        r is Err ==> r->Err_0.value@ == Seq::<char>::empty(),
{
    let id = match get_string_field(j, "id") {
        Ok(s) => s,
        Err(e) => {
            return Err(e);
        },
    };
    let user_id = match get_string_field(j, "user_id") {
        Ok(s) => s,
        Err(e) => {
            return Err(e);
        },
    };
    let user_name = match get_string_field(j, "user_name") {
        Ok(s) => s,
        Err(e) => {
            return Err(e);
        },
    };
    let game_id = match get_string_field(j, "game_id") {
        Ok(s) => s,
        Err(e) => {
            return Err(e);
        },
    };
    let type_ = match get_opt_string_field(j, "type") {
        Ok(t) => t,
        Err(e) => {
            return Err(e);
        },
    };
    let title = match get_string_field(j, "title") {
        Ok(s) => s,
        Err(e) => {
            return Err(e);
        },
    };
    let viewer_count = match get_u64_field(j, "viewer_count") {
        Ok(n) => n,
        Err(e) => {
            return Err(e);
        },
    };
    let started_at = match get_string_field(j, "started_at") {
        Ok(s) => s,
        Err(e) => {
            return Err(e);
        },
    };
    Ok(StreamWire { id, user_id, user_name, game_id, type_, title, viewer_count, started_at })
}

/// One element of a Helix `users` envelope has every field the wire shape
/// asks for, each a JSON string.
pub open spec fn user_item_shape(j: Json) -> bool {
    &&& item_string(j, "id"@) is Some
    &&& item_string(j, "login"@) is Some
    &&& item_string(j, "display_name"@) is Some
}

/// The wire user `w` holds exactly the members of the element `j`.
pub open spec fn user_wire_of_item(w: UserWire, j: Json) -> bool {
    &&& item_string(j, "id"@) == Some(w.id)
    &&& item_string(j, "login"@) == Some(w.login)
    &&& item_string(j, "display_name"@) == Some(w.display_name)
}

/// Read one element of a Helix `users` envelope into the wire shape, field
/// by field. Succeeds exactly when every field is present as a string, and
/// then the wire record holds exactly the element's members.
pub fn extract_user_wire(j: &Json) -> (r: Result<UserWire, DecodeError>)
    ensures
        r is Ok <==> user_item_shape(*j),
        r is Ok ==> user_wire_of_item(r->Ok_0, *j),
        r is Err ==> r->Err_0.value@ == Seq::<char>::empty(),
{
    let id = match get_string_field(j, "id") {
        Ok(s) => s,
        Err(e) => {
            return Err(e);
        },
    };
    let login = match get_string_field(j, "login") {
        Ok(s) => s,
        Err(e) => {
            return Err(e);
        },
    };
    let display_name = match get_string_field(j, "display_name") {
        Ok(s) => s,
        Err(e) => {
            return Err(e);
        },
    };
    Ok(UserWire { id, login, display_name })
}

/// The inner roster object has all seven role buckets, each an array of
/// strings.
pub open spec fn chatters_shape(c: Json) -> bool {
    &&& item_string_array(c, "broadcaster"@) is Some
    &&& item_string_array(c, "vips"@) is Some
    &&& item_string_array(c, "moderators"@) is Some
    &&& item_string_array(c, "staff"@) is Some
    &&& item_string_array(c, "admins"@) is Some
    &&& item_string_array(c, "global_mods"@) is Some
    &&& item_string_array(c, "viewers"@) is Some
}

/// The wire roster `w` holds exactly the buckets of the roster object `c`,
/// each in wire order.
pub open spec fn chatters_wire_of_item(w: ChattersWire, c: Json) -> bool {
    &&& item_string_array(c, "broadcaster"@) == Some(w.broadcaster@)
    &&& item_string_array(c, "vips"@) == Some(w.vips@)
    &&& item_string_array(c, "moderators"@) == Some(w.moderators@)
    &&& item_string_array(c, "staff"@) == Some(w.staff@)
    &&& item_string_array(c, "admins"@) == Some(w.admins@)
    &&& item_string_array(c, "global_mods"@) == Some(w.global_mods@)
    &&& item_string_array(c, "viewers"@) == Some(w.viewers@)
}

/// Read the inner `chatters` roster object into the wire shape: the seven
/// role buckets, each an array of login names in wire order. Succeeds
/// exactly when every bucket is present as an array of strings, and then
/// the wire record holds exactly the roster's buckets.
pub fn extract_chatters_wire(c: &Json) -> (r: Result<ChattersWire, DecodeError>)
    ensures
        r is Ok <==> chatters_shape(*c),
        r is Ok ==> chatters_wire_of_item(r->Ok_0, *c),
        r is Err ==> r->Err_0.value@ == Seq::<char>::empty(),
{
    let broadcaster = match get_string_array_field(c, "broadcaster") {
        Ok(b) => b,
        Err(e) => {
            return Err(e);
        },
    };
    let vips = match get_string_array_field(c, "vips") {
        Ok(b) => b,
        Err(e) => {
            return Err(e);
        },
    };
    let moderators = match get_string_array_field(c, "moderators") {
        Ok(b) => b,
        Err(e) => {
            return Err(e);
        },
    };
    let staff = match get_string_array_field(c, "staff") {
        Ok(b) => b,
        Err(e) => {
            return Err(e);
        },
    };
    let admins = match get_string_array_field(c, "admins") {
        Ok(b) => b,
        Err(e) => {
            return Err(e);
        },
    };
    let global_mods = match get_string_array_field(c, "global_mods") {
        Ok(b) => b,
        Err(e) => {
            return Err(e);
        },
    };
    let viewers = match get_string_array_field(c, "viewers") {
        Ok(b) => b,
        Err(e) => {
            return Err(e);
        },
    };
    Ok(ChattersWire { broadcaster, vips, moderators, staff, admins, global_mods, viewers })
}

} // verus!
