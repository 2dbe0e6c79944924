//! The typed domain records and their wire shapes.
//!
//! Each record exists in two forms: the wire shape, holding every field as
//! the upstream API encodes it (numeric ids as digit strings, the timestamp
//! as `YYYY-MM-DDTHH:MM:SSZ`), and the decoded record with typed fields.
//! Decoding is an explicit field-by-field construction that runs the right
//! adapter per field and fails on the first malformed field; fields without
//! a special encoding are carried over unchanged.

use vstd::prelude::*;
use crate::digits::{spec_decode_uint, dec_digits_of, decode_numeric_string_as_uint};
use crate::error::DecodeError;
use crate::timestamp::{
    Timestamp, spec_decode_timestamp, render_timestamp, decode_assumed_utc_timestamp,
    encode_assumed_utc_timestamp,
};

verus! {

/// A Twitch stream.
#[derive(Clone, Debug, PartialEq, Eq)]
pub struct Stream {
    /// The stream id.
    pub id: u64,
    /// User id of the broadcaster.
    pub user_id: u64,
    /// User name of the broadcaster.
    pub user_name: String,
    /// Id of the game being broadcasted.
    pub game_id: u64,
    /// The type of stream (`Some("live")`, or `None` for offline).
    pub type_: Option<String>,
    /// The title of the stream.
    pub title: String,
    /// The viewer count for the stream.
    pub viewer_count: u64,
    /// When the stream started, as an assumed-UTC timestamp.
    pub started_at: Timestamp,
}

impl Stream {
    /// The timestamp names a real calendar date and time of day.
    pub open spec fn wf(self) -> bool {
        self.started_at.wf()
    }
}

/// A Twitch user.
#[derive(Clone, Debug, PartialEq, Eq)]
pub struct User {
    /// Their user id.
    pub id: u64,
    /// Their login name.
    pub login: String,
    /// Their display name.
    pub display_name: String,
}

/// Users in a channel: the chatter roster of one room.
#[derive(Clone, Debug, PartialEq, Eq)]
pub struct Users {
    /// Name of the room; supplied by the caller, never read off the wire.
    pub room: String,
    /// Total number of people in the room; read off the response envelope,
    /// not the inner roster object.
    pub chatter_count: usize,
    /// List of broadcasters in the room.
    pub broadcaster: Vec<String>,
    /// List of vips in the room.
    pub vips: Vec<String>,
    /// List of moderators in the room.
    pub moderators: Vec<String>,
    /// List of staff in the room.
    pub staff: Vec<String>,
    /// List of admins in the room.
    pub admins: Vec<String>,
    /// List of global_mods in the room.
    pub global_mods: Vec<String>,
    /// List of viewers in the room.
    pub viewers: Vec<String>,
}

/// A stream as the wire carries it, before the per-field adapters run.
#[derive(Clone, Debug, PartialEq, Eq)]
pub struct StreamWire {
    /// The stream id, as a digit string.
    pub id: String,
    /// The broadcaster's user id, as a digit string.
    pub user_id: String,
    /// User name of the broadcaster.
    pub user_name: String,
    /// The game id, as a digit string.
    pub game_id: String,
    /// The `type` field, when present.
    pub type_: Option<String>,
    /// The title of the stream.
    pub title: String,
    /// The viewer count, a plain wire number.
    pub viewer_count: u64,
    /// The start time, as `YYYY-MM-DDTHH:MM:SSZ`.
    pub started_at: String,
}

/// A user as the wire carries it.
#[derive(Clone, Debug, PartialEq, Eq)]
pub struct UserWire {
    /// The user id, as a digit string.
    pub id: String,
    /// Their login name.
    pub login: String,
    /// Their display name.
    pub display_name: String,
}

/// The inner roster object of the chatters envelope: the six role buckets
/// and the broadcaster bucket, with no room name and no count.
#[derive(Clone, Debug, PartialEq, Eq)]
pub struct ChattersWire {
    /// List of broadcasters in the room.
    pub broadcaster: Vec<String>,
    /// List of vips in the room.
    pub vips: Vec<String>,
    /// List of moderators in the room.
    pub moderators: Vec<String>,
    /// List of staff in the room.
    pub staff: Vec<String>,
    /// List of admins in the room.
    pub admins: Vec<String>,
    /// List of global_mods in the room.
    pub global_mods: Vec<String>,
    /// List of viewers in the room.
    pub viewers: Vec<String>,
}

/// Every adapter-decoded field of the wire stream is well formed: the three
/// ids are digit strings that fit in `u64`, and the start time is a valid
/// wire timestamp.
pub open spec fn stream_wire_ok(w: StreamWire) -> bool {
    &&& spec_decode_uint(w.id@) is Some
    &&& spec_decode_uint(w.user_id@) is Some
    &&& spec_decode_uint(w.game_id@) is Some
    &&& spec_decode_timestamp(w.started_at@) is Some
}

/// The decoded stream `s` is exactly what the wire stream `w` describes:
/// the three ids and the timestamp through their adapters, the remaining
/// fields unchanged.
pub open spec fn stream_decodes_to(w: StreamWire, s: Stream) -> bool {
    &&& spec_decode_uint(w.id@) == Some(s.id)
    &&& spec_decode_uint(w.user_id@) == Some(s.user_id)
    &&& s.user_name == w.user_name
    &&& spec_decode_uint(w.game_id@) == Some(s.game_id)
    &&& s.type_ == w.type_
    &&& s.title == w.title
    &&& s.viewer_count == w.viewer_count
    &&& spec_decode_timestamp(w.started_at@) == Some(s.started_at)
}

/// The wire stream `w` is the re-encoding of the stream `s`.
pub open spec fn stream_encodes(w: StreamWire, s: Stream) -> bool {
    &&& w.id@ == dec_digits_of(s.id as nat)
    &&& w.user_id@ == dec_digits_of(s.user_id as nat)
    &&& w.user_name@ == s.user_name@
    &&& w.game_id@ == dec_digits_of(s.game_id as nat)
    &&& (w.type_ is Some <==> s.type_ is Some)
    &&& (w.type_ is Some ==> w.type_->0@ == s.type_->0@)
    &&& w.title@ == s.title@
    &&& w.viewer_count == s.viewer_count
    &&& w.started_at@ == render_timestamp(s.started_at)
}

/// Decode a wire stream field by field.
///
/// The three numeric-string ids run through the numeric adapter and the
/// start time through the timestamp adapter, in wire order; the remaining
/// fields are carried over unchanged. Fails on the first malformed field
/// with that field's name and raw value.
pub fn decode_stream_fields(w: &StreamWire) -> (r: Result<Stream, DecodeError>)
    ensures
        r is Ok <==> stream_wire_ok(*w),
        r is Ok ==> stream_decodes_to(*w, r->Ok_0) && r->Ok_0.wf(),
        r is Err ==> {
            &&& (spec_decode_uint(w.id@) is None ==> r->Err_0.field@ == "id"@ && r->Err_0.value@
                == w.id@)
            &&& (spec_decode_uint(w.id@) is Some && spec_decode_uint(w.user_id@) is None
                ==> r->Err_0.field@ == "user_id"@ && r->Err_0.value@ == w.user_id@)
            &&& (spec_decode_uint(w.id@) is Some && spec_decode_uint(w.user_id@) is Some
                && spec_decode_uint(w.game_id@) is None ==> r->Err_0.field@ == "game_id"@
                && r->Err_0.value@ == w.game_id@)
            &&& (spec_decode_uint(w.id@) is Some && spec_decode_uint(w.user_id@) is Some
                && spec_decode_uint(w.game_id@) is Some && spec_decode_timestamp(w.started_at@)
                is None ==> r->Err_0.field@ == "started_at"@ && r->Err_0.value@ == w.started_at@)
        },
{
    let id = match decode_numeric_string_as_uint("id", &w.id) {
        Ok(v) => v,
        Err(e) => {
            return Err(e);
        },
    };
    let user_id = match decode_numeric_string_as_uint("user_id", &w.user_id) {
        Ok(v) => v,
        Err(e) => {
            return Err(e);
        },
    };
    let game_id = match decode_numeric_string_as_uint("game_id", &w.game_id) {
        Ok(v) => v,
        Err(e) => {
            return Err(e);
        },
    };
    let started_at = match decode_assumed_utc_timestamp("started_at", &w.started_at) {
        Ok(v) => v,
        Err(e) => {
            return Err(e);
        },
    };
    let type_ = match &w.type_ {
        Some(t) => Some(t.clone()),
        None => None,
    };
    Ok(
        Stream {
            id,
            user_id,
            user_name: w.user_name.clone(),
            game_id,
            type_,
            title: w.title.clone(),
            viewer_count: w.viewer_count,
            started_at,
        },
    )
}

/// Re-encode a stream into the wire shape: ids re-stringified as decimal
/// digits, the timestamp re-rendered in the wire pattern, everything else
/// carried over unchanged.
pub fn encode_stream(s: &Stream) -> (r: StreamWire)
    requires
        s.wf(),
    ensures
        stream_encodes(r, *s),
        stream_wire_ok(r),
{
    proof {
        crate::digits::lemma_uint_round_trip(s.id);
        crate::digits::lemma_uint_round_trip(s.user_id);
        crate::digits::lemma_uint_round_trip(s.game_id);
        crate::timestamp::lemma_timestamp_round_trip(s.started_at);
    }
    let type_ = match &s.type_ {
        Some(t) => Some(t.clone()),
        None => None,
    };
    StreamWire {
        id: crate::digits::encode_uint_as_numeric_string(s.id),
        user_id: crate::digits::encode_uint_as_numeric_string(s.user_id),
        user_name: s.user_name.clone(),
        game_id: crate::digits::encode_uint_as_numeric_string(s.game_id),
        type_,
        title: s.title.clone(),
        viewer_count: s.viewer_count,
        started_at: encode_assumed_utc_timestamp(&s.started_at),
    }
}

/// Round trip: re-encoding a well-formed stream and decoding the result
/// reproduces every field value exactly.
pub proof fn lemma_stream_round_trip(s: Stream, w: StreamWire, d: Stream)
    requires
        s.wf(),
        stream_encodes(w, s),
        stream_decodes_to(w, d),
    ensures
        d.id == s.id,
        d.user_id == s.user_id,
        d.user_name@ == s.user_name@,
        d.game_id == s.game_id,
        d.type_ is Some <==> s.type_ is Some,
        d.type_ is Some ==> d.type_->0@ == s.type_->0@,
        d.title@ == s.title@,
        d.viewer_count == s.viewer_count,
        d.started_at == s.started_at,
{
    crate::digits::lemma_uint_round_trip(s.id);
    crate::digits::lemma_uint_round_trip(s.user_id);
    crate::digits::lemma_uint_round_trip(s.game_id);
    crate::timestamp::lemma_timestamp_round_trip(s.started_at);
}

/// The decoded user `u` is exactly what the wire user `w` describes: the
/// id through the numeric adapter, the two names unchanged.
pub open spec fn user_decodes_to(w: UserWire, u: User) -> bool {
    &&& spec_decode_uint(w.id@) == Some(u.id)
    &&& u.login == w.login
    &&& u.display_name == w.display_name
}

/// The wire user `w` is the re-encoding of the user `u`.
pub open spec fn user_encodes(w: UserWire, u: User) -> bool {
    &&& w.id@ == dec_digits_of(u.id as nat)
    &&& w.login@ == u.login@
    &&& w.display_name@ == u.display_name@
}

/// Decode a wire user field by field: the id runs through the numeric
/// adapter, the two names are carried over unchanged.
pub fn decode_user_fields(w: &UserWire) -> (r: Result<User, DecodeError>)
    ensures
        r is Ok <==> spec_decode_uint(w.id@) is Some,
        r is Ok ==> user_decodes_to(*w, r->Ok_0),
        r is Err ==> r->Err_0.field@ == "id"@ && r->Err_0.value@ == w.id@,
{
    let id = match decode_numeric_string_as_uint("id", &w.id) {
        Ok(v) => v,
        Err(e) => {
            return Err(e);
        },
    };
    Ok(User { id, login: w.login.clone(), display_name: w.display_name.clone() })
}

/// Re-encode a user into the wire shape: the id re-stringified as decimal
/// digits, the names carried over unchanged.
pub fn encode_user(u: &User) -> (r: UserWire)
    ensures
        user_encodes(r, *u),
        spec_decode_uint(r.id@) is Some,
{
    proof {
        crate::digits::lemma_uint_round_trip(u.id);
    }
    UserWire {
        id: crate::digits::encode_uint_as_numeric_string(u.id),
        login: u.login.clone(),
        display_name: u.display_name.clone(),
    }
}

/// Round trip: re-encoding a user and decoding the result reproduces every
/// field value exactly.
pub proof fn lemma_user_round_trip(u: User, w: UserWire, d: User)
    requires
        user_encodes(w, u),
        user_decodes_to(w, d),
    ensures
        d.id == u.id,
        d.login@ == u.login@,
        d.display_name@ == u.display_name@,
{
    crate::digits::lemma_uint_round_trip(u.id);
}

/// Stitch the caller-supplied room name and the envelope's chatter count
/// onto the decoded roster to form the public [`Users`] record.
///
/// The room never comes off the wire and the count never comes off the
/// inner roster object; both are merged in here, and every role bucket is
/// taken from the roster unchanged, order preserved.
pub fn merge_chatters(room: &str, chatter_count: usize, chatters: ChattersWire) -> (u: Users)
    ensures
        u.room@ == room@,
        u.chatter_count == chatter_count,
        u.broadcaster == chatters.broadcaster,
        u.vips == chatters.vips,
        u.moderators == chatters.moderators,
        u.staff == chatters.staff,
        u.admins == chatters.admins,
        u.global_mods == chatters.global_mods,
        u.viewers == chatters.viewers,
{
    Users {
        room: room.to_owned(),
        chatter_count,
        broadcaster: chatters.broadcaster,
        vips: chatters.vips,
        moderators: chatters.moderators,
        staff: chatters.staff,
        admins: chatters.admins,
        global_mods: chatters.global_mods,
        viewers: chatters.viewers,
    }
}

} // verus!
