use twitchapi::records::{decode_stream_fields, decode_user_fields, encode_stream, encode_user,
    merge_chatters};
use twitchapi::{ChattersWire, Stream, StreamWire, Timestamp, User, UserWire};

fn sample_wire_stream() -> StreamWire {
    StreamWire {
        id: "123".to_string(),
        user_id: "456".to_string(),
        user_name: "bob".to_string(),
        game_id: "0".to_string(),
        type_: Some("live".to_string()),
        title: "t".to_string(),
        viewer_count: 10,
        started_at: "2023-01-01T00:00:00Z".to_string(),
    }
}

#[test]
fn stream_decodes_field_by_field() {
    let s = decode_stream_fields(&sample_wire_stream()).unwrap();
    assert_eq!(s.id, 123);
    assert_eq!(s.user_id, 456);
    assert_eq!(s.user_name, "bob");
    assert_eq!(s.game_id, 0);
    assert_eq!(s.type_, Some("live".to_string()));
    assert_eq!(s.title, "t");
    assert_eq!(s.viewer_count, 10);
    assert_eq!(
        s.started_at,
        Timestamp { year: 2023, month: 1, day: 1, hour: 0, minute: 0, second: 0 }
    );
}

#[test]
fn stream_decode_fails_whole_on_bad_field() {
    let mut w = sample_wire_stream();
    w.user_id = "4x6".to_string();
    let e = decode_stream_fields(&w).unwrap_err();
    assert_eq!(e.field, "user_id");
    assert_eq!(e.value, "4x6");

    let mut w = sample_wire_stream();
    w.started_at = "2023-01-01T00:00:00".to_string();
    let e = decode_stream_fields(&w).unwrap_err();
    assert_eq!(e.field, "started_at");
}

#[test]
fn stream_round_trips_through_wire_shape() {
    let s = Stream {
        id: 123,
        user_id: 456,
        user_name: "bob".to_string(),
        game_id: 789,
        type_: None,
        title: "a title".to_string(),
        viewer_count: 42,
        started_at: Timestamp { year: 2024, month: 2, day: 29, hour: 23, minute: 59, second: 59 },
    };
    let w = encode_stream(&s);
    assert_eq!(w.id, "123");
    assert_eq!(w.started_at, "2024-02-29T23:59:59Z");
    let d = decode_stream_fields(&w).unwrap();
    assert_eq!(d, s);
}

#[test]
fn user_decodes_and_round_trips() {
    let w = UserWire {
        id: "77".to_string(),
        login: "alice".to_string(),
        display_name: "Alice".to_string(),
    };
    let u = decode_user_fields(&w).unwrap();
    assert_eq!(u, User { id: 77, login: "alice".to_string(), display_name: "Alice".to_string() });
    let w2 = encode_user(&u);
    assert_eq!(w2, w);
    assert_eq!(decode_user_fields(&w2).unwrap(), u);

    let bad = UserWire { id: "x".to_string(), login: String::new(), display_name: String::new() };
    let e = decode_user_fields(&bad).unwrap_err();
    assert_eq!(e.field, "id");
    assert_eq!(e.value, "x");
}

#[test]
fn merge_stitches_room_and_count() {
    let w = ChattersWire {
        broadcaster: vec!["x".to_string()],
        vips: vec![],
        moderators: vec!["y".to_string()],
        staff: vec![],
        admins: vec![],
        global_mods: vec![],
        viewers: vec!["z".to_string()],
    };
    let u = merge_chatters("foo", 3, w);
    assert_eq!(u.room, "foo");
    assert_eq!(u.chatter_count, 3);
    assert_eq!(u.broadcaster, vec!["x".to_string()]);
    assert_eq!(u.moderators, vec!["y".to_string()]);
    assert_eq!(u.viewers, vec!["z".to_string()]);
    assert!(u.vips.is_empty());
    assert!(u.staff.is_empty());
    assert!(u.admins.is_empty());
    assert!(u.global_mods.is_empty());
}
