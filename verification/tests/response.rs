use twitchapi::{
    unwrap_chatters_response, unwrap_streams_response, unwrap_users_response, Error, Timestamp,
    TransportError,
};

const STREAMS_BODY: &str = "{ \"data\": [{\"id\":\"123\",\"user_id\":\"456\",\"user_name\":\"bob\",\"game_id\":\"0\",\"type\":\"live\",\"title\":\"t\",\"viewer_count\":10,\"started_at\":\"2023-01-01T00:00:00Z\"}] }";

const CHATTERS_BODY: &str = "{ \"chatter_count\": 3, \"chatters\": { \"broadcaster\": [\"x\"], \"vips\": [], \"moderators\": [\"y\"], \"staff\": [], \"admins\": [], \"global_mods\": [], \"viewers\": [\"z\"] } }";

#[test]
fn streams_envelope_decodes_to_typed_records() {
    let streams = unwrap_streams_response(200, STREAMS_BODY).unwrap();
    assert_eq!(streams.len(), 1);
    let s = &streams[0];
    assert_eq!(s.id, 123);
    assert_eq!(s.user_id, 456);
    assert_eq!(s.user_name, "bob");
    assert_eq!(s.game_id, 0);
    assert_eq!(s.type_, Some("live".to_string()));
    assert_eq!(s.title, "t");
    assert_eq!(s.viewer_count, 10);
    assert_eq!(
        s.started_at,
        Timestamp { year: 2023, month: 1, day: 1, hour: 0, minute: 0, second: 0 }
    );
}

#[test]
fn streams_envelope_preserves_order_and_absent_type() {
    let body = "{ \"data\": [{\"id\":\"2\",\"user_id\":\"20\",\"user_name\":\"b\",\"game_id\":\"1\",\"title\":\"x\",\"viewer_count\":1,\"started_at\":\"2020-06-01T12:00:00Z\"},{\"id\":\"1\",\"user_id\":\"10\",\"user_name\":\"a\",\"game_id\":\"1\",\"type\":null,\"title\":\"y\",\"viewer_count\":2,\"started_at\":\"2020-06-01T13:00:00Z\"}] }";
    let streams = unwrap_streams_response(204, body).unwrap();
    assert_eq!(streams.len(), 2);
    assert_eq!(streams[0].id, 2);
    assert_eq!(streams[1].id, 1);
    assert_eq!(streams[0].type_, None);
    assert_eq!(streams[1].type_, None);
}

#[test]
fn chatters_envelope_is_stitched_with_room_and_count() {
    let u = unwrap_chatters_response("foo", 200, CHATTERS_BODY).unwrap();
    assert_eq!(u.room, "foo");
    assert_eq!(u.chatter_count, 3);
    assert_eq!(u.broadcaster, vec!["x".to_string()]);
    assert_eq!(u.moderators, vec!["y".to_string()]);
    assert_eq!(u.viewers, vec!["z".to_string()]);
    assert!(u.vips.is_empty());
    assert!(u.staff.is_empty());
    assert!(u.admins.is_empty());
    assert!(u.global_mods.is_empty());
}

#[test]
fn users_envelope_decodes_to_typed_records() {
    let body = "{ \"data\": [{\"id\":\"77\",\"login\":\"alice\",\"display_name\":\"Alice\"}] }";
    let users = unwrap_users_response(200, body).unwrap();
    assert_eq!(users.len(), 1);
    assert_eq!(users[0].id, 77);
    assert_eq!(users[0].login, "alice");
    assert_eq!(users[0].display_name, "Alice");
}

#[test]
fn non_success_status_is_a_transport_error_for_every_operation() {
    let r = unwrap_streams_response(404, STREAMS_BODY);
    assert_eq!(
        r.unwrap_err(),
        Error::TransportError { error: TransportError::Status { status: 404 } }
    );
    let r = unwrap_users_response(500, "{ \"data\": [] }");
    assert_eq!(
        r.unwrap_err(),
        Error::TransportError { error: TransportError::Status { status: 500 } }
    );
    let r = unwrap_chatters_response("foo", 301, CHATTERS_BODY);
    assert_eq!(
        r.unwrap_err(),
        Error::TransportError { error: TransportError::Status { status: 301 } }
    );
    assert!(unwrap_streams_response(199, STREAMS_BODY).is_err());
    assert!(unwrap_streams_response(300, STREAMS_BODY).is_err());
    assert!(unwrap_streams_response(200, STREAMS_BODY).is_ok());
    assert!(unwrap_streams_response(299, STREAMS_BODY).is_ok());
}

#[test]
fn unparseable_body_is_a_decode_transport_error() {
    let r = unwrap_streams_response(200, "not json at all");
    match r.unwrap_err() {
        Error::TransportError { error: TransportError::Decode { error } } => {
            assert_eq!(error.field, "body");
        }
        other => panic!("expected a decode transport error, got {:?}", other),
    }
}

#[test]
fn missing_envelope_field_is_a_decode_transport_error() {
    let r = unwrap_streams_response(200, "{ \"nope\": [] }");
    match r.unwrap_err() {
        Error::TransportError { error: TransportError::Decode { error } } => {
            assert_eq!(error.field, "data");
        }
        other => panic!("expected a decode transport error, got {:?}", other),
    }
}

#[test]
fn malformed_field_fails_the_whole_decode() {
    let body = "{ \"data\": [{\"id\":\"12a\",\"user_id\":\"456\",\"user_name\":\"bob\",\"game_id\":\"0\",\"title\":\"t\",\"viewer_count\":10,\"started_at\":\"2023-01-01T00:00:00Z\"}] }";
    match unwrap_streams_response(200, body).unwrap_err() {
        Error::TransportError { error: TransportError::Decode { error } } => {
            assert_eq!(error.field, "id");
            assert_eq!(error.value, "12a");
        }
        other => panic!("expected a decode transport error, got {:?}", other),
    }
}

#[test]
fn wrong_kind_envelope_field_is_a_decode_transport_error() {
    let r = unwrap_streams_response(200, "{ \"data\": 5 }");
    match r.unwrap_err() {
        Error::TransportError { error: TransportError::Decode { error } } => {
            assert_eq!(error.field, "data");
        }
        other => panic!("expected a decode transport error, got {:?}", other),
    }
}

#[test]
fn wrong_kind_stream_field_fails_the_whole_decode() {
    let body = "{ \"data\": [{\"id\":\"1\",\"user_id\":\"2\",\"user_name\":\"a\",\"game_id\":\"3\",\"type\":7,\"title\":\"t\",\"viewer_count\":1,\"started_at\":\"2023-01-01T00:00:00Z\"}] }";
    match unwrap_streams_response(200, body).unwrap_err() {
        Error::TransportError { error: TransportError::Decode { error } } => {
            assert_eq!(error.field, "type");
        }
        other => panic!("expected a decode transport error, got {:?}", other),
    }
    let body = "{ \"data\": [{\"id\":\"1\",\"user_id\":\"2\",\"user_name\":\"a\",\"game_id\":\"3\",\"title\":\"t\",\"viewer_count\":1e30,\"started_at\":\"2023-01-01T00:00:00Z\"}] }";
    match unwrap_streams_response(200, body).unwrap_err() {
        Error::TransportError { error: TransportError::Decode { error } } => {
            assert_eq!(error.field, "viewer_count");
        }
        other => panic!("expected a decode transport error, got {:?}", other),
    }
}

#[test]
fn chatters_envelope_fails_whole_on_missing_or_malformed_bucket() {
    let body = "{ \"chatter_count\": 1, \"chatters\": { \"broadcaster\": [], \"vips\": [], \"moderators\": [], \"staff\": [], \"admins\": [], \"global_mods\": [] } }";
    match unwrap_chatters_response("foo", 200, body).unwrap_err() {
        Error::TransportError { error: TransportError::Decode { error } } => {
            assert_eq!(error.field, "viewers");
        }
        other => panic!("expected a decode transport error, got {:?}", other),
    }
    let body = "{ \"chatter_count\": 1, \"chatters\": { \"broadcaster\": [3], \"vips\": [], \"moderators\": [], \"staff\": [], \"admins\": [], \"global_mods\": [], \"viewers\": [] } }";
    match unwrap_chatters_response("foo", 200, body).unwrap_err() {
        Error::TransportError { error: TransportError::Decode { error } } => {
            assert_eq!(error.field, "broadcaster");
        }
        other => panic!("expected a decode transport error, got {:?}", other),
    }
    let body = "{ \"chatter_count\": \"three\", \"chatters\": { \"broadcaster\": [], \"vips\": [], \"moderators\": [], \"staff\": [], \"admins\": [], \"global_mods\": [], \"viewers\": [] } }";
    match unwrap_chatters_response("foo", 200, body).unwrap_err() {
        Error::TransportError { error: TransportError::Decode { error } } => {
            assert_eq!(error.field, "chatter_count");
        }
        other => panic!("expected a decode transport error, got {:?}", other),
    }
}
