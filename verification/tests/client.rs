use twitchapi::{Authenication, Client, Error};

fn auth(client_id: &str, oauth_token: &str) -> Authenication {
    Authenication { client_id: client_id.to_string(), oauth_token: oauth_token.to_string() }
}

#[test]
fn construction_succeeds_on_clean_credentials() {
    assert!(Client::new(&auth("abc123", "sometoken")).is_ok());
}

#[test]
fn construction_rejects_newline_in_client_id() {
    let r = Client::new(&auth("abc\n123", "sometoken"));
    assert!(matches!(r, Err(Error::InvalidClientId { .. })));
}

#[test]
fn construction_rejects_control_characters_in_token() {
    let r = Client::new(&auth("abc123", "tok\ren"));
    assert!(matches!(r, Err(Error::InvalidOAuthToken { .. })));
    let r = Client::new(&auth("abc123", "tok\x7fen"));
    assert!(matches!(r, Err(Error::InvalidOAuthToken { .. })));
}

#[test]
fn construction_accepts_tab_but_not_other_controls() {
    assert!(Client::new(&auth("with\ttab", "tok")).is_ok());
    assert!(matches!(
        Client::new(&auth("with\x00nul", "tok")),
        Err(Error::InvalidClientId { .. })
    ));
}

#[test]
fn streams_request_repeats_user_login_per_value() {
    let c = Client::new(&auth("cid", "tok")).unwrap();
    let r = c.streams_request(&vec!["a".to_string(), "b".to_string()]);
    assert_eq!(r.url, "https://api.twitch.tv/helix/streams");
    assert_eq!(
        r.query,
        vec![
            ("user_login".to_string(), "a".to_string()),
            ("user_login".to_string(), "b".to_string()),
        ]
    );
}

#[test]
fn id_and_user_requests_use_their_query_keys() {
    let c = Client::new(&auth("cid", "tok")).unwrap();
    let r = c.streams_from_id_request(&vec!["7".to_string()]);
    assert_eq!(r.url, "https://api.twitch.tv/helix/streams");
    assert_eq!(r.query, vec![("user_id".to_string(), "7".to_string())]);

    let r = c.users_request(&vec!["bob".to_string()]);
    assert_eq!(r.url, "https://api.twitch.tv/helix/users");
    assert_eq!(r.query, vec![("login".to_string(), "bob".to_string())]);

    let r = c.users_from_id_request(&vec!["9".to_string()]);
    assert_eq!(r.url, "https://api.twitch.tv/helix/users");
    assert_eq!(r.query, vec![("id".to_string(), "9".to_string())]);
}

#[test]
fn helix_requests_carry_identity_headers() {
    let c = Client::new(&auth("my-client-id", "my-token")).unwrap();
    let r = c.users_request(&vec![]);
    assert!(r.query.is_empty());
    assert_eq!(
        r.headers,
        vec![
            ("Client-ID".to_string(), "my-client-id".to_string()),
            ("Authorization".to_string(), "Bearer my-token".to_string()),
        ]
    );
}

#[test]
fn chatters_request_targets_tmi_with_no_query_or_headers() {
    let c = Client::new(&auth("cid", "tok")).unwrap();
    let r = c.chatters_request("museun");
    assert_eq!(r.url, "https://tmi.twitch.tv/group/user/museun/chatters");
    assert!(r.query.is_empty());
    assert!(r.headers.is_empty());
}
