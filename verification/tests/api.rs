use twitch_notifier::twitch_api::{
    parse_streams_response, parse_token_body, parse_users_body, parse_users_response, ApiError,
    TwitchClient,
};

fn stream_entry(id: &str, user_id: &str, login: &str, name: &str, game: &str) -> String {
    format!(
        r#"{{"id":"{id}","user_id":"{user_id}","user_login":"{login}","user_name":"{name}","game_id":"g1","game_name":"{game}","title":"hello","type":"live","viewer_count":42,"started_at":"2024-01-01T00:00:00Z"}}"#
    )
}

#[test]
fn parses_token_body() {
    let body = r#"{"access_token":"abc123","expires_in":5011271,"token_type":"bearer"}"#;
    let t = parse_token_body(body).unwrap();
    assert_eq!(t.access_token, "abc123");
    assert_eq!(t.expires_in, 5011271);
    assert_eq!(t.token_type, "bearer");
}

#[test]
fn token_body_requires_all_fields() {
    assert!(parse_token_body(r#"{"access_token":"abc123","token_type":"bearer"}"#).is_none());
    assert!(parse_token_body("not json").is_none());
}

#[test]
fn parses_users_body_in_order() {
    let body = r#"{"data":[
        {"id":"2","login":"bob","display_name":"Bob","created_at":"x"},
        {"id":"1","login":"alice","display_name":"Alice"}
    ]}"#;
    let users = parse_users_body(body).unwrap();
    assert_eq!(users.len(), 2);
    assert_eq!(users[0].id, "2");
    assert_eq!(users[0].login, "bob");
    assert_eq!(users[0].display_name, "Bob");
    assert_eq!(users[1].id, "1");
}

#[test]
fn empty_data_means_no_users() {
    let users = parse_users_body(r#"{"data":[]}"#).unwrap();
    assert!(users.is_empty());
}

#[test]
fn users_response_classification() {
    let ok_body = r#"{"data":[{"id":"1","login":"alice","display_name":"Alice"}]}"#;
    let users = parse_users_response(200, ok_body).unwrap();
    assert_eq!(users.len(), 1);

    match parse_users_response(401, "unauthorized") {
        Err(ApiError::MissingToken) => {},
        _ => panic!("a 401 must read as a missing/rejected token"),
    }
    match parse_users_response(404, "nope") {
        Err(ApiError::HttpError { status, body }) => {
            assert_eq!(status, 404);
            assert_eq!(body, "nope");
        },
        _ => panic!("a non-2xx status must carry status and body"),
    }
    match parse_users_response(200, "garbage") {
        Err(ApiError::DecodeError) => {},
        _ => panic!("a malformed success body must read as a decode failure"),
    }
    match parse_users_response(200, r#"{"data": 7}"#) {
        Err(ApiError::DecodeError) => {},
        _ => panic!("a non-array data member must read as a decode failure"),
    }
}

#[test]
fn streams_response_reads_entries() {
    let body = format!(r#"{{"data":[{}]}}"#, stream_entry("9", "1", "alice", "Alice", "Tetris"));
    let streams = parse_streams_response(200, &body).unwrap();
    assert_eq!(streams.len(), 1);
    assert_eq!(streams[0].id, "9");
    assert_eq!(streams[0].user_id, "1");
    assert_eq!(streams[0].user_login, "alice");
    assert_eq!(streams[0].user_name, "Alice");
    assert_eq!(streams[0].game_name, "Tetris");
    assert_eq!(streams[0].stream_type, "live");
    assert_eq!(streams[0].viewer_count, 42);
    assert_eq!(streams[0].started_at, "2024-01-01T00:00:00Z");
}

#[test]
fn streams_response_server_error() {
    match parse_streams_response(503, "service unavailable") {
        Err(ApiError::HttpError { status, .. }) => assert_eq!(status, 503),
        _ => panic!("a 503 must carry its status"),
    }
}

#[test]
fn token_request_holds_credentials_grant() {
    let client = TwitchClient::new("my-id".to_string(), "my-secret".to_string());
    let req = client.token_request();
    assert_eq!(req.form.len(), 3);
    assert_eq!(req.form[0], ("client_id".to_string(), "my-id".to_string()));
    assert_eq!(req.form[1], ("client_secret".to_string(), "my-secret".to_string()));
    assert_eq!(
        req.form[2],
        ("grant_type".to_string(), "client_credentials".to_string())
    );
}

#[test]
fn users_request_empty_list_needs_no_network() {
    let client = TwitchClient::new("my-id".to_string(), "s".to_string());
    // No token held, yet the empty lookup succeeds with nothing to send.
    match client.users_request(&vec![]) {
        Ok(None) => {},
        _ => panic!("an empty lookup must not reach the network"),
    }
}

#[test]
fn users_request_without_token_fails() {
    let client = TwitchClient::new("my-id".to_string(), "s".to_string());
    match client.users_request(&vec!["alice".to_string()]) {
        Err(ApiError::MissingToken) => {},
        _ => panic!("a lookup without a token must fail with the missing-token kind"),
    }
}

#[test]
fn accept_token_response_stores_token() {
    let mut client = TwitchClient::new("my-id".to_string(), "s".to_string());
    let body = r#"{"access_token":"tok","expires_in":100,"token_type":"bearer"}"#;
    client.accept_token_response(200, body).unwrap();
    let req = client
        .users_request(&vec!["alice".to_string(), "bob".to_string()])
        .unwrap()
        .unwrap();
    assert_eq!(req.bearer_token, "tok");
    assert_eq!(req.client_id, "my-id");
    assert_eq!(req.query.len(), 2);
    assert_eq!(req.query[0], ("login".to_string(), "alice".to_string()));
    assert_eq!(req.query[1], ("login".to_string(), "bob".to_string()));
}

#[test]
fn accept_token_response_failures() {
    let mut client = TwitchClient::new("my-id".to_string(), "s".to_string());
    match client.accept_token_response(500, "boom") {
        Err(ApiError::HttpError { status, body }) => {
            assert_eq!(status, 500);
            assert_eq!(body, "boom");
        },
        _ => panic!("a non-2xx token response must carry status and body"),
    }
    match client.accept_token_response(200, "not json") {
        Err(ApiError::DecodeError) => {},
        _ => panic!("a malformed token body must read as a decode failure"),
    }
    // Both failures left the client without a token.
    match client.users_request(&vec!["alice".to_string()]) {
        Err(ApiError::MissingToken) => {},
        _ => panic!("failed grants must not install a token"),
    }
}

#[test]
fn streams_request_carries_user_ids() {
    let mut client = TwitchClient::new("my-id".to_string(), "s".to_string());
    let body = r#"{"access_token":"tok","expires_in":100,"token_type":"bearer"}"#;
    client.accept_token_response(200, body).unwrap();
    let req = client
        .streams_request(&vec!["1".to_string(), "2".to_string()])
        .unwrap();
    assert_eq!(req.bearer_token, "tok");
    assert_eq!(req.query[0], ("user_id".to_string(), "1".to_string()));
    assert_eq!(req.query[1], ("user_id".to_string(), "2".to_string()));
}
