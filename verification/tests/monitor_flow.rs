use twitch_notifier::monitor::{
    Directive, Event, HttpOutcome, Monitor, Outcome, Phase,
};
use twitch_notifier::settings::Settings;
use twitch_notifier::tracker::diff;
use twitch_notifier::twitch_api::ApiError;

fn settings(streamers: &[&str]) -> Settings {
    Settings::new(
        "client-id".to_string(),
        "client-secret".to_string(),
        streamers.iter().map(|s| s.to_string()).collect(),
        None,
    )
}

fn response(status: u16, body: &str) -> HttpOutcome {
    HttpOutcome::Response { status, body: body.to_string() }
}

fn token_ok() -> HttpOutcome {
    response(
        200,
        r#"{"access_token":"tok","expires_in":100,"token_type":"bearer"}"#,
    )
}

fn users_alice_bob() -> HttpOutcome {
    response(
        200,
        r#"{"data":[
            {"id":"1","login":"alice","display_name":"Alice"},
            {"id":"2","login":"bob","display_name":"Bob"}
        ]}"#,
    )
}

fn stream_entry(user_id: &str, name: &str, game: &str) -> String {
    format!(
        r#"{{"id":"s{user_id}","user_id":"{user_id}","user_login":"x","user_name":"{name}","game_id":"g","game_name":"{game}","title":"t","type":"live","viewer_count":1,"started_at":"now"}}"#
    )
}

fn streams_body(entries: &[String]) -> String {
    format!(r#"{{"data":[{}]}}"#, entries.join(","))
}

/// Walks a fresh monitor to the polling phase for alice (id 1) and
/// bob (id 2).
fn polling_monitor() -> Monitor {
    let mut m = Monitor::new(settings(&["alice", "bob"]));
    match m.current_directive() {
        Directive::Authenticate(_) => {},
        _ => panic!("a fresh monitor must authenticate first"),
    }
    match m.step(Event::TokenResponse(token_ok())) {
        Directive::FetchUsers(req) => {
            assert_eq!(req.bearer_token, "tok");
            assert_eq!(req.query.len(), 2);
        },
        _ => panic!("after authentication the names are resolved"),
    }
    match m.step(Event::UsersResponse(users_alice_bob())) {
        Directive::Poll { notifications, request, wait_seconds } => {
            assert!(notifications.is_empty());
            assert_eq!(wait_seconds, 60);
            assert_eq!(request.query[0], ("user_id".to_string(), "1".to_string()));
            assert_eq!(request.query[1], ("user_id".to_string(), "2".to_string()));
        },
        _ => panic!("resolved names start the polling phase"),
    }
    m
}

#[test]
fn scenario_edge_triggered_notifications() {
    let mut m = polling_monitor();

    // Tick 1: alice is live; exactly one notification, for alice.
    let tick1 = streams_body(&[stream_entry("1", "Alice", "Tetris")]);
    match m.step(Event::StreamsResponse(response(200, &tick1))) {
        Directive::Poll { notifications, .. } => {
            assert_eq!(notifications.len(), 1);
            assert_eq!(notifications[0].channel_id, "1");
            assert_eq!(notifications[0].summary, "Alice");
            assert_eq!(notifications[0].body, "Tetris");
        },
        _ => panic!("a successful poll keeps polling"),
    }

    // Tick 2: the same snapshot; no further notification.
    match m.step(Event::StreamsResponse(response(200, &tick1))) {
        Directive::Poll { notifications, .. } => assert!(notifications.is_empty()),
        _ => panic!("a successful poll keeps polling"),
    }

    // Tick 3: bob appears too; exactly one notification, for bob.
    let tick3 = streams_body(&[
        stream_entry("1", "Alice", "Tetris"),
        stream_entry("2", "Bob", "Chess"),
    ]);
    match m.step(Event::StreamsResponse(response(200, &tick3))) {
        Directive::Poll { notifications, .. } => {
            assert_eq!(notifications.len(), 1);
            assert_eq!(notifications[0].channel_id, "2");
            assert_eq!(notifications[0].summary, "Bob");
        },
        _ => panic!("a successful poll keeps polling"),
    }

    // Tick 4: both offline; no "went live" notifications.
    match m.step(Event::StreamsResponse(response(200, &streams_body(&[])))) {
        Directive::Poll { notifications, .. } => assert!(notifications.is_empty()),
        _ => panic!("a successful poll keeps polling"),
    }

    // The live set was emptied: alice going live again fires again.
    match m.step(Event::StreamsResponse(response(200, &tick1))) {
        Directive::Poll { notifications, .. } => {
            assert_eq!(notifications.len(), 1);
            assert_eq!(notifications[0].channel_id, "1");
        },
        _ => panic!("a successful poll keeps polling"),
    }
}

#[test]
fn scenario_server_error_is_absorbed() {
    let mut m = polling_monitor();
    let tick1 = streams_body(&[stream_entry("1", "Alice", "Tetris")]);
    match m.step(Event::StreamsResponse(response(200, &tick1))) {
        Directive::Poll { notifications, .. } => assert_eq!(notifications.len(), 1),
        _ => panic!("a successful poll keeps polling"),
    }

    // A 503 changes nothing and the loop continues.
    match m.step(Event::StreamsResponse(response(503, "unavailable"))) {
        Directive::Poll { notifications, .. } => assert!(notifications.is_empty()),
        _ => panic!("a server error is retried on the next tick"),
    }

    // The live set is untouched: the same snapshot still fires nothing.
    match m.step(Event::StreamsResponse(response(200, &tick1))) {
        Directive::Poll { notifications, .. } => assert!(notifications.is_empty()),
        _ => panic!("a successful poll keeps polling"),
    }
}

#[test]
fn scenario_timeout_is_absorbed() {
    let mut m = polling_monitor();
    match m.step(Event::StreamsResponse(HttpOutcome::Failed { timeout: true })) {
        Directive::Poll { notifications, .. } => assert!(notifications.is_empty()),
        _ => panic!("a timeout is retried on the next tick"),
    }
}

#[test]
fn scenario_reauthentication_resumes_polling() {
    let mut m = polling_monitor();
    let tick1 = streams_body(&[stream_entry("1", "Alice", "Tetris")]);
    match m.step(Event::StreamsResponse(response(200, &tick1))) {
        Directive::Poll { notifications, .. } => assert_eq!(notifications.len(), 1),
        _ => panic!("a successful poll keeps polling"),
    }

    // The token is rejected: one re-authentication attempt.
    match m.step(Event::StreamsResponse(response(401, "unauthorized"))) {
        Directive::Authenticate(_) => {},
        _ => panic!("a rejected token earns a re-authentication"),
    }
    // It succeeds: polling resumes, no notifications on this tick.
    match m.step(Event::TokenResponse(token_ok())) {
        Directive::Poll { notifications, .. } => assert!(notifications.is_empty()),
        _ => panic!("a successful re-authentication resumes polling"),
    }
    // The live set survived: alice is not notified again.
    match m.step(Event::StreamsResponse(response(200, &tick1))) {
        Directive::Poll { notifications, .. } => assert!(notifications.is_empty()),
        _ => panic!("a successful poll keeps polling"),
    }
}

#[test]
fn scenario_failed_reauthentication_is_fatal() {
    let mut m = polling_monitor();
    match m.step(Event::StreamsResponse(response(401, "unauthorized"))) {
        Directive::Authenticate(_) => {},
        _ => panic!("a rejected token earns a re-authentication"),
    }
    match m.step(Event::TokenResponse(response(500, "boom"))) {
        Directive::Stop => {},
        _ => panic!("a failed re-authentication terminates the session"),
    }
    match &m.phase {
        Phase::Terminated { outcome: Outcome::Failed(ApiError::HttpError { status, .. }) } => {
            assert_eq!(*status, 500);
        },
        _ => panic!("the session must surface the authentication failure"),
    }
}

#[test]
fn decode_failure_is_fatal() {
    let mut m = polling_monitor();
    match m.step(Event::StreamsResponse(response(200, "garbage"))) {
        Directive::Stop => {},
        _ => panic!("a malformed body is fatal"),
    }
    assert!(matches!(
        m.phase,
        Phase::Terminated { outcome: Outcome::Failed(ApiError::DecodeError) }
    ));
}

#[test]
fn client_error_is_fatal() {
    let mut m = polling_monitor();
    match m.step(Event::StreamsResponse(response(404, "gone"))) {
        Directive::Stop => {},
        _ => panic!("a client error is fatal"),
    }
}

#[test]
fn startup_auth_failure_is_fatal() {
    let mut m = Monitor::new(settings(&["alice"]));
    match m.step(Event::TokenResponse(response(403, "denied"))) {
        Directive::Stop => {},
        _ => panic!("an authentication failure at startup is fatal"),
    }
    match &m.phase {
        Phase::Terminated { outcome: Outcome::Failed(ApiError::HttpError { status, .. }) } => {
            assert_eq!(*status, 403);
        },
        _ => panic!("the startup failure must be surfaced"),
    }
}

#[test]
fn no_streamers_terminates_cleanly() {
    let mut m = Monitor::new(settings(&[]));
    match m.step(Event::TokenResponse(token_ok())) {
        Directive::Stop => {},
        _ => panic!("with nothing to monitor the session ends cleanly"),
    }
    assert!(matches!(m.phase, Phase::Terminated { outcome: Outcome::Clean }));
}

#[test]
fn no_resolved_users_terminates_cleanly() {
    let mut m = Monitor::new(settings(&["nobody"]));
    m.step(Event::TokenResponse(token_ok()));
    match m.step(Event::UsersResponse(response(200, r#"{"data":[]}"#))) {
        Directive::Stop => {},
        _ => panic!("with no matching channels the session ends cleanly"),
    }
    assert!(matches!(m.phase, Phase::Terminated { outcome: Outcome::Clean }));
}

#[test]
fn shutdown_is_honored_everywhere() {
    let mut m = Monitor::new(settings(&["alice"]));
    match m.step(Event::Shutdown) {
        Directive::Stop => {},
        _ => panic!("shutdown stops the session"),
    }
    assert!(matches!(m.phase, Phase::Terminated { outcome: Outcome::Clean }));

    let mut m = polling_monitor();
    match m.step(Event::Shutdown) {
        Directive::Stop => {},
        _ => panic!("shutdown stops the session"),
    }
}

#[test]
fn duplicate_snapshot_entries_notify_once() {
    let mut m = polling_monitor();
    let body = streams_body(&[
        stream_entry("1", "Alice", "Tetris"),
        stream_entry("1", "Alice", "Tetris"),
    ]);
    match m.step(Event::StreamsResponse(response(200, &body))) {
        Directive::Poll { notifications, .. } => assert_eq!(notifications.len(), 1),
        _ => panic!("a successful poll keeps polling"),
    }
}


#[test]
fn non_timeout_transport_failure_is_fatal() {
    let mut m = polling_monitor();
    match m.step(Event::StreamsResponse(HttpOutcome::Failed { timeout: false })) {
        Directive::Stop => {},
        _ => panic!("a non-timeout transport failure is fatal"),
    }
    assert!(matches!(
        m.phase,
        Phase::Terminated { outcome: Outcome::Failed(ApiError::Transport { timeout: false }) }
    ));
}

#[test]
fn out_of_phase_event_changes_nothing() {
    let mut m = polling_monitor();
    // A user-lookup outcome does not belong to the polling phase: the
    // monitor re-issues the fetch it is waiting on.
    match m.step(Event::UsersResponse(response(200, r#"{"data":[]}"#))) {
        Directive::Poll { notifications, request, .. } => {
            assert!(notifications.is_empty());
            assert_eq!(request.query.len(), 2);
        },
        _ => panic!("an out-of-phase event must not move the monitor"),
    }
}

#[test]
fn diff_computes_both_transitions() {
    let prev = vec!["1".to_string(), "2".to_string()];
    let new = vec!["2".to_string(), "3".to_string()];
    let d = diff(&prev, &new);
    assert_eq!(d.newly_live, vec!["3".to_string()]);
    assert_eq!(d.newly_offline, vec!["1".to_string()]);
    assert_eq!(d.next, new);
}

#[test]
fn diff_of_equal_sets_is_empty() {
    let p = vec!["1".to_string(), "2".to_string()];
    let d = diff(&p, &p);
    assert!(d.newly_live.is_empty());
    assert!(d.newly_offline.is_empty());
    assert_eq!(d.next, p);
}

#[test]
fn diff_from_empty_fires_everything_once() {
    let prev: Vec<String> = vec![];
    let new = vec!["1".to_string(), "1".to_string(), "2".to_string()];
    let d = diff(&prev, &new);
    assert_eq!(d.newly_live, vec!["1".to_string(), "2".to_string()]);
    assert!(d.newly_offline.is_empty());
}
