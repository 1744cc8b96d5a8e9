use webhook_relay::handler::{handle_inbound, InboundBody, InboundRequest};
use webhook_relay::session::{
    accept_failed, accept_loop_finished, connect_failed, listener_failed, listener_ready,
    serve_error, session_active, session_connected, start_session, Notification,
};
use webhook_relay::status::StatusStore;

fn progress_text(n: &Notification) -> &str {
    match n {
        Notification::Progress(s) => s,
        _ => panic!("expected a progress notification"),
    }
}

fn error_text(n: &Notification) -> &str {
    match n {
        Notification::Error(s) => s,
        _ => panic!("expected an error notification"),
    }
}

fn url_text(n: &Notification) -> &str {
    match n {
        Notification::UrlObtained(s) => s,
        _ => panic!("expected a URL notification"),
    }
}

#[test]
fn nothing_is_tracked_before_the_first_start() {
    let store = StatusStore::new();
    assert!(store.snapshot().is_none());
}

#[test]
fn successful_start_reports_the_public_url_and_answers_the_handshake() {
    let mut store = StatusStore::new();
    let (sid, n1) = start_session(&mut store);
    assert_eq!(progress_text(&n1), "Starting tunnel session...");
    let snap = store.snapshot().unwrap();
    assert!(snap.is_active);
    assert_eq!(snap.public_url, None);
    assert_eq!(snap.log, vec!["Starting tunnel session..."]);

    let (n2, n3) = session_connected(&mut store, sid);
    assert_eq!(progress_text(&n2), "Tunnel session connected.");
    assert_eq!(progress_text(&n3), "Starting HTTP listener...");

    let url = "https://abc.tunnel.example";
    let (n4, n5) = listener_ready(&mut store, sid, url);
    assert_eq!(progress_text(&n4), format!("Tunnel established at: {url}"));
    assert_eq!(url_text(&n5), url);

    let n6 = session_active(&mut store, sid);
    assert_eq!(progress_text(&n6), "Tunnel is active.");

    let snap = store.snapshot().unwrap();
    assert!(snap.is_active);
    assert_eq!(snap.public_url.as_deref(), Some(url));
    let expected_log: Vec<String> = vec![
        "Starting tunnel session...".to_string(),
        "Tunnel session connected.".to_string(),
        "Starting HTTP listener...".to_string(),
        format!("Tunnel established at: {url}"),
        "Tunnel is active.".to_string(),
    ];
    assert_eq!(snap.log, expected_log);

    // A handshake arriving over the now-public URL is answered with the
    // token signed under the consumer secret.
    let req = InboundRequest {
        method: "GET".to_string(),
        uri: format!("{url}?crc_token=abc123"),
        headers: Vec::new(),
        query: Some("crc_token=abc123".to_string()),
        body: InboundBody::Received(Vec::new()),
    };
    let (resp, delivery) = handle_inbound(&req, "sec");
    assert_eq!(resp.status, 200);
    assert!(resp.json_content_type);
    assert!(resp.body.starts_with("{\"response_token\":\"sha256="));
    assert!(resp.body.ends_with("\"}"));
    assert!(delivery.is_none());
}

#[test]
fn fatal_listener_error_after_a_delivery_deactivates_the_tunnel() {
    let mut store = StatusStore::new();
    let (sid, _) = start_session(&mut store);
    session_connected(&mut store, sid);
    listener_ready(&mut store, sid, "https://abc.tunnel.example");
    session_active(&mut store, sid);

    // One delivery is served successfully first.
    let req = InboundRequest {
        method: "POST".to_string(),
        uri: "/".to_string(),
        headers: Vec::new(),
        query: None,
        body: InboundBody::Received(b"{\"n\":1}".to_vec()),
    };
    let (resp, delivery) = handle_inbound(&req, "sec");
    assert_eq!(resp.status, 200);
    assert!(delivery.is_some());

    // Then the listener itself fails: the error notification fires and the
    // tunnel shows inactive; the loop stops, so nothing is serviced after.
    let note = accept_failed(&mut store, sid, "session closed");
    assert_eq!(error_text(&note), "Listener connection error: session closed");
    let done = accept_loop_finished(&mut store, sid);
    assert_eq!(progress_text(&done), "Listener task finished.");

    let snap = store.snapshot().unwrap();
    assert!(!snap.is_active);
    assert_eq!(snap.public_url.as_deref(), Some("https://abc.tunnel.example"));
    assert_eq!(
        snap.log.last().map(String::as_str),
        Some("Listener task finished.")
    );
    assert!(snap
        .log
        .contains(&"Listener connection error: session closed".to_string()));
}

#[test]
fn graceful_listener_exhaustion_deactivates_the_tunnel() {
    let mut store = StatusStore::new();
    let (sid, _) = start_session(&mut store);
    session_connected(&mut store, sid);
    listener_ready(&mut store, sid, "https://abc.tunnel.example");
    session_active(&mut store, sid);

    let note = accept_loop_finished(&mut store, sid);
    assert_eq!(progress_text(&note), "Listener task finished.");
    let snap = store.snapshot().unwrap();
    assert!(!snap.is_active);
}

#[test]
fn failed_session_connect_is_terminal_and_dual_reported() {
    let mut store = StatusStore::new();
    let (sid, _) = start_session(&mut store);
    let (returned, note) = connect_failed(&mut store, sid, "invalid auth token");
    assert_eq!(
        returned,
        "Tunnel error: Failed to connect session: invalid auth token"
    );
    assert_eq!(error_text(&note), returned);
    let snap = store.snapshot().unwrap();
    assert!(!snap.is_active);
    assert_eq!(snap.public_url, None);
    assert_eq!(
        snap.log,
        vec![
            "Starting tunnel session...",
            "Tunnel error: Failed to connect session: invalid auth token",
        ]
    );
}

#[test]
fn failed_listener_request_is_terminal_and_clears_the_url() {
    let mut store = StatusStore::new();
    let (sid, _) = start_session(&mut store);
    session_connected(&mut store, sid);
    let (returned, note) = listener_failed(&mut store, sid, "quota exceeded");
    assert_eq!(
        returned,
        "Tunnel error: Failed to start listener: quota exceeded"
    );
    assert_eq!(error_text(&note), returned);
    let snap = store.snapshot().unwrap();
    assert!(!snap.is_active);
    assert_eq!(snap.public_url, None);
}

#[test]
fn a_connection_serve_error_touches_nothing_but_notifies() {
    let mut store = StatusStore::new();
    let (sid, _) = start_session(&mut store);
    let before = store.snapshot().unwrap();
    let note = serve_error("peer reset");
    assert_eq!(error_text(&note), "Connection error: peer reset");
    let after = store.snapshot().unwrap();
    assert_eq!(before.is_active, after.is_active);
    assert_eq!(before.log, after.log);
    let _ = sid;
}

#[test]
fn writes_from_a_stale_session_are_ignored() {
    let mut store = StatusStore::new();
    let (old_sid, _) = start_session(&mut store);
    session_connected(&mut store, old_sid);

    // A second start resets the store; the first session's tasks still hold
    // the old identifier.
    let (new_sid, _) = start_session(&mut store);
    assert_ne!(old_sid, new_sid);

    accept_failed(&mut store, old_sid, "late failure");
    let leftover = accept_loop_finished(&mut store, old_sid);
    assert_eq!(progress_text(&leftover), "Listener task finished.");

    let snap = store.snapshot().unwrap();
    assert!(snap.is_active, "a stale task must not deactivate the new session");
    assert_eq!(snap.log, vec!["Starting tunnel session..."]);

    // The current session still writes.
    session_connected(&mut store, new_sid);
    let snap = store.snapshot().unwrap();
    assert_eq!(snap.log.len(), 3);
}
