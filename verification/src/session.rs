use vstd::prelude::*;

use crate::handler::WebhookDelivery;
use crate::status::{failed_model, next_sid, StatusModel, StatusStore};
use crate::strutil::clone_string;

verus! {

// ---------------------------------------------------------------------------
// Notifications
// ---------------------------------------------------------------------------

/// What the manager asks its caller to publish to the UI.  Publication is
/// fire-and-forget and happens outside; each transition below says exactly
/// which notifications it produces.
pub enum Notification {
    Progress(String),
    UrlObtained(String),
    Error(String),
    Webhook(WebhookDelivery),
}

/// A progress notification carrying exactly `m`.
pub open spec fn is_progress(n: &Notification, m: Seq<char>) -> bool {
    n matches Notification::Progress(s) && s@ == m
}

/// An error notification carrying exactly `m`.
pub open spec fn is_error(n: &Notification, m: Seq<char>) -> bool {
    n matches Notification::Error(s) && s@ == m
}

// ---------------------------------------------------------------------------
// Session establishment
// ---------------------------------------------------------------------------

/// Begin a session: reset the store to an active, URL-less status whose log
/// opens with the starting entry, and hand back the new session identifier
/// with the progress notification to publish.
pub fn start_session(store: &mut StatusStore) -> (r: (u64, Notification))
    ensures
        r.0 == final(store).sid(),
        final(store).sid() == next_sid(old(store).sid()),
        final(store).model() == Some(
            StatusModel {
                is_active: true,
                public_url: None,
                log: seq!["Starting tunnel session..."@],
            },
        ),
        is_progress(&r.1, "Starting tunnel session..."@),
{
    let sid = store.reset_for_new_session();
    let msg = String::from_str("Starting tunnel session...");
    store.append_log(sid, clone_string(&msg));
    proof {
        assert(Seq::<Seq<char>>::empty().push("Starting tunnel session..."@) =~= seq![
            "Starting tunnel session..."@,
        ]);
    }
    (sid, Notification::Progress(msg))
}

/// Session establishment failed terminally: log the failure, mark the
/// session inactive with no URL, and hand back the error string the caller
/// returns together with the error notification to publish.
pub fn connect_failed(store: &mut StatusStore, sid: u64, err: &str) -> (r: (String, Notification))
    ensures
        r.0@ == "Tunnel error: Failed to connect session: "@ + err@,
        is_error(&r.1, r.0@),
        final(store).sid() == old(store).sid(),
        sid == old(store).sid() ==> final(store).model() == failed_model(
            old(store).model(),
            r.0@,
        ),
        sid != old(store).sid() ==> *final(store) == *old(store),
{
    let msg = String::from_str("Tunnel error: Failed to connect session: ").concat(err);
    store.fail_session(sid, clone_string(&msg));
    let out = clone_string(&msg);
    (out, Notification::Error(msg))
}

/// The session is connected: log the two progress entries that bracket the
/// listener request and hand back their notifications, in order.
pub fn session_connected(store: &mut StatusStore, sid: u64) -> (r: (Notification, Notification))
    ensures
        is_progress(&r.0, "Tunnel session connected."@),
        is_progress(&r.1, "Starting HTTP listener..."@),
        final(store).sid() == old(store).sid(),
        sid == old(store).sid() ==> (old(store).model() matches Some(m) ==> final(store).model()
            == Some(
            StatusModel {
                log: m.log.push("Tunnel session connected."@).push("Starting HTTP listener..."@),
                ..m
            },
        )),
        sid != old(store).sid() || old(store).model() is None ==> *final(store) == *old(store),
{
    let m1 = String::from_str("Tunnel session connected.");
    let m2 = String::from_str("Starting HTTP listener...");
    store.append_log(sid, clone_string(&m1));
    store.append_log(sid, clone_string(&m2));
    (Notification::Progress(m1), Notification::Progress(m2))
}

/// Requesting the listener failed terminally: handled like a failed
/// connection, under its own message.
pub fn listener_failed(store: &mut StatusStore, sid: u64, err: &str) -> (r: (String, Notification))
    ensures
        r.0@ == "Tunnel error: Failed to start listener: "@ + err@,
        is_error(&r.1, r.0@),
        final(store).sid() == old(store).sid(),
        sid == old(store).sid() ==> final(store).model() == failed_model(
            old(store).model(),
            r.0@,
        ),
        sid != old(store).sid() ==> *final(store) == *old(store),
{
    let msg = String::from_str("Tunnel error: Failed to start listener: ").concat(err);
    store.fail_session(sid, clone_string(&msg));
    let out = clone_string(&msg);
    (out, Notification::Error(msg))
}

/// The listener is up on a public URL: log the fact, record the URL — set
/// here, once per session — and hand back the progress and URL-obtained
/// notifications to publish, in order.
pub fn listener_ready(store: &mut StatusStore, sid: u64, url: &str) -> (r: (
    Notification,
    Notification,
))
    ensures
        is_progress(&r.0, "Tunnel established at: "@ + url@),
        r.1 matches Notification::UrlObtained(u) && u@ == url@,
        final(store).sid() == old(store).sid(),
        sid == old(store).sid() ==> (old(store).model() matches Some(m) ==> final(store).model()
            == Some(
            StatusModel {
                public_url: Some(url@),
                log: m.log.push("Tunnel established at: "@ + url@),
                ..m
            },
        )),
        sid != old(store).sid() || old(store).model() is None ==> *final(store) == *old(store),
{
    let msg = String::from_str("Tunnel established at: ").concat(url);
    store.append_log(sid, clone_string(&msg));
    store.record_url(sid, String::from_str(url));
    (Notification::Progress(msg), Notification::UrlObtained(String::from_str(url)))
}

/// The session is fully set up and the accept loop is about to run: log the
/// final progress entry of establishment and hand back its notification.
pub fn session_active(store: &mut StatusStore, sid: u64) -> (r: Notification)
    ensures
        is_progress(&r, "Tunnel is active."@),
        final(store).sid() == old(store).sid(),
        sid == old(store).sid() ==> (old(store).model() matches Some(m) ==> final(store).model()
            == Some(StatusModel { log: m.log.push("Tunnel is active."@), ..m })),
        sid != old(store).sid() || old(store).model() is None ==> *final(store) == *old(store),
{
    let msg = String::from_str("Tunnel is active.");
    store.append_log(sid, clone_string(&msg));
    Notification::Progress(msg)
}

// ---------------------------------------------------------------------------
// The accept loop's transitions
// ---------------------------------------------------------------------------

/// The listener itself failed — fatal for the session: log the error, mark
/// the session inactive (the URL now names a dead tunnel and is kept for the
/// log's sake), and hand back the error notification.  The accept loop must
/// terminate after this; only a fresh session can serve connections again.
pub fn accept_failed(store: &mut StatusStore, sid: u64, err: &str) -> (r: Notification)
    ensures
        is_error(&r, "Listener connection error: "@ + err@),
        final(store).sid() == old(store).sid(),
        sid == old(store).sid() ==> (old(store).model() matches Some(m) ==> final(store).model()
            == Some(
            StatusModel {
                is_active: false,
                log: m.log.push("Listener connection error: "@ + err@),
                ..m
            },
        )),
        sid != old(store).sid() || old(store).model() is None ==> *final(store) == *old(store),
{
    let msg = String::from_str("Listener connection error: ").concat(err);
    store.close_logged(sid, clone_string(&msg));
    Notification::Error(msg)
}

/// The accept loop is over — the listener yielded its last connection or
/// failed: log the closing entry, mark the session inactive, and hand back
/// the progress notification.
pub fn accept_loop_finished(store: &mut StatusStore, sid: u64) -> (r: Notification)
    ensures
        is_progress(&r, "Listener task finished."@),
        final(store).sid() == old(store).sid(),
        sid == old(store).sid() ==> (old(store).model() matches Some(m) ==> final(store).model()
            == Some(
            StatusModel { is_active: false, log: m.log.push("Listener task finished."@), ..m },
        )),
        sid != old(store).sid() || old(store).model() is None ==> *final(store) == *old(store),
{
    let msg = String::from_str("Listener task finished.");
    store.close_logged(sid, clone_string(&msg));
    Notification::Progress(msg)
}

/// Serving one accepted connection failed.  That is isolated to the
/// connection: nothing in the store changes and the loop keeps accepting;
/// only an error notification goes out.
pub fn serve_error(err: &str) -> (r: Notification)
    ensures
        is_error(&r, "Connection error: "@ + err@),
{
    Notification::Error(String::from_str("Connection error: ").concat(err))
}

} // verus!
