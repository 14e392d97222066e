use colibri_proxy::backend::{LookupOutcome, SessionError, build_target_url, decide_backend};
use colibri_proxy::path::{extract_pod_id, path_has_prefix};
use colibri_proxy::probe::{is_liveness_probe, liveness_response};
use colibri_proxy::session::{Outcome, Session, Stage};

#[test]
fn liveness_probe_recognized() {
    assert!(is_liveness_probe(b"GET / "));
    assert!(!is_liveness_probe(b"GET /x"));
    assert!(!is_liveness_probe(b"POST /"));
    assert!(!is_liveness_probe(b"GET /"));
    assert!(!is_liveness_probe(b""));
    assert!(!is_liveness_probe(b"GET /  "));
}

#[test]
fn liveness_response_is_fixed() {
    assert_eq!(
        liveness_response(),
        "HTTP/1.1 200 OK\r\nContent-Length: 0\r\nConnection: close\r\n\r\n"
    );
}

#[test]
fn liveness_session_short_circuits() {
    let mut s = Session::new();
    assert_eq!(s.stage, Stage::Accepted);
    let liveness = s.on_peek(b"GET / ");
    assert!(liveness);
    assert_eq!(s.stage, Stage::ProbedLiveness);
    s.response_sent();
    assert_eq!(s.stage, Stage::Responded);
    s.close_served();
    assert_eq!(s.stage, Stage::Closed(Outcome::Served));
}

#[test]
fn prefix_validation() {
    assert!(path_has_prefix(&b"/colibri-ws/jvb-abc123/extra".to_vec()));
    assert!(path_has_prefix(&b"/colibri-ws/jvb-".to_vec()));
    assert!(!path_has_prefix(&b"/not-a-match".to_vec()));
    assert!(!path_has_prefix(&b"/colibri-ws/jvb".to_vec()));
    assert!(!path_has_prefix(&b"/colibri-ws/abc-jvb-x".to_vec()));
    assert!(!path_has_prefix(&b"".to_vec()));
    assert!(!path_has_prefix(&b"colibri-ws/jvb-abc".to_vec()));
}

#[test]
fn pod_id_extraction_exact() {
    assert_eq!(
        extract_pod_id(&b"/colibri-ws/jvb-abc123/extra".to_vec()),
        b"abc123".to_vec()
    );
    assert_eq!(
        extract_pod_id(&b"/colibri-ws/jvb-abc123".to_vec()),
        b"abc123".to_vec()
    );
    assert_eq!(extract_pod_id(&b"/colibri-ws/jvb-".to_vec()), b"".to_vec());
    assert_eq!(extract_pod_id(&b"/colibri-ws/jvb-/x".to_vec()), b"".to_vec());
    assert_eq!(extract_pod_id(&b"/colibri-ws/jvb-a/b/c".to_vec()), b"a".to_vec());
}

#[test]
fn rejected_path_gets_404_and_no_lookup() {
    let mut s = Session::new();
    assert!(!s.on_peek(b"GET /n"));
    assert_eq!(s.stage, Stage::ProbedUpgrade);
    let r = s.on_request_path(b"/not-a-match".to_vec());
    let rejection = r.expect_err("path must be rejected");
    assert_eq!(rejection.status(), 404);
    assert_eq!(s.stage, Stage::Closed(Outcome::Rejected));
}

#[test]
fn backend_decision_per_lookup_outcome() {
    assert_eq!(
        decide_backend(LookupOutcome::Absent),
        Err(SessionError::PodAbsent)
    );
    assert_eq!(
        decide_backend(LookupOutcome::Failed),
        Err(SessionError::LookupFailed)
    );
    assert_eq!(
        decide_backend(LookupOutcome::Found { ip: None }),
        Err(SessionError::MissingIp)
    );
    assert_eq!(
        decide_backend(LookupOutcome::Found { ip: Some(b"".to_vec()) }),
        Err(SessionError::MissingIp)
    );
    assert_eq!(
        decide_backend(LookupOutcome::Found { ip: Some(b"10.0.0.5".to_vec()) }),
        Ok(b"10.0.0.5".to_vec())
    );
}

#[test]
fn target_url_built_verbatim() {
    let url = build_target_url(
        &b"10.0.0.5".to_vec(),
        &b"/colibri-ws/jvb-abc123/extra".to_vec(),
    );
    assert_eq!(url, b"ws://10.0.0.5:8080/colibri-ws/jvb-abc123/extra".to_vec());
}

#[test]
fn missing_ip_aborts_before_any_connect() {
    let mut s = Session::new();
    assert!(!s.on_peek(b"GET /c"));
    s.on_request_path(b"/colibri-ws/jvb-abc123/extra".to_vec())
        .expect("valid path");
    assert_eq!(s.stage, Stage::PathValidated);
    assert_eq!(s.pod_name(), &b"abc123".to_vec());
    let r = s.on_lookup(LookupOutcome::Found { ip: None });
    assert_eq!(r, Err(SessionError::MissingIp));
    assert_eq!(s.stage, Stage::Closed(Outcome::Failed(SessionError::MissingIp)));
}

#[test]
fn bare_prefix_is_accepted_and_fails_at_lookup() {
    // `/colibri-ws/jvb-` starts with the prefix, so it is not rejected; the
    // identifier is empty and the cluster lookup is simply left to fail.
    let mut s = Session::new();
    assert!(!s.on_peek(b"GET /c"));
    s.on_request_path(b"/colibri-ws/jvb-".to_vec()).expect("prefix matches");
    assert_eq!(s.stage, Stage::PathValidated);
    assert_eq!(s.pod_name(), &b"".to_vec());
    let r = s.on_lookup(LookupOutcome::Absent);
    assert_eq!(r, Err(SessionError::PodAbsent));
    assert_eq!(s.stage, Stage::Closed(Outcome::Failed(SessionError::PodAbsent)));
}

#[test]
fn absent_pod_aborts_before_any_connect() {
    let mut s = Session::new();
    assert!(!s.on_peek(b"GET /c"));
    s.on_request_path(b"/colibri-ws/jvb-gone".to_vec()).expect("valid path");
    let r = s.on_lookup(LookupOutcome::Absent);
    assert_eq!(r, Err(SessionError::PodAbsent));
    assert_eq!(s.stage, Stage::Closed(Outcome::Failed(SessionError::PodAbsent)));
}

#[test]
fn lookup_failure_aborts_before_any_connect() {
    let mut s = Session::new();
    assert!(!s.on_peek(b"GET /c"));
    s.on_request_path(b"/colibri-ws/jvb-x".to_vec()).expect("valid path");
    let r = s.on_lookup(LookupOutcome::Failed);
    assert_eq!(r, Err(SessionError::LookupFailed));
    assert_eq!(
        s.stage,
        Stage::Closed(Outcome::Failed(SessionError::LookupFailed))
    );
}

#[test]
fn connect_failure_aborts_session() {
    let mut s = Session::new();
    assert!(!s.on_peek(b"GET /c"));
    s.on_request_path(b"/colibri-ws/jvb-a".to_vec()).expect("valid path");
    s.on_lookup(LookupOutcome::Found { ip: Some(b"10.1.2.3".to_vec()) })
        .expect("resolved");
    let r = s.on_connect(false);
    assert_eq!(r, Err(SessionError::ConnectFailed));
    assert_eq!(
        s.stage,
        Stage::Closed(Outcome::Failed(SessionError::ConnectFailed))
    );
}

#[test]
fn full_session_reaches_relay_and_closes() {
    let mut s = Session::new();
    assert!(!s.on_peek(b"GET /c"));
    s.on_request_path(b"/colibri-ws/jvb-abc123/extra".to_vec())
        .expect("valid path");
    let url = s
        .on_lookup(LookupOutcome::Found { ip: Some(b"10.0.0.5".to_vec()) })
        .expect("resolved");
    assert_eq!(url, b"ws://10.0.0.5:8080/colibri-ws/jvb-abc123/extra".to_vec());
    assert_eq!(s.stage, Stage::PodResolved);
    s.on_connect(true).expect("connected");
    assert_eq!(s.stage, Stage::BackendConnected);
    s.relay_started();
    assert_eq!(s.stage, Stage::Relaying);
    s.on_relay_end(true);
    assert_eq!(s.stage, Stage::Closed(Outcome::Relayed));
}

#[test]
fn relay_error_closes_session_failed() {
    let mut s = Session::new();
    assert!(!s.on_peek(b"GET /c"));
    s.on_request_path(b"/colibri-ws/jvb-a".to_vec()).expect("valid path");
    s.on_lookup(LookupOutcome::Found { ip: Some(b"10.0.0.9".to_vec()) })
        .expect("resolved");
    s.on_connect(true).expect("connected");
    s.relay_started();
    s.on_relay_end(false);
    assert_eq!(
        s.stage,
        Stage::Closed(Outcome::Failed(SessionError::RelayFailed))
    );
}

#[test]
fn concurrent_sessions_are_independent() {
    // Two sessions for distinct pods, driven interleaved: a failure in one
    // neither aborts nor alters the other.
    let mut a = Session::new();
    let mut b = Session::new();
    assert!(!a.on_peek(b"GET /c"));
    assert!(!b.on_peek(b"GET /c"));
    a.on_request_path(b"/colibri-ws/jvb-one/x".to_vec()).expect("valid path");
    b.on_request_path(b"/colibri-ws/jvb-two/y".to_vec()).expect("valid path");
    assert_eq!(a.pod_name(), &b"one".to_vec());
    assert_eq!(b.pod_name(), &b"two".to_vec());
    let ra = a.on_lookup(LookupOutcome::Absent);
    assert_eq!(ra, Err(SessionError::PodAbsent));
    let url = b
        .on_lookup(LookupOutcome::Found { ip: Some(b"10.0.0.7".to_vec()) })
        .expect("resolved");
    assert_eq!(url, b"ws://10.0.0.7:8080/colibri-ws/jvb-two/y".to_vec());
    b.on_connect(true).expect("connected");
    b.relay_started();
    b.on_relay_end(true);
    assert_eq!(a.stage, Stage::Closed(Outcome::Failed(SessionError::PodAbsent)));
    assert_eq!(b.stage, Stage::Closed(Outcome::Relayed));
}
