use tourney::config::{init, RequestIdFairing};
use tourney::error::Status;
use tourney::health::{liveness, readiness, routes};
use tourney::route::Method;
use tourney::spa::{self, FALLBACK_RANK, SPA_DIR};
use tourney::websocket;

#[test]
fn test_health_routes_count() {
    let routes = routes();
    assert_eq!(routes.len(), 2);
}

#[test]
fn test_spa_routes_count() {
    let routes = spa::routes();
    assert_eq!(routes.len(), 1);
}

#[test]
fn test_spa_dir_constant() {
    assert_eq!(SPA_DIR, "web/landing/out");
}

#[test]
fn liveness_reports_ok_without_database() {
    let body = liveness();
    assert_eq!(body.status, "ok");
    assert!(body.database.is_none());
}

#[test]
fn readiness_follows_the_database() {
    let ready = readiness(true).unwrap();
    assert_eq!(ready.status, "ok");
    assert_eq!(ready.database.unwrap(), "connected");
    assert_eq!(readiness(false).unwrap_err(), Status::ServiceUnavailable);
}

#[test]
fn endpoint_paths() {
    let r = routes();
    assert_eq!(r[0].method, Method::Get);
    assert_eq!(r[0].path, "/live");
    assert_eq!(r[1].path, "/ready");
    let s = spa::routes();
    assert_eq!(s[0].rank, FALLBACK_RANK);
    let w = websocket::routes();
    assert_eq!(w.len(), 1);
    assert_eq!(w[0].path, "/tournaments/<tournament_id>?<token>");
}

#[test]
fn request_id_prefers_the_header() {
    let fairing: RequestIdFairing = init();
    assert_eq!(fairing.request_id(Some("abc-123".to_string())), "abc-123");
    let fresh = fairing.request_id(None);
    assert_eq!(fresh.len(), 36);
    assert_ne!(fresh, fairing.request_id(None));
}
