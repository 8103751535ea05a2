//! Registry and listener lifecycle behaviour, and the administrative
//! record operations.

use mocify::admin::{
    apply_collection_update, apply_route_update, build_collection, build_route,
};
use mocify::listener::{ListenerState, MockServer};
use mocify::models::{
    Collection, CreateCollectionRequest, CreateRouteRequest, HttpMethod, MockServerError,
    UpdateCollectionRequest, UpdateRouteRequest,
};
use mocify::registry::ServerRegistry;

fn collection(id: &str, name: &str, port: u16) -> Collection {
    Collection {
        id: id.to_string(),
        name: name.to_string(),
        description: None,
        port,
        base_path: None,
        created_at: 1_700_000_000_000,
        updated_at: 1_700_000_000_000,
    }
}

#[test]
fn start_on_a_running_port_fails_and_changes_nothing() {
    let mut reg = ServerRegistry::new();
    assert!(reg.start("col-1", 4000, true).is_ok());
    assert!(reg.status_of(4000));
    let second = reg.start("col-2", 4000, true);
    assert!(matches!(second, Err(MockServerError::AlreadyRunning { port: 4000 })));
    // the pre-existing listener is untouched
    assert!(reg.status_of(4000));
}

#[test]
fn stop_without_a_listener_fails_with_not_running() {
    let mut reg = ServerRegistry::new();
    assert!(reg.start("col-1", 4000, true).is_ok());
    let r = reg.stop(4001);
    assert!(matches!(r, Err(MockServerError::NotRunning { port: 4001 })));
    // no side effect on the registry
    assert!(reg.status_of(4000));
    assert!(!reg.status_of(4001));
}

#[test]
fn stop_then_start_yields_a_fresh_listener() {
    let mut reg = ServerRegistry::new();
    assert!(reg.start("col-1", 4000, true).is_ok());
    let stopped = reg.stop(4000).unwrap();
    assert_eq!(stopped.state, ListenerState::ShuttingDown);
    assert!(!reg.status_of(4000));
    assert!(reg.start("col-1", 4000, true).is_ok());
    assert!(reg.status_of(4000));
    let fresh = reg.stop(4000).unwrap();
    assert_eq!(fresh.port, 4000);
    assert_eq!(fresh.collection_id, "col-1");
}

#[test]
fn bind_failure_is_reported_and_nothing_is_inserted() {
    let mut reg = ServerRegistry::new();
    let r = reg.start("col-1", 4000, false);
    assert!(matches!(r, Err(MockServerError::BindError { port: 4000 })));
    assert!(!reg.status_of(4000));
}

#[test]
fn two_ports_run_independently() {
    let mut reg = ServerRegistry::new();
    assert!(reg.start("col-1", 4000, true).is_ok());
    assert!(reg.start("col-2", 4001, true).is_ok());
    assert!(reg.stop_server(4000).is_ok());
    // stopping one leaves the other running
    assert!(!reg.status_of(4000));
    assert!(reg.status_of(4001));
    assert!(reg.stop_server(4001).is_ok());
    assert!(!reg.status_of(4001));
}

#[test]
fn stop_if_running_reports_membership() {
    let mut reg = ServerRegistry::new();
    assert!(reg.start("col-1", 4000, true).is_ok());
    assert!(reg.stop_if_running(4000));
    assert!(!reg.stop_if_running(4000));
    assert!(!reg.status_of(4000));
}

#[test]
fn start_server_reports_the_status_row() {
    let mut reg = ServerRegistry::new();
    let c = collection("col-1", "demo", 4123);
    let st = reg.start_server("col-1", Some(&c), true).unwrap();
    assert_eq!(st.port, 4123);
    assert_eq!(st.collection_id, "col-1");
    assert_eq!(st.collection_name, "demo");
    assert!(st.is_running);
    assert_eq!(st.base_url, "http://localhost:4123");
}

#[test]
fn start_server_without_a_collection_fails() {
    let mut reg = ServerRegistry::new();
    let r = reg.start_server("missing", None, true);
    match r {
        Err(MockServerError::CollectionNotFound { collection_id }) => {
            assert_eq!(collection_id, "missing");
        }
        _ => panic!("expected CollectionNotFound"),
    }
    assert!(!reg.status_of(0));
}

#[test]
fn running_servers_snapshot_joins_collections_with_the_table() {
    let mut reg = ServerRegistry::new();
    let c1 = collection("col-1", "one", 4000);
    let c2 = collection("col-2", "two", 65535);
    assert!(reg.start("col-1", 4000, true).is_ok());
    let rows = reg.get_running_servers(&vec![c1, c2]);
    assert_eq!(rows.len(), 2);
    assert_eq!(rows[0].port, 4000);
    assert!(rows[0].is_running);
    assert_eq!(rows[0].base_url, "http://localhost:4000");
    assert_eq!(rows[1].port, 65535);
    assert!(!rows[1].is_running);
    assert_eq!(rows[1].base_url, "http://localhost:65535");
    assert_eq!(rows[1].collection_name, "two");
}

#[test]
fn listener_walks_its_lifecycle() {
    let mut s = MockServer::new(5000, "col-1".to_string());
    assert_eq!(s.state, ListenerState::Created);
    s.mark_bound();
    assert_eq!(s.state, ListenerState::Bound);
    s.begin_serving();
    assert_eq!(s.state, ListenerState::Serving);
    s.stop();
    assert_eq!(s.state, ListenerState::ShuttingDown);
    s.mark_stopped();
    assert_eq!(s.state, ListenerState::Stopped);
    // stop after the terminal state is a no-op
    s.stop();
    assert_eq!(s.state, ListenerState::Stopped);
}

#[test]
fn listener_start_reflects_the_bind_outcome() {
    let mut ok = MockServer::new(5000, "col-1".to_string());
    assert!(ok.start(true).is_ok());
    assert_eq!(ok.state, ListenerState::Serving);
    let mut bad = MockServer::new(5001, "col-1".to_string());
    assert!(matches!(bad.start(false), Err(MockServerError::BindError { port: 5001 })));
    assert_eq!(bad.state, ListenerState::Created);
}

#[test]
fn build_collection_stamps_id_and_times() {
    let req = CreateCollectionRequest {
        name: "demo".to_string(),
        description: Some("a demo".to_string()),
        port: 4000,
        base_path: None,
    };
    let c = build_collection(req, "col-9".to_string(), 42);
    assert_eq!(c.id, "col-9");
    assert_eq!(c.name, "demo");
    assert_eq!(c.description.as_deref(), Some("a demo"));
    assert_eq!(c.port, 4000);
    assert_eq!(c.created_at, 42);
    assert_eq!(c.updated_at, 42);
}

#[test]
fn build_route_stamps_id_and_times() {
    let req = CreateRouteRequest {
        collection_id: "col-1".to_string(),
        name: "users".to_string(),
        method: HttpMethod::Get,
        path: "/users".to_string(),
        status_code: 200,
        response_body: Some("[]".to_string()),
        response_headers: None,
        delay_ms: Some(5),
    };
    let rt = build_route(req, "route-7".to_string(), 42);
    assert_eq!(rt.id, "route-7");
    assert_eq!(rt.collection_id, "col-1");
    assert_eq!(rt.method, HttpMethod::Get);
    assert_eq!(rt.path, "/users");
    assert_eq!(rt.status_code, 200);
    assert_eq!(rt.response_body.as_deref(), Some("[]"));
    assert_eq!(rt.delay_ms, Some(5));
    assert_eq!(rt.created_at, 42);
    assert_eq!(rt.updated_at, 42);
}

#[test]
fn collection_update_merges_given_fields_only() {
    let c = collection("col-1", "old", 4000);
    let req = UpdateCollectionRequest {
        id: "col-1".to_string(),
        name: Some("new".to_string()),
        description: None,
        port: Some(4001),
        base_path: None,
    };
    let r = apply_collection_update(c, req, 99);
    assert_eq!(r.id, "col-1");
    assert_eq!(r.name, "new");
    assert_eq!(r.description, None);
    assert_eq!(r.port, 4001);
    assert_eq!(r.created_at, 1_700_000_000_000);
    assert_eq!(r.updated_at, 99);
}

#[test]
fn route_update_merges_given_fields_only() {
    let req = CreateRouteRequest {
        collection_id: "col-1".to_string(),
        name: "users".to_string(),
        method: HttpMethod::Get,
        path: "/users".to_string(),
        status_code: 200,
        response_body: Some("[]".to_string()),
        response_headers: None,
        delay_ms: None,
    };
    let rt = build_route(req, "route-7".to_string(), 42);
    let upd = UpdateRouteRequest {
        id: "route-7".to_string(),
        name: None,
        method: Some(HttpMethod::Post),
        path: None,
        status_code: Some(201),
        response_body: None,
        response_headers: None,
        delay_ms: Some(10),
    };
    let r = apply_route_update(rt, upd, 99);
    assert_eq!(r.id, "route-7");
    assert_eq!(r.name, "users");
    assert_eq!(r.method, HttpMethod::Post);
    assert_eq!(r.path, "/users");
    assert_eq!(r.status_code, 201);
    assert_eq!(r.response_body.as_deref(), Some("[]"));
    assert_eq!(r.delay_ms, Some(10));
    assert_eq!(r.created_at, 42);
    assert_eq!(r.updated_at, 99);
}
