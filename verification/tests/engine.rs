//! Request-path behaviour: matching and response synthesis.

use mocify::matcher::{find_route, method_matches, normalize_path};
use mocify::models::{Header, HttpMethod, Route};
use mocify::synthesizer::{handle_mock_request, not_found_plan, render_plan, synthesize};

fn route(method: HttpMethod, path: &str, status_code: u16) -> Route {
    Route {
        id: format!("id-{}-{}", status_code, path),
        collection_id: "col-1".to_string(),
        name: format!("route {}", path),
        method,
        path: path.to_string(),
        status_code,
        response_body: None,
        response_headers: None,
        delay_ms: None,
        created_at: 1_700_000_000_000,
        updated_at: 1_700_000_000_000,
    }
}

fn header(name: &str, value: &str) -> Header {
    Header { name: name.to_string(), value: value.to_string() }
}

#[test]
fn matcher_selects_the_unique_route() {
    let routes = vec![
        route(HttpMethod::Get, "/users", 200),
        route(HttpMethod::Post, "/users", 201),
        route(HttpMethod::Get, "/items", 200),
    ];
    assert_eq!(find_route(&routes, &HttpMethod::Get, &"/users".to_string()), Some(0));
    assert_eq!(find_route(&routes, &HttpMethod::Post, &"/users".to_string()), Some(1));
    assert_eq!(find_route(&routes, &HttpMethod::Get, &"/items".to_string()), Some(2));
}

#[test]
fn matcher_returns_none_for_other_method_or_path() {
    let routes = vec![route(HttpMethod::Get, "/users", 200)];
    assert_eq!(find_route(&routes, &HttpMethod::Post, &"/users".to_string()), None);
    assert_eq!(find_route(&routes, &HttpMethod::Delete, &"/users".to_string()), None);
    assert_eq!(find_route(&routes, &HttpMethod::Get, &"/user".to_string()), None);
    assert_eq!(find_route(&routes, &HttpMethod::Get, &"/users/".to_string()), None);
}

#[test]
fn matching_is_case_sensitive_and_exact() {
    let routes = vec![route(HttpMethod::Get, "/Users", 200)];
    assert_eq!(find_route(&routes, &HttpMethod::Get, &"/users".to_string()), None);
    assert_eq!(find_route(&routes, &HttpMethod::Get, &"/Users".to_string()), Some(0));
}

#[test]
fn method_comparison_is_exact() {
    let methods = [
        HttpMethod::Get,
        HttpMethod::Post,
        HttpMethod::Put,
        HttpMethod::Delete,
        HttpMethod::Patch,
        HttpMethod::Head,
        HttpMethod::Options,
    ];
    for a in &methods {
        for b in &methods {
            assert_eq!(method_matches(a, b), a == b);
        }
    }
}

#[test]
fn method_names_round_trip() {
    let methods = [
        HttpMethod::Get,
        HttpMethod::Post,
        HttpMethod::Put,
        HttpMethod::Delete,
        HttpMethod::Patch,
        HttpMethod::Head,
        HttpMethod::Options,
    ];
    let names = ["GET", "POST", "PUT", "DELETE", "PATCH", "HEAD", "OPTIONS"];
    for (m, n) in methods.iter().zip(names.iter()) {
        assert_eq!(m.as_str(), *n);
        assert_eq!(HttpMethod::parse(*n), Some(*m));
    }
    assert_eq!(HttpMethod::parse("get"), None);
    assert_eq!(HttpMethod::parse("TRACE"), None);
    assert_eq!(HttpMethod::parse(""), None);
}

#[test]
fn normalize_strips_query_and_defaults_to_slash() {
    assert_eq!(normalize_path("/a/b?x=1&y=2"), "/a/b");
    assert_eq!(normalize_path("/a/b"), "/a/b");
    assert_eq!(normalize_path("?x=1"), "/");
    assert_eq!(normalize_path(""), "/");
    assert_eq!(normalize_path("/??"), "/");
    assert_eq!(normalize_path("/a%20b"), "/a%20b");
}

#[test]
fn configured_response_is_served_verbatim() {
    // status 201, body {"ok":true}, no explicit content-type, no delay
    let mut rt = route(HttpMethod::Post, "/things", 201);
    rt.response_body = Some("{\"ok\":true}".to_string());
    let routes = vec![rt];
    let plan = handle_mock_request(Some(&routes), &HttpMethod::Post, "/things");
    assert_eq!(plan.status_code, 201);
    assert_eq!(plan.body, "{\"ok\":true}");
    assert_eq!(plan.delay_ms, None);
    assert_eq!(plan.headers.len(), 1);
    assert_eq!(plan.headers[0].name, "content-type");
    assert_eq!(plan.headers[0].value, "application/json");
}

#[test]
fn status_codes_are_never_special_cased() {
    let mut rt = route(HttpMethod::Get, "/empty", 204);
    rt.response_body = Some("still a body".to_string());
    let plan = synthesize(&rt);
    assert_eq!(plan.status_code, 204);
    assert_eq!(plan.body, "still a body");
}

#[test]
fn configured_delay_is_passed_through() {
    let mut rt = route(HttpMethod::Get, "/slow", 200);
    rt.delay_ms = Some(200);
    let plan = synthesize(&rt);
    assert_eq!(plan.delay_ms, Some(200));
    // The host applies the delay per request; other concurrent requests on
    // the listener are not serialized behind it.
}

#[test]
fn unknown_path_is_404_regardless_of_method() {
    let routes = vec![route(HttpMethod::Get, "/known", 200)];
    let methods = [
        HttpMethod::Get,
        HttpMethod::Post,
        HttpMethod::Put,
        HttpMethod::Delete,
        HttpMethod::Patch,
        HttpMethod::Head,
        HttpMethod::Options,
    ];
    for m in &methods {
        let plan = handle_mock_request(Some(&routes), m, "/unknown");
        assert_eq!(plan.status_code, 404);
        assert_eq!(plan.body, "Route not found");
        assert_eq!(plan.headers.len(), 1);
        assert_eq!(plan.headers[0].name, "content-type");
        assert_eq!(plan.headers[0].value, "text/plain; charset=utf-8");
    }
}

#[test]
fn store_read_failure_is_a_server_error() {
    let plan = handle_mock_request(None, &HttpMethod::Get, "/anything");
    assert_eq!(plan.status_code, 500);
    assert_eq!(plan.body, "Database error");
    assert_eq!(plan.headers[0].value, "text/plain; charset=utf-8");
}

#[test]
fn query_string_is_ignored_when_matching() {
    let routes = vec![route(HttpMethod::Get, "/search", 200)];
    let plan = handle_mock_request(Some(&routes), &HttpMethod::Get, "/search?q=verus");
    assert_eq!(plan.status_code, 200);
}

#[test]
fn stored_headers_are_kept_in_order_with_default_content_type() {
    let mut rt = route(HttpMethod::Get, "/h", 200);
    rt.response_headers = Some(vec![
        header("x-first", "1"),
        header("x-second", "2"),
    ]);
    let plan = synthesize(&rt);
    assert_eq!(plan.headers.len(), 3);
    assert_eq!(plan.headers[0].name, "x-first");
    assert_eq!(plan.headers[0].value, "1");
    assert_eq!(plan.headers[1].name, "x-second");
    assert_eq!(plan.headers[2].name, "content-type");
    assert_eq!(plan.headers[2].value, "application/json");
}

#[test]
fn explicit_content_type_suppresses_the_default() {
    let mut rt = route(HttpMethod::Get, "/h", 200);
    rt.response_headers = Some(vec![header("Content-Type", "text/html")]);
    let plan = synthesize(&rt);
    assert_eq!(plan.headers.len(), 1);
    assert_eq!(plan.headers[0].name, "Content-Type");
    assert_eq!(plan.headers[0].value, "text/html");
}

#[test]
fn malformed_headers_are_dropped_individually() {
    let mut rt = route(HttpMethod::Get, "/h", 200);
    rt.response_headers = Some(vec![
        header("x-bad-value", "line\nbreak"),
        header("bad name", "ok"),
        header("", "ok"),
        header("x-good", "kept"),
    ]);
    let plan = synthesize(&rt);
    assert_eq!(plan.headers.len(), 2);
    assert_eq!(plan.headers[0].name, "x-good");
    assert_eq!(plan.headers[1].name, "content-type");
}

#[test]
fn malformed_content_type_is_dropped_but_counts_as_stored() {
    let mut rt = route(HttpMethod::Get, "/h", 200);
    rt.response_headers = Some(vec![header("content-type", "bad\u{7f}value")]);
    let plan = synthesize(&rt);
    // The stored header named the content type, so no default is added,
    // and its unusable value is dropped: no header goes out.
    assert_eq!(plan.headers.len(), 0);
}

#[test]
fn plans_render_to_wire_text() {
    let mut rt = route(HttpMethod::Post, "/things", 201);
    rt.response_body = Some("{\"ok\":true}".to_string());
    let plan = synthesize(&rt);
    assert_eq!(
        render_plan(&plan),
        "HTTP/1.1 201 \r\ncontent-type: application/json\r\ncontent-length: 11\r\n\r\n{\"ok\":true}"
    );
}

#[test]
fn not_found_renders_to_wire_text() {
    assert_eq!(
        render_plan(&not_found_plan()),
        "HTTP/1.1 404 \r\ncontent-type: text/plain; charset=utf-8\r\ncontent-length: 15\r\n\r\nRoute not found"
    );
}

#[test]
fn content_length_counts_bytes_not_characters() {
    let mut rt = route(HttpMethod::Get, "/u", 200);
    rt.response_body = Some("héllo".to_string());
    let plan = synthesize(&rt);
    let text = render_plan(&plan);
    assert!(text.contains("content-length: 6\r\n"));
    assert!(text.ends_with("héllo"));
}

#[test]
fn empty_body_when_none_is_configured() {
    let rt = route(HttpMethod::Get, "/nobody", 200);
    let plan = synthesize(&rt);
    assert_eq!(plan.body, "");
}
