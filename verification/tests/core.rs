use rest_client::request::{body_to_send, build_request, header_map, method_from_name, Method};
use rest_client::response::{
    decimal_string, format_body, render_outcome, status_reason, success_outcome, ResponseOutcome,
};
use rest_client::rows::{effective_entries, Row};
use rest_client::url::{attach_params, ensure_url_protocol, serialize_params};

fn row(included: bool, key: &str, value: &str) -> Row {
    Row { included, key: key.to_string(), value: value.to_string() }
}

fn pairs(ps: &[(&str, &str)]) -> Vec<(String, String)> {
    ps.iter().map(|(k, v)| (k.to_string(), v.to_string())).collect()
}

#[test]
fn normalize_adds_default_scheme() {
    assert_eq!(ensure_url_protocol("example.com"), "https://example.com");
}

#[test]
fn normalize_keeps_http() {
    assert_eq!(ensure_url_protocol("http://x"), "http://x");
}

#[test]
fn normalize_keeps_https() {
    assert_eq!(ensure_url_protocol("https://x"), "https://x");
}

#[test]
fn normalize_empty_url() {
    assert_eq!(ensure_url_protocol(""), "https://");
}

#[test]
fn normalize_is_case_sensitive() {
    assert_eq!(ensure_url_protocol("HTTP://x"), "https://HTTP://x");
}

#[test]
fn effective_entries_filter_rows() {
    let rows = vec![row(true, "a", "1"), row(false, "b", "2"), row(true, "", "3")];
    assert_eq!(effective_entries(&rows), pairs(&[("a", "1")]));
}

#[test]
fn effective_entry_keeps_empty_value() {
    assert_eq!(row(true, "k", "").effective(), Some(("k".to_string(), String::new())));
    assert_eq!(row(false, "k", "v").effective(), None);
    assert_eq!(row(true, "", "v").effective(), None);
}

#[test]
fn new_row_is_included_and_empty() {
    let r = Row::new();
    assert!(r.included);
    assert_eq!(r.key, "");
    assert_eq!(r.value, "");
}

#[test]
fn serialize_params_joins_raw_segments() {
    assert_eq!(serialize_params(&pairs(&[("a", "1"), ("b", "2")])), "a=1&b=2");
    assert_eq!(serialize_params(&pairs(&[("a", "1")])), "a=1");
    assert_eq!(serialize_params(&pairs(&[])), "");
}

#[test]
fn serialize_params_does_not_encode() {
    assert_eq!(serialize_params(&pairs(&[("a b", "c&d")])), "a b=c&d");
}

#[test]
fn attach_params_starts_query() {
    let url = "https://x/y".to_string();
    assert_eq!(attach_params(url, &pairs(&[("a", "1"), ("b", "2")])), "https://x/y?a=1&b=2");
}

#[test]
fn attach_params_extends_query() {
    let url = "https://x/y?z=9".to_string();
    assert_eq!(attach_params(url, &pairs(&[("a", "1"), ("b", "2")])), "https://x/y?z=9&a=1&b=2");
}

#[test]
fn attach_params_leaves_url_without_entries() {
    assert_eq!(attach_params("https://x/y".to_string(), &pairs(&[])), "https://x/y");
}

#[test]
fn header_map_last_write_wins() {
    assert_eq!(header_map(&pairs(&[("H", "1"), ("H", "2")])), pairs(&[("H", "2")]));
}

#[test]
fn header_map_keeps_distinct_keys() {
    assert_eq!(
        header_map(&pairs(&[("A", "1"), ("B", "2"), ("A", "3")])),
        pairs(&[("A", "3"), ("B", "2")])
    );
}

#[test]
fn method_names_map_to_verbs() {
    assert_eq!(method_from_name("GET"), Method::Get);
    assert_eq!(method_from_name("POST"), Method::Post);
    assert_eq!(method_from_name("PUT"), Method::Put);
    assert_eq!(method_from_name("DELETE"), Method::Delete);
    assert_eq!(method_from_name("PATCH"), Method::Patch);
}

#[test]
fn unknown_method_name_falls_back_to_get() {
    assert_eq!(method_from_name("OPTIONS"), Method::Get);
    assert_eq!(method_from_name(""), Method::Get);
    assert_eq!(method_from_name("get"), Method::Get);
}

#[test]
fn get_never_carries_a_body() {
    assert_eq!(body_to_send(Method::Get, "payload".to_string()), None);
}

#[test]
fn empty_body_is_omitted() {
    assert_eq!(body_to_send(Method::Post, String::new()), None);
}

#[test]
fn post_carries_body_verbatim() {
    assert_eq!(body_to_send(Method::Post, "payload".to_string()), Some("payload".to_string()));
}

#[test]
fn json_body_is_pretty_printed() {
    let shown = format_body("{\"a\":1}".to_string());
    assert_eq!(shown, "{\n  \"a\": 1\n}");
    assert!(shown.lines().count() > 1);
}

#[test]
fn non_json_body_is_unchanged() {
    assert_eq!(format_body("not json".to_string()), "not json");
    assert_eq!(format_body(String::new()), "");
}

#[test]
fn status_reason_is_canonical() {
    assert_eq!(status_reason(200), "OK");
    assert_eq!(status_reason(404), "Not Found");
}

#[test]
fn status_reason_empty_when_undefined() {
    assert_eq!(status_reason(599), "");
    assert_eq!(status_reason(0), "");
}

#[test]
fn decimal_rendering() {
    assert_eq!(decimal_string(0), "0");
    assert_eq!(decimal_string(7), "7");
    assert_eq!(decimal_string(404), "404");
    assert_eq!(decimal_string(65535), "65535");
}

#[test]
fn render_success_fills_all_three_surfaces() {
    let outcome = success_outcome(
        200,
        pairs(&[("content-type", "application/json"), ("server", "s")]),
        "{\"a\":1}".to_string(),
    );
    let shown = render_outcome(outcome);
    assert_eq!(shown.status_line, "Status: 200 OK");
    assert_eq!(shown.headers_text, Some("content-type: application/json\nserver: s".to_string()));
    assert_eq!(shown.body_text, "{\n  \"a\": 1\n}");
}

#[test]
fn render_success_without_reason_keeps_trailing_space() {
    let outcome = success_outcome(599, pairs(&[]), "ok".to_string());
    let shown = render_outcome(outcome);
    assert_eq!(shown.status_line, "Status: 599 ");
    assert_eq!(shown.headers_text, Some(String::new()));
    assert_eq!(shown.body_text, "ok");
}

#[test]
fn render_failure_reports_description() {
    let outcome = ResponseOutcome::Failure { description: "connection refused".to_string() };
    let shown = render_outcome(outcome);
    assert_eq!(shown.status_line, "Error");
    assert_eq!(shown.headers_text, None);
    assert_eq!(shown.body_text, "Error: connection refused");
    assert!(shown.body_text.len() > "Error: ".len());
}

#[test]
fn build_request_assembles_whole_pipeline() {
    let params = vec![row(true, "a", "1"), row(false, "b", "2"), row(true, "", "3")];
    let headers = vec![row(true, "H", "1"), row(true, "H", "2"), row(true, "K", "3")];
    let spec = build_request("POST", "example.com/api", &params, &headers, "data".to_string());
    assert_eq!(spec.method, Method::Post);
    assert_eq!(spec.url, "https://example.com/api?a=1");
    assert_eq!(header_map(&spec.headers), spec.headers.clone());
    assert_eq!(spec.headers, pairs(&[("H", "2"), ("K", "3")]));
    assert_eq!(spec.body, Some("data".to_string()));
}

#[test]
fn build_request_get_drops_body_and_keeps_query() {
    let spec = build_request(
        "GET",
        "http://host/path?z=9",
        &vec![row(true, "a", "1")],
        &vec![],
        "ignored".to_string(),
    );
    assert_eq!(spec.method, Method::Get);
    assert_eq!(spec.url, "http://host/path?z=9&a=1");
    assert_eq!(spec.headers, pairs(&[]));
    assert_eq!(spec.body, None);
}
