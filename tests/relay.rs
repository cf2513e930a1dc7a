use github_relay::cache::{cache_key, effective_headers, finish_cached, window_ms, ResultCache};
use github_relay::error::FetchError;
use github_relay::fetch::{upstream_url, Hop, HopEvent, PageFetch, PageReply};
use github_relay::headers::{name_is, translate_headers, Header};
use github_relay::json::{parse_array, to_json_text, OpaqueJsonArray};
use github_relay::response::{assemble, error_response, relay_status, serialize_for_response};
use github_relay::route::parse_minutes;

fn header(name: &str, value: &str) -> Header {
    Header { name: name.to_string(), value: value.as_bytes().to_vec() }
}

fn page(status: u16, body: &str, link: Option<&str>) -> HopEvent {
    HopEvent::Replied(PageReply {
        status,
        body: Ok(body.to_string()),
        link: link.map(|l| Ok(l.to_string())),
    })
}

fn array(text: &str) -> OpaqueJsonArray {
    parse_array(text).unwrap()
}

fn done(hop: Hop) -> Result<OpaqueJsonArray, FetchError> {
    match hop {
        Hop::Done(r) => r,
        Hop::Get(req) => panic!("unexpected follow-up GET to {}", req.url),
    }
}

fn has_cors(headers: &[Header]) -> bool {
    headers.len() == 1
        && headers[0].name == "access-control-allow-origin"
        && headers[0].value == b"*".to_vec()
}

#[test]
fn two_pages_are_joined_in_order() {
    let (mut fetch, first) = PageFetch::start("https://api/x", vec![header("accept", "application/json")]);
    assert_eq!(first.url, "https://api/x");
    let next = fetch.step(page(200, r#"[{"id":1},{"id":2}]"#, Some(r#"<https://api/x?page=2>; rel="next""#)));
    let req = match next {
        Hop::Get(req) => req,
        Hop::Done(_) => panic!("expected a follow-up GET"),
    };
    assert_eq!(req.url, "https://api/x?page=2");
    let result = done(fetch.step(page(200, r#"[{"id":3}]"#, None)));
    let response = assemble(&result);
    assert_eq!(response.status, 200);
    assert_eq!(response.body, r#"[{"id":1},{"id":2},{"id":3}]"#);
    assert!(has_cors(&response.headers));
}

#[test]
fn single_page_is_returned_as_is() {
    let (mut fetch, _) = PageFetch::start("https://api/y", Vec::new());
    let result = done(fetch.step(page(200, r#"[1,"two",{"three":3}]"#, None)));
    let values = result.ok().unwrap();
    assert_eq!(values.values, array(r#"[1,"two",{"three":3}]"#).values);
}

#[test]
fn link_without_next_ends_the_fetch() {
    let (mut fetch, _) = PageFetch::start("https://api/y", Vec::new());
    let result = done(fetch.step(page(200, "[1]", Some(r#"<https://api/y?page=1>; rel="prev""#))));
    assert_eq!(result.ok().unwrap().values.len(), 1);
}

#[test]
fn upstream_error_is_relayed_verbatim() {
    let (mut fetch, _) = PageFetch::start("https://api/missing", Vec::new());
    let result = done(fetch.step(page(404, r#"{"message":"Not Found"}"#, None)));
    let response = assemble(&result);
    assert_eq!(response.status, 404);
    assert_eq!(response.body, r#"{"message":"Not Found"}"#);
    assert!(has_cors(&response.headers));
}

#[test]
fn error_on_second_page_discards_first() {
    let (mut fetch, _) = PageFetch::start("https://api/x", Vec::new());
    let _ = fetch.step(page(200, "[1]", Some(r#"<https://api/x?page=2>; rel="next""#)));
    let result = done(fetch.step(page(502, "bad gateway", None)));
    let response = assemble(&result);
    assert_eq!(response.status, 502);
    assert_eq!(response.body, "bad gateway");
}

#[test]
fn unreadable_error_body_gets_placeholder() {
    let (mut fetch, _) = PageFetch::start("https://api/x", Vec::new());
    let event = HopEvent::Replied(PageReply { status: 500, body: Err("boom".to_string()), link: None });
    let response = assemble(&done(fetch.step(event)));
    assert_eq!(response.status, 500);
    assert_eq!(response.body, "Failed to read response body: boom");
}

#[test]
fn network_failure_is_500() {
    let (mut fetch, _) = PageFetch::start("https://api/x", Vec::new());
    let response = assemble(&done(fetch.step(HopEvent::Failed { detail: "refused".to_string() })));
    assert_eq!(response.status, 500);
    assert_eq!(response.body, "Failed to make request to github: refused");
}

#[test]
fn unreadable_success_body_is_500() {
    let (mut fetch, _) = PageFetch::start("https://api/x", Vec::new());
    let event = HopEvent::Replied(PageReply { status: 200, body: Err("cut".to_string()), link: None });
    let response = assemble(&done(fetch.step(event)));
    assert_eq!(response.status, 500);
    assert_eq!(response.body, "Failed to read response: cut");
}

#[test]
fn non_array_body_is_decode_error() {
    let (mut fetch, _) = PageFetch::start("https://api/x", Vec::new());
    let result = done(fetch.step(page(200, r#"{"a":1}"#, None)));
    assert!(matches!(result, Err(FetchError::Decode { .. })));
    let response = assemble(&result);
    assert_eq!(response.status, 500);
    assert!(response.body.starts_with(r#"Failed to read response "{"a":1}": "#));
}

#[test]
fn non_text_link_header_is_500() {
    let (mut fetch, _) = PageFetch::start("https://api/x", Vec::new());
    let event = HopEvent::Replied(PageReply {
        status: 200,
        body: Ok("[]".to_string()),
        link: Some(Err("not visible ASCII".to_string())),
    });
    let response = assemble(&done(fetch.step(event)));
    assert_eq!(response.status, 500);
    assert_eq!(response.body, "Failed to parse link header: not visible ASCII");
}

#[test]
fn malformed_link_header_is_500() {
    let (mut fetch, _) = PageFetch::start("https://api/x", Vec::new());
    let result = done(fetch.step(page(200, "[]", Some("<https://api/x?page=2>; rel"))));
    assert!(matches!(result, Err(FetchError::LinkHeader { .. })));
    let response = assemble(&result);
    assert_eq!(response.status, 500);
    assert_eq!(response.body, r#"Failed to parse link map "<https://api/x?page=2>; rel": malformed parameter list"#);
}

#[test]
fn invalid_status_falls_back_to_500() {
    assert_eq!(relay_status(99), 500);
    assert_eq!(relay_status(1000), 500);
    assert_eq!(relay_status(404), 404);
    let response = error_response(&FetchError::Upstream { status: 42, body: "odd".to_string() });
    assert_eq!(response.status, 500);
    assert_eq!(response.body, "odd");
}

#[test]
fn host_header_follows_each_hop() {
    let inbound = vec![
        header("Host", "localhost:3000"),
        header("accept-encoding", "gzip"),
        header("x-many", "1"),
        header("x-many", "2"),
    ];
    let out = translate_headers(&inbound, "https://api.github.com/repos/x");
    assert_eq!(out.len(), 3);
    assert_eq!(out[0].name, "Host");
    assert_eq!(out[0].value, b"api.github.com".to_vec());
    assert_eq!(out[1].value, b"1".to_vec());
    assert_eq!(out[2].value, b"2".to_vec());
    let out = translate_headers(&inbound, "https://example.org/page2");
    assert_eq!(out[0].value, b"example.org".to_vec());
}

#[test]
fn host_header_omitted_for_unparsable_url() {
    let inbound = vec![header("host", "localhost"), header("accept", "*/*")];
    let out = translate_headers(&inbound, "not a url");
    assert_eq!(out.len(), 1);
    assert_eq!(out[0].name, "accept");
}

#[test]
fn follow_up_request_rewrites_headers_again() {
    let (mut fetch, first) = PageFetch::start("https://api/x", vec![header("host", "me")]);
    assert_eq!(first.headers[0].value, b"api".to_vec());
    let req = match fetch.step(page(200, "[]", Some(r#"<https://other.host/x?page=2>; rel="next""#))) {
        Hop::Get(req) => req,
        Hop::Done(_) => panic!("expected a follow-up GET"),
    };
    assert_eq!(req.headers.len(), 1);
    assert_eq!(req.headers[0].value, b"other.host".to_vec());
}

#[test]
fn names_compare_without_case() {
    assert!(name_is("Authorization", "authorization"));
    assert!(!name_is("authorizatio", "authorization"));
    assert!(!name_is("x-auth", "authorization"));
}

#[test]
fn default_credential_is_added_only_when_missing() {
    let default = Some(b"token abc".to_vec());
    let out = effective_headers(vec![header("accept", "*/*")], &default);
    assert_eq!(out.len(), 2);
    assert_eq!(out[1].name, "authorization");
    assert_eq!(out[1].value, b"token abc".to_vec());
    let key = cache_key(&out, "repos/x");
    assert_eq!(key.0, Some(b"token abc".to_vec()));

    let out = effective_headers(vec![header("Authorization", "token mine")], &default);
    assert_eq!(out.len(), 1);
    assert_eq!(out[0].value, b"token mine".to_vec());

    let out = effective_headers(vec![header("accept", "*/*")], &None);
    assert_eq!(out.len(), 1);
    assert_eq!(cache_key(&out, "repos/x").0, None);
}

#[test]
fn empty_and_absent_credentials_are_distinct_keys() {
    let absent = cache_key(&Vec::new(), "repos/x");
    let empty = cache_key(&vec![header("authorization", "")], "repos/x");
    assert_ne!(absent, empty);
}

#[test]
fn json_round_trip_keeps_values_in_order() {
    let first = array(r#"[{"b":2,"a":1},[1,2],"s",null,true,3.5]"#);
    let text = to_json_text(&first).unwrap();
    let back = parse_array(&text).unwrap();
    assert_eq!(back.values.len(), 6);
    assert_eq!(back.values, first.values);
    assert_eq!(serialize_for_response(&first).body, text);
}

#[test]
fn cached_result_is_served_within_window() {
    let mut cache = ResultCache::new();
    let key = cache_key(&vec![header("authorization", "token a")], "repos/x");
    let window = window_ms(5);
    assert!(cache.lookup(&key, window, 1_000).is_none());
    let first = finish_cached(&mut cache, key.clone(), Ok(array(r#"[{"id":1}]"#)), 1_000, window);
    assert_eq!(first.status, 200);
    let hit = cache.lookup(&key, window, 1_000 + window).unwrap();
    assert_eq!(serialize_for_response(&hit).body, first.body);
}

#[test]
fn stale_result_is_refetched_and_replaced() {
    let mut cache = ResultCache::new();
    let key = cache_key(&Vec::new(), "repos/x");
    let window = window_ms(1);
    let _ = finish_cached(&mut cache, key.clone(), Ok(array("[1]")), 0, window);
    assert!(cache.lookup(&key, window, window + 1).is_none());
    let _ = finish_cached(&mut cache, key.clone(), Ok(array("[2]")), window + 1, window);
    let hit = cache.lookup(&key, window, window + 2).unwrap();
    assert_eq!(hit.values, array("[2]").values);
}

#[test]
fn failed_fetch_is_not_cached() {
    let mut cache = ResultCache::new();
    let key = cache_key(&Vec::new(), "repos/x");
    let window = window_ms(10);
    let _ = finish_cached(&mut cache, key.clone(), Ok(array("[1]")), 0, window);
    let failed = FetchError::Upstream { status: 500, body: "down".to_string() };
    let response = finish_cached(&mut cache, key.clone(), Err(failed), 10, window);
    assert_eq!(response.status, 500);
    let hit = cache.lookup(&key, window, 20).unwrap();
    assert_eq!(hit.values, array("[1]").values);
}

#[test]
fn keys_separate_credentials_and_paths() {
    let mut cache = ResultCache::new();
    let window = window_ms(10);
    let a = cache_key(&vec![header("authorization", "token a")], "repos/x");
    let b = cache_key(&vec![header("authorization", "token b")], "repos/x");
    let c = cache_key(&vec![header("authorization", "token a")], "repos/y");
    let _ = finish_cached(&mut cache, a.clone(), Ok(array("[1]")), 0, window);
    assert!(cache.lookup(&b, window, 1).is_none());
    assert!(cache.lookup(&c, window, 1).is_none());
    assert!(cache.lookup(&a, window, 1).is_some());
}

#[test]
fn zero_minute_window_is_rejected() {
    assert_eq!(parse_minutes("0"), None);
    assert_eq!(parse_minutes("00"), None);
}

#[test]
fn minutes_are_parsed() {
    assert_eq!(parse_minutes("5"), Some(5));
    assert_eq!(parse_minutes("+7"), Some(7));
    assert_eq!(parse_minutes("65535"), Some(65535));
    assert_eq!(parse_minutes("65536"), None);
    assert_eq!(parse_minutes(""), None);
    assert_eq!(parse_minutes("+"), None);
    assert_eq!(parse_minutes("1a"), None);
    assert_eq!(window_ms(2), 120_000);
}

#[test]
fn upstream_url_forwards_path() {
    assert_eq!(upstream_url("repos/x?per_page=100"), "https://api.github.com/repos/x?per_page=100");
}

#[test]
fn cached_route_with_zero_minutes_is_refused() {
    let request = github_relay::cache::prepare_cached("0", "repos/x", Vec::new(), &None);
    assert!(request.is_none());
}

#[test]
fn cached_route_is_prepared() {
    let default = Some(b"token d".to_vec());
    let request = github_relay::cache::prepare_cached("3", "repos/x?page=1", Vec::new(), &default).unwrap();
    assert_eq!(request.window_ms, 180_000);
    assert_eq!(request.url, "https://api.github.com/repos/x?page=1");
    assert_eq!(request.key, (Some(b"token d".to_vec()), "repos/x?page=1".to_string()));
    assert_eq!(request.headers.len(), 1);
    assert_eq!(request.headers[0].name, "authorization");
}

#[test]
fn compression_request_is_dropped_in_any_case() {
    let inbound = vec![header("Accept-Encoding", "gzip, br"), header("user-agent", "relay")];
    let out = translate_headers(&inbound, "https://api.github.com/");
    assert_eq!(out.len(), 1);
    assert_eq!(out[0].name, "user-agent");
}
