use base64::Engine;
use fetch_proxy::error::{FetchError, InvalidReason};
use fetch_proxy::request::{
    prepare_request, redirect_policy, stage_headers, validate_header, PreparedRequest, RedirectPolicy, RequestBody,
    RequestDescriptor,
};
use fetch_proxy::response::{
    classify_body, collect_response_headers, finish_response, plan_response, BodyKind, BodyPayload,
};

fn s(x: &str) -> String {
    x.to_string()
}

fn describe(url: &str, method: &str) -> RequestDescriptor {
    RequestDescriptor {
        url: s(url),
        method: s(method),
        body: None,
        is_body_binary: None,
        headers: None,
        redirect: None,
        referrer: None,
    }
}

fn prepared(d: &RequestDescriptor) -> PreparedRequest {
    match prepare_request(d) {
        Ok(p) => p,
        Err(e) => panic!("refused: {:?}", e),
    }
}

fn refusal(d: &RequestDescriptor) -> InvalidReason {
    match prepare_request(d) {
        Err(FetchError::InvalidRequest(why)) => why,
        other => panic!("expected an invalid request, got {:?}", other),
    }
}

fn pairs(list: &[(&str, &str)]) -> Vec<(String, String)> {
    list.iter().map(|(n, v)| (s(n), s(v))).collect()
}

fn lookup<'a>(headers: &'a [(String, String)], name: &str) -> Option<&'a str> {
    headers.iter().find(|(n, _)| n == name).map(|(_, v)| v.as_str())
}

#[test]
fn redirect_manual_is_manual() {
    assert_eq!(redirect_policy(&Some(s("manual"))), RedirectPolicy::Manual);
}

#[test]
fn redirect_other_values_follow() {
    assert_eq!(redirect_policy(&None), RedirectPolicy::Follow);
    assert_eq!(redirect_policy(&Some(s("follow"))), RedirectPolicy::Follow);
    assert_eq!(redirect_policy(&Some(s("Manual"))), RedirectPolicy::Follow);
    assert_eq!(redirect_policy(&Some(s("error"))), RedirectPolicy::Follow);
}

#[test]
fn prepared_request_carries_redirect_policy() {
    let mut d = describe("https://example.test/a", "GET");
    d.redirect = Some(s("manual"));
    assert_eq!(prepared(&d).redirect, RedirectPolicy::Manual);
    d.redirect = Some(s("follow"));
    assert_eq!(prepared(&d).redirect, RedirectPolicy::Follow);
}

#[test]
fn text_body_sent_verbatim() {
    let mut d = describe("https://example.test/echo", "POST");
    d.body = Some(s("hello"));
    d.is_body_binary = Some(false);
    let p = prepared(&d);
    assert_eq!(p.method, "POST");
    assert_eq!(p.url, "https://example.test/echo");
    match p.body {
        Some(RequestBody::Text(t)) => assert_eq!(t, "hello"),
        other => panic!("unexpected body {:?}", other),
    }
}

#[test]
fn binary_body_decoded_from_base64() {
    let mut d = describe("https://example.test/upload", "PUT");
    d.body = Some(s("AAEC/w=="));
    d.is_body_binary = Some(true);
    match prepared(&d).body {
        Some(RequestBody::Binary(b)) => assert_eq!(b, vec![0u8, 1, 2, 255]),
        other => panic!("unexpected body {:?}", other),
    }
}

#[test]
fn missing_body_stays_missing() {
    let mut d = describe("https://example.test/", "GET");
    d.is_body_binary = Some(true);
    assert!(prepared(&d).body.is_none());
}

#[test]
fn invalid_base64_body_refused() {
    let mut d = describe("https://example.test/upload", "POST");
    d.body = Some(s("not-valid-base64!!"));
    d.is_body_binary = Some(true);
    assert_eq!(refusal(&d), InvalidReason::Body);
}

#[test]
fn invalid_base64_is_text_when_not_binary() {
    let mut d = describe("https://example.test/upload", "POST");
    d.body = Some(s("not-valid-base64!!"));
    match prepared(&d).body {
        Some(RequestBody::Text(t)) => assert_eq!(t, "not-valid-base64!!"),
        other => panic!("unexpected body {:?}", other),
    }
}

#[test]
fn malformed_method_refused() {
    assert_eq!(refusal(&describe("https://example.test/", "GE T")), InvalidReason::Method);
    assert_eq!(refusal(&describe("https://example.test/", "")), InvalidReason::Method);
    assert_eq!(refusal(&describe("https://example.test/", "PÖST")), InvalidReason::Method);
}

#[test]
fn extension_methods_accepted() {
    assert_eq!(prepared(&describe("https://example.test/", "PROPFIND")).method, "PROPFIND");
    assert_eq!(prepared(&describe("https://example.test/", "get")).method, "get");
}

#[test]
fn malformed_url_refused() {
    assert_eq!(refusal(&describe("not a url", "GET")), InvalidReason::Url);
    assert_eq!(refusal(&describe("/relative/path", "GET")), InvalidReason::Url);
    assert_eq!(refusal(&describe("data:text/plain,hi", "GET")), InvalidReason::Url);
}

#[test]
fn method_checked_before_url() {
    assert_eq!(refusal(&describe("not a url", "GE T")), InvalidReason::Method);
}

#[test]
fn referrer_sent_as_referer_header() {
    let mut d = describe("https://example.test/", "GET");
    d.referrer = Some(s("https://origin.test/page"));
    let p = prepared(&d);
    assert_eq!(p.headers.len(), 1);
    assert_eq!(lookup(&p.headers, "referer"), Some("https://origin.test/page"));
}

#[test]
fn invalid_referrer_refused() {
    let mut d = describe("https://example.test/", "GET");
    d.referrer = Some(s("https://origin.test/\npage"));
    assert_eq!(refusal(&d), InvalidReason::Referrer);
}

#[test]
fn custom_referer_replaces_referrer() {
    let mut d = describe("https://example.test/", "GET");
    d.referrer = Some(s("https://a.test/"));
    d.headers = Some(pairs(&[("Referer", "https://b.test/")]));
    let p = prepared(&d);
    assert_eq!(p.headers.len(), 1);
    assert_eq!(lookup(&p.headers, "referer"), Some("https://b.test/"));
}

#[test]
fn header_with_space_in_name_dropped() {
    let mut d = describe("https://example.test/", "GET");
    d.headers = Some(pairs(&[("X Header", "one"), ("X-Good", "two"), ("X\u{1}Ctl", "three")]));
    let p = prepared(&d);
    assert_eq!(p.headers, pairs(&[("x-good", "two")]));
}

#[test]
fn header_with_invalid_value_dropped() {
    let h = stage_headers(&None, &Some(pairs(&[("A", "bad\nvalue"), ("B", "caf\u{e9}"), ("C", "tab\there")])));
    assert_eq!(h, pairs(&[("b", "caf\u{e9}"), ("c", "tab\there")]));
}

#[test]
fn later_header_value_wins() {
    let h = stage_headers(&None, &Some(pairs(&[("Accept", "a"), ("X-Y", "1"), ("accept", "b")])));
    assert_eq!(h.len(), 2);
    assert_eq!(lookup(&h, "accept"), Some("b"));
    assert_eq!(lookup(&h, "x-y"), Some("1"));
}

#[test]
fn empty_header_list() {
    assert!(stage_headers(&None, &Some(Vec::new())).is_empty());
    assert!(stage_headers(&None, &None).is_empty());
}

#[test]
fn content_type_classification() {
    assert_eq!(classify_body("application/json"), BodyKind::Text);
    assert_eq!(classify_body("application/json; charset=utf-8"), BodyKind::Text);
    assert_eq!(classify_body("text/plain"), BodyKind::Text);
    assert_eq!(classify_body("text/html; charset=latin1"), BodyKind::Text);
    assert_eq!(classify_body(""), BodyKind::Text);
    assert_eq!(classify_body("application/octet-stream"), BodyKind::Binary);
    assert_eq!(classify_body("image/png"), BodyKind::Binary);
    assert_eq!(classify_body("text"), BodyKind::Binary);
    assert_eq!(classify_body("application/xml"), BodyKind::Binary);
}

#[test]
fn response_headers_lowercased_and_filtered() {
    let h = collect_response_headers(&pairs(&[
        ("Content-Type", "text/plain"),
        ("X-Bin", "a\u{1}b"),
        ("X-Utf", "caf\u{e9}"),
        ("Set-Cookie", "a=1"),
        ("set-cookie", "b=2"),
    ]));
    assert_eq!(h.len(), 2);
    assert_eq!(lookup(&h, "content-type"), Some("text/plain"));
    assert_eq!(lookup(&h, "set-cookie"), Some("b=2"));
}

#[test]
fn skipped_value_keeps_earlier_one() {
    let h = collect_response_headers(&pairs(&[("x-a", "first"), ("x-a", "bad\u{7f}")]));
    assert_eq!(h, pairs(&[("x-a", "first")]));
}

#[test]
fn plan_reads_content_type_case_insensitively() {
    let plan = plan_response(200, &pairs(&[("Content-Type", "TEXT/PLAIN")]));
    assert_eq!(plan.kind, BodyKind::Text);
    assert_eq!(lookup(&plan.headers, "content-type"), Some("TEXT/PLAIN"));
    let plan = plan_response(200, &pairs(&[("content-type", "Image/PNG")]));
    assert_eq!(plan.kind, BodyKind::Binary);
}

#[test]
fn plan_without_content_type_is_text() {
    let plan = plan_response(204, &pairs(&[("x-a", "1")]));
    assert_eq!(plan.status, 204);
    assert_eq!(plan.kind, BodyKind::Text);
    let plan = plan_response(200, &Vec::new());
    assert_eq!(plan.kind, BodyKind::Text);
}

#[test]
fn json_and_text_never_base64() {
    for ct in ["application/json", "text/plain"] {
        let plan = plan_response(200, &pairs(&[("content-type", ct)]));
        assert_eq!(plan.kind, BodyKind::Text);
        let env = finish_response(plan, BodyPayload::Text(Some(s("{}"))));
        assert!(!env.is_base64);
        assert_eq!(env.body, "{}");
    }
}

#[test]
fn octet_stream_and_png_are_base64() {
    for ct in ["application/octet-stream", "image/png"] {
        let plan = plan_response(200, &pairs(&[("content-type", ct)]));
        assert_eq!(plan.kind, BodyKind::Binary);
        let env = finish_response(plan, BodyPayload::Binary(Some(vec![137u8, 80, 78, 71])));
        assert!(env.is_base64);
        assert_eq!(env.body, "iVBORw==");
        let decoded = base64::engine::general_purpose::STANDARD.decode(&env.body).unwrap();
        assert_eq!(decoded, vec![137u8, 80, 78, 71]);
    }
}

#[test]
fn unreadable_bodies_are_empty() {
    let env = finish_response(plan_response(200, &Vec::new()), BodyPayload::Text(None));
    assert_eq!(env.body, "");
    assert!(!env.is_base64);
    let plan = plan_response(200, &pairs(&[("content-type", "image/png")]));
    let env = finish_response(plan, BodyPayload::Binary(None));
    assert_eq!(env.body, "");
    assert!(env.is_base64);
}

#[test]
fn binary_encoding_exact() {
    let plan = plan_response(200, &pairs(&[("content-type", "application/octet-stream")]));
    let env = finish_response(plan, BodyPayload::Binary(Some(vec![1u8, 2, 3, 4])));
    assert_eq!(env.body, "AQIDBA==");
}

#[test]
fn manual_redirect_keeps_location() {
    let mut d = describe("https://example.test/old", "GET");
    d.redirect = Some(s("manual"));
    assert_eq!(prepared(&d).redirect, RedirectPolicy::Manual);
    let plan = plan_response(302, &pairs(&[("Location", "https://example.test/new")]));
    let env = finish_response(plan, BodyPayload::Text(Some(String::new())));
    assert_eq!(env.status, 302);
    assert_eq!(lookup(&env.headers, "location"), Some("https://example.test/new"));
}

#[test]
fn binary_round_trip_through_echo() {
    let mut d = describe("https://example.test/echo", "POST");
    d.body = Some(s("SGVsbG8sIHdvcmxkIQ=="));
    d.is_body_binary = Some(true);
    let sent = match prepared(&d).body {
        Some(RequestBody::Binary(b)) => b,
        other => panic!("unexpected body {:?}", other),
    };
    assert_eq!(sent, b"Hello, world!".to_vec());
    let plan = plan_response(200, &pairs(&[("content-type", "application/octet-stream")]));
    let env = finish_response(plan, BodyPayload::Binary(Some(sent.clone())));
    assert!(env.is_base64);
    assert_eq!(env.body, "SGVsbG8sIHdvcmxkIQ==");
    assert_eq!(base64::engine::general_purpose::STANDARD.decode(&env.body).unwrap(), sent);
}

#[test]
fn echo_post_text_scenario() {
    let mut d = describe("https://example.test/echo", "POST");
    d.body = Some(s("hello"));
    d.is_body_binary = Some(false);
    let p = prepared(&d);
    let echoed = match p.body {
        Some(RequestBody::Text(t)) => t,
        other => panic!("unexpected body {:?}", other),
    };
    let plan = plan_response(200, &pairs(&[("content-type", "text/plain")]));
    assert_eq!(plan.kind, BodyKind::Text);
    let env = finish_response(plan, BodyPayload::Text(Some(echoed)));
    assert_eq!(env.status, 200);
    assert_eq!(env.body, "hello");
    assert!(!env.is_base64);
    assert_eq!(lookup(&env.headers, "content-type"), Some("text/plain"));
}

#[test]
fn validate_header_pairs() {
    assert_eq!(validate_header("X-Custom", "v"), Some((s("x-custom"), s("v"))));
    assert_eq!(validate_header("X Header", "v"), None);
    assert_eq!(validate_header("", "v"), None);
    assert_eq!(validate_header("X(Y)", "v"), None);
    assert_eq!(validate_header("x-a", "line\r\nbreak"), None);
    assert_eq!(validate_header("x-a", ""), Some((s("x-a"), s(""))));
    let long = "a".repeat(65535);
    assert_eq!(validate_header(&long, "v"), Some((long.clone(), s("v"))));
    assert_eq!(validate_header(&"a".repeat(65536), "v"), None);
}
