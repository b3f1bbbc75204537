use httpc::header::HeaderPair;
use httpc::request::{build_request, DispatchError, Method};
use httpc::response::{
    consume_outcome, render_response, status_code_string, BodyOutcome, ResponseSummary,
    TransportOutcome,
};

fn pair(name: &str, value: &str) -> HeaderPair {
    HeaderPair { name: String::from(name), value: String::from(value) }
}

#[test]
fn get_never_carries_a_body() {
    let r = build_request(
        Method::Get,
        "http://example.com/",
        Some(String::from("stray body")),
        Vec::new(),
    )
    .unwrap();
    assert_eq!(r.method, Method::Get);
    assert!(r.body.is_none());
}

#[test]
fn delete_never_carries_a_body() {
    let r = build_request(
        Method::Delete,
        "http://example.com/",
        Some(String::from("stray body")),
        Vec::new(),
    )
    .unwrap();
    assert_eq!(r.method, Method::Delete);
    assert!(r.body.is_none());
}

#[test]
fn post_body_sent_verbatim() {
    let body = "exact\nliteral\tbytes =&%";
    let r = build_request(
        Method::Post,
        "http://example.com/submit",
        Some(String::from(body)),
        Vec::new(),
    )
    .unwrap();
    assert_eq!(r.body.as_deref(), Some(body));
}

#[test]
fn put_body_sent_verbatim() {
    let r = build_request(
        Method::Put,
        "http://example.com/item",
        Some(String::from("")),
        Vec::new(),
    )
    .unwrap();
    assert_eq!(r.body.as_deref(), Some(""));
}

#[test]
fn same_inputs_build_identical_requests() {
    let mk = || {
        build_request(
            Method::Post,
            "http://example.com/submit",
            Some(String::from("payload")),
            vec![pair("A", "1"), pair("B", "2")],
        )
        .unwrap()
    };
    assert_eq!(mk(), mk());
}

#[test]
fn header_order_is_preserved() {
    let headers = vec![pair("Z-Last", "3"), pair("A-First", "1"), pair("M-Mid", "2")];
    let r = build_request(Method::Get, "http://example.com/", None, headers).unwrap();
    let names: Vec<&str> = r.headers.iter().map(|h| h.name.as_str()).collect();
    assert_eq!(names, vec!["Z-Last", "A-First", "M-Mid"]);
}

#[test]
fn repeated_header_names_are_kept_in_order() {
    let headers = vec![pair("X-Dup", "one"), pair("X-Dup", "two")];
    let r = build_request(Method::Get, "http://example.com/", None, headers).unwrap();
    assert_eq!(r.headers.len(), 2);
    assert_eq!(r.headers[0].value, "one");
    assert_eq!(r.headers[1].value, "two");
}

#[test]
fn invalid_url_rejected_for_every_method() {
    for method in [Method::Get, Method::Delete] {
        let e = build_request(method, "not a url", None, Vec::new()).unwrap_err();
        assert_eq!(e, DispatchError::InvalidUrl);
    }
    for method in [Method::Post, Method::Put] {
        let e = build_request(method, "not a url", Some(String::new()), Vec::new()).unwrap_err();
        assert_eq!(e, DispatchError::InvalidUrl);
        assert_eq!(e.message(), "invalid URL");
    }
}

#[test]
fn url_without_scheme_rejected() {
    let e = build_request(Method::Get, "example.com/path", None, Vec::new()).unwrap_err();
    assert_eq!(e, DispatchError::InvalidUrl);
}

#[test]
fn url_is_normalized() {
    let r = build_request(Method::Get, "http://example.com", None, Vec::new()).unwrap();
    assert_eq!(r.url, "http://example.com/");
}

#[test]
fn mocked_404_prints_fixed_format() {
    let outcome = TransportOutcome::Response {
        status_code: 404,
        status_text: String::from("Not Found"),
        body: BodyOutcome::Complete { text: String::from("not found") },
    };
    let summary = consume_outcome(outcome).unwrap();
    let printed = render_response(Method::Get, &summary);
    assert_eq!(printed, "GET - HTTP/1.1 - 404\nAccept: */*\nData:\nnot found");
}

#[test]
fn delete_output_is_labelled_delete() {
    let summary = ResponseSummary {
        status_code: 200,
        status_text: String::from("OK"),
        body_text: String::from("gone"),
    };
    let printed = render_response(Method::Delete, &summary);
    assert_eq!(printed, "DELETE - HTTP/1.1 - 200\nAccept: */*\nData:\ngone");
}

#[test]
fn connection_refused_is_a_transport_failure() {
    let outcome = TransportOutcome::Failure { cause: String::from("connection refused") };
    let e = consume_outcome(outcome).unwrap_err();
    assert_eq!(
        e,
        DispatchError::TransportFailure { cause: String::from("connection refused") }
    );
    let msg = e.message();
    assert_eq!(msg, "transport failure: connection refused");
    assert!(!msg.contains("HTTP/1.1"));
    assert!(!msg.contains("Accept: */*"));
}

#[test]
fn interrupted_body_read_is_a_body_read_failure() {
    let outcome = TransportOutcome::Response {
        status_code: 200,
        status_text: String::from("OK"),
        body: BodyOutcome::Interrupted,
    };
    let e = consume_outcome(outcome).unwrap_err();
    assert_eq!(e, DispatchError::BodyReadFailure);
    assert_eq!(e.message(), "failed to read body");
}

#[test]
fn complete_body_becomes_a_summary() {
    let outcome = TransportOutcome::Response {
        status_code: 201,
        status_text: String::from("Created"),
        body: BodyOutcome::Complete { text: String::from("made it") },
    };
    let s = consume_outcome(outcome).unwrap();
    assert_eq!(s.status_code, 201);
    assert_eq!(s.status_text, "Created");
    assert_eq!(s.body_text, "made it");
    assert_eq!(s.accept_header_echo(), "*/*");
}

#[test]
fn status_codes_render_in_decimal() {
    assert_eq!(status_code_string(0), "0");
    assert_eq!(status_code_string(7), "7");
    assert_eq!(status_code_string(100), "100");
    assert_eq!(status_code_string(404), "404");
    assert_eq!(status_code_string(65535), "65535");
}

#[test]
fn method_labels_and_bodies() {
    assert_eq!(Method::Get.label(), "GET");
    assert_eq!(Method::Post.label(), "POST");
    assert_eq!(Method::Put.label(), "PUT");
    assert_eq!(Method::Delete.label(), "DELETE");
    assert!(!Method::Get.has_body());
    assert!(Method::Post.has_body());
    assert!(Method::Put.has_body());
    assert!(!Method::Delete.has_body());
}
