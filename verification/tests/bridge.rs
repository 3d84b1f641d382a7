use std::cell::{Cell, RefCell};

use http_bridge::bridge::{conclude, execute, prepare, TransportOutcome};
use http_bridge::error::BridgeError;
use http_bridge::headers::Headers;
use http_bridge::method::Verb;
use http_bridge::request::{HttpRequest, OutgoingCall};
use http_bridge::response::HttpResponse;

fn request(method: &str, headers: Option<Headers>, body: Option<&str>) -> HttpRequest {
    HttpRequest::new(
        "https://example.test/items?id=7".to_string(),
        method.to_string(),
        headers,
        body.map(str::to_string),
    )
}

fn two_headers() -> Headers {
    Headers::from_pairs(vec![
        ("X-Test".to_string(), "1".to_string()),
        ("Accept".to_string(), "application/json".to_string()),
    ])
}

fn completed(status: u16, body: &str) -> TransportOutcome {
    TransportOutcome::Completed { status, body: body.to_string() }
}

#[test]
fn any_casing_plans_the_same_call() {
    let upper = prepare(request("DELETE", None, None)).unwrap();
    for method in ["delete", "Delete", "dELETE", "DeLeTe"] {
        let call = prepare(request(method, None, None)).unwrap();
        assert_eq!(call.verb(), Verb::Delete);
        assert_eq!(call, upper);
    }
}

#[test]
fn each_verb_is_planned_as_itself() {
    let verbs = [
        ("get", Verb::Get),
        ("post", Verb::Post),
        ("put", Verb::Put),
        ("delete", Verb::Delete),
        ("head", Verb::Head),
        ("patch", Verb::Patch),
    ];
    for (method, verb) in verbs {
        assert_eq!(prepare(request(method, None, None)).unwrap().verb(), verb);
    }
}

#[test]
fn unsupported_method_is_refused_with_its_own_text() {
    for method in ["OPTIONS", "", "FOO", "options", "Connect", "tRaCe"] {
        let refusal = prepare(request(method, Some(two_headers()), Some("hello"))).unwrap_err();
        assert_eq!(refusal, BridgeError::UnsupportedMethod { method: method.to_string() });
        assert_eq!(refusal.message(), format!("Unsupported HTTP method: {}", method));
        assert!(refusal.message().contains(method));
    }
}

#[test]
fn unsupported_method_never_reaches_the_transport() {
    for method in ["OPTIONS", "", "FOO"] {
        let invocations = Cell::new(0u32);
        let result = execute(request(method, None, None), |_call: OutgoingCall| {
            invocations.set(invocations.get() + 1);
            completed(200, "should not happen")
        });
        assert_eq!(invocations.get(), 0);
        assert_eq!(result, Err(BridgeError::UnsupportedMethod { method: method.to_string() }));
    }
}

#[test]
fn supported_method_reaches_the_transport_once() {
    let invocations = Cell::new(0u32);
    let result = execute(request("get", None, None), |_call: OutgoingCall| {
        invocations.set(invocations.get() + 1);
        completed(200, "fine")
    });
    assert_eq!(invocations.get(), 1);
    assert_eq!(result, Ok(HttpResponse::new(200, "fine".to_string())));
}

#[test]
fn url_goes_out_untouched() {
    for url in ["https://example.test/a b?x=%zz#frag", "not a url", ""] {
        let asked = HttpRequest::new(url.to_string(), "GET".to_string(), None, None);
        assert_eq!(prepare(asked).unwrap().url(), url);
    }
}

#[test]
fn both_headers_go_out_whatever_their_order() {
    let listed = [("X-Test", "1"), ("Accept", "application/json")];
    let mut calls = Vec::new();
    for order in [[0usize, 1], [1, 0]] {
        let pairs: Vec<(String, String)> = order
            .iter()
            .map(|&at| (listed[at].0.to_string(), listed[at].1.to_string()))
            .collect();
        let call = prepare(request("post", Some(Headers::from_pairs(pairs)), None)).unwrap();
        assert_eq!(call.headers().get("X-Test").map(String::as_str), Some("1"));
        assert_eq!(call.headers().get("Accept").map(String::as_str), Some("application/json"));
        assert_eq!(call.headers().entries().len(), 2);
        calls.push(call);
    }
    assert_eq!(calls[0], calls[1]);
}

#[test]
fn the_transport_sees_every_header_once() {
    let seen: RefCell<Vec<(String, String)>> = RefCell::new(Vec::new());
    let result = execute(request("PUT", Some(two_headers()), Some("x")), |call: OutgoingCall| {
        for (name, value) in call.headers().entries() {
            seen.borrow_mut().push((name.clone(), value.clone()));
        }
        completed(204, "")
    });
    assert_eq!(result.unwrap().status(), 204);
    let mut seen = seen.into_inner();
    seen.sort();
    assert_eq!(
        seen,
        vec![
            ("Accept".to_string(), "application/json".to_string()),
            ("X-Test".to_string(), "1".to_string()),
        ]
    );
}

#[test]
fn absent_headers_and_empty_headers_both_send_none() {
    let absent = prepare(request("GET", None, None)).unwrap();
    let empty = prepare(request("GET", Some(Headers::new()), None)).unwrap();
    assert!(absent.headers().entries().is_empty());
    assert!(empty.headers().entries().is_empty());
    assert_eq!(absent, empty);
}

#[test]
fn absent_body_is_an_empty_payload_even_for_post() {
    for method in ["POST", "PUT", "PATCH", "GET", "HEAD", "DELETE"] {
        let call = prepare(request(method, Some(two_headers()), None)).unwrap();
        assert_eq!(call.body(), None);
        assert_eq!(call.payload(), "");
    }
}

#[test]
fn body_goes_out_exactly_as_given() {
    let call = prepare(request("POST", None, Some("hello"))).unwrap();
    assert_eq!(call.body().map(String::as_str), Some("hello"));
    assert_eq!(call.payload(), "hello");
}

#[test]
fn body_is_not_trimmed_or_recoded() {
    for body in ["  hello \r\n", "{\"a\": \"\u{e9}\u{1f980}\"}", "a=1&b=%20", "\u{0}"] {
        let call = prepare(request("post", None, Some(body))).unwrap();
        assert_eq!(call.payload(), body);
    }
}

#[test]
fn empty_body_is_a_body() {
    let call = prepare(request("POST", None, Some(""))).unwrap();
    assert_eq!(call.body().map(String::as_str), Some(""));
    assert_eq!(call.payload(), "");
}

#[test]
fn status_201_with_body_created() {
    let response = execute(request("POST", None, Some("{}")), |_call: OutgoingCall| {
        completed(201, "created")
    })
    .unwrap();
    assert_eq!(response.status(), 201);
    assert!(response.ok());
    assert_eq!(response.body(), "created");
}

#[test]
fn status_404_with_body_not_found() {
    let response = execute(request("GET", None, None), |_call: OutgoingCall| {
        completed(404, "not found")
    })
    .unwrap();
    assert_eq!(response.status(), 404);
    assert!(!response.ok());
    assert_eq!(response.body(), "not found");
}

#[test]
fn a_failed_status_is_still_a_response() {
    for status in [100u16, 199, 300, 301, 400, 500, 503, 599] {
        let response = conclude(completed(status, "body")).unwrap();
        assert_eq!((response.status(), response.ok()), (status, false));
    }
    for status in [200u16, 201, 204, 206, 299] {
        let response = conclude(completed(status, "body")).unwrap();
        assert_eq!((response.status(), response.ok()), (status, true));
    }
}

#[test]
fn connection_error_is_a_dispatch_failure() {
    let result = execute(request("GET", None, None), |_call: OutgoingCall| {
        TransportOutcome::DispatchFailed { cause: "connection refused".to_string() }
    });
    let error = result.unwrap_err();
    assert_eq!(error, BridgeError::DispatchFailure { cause: "connection refused".to_string() });
    assert_eq!(error.message(), "Request failed: connection refused");
    assert!(error.message().contains("connection refused"));
}

#[test]
fn unreadable_body_is_its_own_failure() {
    let result = conclude(TransportOutcome::BodyUnreadable { cause: "stream cut short".to_string() });
    let error = result.unwrap_err();
    assert_eq!(error, BridgeError::BodyReadFailure { cause: "stream cut short".to_string() });
    assert_eq!(error.message(), "Failed to read response body: stream cut short");
}

#[test]
fn same_get_twice_gives_the_same_response() {
    let asked = request("GET", Some(two_headers()), None);
    let transport = |call: OutgoingCall| completed(200, &format!("{} {}", call.verb().name(), call.url()));
    let first = execute(asked.clone(), transport);
    let second = execute(asked, transport);
    assert_eq!(first, second);
    assert_eq!(
        first,
        Ok(HttpResponse::new(200, "GET https://example.test/items?id=7".to_string()))
    );
}

#[test]
fn same_refusal_twice() {
    let asked = request("FOO", None, None);
    assert_eq!(prepare(asked.clone()), prepare(asked));
}

#[test]
fn request_parts_read_back_as_given() {
    let asked = request("Patch", Some(two_headers()), Some("hello"));
    assert_eq!(asked.url(), "https://example.test/items?id=7");
    assert_eq!(asked.method(), "Patch");
    assert_eq!(asked.headers(), Some(&two_headers()));
    assert_eq!(asked.body().map(String::as_str), Some("hello"));
    let bare = request("GET", None, None);
    assert_eq!(bare.headers(), None);
    assert_eq!(bare.body(), None);
    let (url, method, headers, body) = asked.into_parts();
    assert_eq!(url, "https://example.test/items?id=7");
    assert_eq!(method, "Patch");
    assert_eq!(headers, Some(two_headers()));
    assert_eq!(body.as_deref(), Some("hello"));
}

#[test]
fn a_call_is_what_it_was_made_of() {
    let call = OutgoingCall::new(
        Verb::Head,
        "http://localhost:8080/".to_string(),
        two_headers(),
        None,
    );
    assert_eq!(call.verb(), Verb::Head);
    assert_eq!(call.url(), "http://localhost:8080/");
    assert_eq!(call.headers(), &two_headers());
    assert_eq!(call.body(), None);
    assert_eq!(call.payload(), "");
}
