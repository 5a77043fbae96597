use hyper::Uri;
use lb::config::{FALLBACK_URL, METRICS_URL, PRIMARY_URL};
use lb::proxy::{
    conclude, forward, metrics_request, outbound_request, route_request, BackendOutcome, Header,
    OutboundRequest, ProxyReply, Request, RouteError, SyntheticResponse, GATEWAY_TIMEOUT,
    TIMEOUT_BODY,
};
use lb::state::{MetricsState, Ratio};

fn state(used: u64, capacity: u64, primary_online: bool) -> MetricsState {
    MetricsState { utilization_ratio: Ratio { used, capacity }, primary_online }
}

fn header(name: &str, value: &[u8]) -> Header {
    Header { name: name.to_string(), value: value.to_vec() }
}

fn generate_request() -> Request {
    Request {
        method: "POST".to_string(),
        headers: vec![
            header("content-type", b"application/json"),
            header("x-trace", b"a"),
            header("x-trace", b"b"),
            header("x-binary", &[0x00, 0xFF, 0x80, 0x7F]),
            header("content-length", b"27"),
        ],
        body: b"{\"text_input\":\"hi\",\"n\":\xF0\x9F\x98\x80}".to_vec(),
    }
}

#[test]
fn route_sends_to_primary_below_the_threshold() {
    let outbound = route_request(&state(42, 100, true), generate_request()).unwrap();
    assert_eq!(outbound.url, PRIMARY_URL);
    assert_eq!(outbound.url, "http://192.168.1.18:8000/v2/models/ensemble/generate");
}

#[test]
fn route_sends_to_fallback_at_the_threshold() {
    let outbound = route_request(&state(7, 10, true), generate_request()).unwrap();
    assert_eq!(outbound.url, FALLBACK_URL);
    assert_eq!(outbound.url, "http://192.168.1.13:8003/v2/models/tensorrt_llm_bls/generate");
}

#[test]
fn route_sends_to_fallback_when_offline() {
    let outbound = route_request(&state(0, 1, false), generate_request()).unwrap();
    assert_eq!(outbound.url, FALLBACK_URL);
}

#[test]
fn route_keeps_method_headers_and_body() {
    for snapshot in [state(0, 1, true), state(9, 10, true), state(0, 1, false)] {
        let outbound = route_request(&snapshot, generate_request()).unwrap();
        assert_eq!(outbound.request, generate_request());
        assert_eq!(outbound.request.method, "POST");
        assert_eq!(outbound.request.headers.len(), 5);
        assert_eq!(outbound.request.headers[1], header("x-trace", b"a"));
        assert_eq!(outbound.request.headers[2], header("x-trace", b"b"));
        assert_eq!(outbound.request.headers[3].value, vec![0x00, 0xFF, 0x80, 0x7F]);
        assert_eq!(outbound.request.body, generate_request().body);
    }
}

#[test]
fn route_forwards_any_method() {
    for method in ["GET", "PUT", "DELETE", "PATCH", "OPTIONS", "PROPFIND"] {
        let request = Request { method: method.to_string(), headers: vec![], body: vec![] };
        let outbound = route_request(&MetricsState::new(), request).unwrap();
        assert_eq!(outbound.request.method, method);
        assert!(outbound.request.headers.is_empty());
        assert!(outbound.request.body.is_empty());
    }
}

#[test]
fn route_targets_are_uris_with_a_fixed_path() {
    let primary: Uri = route_request(&state(0, 1, true), generate_request()).unwrap().url.parse().unwrap();
    assert_eq!(primary.host(), Some("192.168.1.18"));
    assert_eq!(primary.port_u16(), Some(8000));
    assert_eq!(primary.path(), "/v2/models/ensemble/generate");
    assert_eq!(primary.query(), None);
    let fallback: Uri = route_request(&state(1, 1, true), generate_request()).unwrap().url.parse().unwrap();
    assert_eq!(fallback.host(), Some("192.168.1.13"));
    assert_eq!(fallback.port_u16(), Some(8003));
    assert_eq!(fallback.path(), "/v2/models/tensorrt_llm_bls/generate");
}

#[test]
fn outbound_request_takes_a_uri() {
    let outbound = outbound_request("http://backend.example:9000/generate?x=1", generate_request());
    assert_eq!(
        outbound,
        Ok(OutboundRequest {
            url: "http://backend.example:9000/generate?x=1".to_string(),
            request: generate_request(),
        })
    );
    assert!(outbound_request("/relative/path", generate_request()).is_ok());
    assert!(outbound_request("localhost:8000", generate_request()).is_ok());
}

#[test]
fn outbound_request_refuses_what_is_no_uri() {
    for target in ["", "http://", "http://exa mple.com/", "http://[::1/", "\u{0}"] {
        assert_eq!(
            outbound_request(target, generate_request()),
            Err(RouteError::RequestConstruction),
            "{:?}",
            target
        );
    }
}

#[test]
fn outbound_request_decides_as_the_uri_parser_does() {
    let targets = [
        "",
        "/",
        "*",
        "a",
        "http://a",
        "http://a/b c",
        "http://a/b?c#d",
        "https://user@host:1/p",
        "http://host:99999/",
        "http://host:/",
        "mailto:x@y",
        "http://192.168.1.18:8000/v2/models/ensemble/generate",
        "http://0.0.0.0:8002/metrics",
        "http://é/",
        "ht!tp://a",
    ];
    for target in targets {
        assert_eq!(
            outbound_request(target, generate_request()).is_ok(),
            target.parse::<Uri>().is_ok(),
            "{:?}",
            target
        );
    }
}

#[test]
fn forward_goes_by_what_it_is_told_of_the_target() {
    assert_eq!(
        forward("http://a/", generate_request(), true),
        Ok(OutboundRequest { url: "http://a/".to_string(), request: generate_request() })
    );
    assert_eq!(
        forward("http://a/", generate_request(), false),
        Err(RouteError::RequestConstruction)
    );
    assert_eq!(
        forward("", generate_request(), true),
        Ok(OutboundRequest { url: String::new(), request: generate_request() })
    );
}

#[test]
fn metrics_request_is_a_bare_get() {
    let outbound = metrics_request().unwrap();
    assert_eq!(outbound.url, METRICS_URL);
    assert_eq!(outbound.url, "http://0.0.0.0:8002/metrics");
    assert_eq!(outbound.request.method, "GET");
    assert!(outbound.request.headers.is_empty());
    assert!(outbound.request.body.is_empty());
}

#[test]
fn conclude_relays_the_response_as_it_came() {
    let response = (200u16, vec![header("content-type", b"text/plain")], b"generated".to_vec());
    let outcome: BackendOutcome<_, String> = BackendOutcome::Responded(response);
    let reply = conclude(outcome);
    assert_eq!(
        reply,
        Ok(ProxyReply::Relayed((
            200u16,
            vec![header("content-type", b"text/plain")],
            b"generated".to_vec()
        )))
    );
}

#[test]
fn conclude_relays_an_error_status_of_the_backend_too() {
    let outcome: BackendOutcome<(u16, Vec<u8>), String> =
        BackendOutcome::Responded((500, b"backend broke".to_vec()));
    assert_eq!(conclude(outcome), Ok(ProxyReply::Relayed((500, b"backend broke".to_vec()))));
}

#[test]
fn conclude_answers_a_timeout_with_504() {
    let outcome: BackendOutcome<Vec<u8>, String> = BackendOutcome::TimedOut;
    let reply = conclude(outcome);
    assert_eq!(
        reply,
        Ok(ProxyReply::Synthesized(SyntheticResponse { status: 504, body: "Backend timeout" }))
    );
    match reply {
        Ok(ProxyReply::Synthesized(response)) => {
            assert_eq!(response.status, GATEWAY_TIMEOUT);
            assert_eq!(response.body, TIMEOUT_BODY);
            assert!(!response.body.is_empty());
        }
        other => panic!("{:?}", other),
    }
}

#[test]
fn conclude_hands_a_transport_failure_on() {
    let outcome: BackendOutcome<Vec<u8>, String> =
        BackendOutcome::Failed("connection refused".to_string());
    assert_eq!(conclude(outcome), Err("connection refused".to_string()));
}

#[test]
fn timeout_reply_has_the_fixed_status_and_text() {
    assert_eq!(GATEWAY_TIMEOUT, 504);
    assert_eq!(TIMEOUT_BODY, "Backend timeout");
}
