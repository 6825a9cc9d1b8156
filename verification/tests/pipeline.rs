use preroll::clacks::ClacksMiddleware;
use preroll::context::{ErrorDetail, Header, Headers, Request, RequestHead, Response};
use preroll::ids::{CorrelationId, RequestId};
use preroll::json_error::{JsonError, JsonErrorMiddleware, Rewrite};
use preroll::logger::{LogMiddleware, Outcome};
use preroll::record::{Level, LogRecord, Value};
use preroll::requestid::{Assignment, RequestIdMiddleware};
use preroll::status::StatusCode;
use preroll::trace::TraceId;

fn request(headers: &[(&str, &str)]) -> Request {
    let mut list = Headers::new();
    for (name, value) in headers {
        list.insert(name, value);
    }
    Request::new(RequestHead {
        method: "GET".to_string(),
        path: "/api/v1/things".to_string(),
        peer_addr: Some("10.0.0.7:4000".to_string()),
        headers: list,
        body_size: Some(0),
    })
}

fn response(code: u16) -> Response {
    Response::new(StatusCode::new(code).unwrap())
}

fn failed(code: u16, detail: &str) -> Response {
    let mut res = response(code);
    res.body = "handler body".to_string();
    res.body_size = Some(12);
    res.error = Some(ErrorDetail {
        message: detail.to_string(),
        error_type: Some("app::Failure".to_string()),
    });
    res
}

fn is_canonical(text: &str) -> bool {
    text.len() == 36
        && text.chars().enumerate().all(|(i, c)| match i {
            8 | 13 | 18 | 23 => c == '-',
            _ => c.is_ascii_digit() || ('a'..='f').contains(&c),
        })
}

fn field<'a>(record: &'a LogRecord, key: &str) -> Option<&'a Value> {
    record.fields.iter().find(|f| f.key == key).map(|f| &f.value)
}

fn text_of(record: &LogRecord, key: &str) -> String {
    match field(record, key) {
        Some(Value::Text(s)) => s.clone(),
        other => panic!("field {} is {:?}", key, other),
    }
}

fn keys(record: &LogRecord) -> Vec<String> {
    record.fields.iter().map(|f| f.key.clone()).collect()
}

/// Runs identifier, logging and error stage around a handler's response, in
/// that order on the way in and in reverse on the way out.
fn run(mut req: Request, mut res: Response) -> (Request, Response, LogRecord, LogRecord) {
    let ids = RequestIdMiddleware::new();
    let log = LogMiddleware::new();
    let errors = JsonErrorMiddleware::new();

    let how = ids.on_request(&mut req);
    let incoming = log.on_request(&mut req).unwrap();
    let ctx = errors.on_request(&mut req).unwrap();

    errors.on_response(&ctx, &mut res);
    let outgoing = log.on_response(&incoming.summary, &res, "1.5ms");
    ids.on_response(&how, &mut res);
    (req, res, incoming.record, outgoing)
}

#[test]
fn scenario_request_without_id_and_success() {
    let mut handled = response(200);
    handled.body = "preroll successfully set route in v1".to_string();
    handled.body_size = Some(36);
    let (req, res, _, outgoing) = run(request(&[]), handled);

    let id = req.ext.request_id.unwrap();
    assert!(is_canonical(id.as_str()));
    assert_eq!(res.headers.get("X-Request-Id"), Some(id.as_str().to_string()));
    assert_eq!(res.headers.get("X-Request-Id").unwrap().len(), 36);
    assert_eq!(res.body, "preroll successfully set route in v1");
    assert_eq!(res.body_size, Some(36));
    assert_eq!(res.headers.get("X-Correlation-Id"), None);
    assert!(res.correlation_id.is_none());
    assert_eq!(outgoing.level, Level::Info);
    assert_eq!(outgoing.message, "OK");
}

#[test]
fn scenario_client_error_with_detail() {
    let req = request(&[("X-Request-Id", "11111111-1111-1111-1111-111111111111")]);
    let (_, res, _, outgoing) = run(req, failed(422, "missing field \"address\""));

    assert_eq!(
        res.body,
        "{\"status\":422,\"title\":\"Unprocessable Entity\",\"message\":\"missing field \\\"address\\\"\",\"request_id\":\"11111111-1111-1111-1111-111111111111\",\"correlation_id\":null}"
    );
    assert_eq!(res.body_size, Some(res.body.len()));
    assert_eq!(res.status.as_u16(), 422);
    assert_eq!(
        res.headers.get("X-Request-Id"),
        Some("11111111-1111-1111-1111-111111111111".to_string())
    );
    assert_eq!(res.headers.get("X-Correlation-Id"), None);
    assert!(res.correlation_id.is_none());
    assert_eq!(outgoing.level, Level::Warn);
    assert_eq!(outgoing.message, "Client Error: Unprocessable Entity");
}

#[test]
fn scenario_server_error() {
    let detail = "connection to the ledger database was refused";
    let (req, res, _, outgoing) = run(request(&[]), failed(500, detail));

    let request_id = req.ext.request_id.unwrap();
    let correlation = res.correlation_id.as_ref().unwrap().as_str().to_string();
    assert!(is_canonical(&correlation));
    assert_eq!(
        res.body,
        format!(
            "{{\"status\":500,\"title\":\"Internal Server Error\",\"message\":\"Internal Server Error (correlation_id={})\",\"request_id\":\"{}\",\"correlation_id\":\"{}\"}}",
            correlation,
            request_id.as_str(),
            correlation
        )
    );
    assert_eq!(res.headers.get("X-Correlation-Id"), Some(correlation.clone()));
    assert!(!res.body.contains(detail));
    assert!(!res.body.contains("ledger"));

    // The log record carries what the client does not get to see.
    assert_eq!(outgoing.level, Level::Error);
    assert_eq!(outgoing.message, "Internal Error");
    assert_eq!(text_of(&outgoing, "message"), detail);
    assert_eq!(text_of(&outgoing, "correlation_id"), correlation);
    assert_eq!(text_of(&outgoing, "request_id"), request_id.as_str());
}

#[test]
fn identifier_stage_is_idempotent() {
    let stage = RequestIdMiddleware::new();
    let mut req = request(&[]);
    let first = stage.on_request(&mut req);
    let assigned = req.ext.request_id.as_ref().unwrap().as_str().to_string();
    assert!(matches!(first, Assignment::Generated(_)));

    let second = stage.on_request(&mut req);
    assert!(matches!(second, Assignment::Inherited));
    assert_eq!(req.ext.request_id.as_ref().unwrap().as_str(), assigned);

    // The inner, second run leaves the response alone; the outer one echoes.
    let mut res = response(200);
    stage.on_response(&second, &mut res);
    assert_eq!(res.headers.get("X-Request-Id"), None);
    stage.on_response(&first, &mut res);
    assert_eq!(res.headers.get("X-Request-Id"), Some(assigned));
}

#[test]
fn valid_header_is_adopted_text_for_text() {
    let stage = RequestIdMiddleware::new();
    let sent = "936da01f-9abd-4d9d-80c7-02af85c822a8";
    let mut req = request(&[("x-request-id", sent)]);
    let how = stage.on_request(&mut req);
    assert!(matches!(how, Assignment::Adopted(_)));
    let id = req.ext.request_id.as_ref().unwrap();
    assert_eq!(id.as_str(), sent);
    assert_eq!(id.to_string(), sent);
    assert_eq!(id.as_u128(), 0x936da01f9abd4d9d80c702af85c822a8);

    let mut res = response(204);
    stage.on_response(&how, &mut res);
    assert_eq!(res.headers.get("X-Request-Id"), Some(sent.to_string()));
}

#[test]
fn valid_header_in_another_form_is_adopted_in_canonical_text() {
    let stage = RequestIdMiddleware::new();
    // Upper case, without hyphens, as a URN: all valid, all the same value.
    for sent in [
        "936DA01F-9ABD-4D9D-80C7-02AF85C822A8",
        "936da01f9abd4d9d80c702af85c822a8",
        "urn:uuid:936da01f-9abd-4d9d-80c7-02af85c822a8",
    ] {
        let mut req = request(&[("X-Request-Id", sent)]);
        let how = stage.on_request(&mut req);
        assert!(matches!(how, Assignment::Adopted(_)));
        let id = req.ext.request_id.as_ref().unwrap();
        assert_eq!(id.as_u128(), 0x936da01f9abd4d9d80c702af85c822a8);
        assert_eq!(id.as_str(), "936da01f-9abd-4d9d-80c7-02af85c822a8");
        assert_eq!(id.to_string(), id.as_str());

        let mut res = response(204);
        stage.on_response(&how, &mut res);
        assert_eq!(
            res.headers.get("X-Request-Id"),
            Some("936da01f-9abd-4d9d-80c7-02af85c822a8".to_string())
        );
    }
}

#[test]
fn error_body_names_the_request_in_canonical_text() {
    let req = request(&[("X-Request-Id", "11111111-1111-1111-1111-11111111AAAA")]);
    let (req, res, _, _) = run(req, response(404));
    assert_eq!(
        req.ext.request_id.unwrap().as_str(),
        "11111111-1111-1111-1111-11111111aaaa"
    );
    assert_eq!(
        res.body,
        "{\"status\":404,\"title\":\"Not Found\",\"message\":\"(no additional context)\",\"request_id\":\"11111111-1111-1111-1111-11111111aaaa\",\"correlation_id\":null}"
    );
    assert_eq!(
        res.headers.get("X-Request-Id"),
        Some("11111111-1111-1111-1111-11111111aaaa".to_string())
    );
}

#[test]
fn malformed_header_is_replaced() {
    let stage = RequestIdMiddleware::new();
    let mut req = request(&[("X-Request-Id", "not-a-uuid")]);
    let how = stage.on_request(&mut req);
    let id = req.ext.request_id.as_ref().unwrap();
    assert!(is_canonical(id.as_str()));
    assert_ne!(id.as_str(), "not-a-uuid");
    match how {
        Assignment::Replaced { id: fresh, rejected, reason } => {
            assert_eq!(fresh.as_str(), id.as_str());
            assert_eq!(rejected, "not-a-uuid");
            assert!(!reason.is_empty());
        }
        other => panic!("unexpected assignment {:?}", other),
    }
}

#[test]
fn the_last_of_two_id_headers_counts() {
    let stage = RequestIdMiddleware::new();
    let mut req = request(&[]);
    req.head.headers.entries.push(Header {
        name: "X-Request-Id".to_string(),
        value: "11111111-1111-1111-1111-111111111111".to_string(),
    });
    req.head.headers.entries.push(Header {
        name: "x-request-id".to_string(),
        value: "22222222-2222-2222-2222-222222222222".to_string(),
    });
    stage.on_request(&mut req);
    assert_eq!(
        req.ext.request_id.unwrap().as_str(),
        "22222222-2222-2222-2222-222222222222"
    );
}

#[test]
fn request_id_parsing() {
    assert!(RequestId::from_str("").is_err());
    assert!(RequestId::from_str("not-a-uuid").is_err());
    assert!(RequestId::from_str("936da01f-9abd-4d9d-80c7-02af85c822a").is_err());
    let nil = RequestId::from_str("00000000-0000-0000-0000-000000000000").unwrap();
    assert_eq!(nil.as_u128(), 0);
    let urn = RequestId::from_str("urn:uuid:936da01f-9abd-4d9d-80c7-02af85c822a8").unwrap();
    assert_eq!(urn.as_u128(), 0x936da01f9abd4d9d80c702af85c822a8);
    assert_eq!(urn.as_str(), "936da01f-9abd-4d9d-80c7-02af85c822a8");
    let upper = RequestId::from_str("11111111-1111-1111-1111-11111111AAAA").unwrap();
    assert_eq!(upper.as_str(), "11111111-1111-1111-1111-11111111aaaa");
    assert_eq!(upper.to_string(), upper.as_str());
}

#[test]
fn request_id_from_value_is_canonical() {
    let id = RequestId::from_u128(0x0123456789abcdef0fedcba987654321);
    assert_eq!(id.as_str(), "01234567-89ab-cdef-0fed-cba987654321");
    assert_eq!(id.as_u128(), 0x0123456789abcdef0fedcba987654321);
    assert_eq!(RequestId::from_u128(0).as_str(), "00000000-0000-0000-0000-000000000000");
    assert_eq!(
        RequestId::from_u128(u128::MAX).as_str(),
        "ffffffff-ffff-ffff-ffff-ffffffffffff"
    );
    let copy = id.clone();
    assert_eq!(copy.as_str(), id.as_str());
}

#[test]
fn fresh_identifiers_are_version_four_and_differ() {
    let a = RequestId::new();
    let b = RequestId::new();
    assert_ne!(a.as_str(), b.as_str());
    for id in [&a, &b] {
        assert!(is_canonical(id.as_str()));
        assert_eq!((id.as_u128() >> 76) & 0xf, 4);
        assert_eq!((id.as_u128() >> 62) & 0x3, 2);
        assert_eq!(id.as_str().as_bytes()[14], b'4');
    }
    let c = CorrelationId::new();
    assert!(is_canonical(c.as_str()));
    assert_eq!(c.as_str().as_bytes()[14], b'4');
    assert_ne!(c.as_str(), CorrelationId::new().as_str());
}

#[test]
fn correlation_id_takes_any_text() {
    let c = CorrelationId::from_str("anything at all").unwrap();
    assert_eq!(c.as_str(), "anything at all");
    assert_eq!(c.to_string(), "anything at all");
    assert_eq!(
        CorrelationId::from_u128(1).as_str(),
        "00000000-0000-0000-0000-000000000001"
    );
}

#[test]
fn server_error_with_given_correlation_id() {
    let errors = JsonErrorMiddleware::new();
    let mut req = request(&[("X-Request-Id", "11111111-1111-1111-1111-111111111111")]);
    RequestIdMiddleware::new().on_request(&mut req);
    let ctx = errors.on_request(&mut req).unwrap();

    let mut res = failed(503, "secret");
    res.headers.insert("x-correlation-id", "stale");
    errors.fail_server(&ctx, &mut res, CorrelationId::from_u128(0));
    assert_eq!(
        res.body,
        "{\"status\":503,\"title\":\"Service Unavailable\",\"message\":\"Internal Server Error (correlation_id=00000000-0000-0000-0000-000000000000)\",\"request_id\":\"11111111-1111-1111-1111-111111111111\",\"correlation_id\":\"00000000-0000-0000-0000-000000000000\"}"
    );
    assert_eq!(
        res.headers.get("X-Correlation-Id"),
        Some("00000000-0000-0000-0000-000000000000".to_string())
    );
    assert_eq!(res.headers.entries.len(), 1);
    assert_eq!(
        res.correlation_id.unwrap().as_str(),
        "00000000-0000-0000-0000-000000000000"
    );
    assert_eq!(res.error.unwrap().message, "secret");
}

#[test]
fn server_error_body_does_not_depend_on_the_error() {
    let errors = JsonErrorMiddleware::new();
    let mut req = request(&[]);
    RequestIdMiddleware::new().on_request(&mut req);
    let ctx = errors.on_request(&mut req).unwrap();

    let mut one = failed(500, "first failure");
    let mut other = response(500);
    errors.fail_server(&ctx, &mut one, CorrelationId::from_u128(7));
    errors.fail_server(&ctx, &mut other, CorrelationId::from_u128(7));
    assert_eq!(one.body, other.body);
}

#[test]
fn client_error_without_detail_gets_the_placeholder() {
    let req = request(&[("X-Request-Id", "11111111-1111-1111-1111-111111111111")]);
    let (_, res, _, _) = run(req, response(404));
    assert_eq!(
        res.body,
        "{\"status\":404,\"title\":\"Not Found\",\"message\":\"(no additional context)\",\"request_id\":\"11111111-1111-1111-1111-111111111111\",\"correlation_id\":null}"
    );
    assert_eq!(res.headers.get("X-Correlation-Id"), None);
}

#[test]
fn client_error_detail_is_shown_exactly() {
    let detail = "failed with reason: missing field `param`";
    let (_, res, _, _) = run(request(&[]), failed(400, detail));
    let body: serde_json::Value = serde_json::from_str(&res.body).unwrap();
    assert_eq!(body["message"], detail);
    assert_eq!(body["status"], 400);
    assert_eq!(body["title"], "Bad Request");
    assert!(body["correlation_id"].is_null());
    assert_eq!(
        body["request_id"].as_str().unwrap(),
        res.headers.get("X-Request-Id").unwrap()
    );
}

#[test]
fn other_responses_pass_untouched() {
    let errors = JsonErrorMiddleware::new();
    let mut req = request(&[]);
    RequestIdMiddleware::new().on_request(&mut req);
    let ctx = errors.on_request(&mut req).unwrap();
    for code in [100, 200, 204, 301, 304, 399] {
        let Some(status) = StatusCode::new(code) else { continue };
        let mut res = Response::new(status);
        res.body = "as the handler made it".to_string();
        res.body_size = None;
        res.headers.insert("Location", "/elsewhere");
        assert_eq!(errors.on_response(&ctx, &mut res), Rewrite::Untouched);
        assert_eq!(res.body, "as the handler made it");
        assert_eq!(res.body_size, None);
        assert_eq!(res.headers.entries.len(), 1);
        assert_eq!(res.headers.get("X-Correlation-Id"), None);
        assert!(res.correlation_id.is_none());
    }
}

#[test]
fn error_stage_takes_a_request_once() {
    let errors = JsonErrorMiddleware::new();
    let mut req = request(&[]);
    RequestIdMiddleware::new().on_request(&mut req);
    assert!(!req.ext.error_stage_seen);
    let first = errors.on_request(&mut req);
    assert!(req.ext.error_stage_seen);
    assert_eq!(
        first.unwrap().request_id.as_str(),
        req.ext.request_id.as_ref().unwrap().as_str()
    );
    assert!(errors.on_request(&mut req).is_none());
}

#[test]
fn envelope_with_a_trace_id() {
    let envelope = JsonError {
        status: 418,
        title: "I'm a teapot".to_string(),
        message: "short\\stout".to_string(),
        request_id: RequestId::from_u128(1),
        correlation_id: Some("c".to_string()),
        honeycomb_trace_id: Some("t".to_string()),
    };
    assert_eq!(
        envelope.to_json(),
        "{\"status\":418,\"title\":\"I'm a teapot\",\"message\":\"short\\\\stout\",\"request_id\":\"00000000-0000-0000-0000-000000000001\",\"correlation_id\":\"c\",\"honeycomb_trace_id\":\"t\"}"
    );
}

#[test]
fn envelope_carries_the_trace_id_of_the_request() {
    let errors = JsonErrorMiddleware::new();
    let mut req = request(&[]);
    RequestIdMiddleware::new().on_request(&mut req);
    req.ext.trace_id = Some(TraceId::from_str("abc123"));
    let ctx = errors.on_request(&mut req).unwrap();
    let mut res = response(404);
    errors.fail_client(&ctx, &mut res);
    assert!(res.body.ends_with(",\"correlation_id\":null,\"honeycomb_trace_id\":\"abc123\"}"));
}

#[test]
fn logging_stage_takes_a_request_once() {
    let log = LogMiddleware::new();
    let mut req = request(&[("Referer", "https://example.org/"), ("User-Agent", "curl/7.79")]);
    req.ext.request_id = Some(RequestId::from_u128(5));
    let incoming = log.on_request(&mut req).unwrap();
    assert!(req.ext.log_stage_seen);
    assert!(log.on_request(&mut req).is_none());

    assert_eq!(incoming.record.level, Level::Trace);
    assert_eq!(incoming.record.message, "Incoming Request");
    assert_eq!(
        keys(&incoming.record),
        ["method", "path", "ip", "referer", "user_agent", "body_size", "request_id"]
    );
    assert_eq!(text_of(&incoming.record, "method"), "GET");
    assert_eq!(text_of(&incoming.record, "path"), "/api/v1/things");
    assert_eq!(text_of(&incoming.record, "ip"), "10.0.0.7:4000");
    assert_eq!(text_of(&incoming.record, "referer"), "https://example.org/");
    assert_eq!(text_of(&incoming.record, "user_agent"), "curl/7.79");
    assert!(matches!(field(&incoming.record, "body_size"), Some(Value::Number(0))));
    assert_eq!(
        text_of(&incoming.record, "request_id"),
        "00000000-0000-0000-0000-000000000005"
    );
}

#[test]
fn logging_stage_fills_in_placeholders() {
    let log = LogMiddleware::new();
    let mut req = request(&[]);
    req.head.peer_addr = None;
    req.head.body_size = None;
    req.ext.request_id = Some(RequestId::from_u128(5));
    let incoming = log.on_request(&mut req).unwrap();
    assert_eq!(incoming.summary.ip, "(no Peer Address)");
    assert_eq!(incoming.summary.referer, "(no Referer)");
    assert_eq!(incoming.summary.user_agent, "(no User-Agent)");
    assert!(matches!(field(&incoming.record, "body_size"), Some(Value::Missing)));
}

#[test]
fn log_record_of_a_success() {
    let log = LogMiddleware::new();
    let mut req = request(&[]);
    req.ext.request_id = Some(RequestId::from_u128(5));
    let incoming = log.on_request(&mut req).unwrap();
    let mut res = response(201);
    res.body_size = Some(17);
    assert_eq!(LogMiddleware::outcome(&res), Outcome::Completed);
    let record = log.on_response(&incoming.summary, &res, "250µs");
    assert_eq!(record.level, Level::Info);
    assert_eq!(record.message, "Created");
    assert_eq!(
        keys(&record),
        [
            "status", "method", "path", "ip", "referer", "user_agent", "body_size",
            "request_id", "honeycomb_trace_id", "elapsed"
        ]
    );
    assert!(matches!(field(&record, "status"), Some(Value::Number(201))));
    assert!(matches!(field(&record, "body_size"), Some(Value::Number(17))));
    assert_eq!(text_of(&record, "honeycomb_trace_id"), "disabled");
    assert_eq!(text_of(&record, "elapsed"), "250µs");
}

#[test]
fn log_record_of_a_client_error() {
    let log = LogMiddleware::new();
    let mut req = request(&[]);
    req.ext.request_id = Some(RequestId::from_u128(5));
    req.ext.trace_id = Some(TraceId::from_str("trace-9"));
    let incoming = log.on_request(&mut req).unwrap();

    let mut res = failed(400, "bad input");
    res.error.as_mut().unwrap().error_type = None;
    assert_eq!(LogMiddleware::outcome(&res), Outcome::ClientError);
    let record = log.on_response(&incoming.summary, &res, "1ms");
    assert_eq!(record.level, Level::Warn);
    assert_eq!(record.message, "Client Error: Bad Request");
    assert_eq!(
        keys(&record),
        [
            "status", "method", "path", "ip", "referer", "user_agent", "message", "error_type",
            "request_id", "honeycomb_trace_id", "elapsed"
        ]
    );
    assert_eq!(text_of(&record, "message"), "bad input");
    assert!(matches!(field(&record, "error_type"), Some(Value::Missing)));
    assert_eq!(text_of(&record, "honeycomb_trace_id"), "trace-9");

    let plain = log.on_response(&incoming.summary, &response(404), "1ms");
    assert_eq!(
        keys(&plain),
        [
            "status", "method", "path", "ip", "referer", "user_agent", "request_id",
            "honeycomb_trace_id", "elapsed"
        ]
    );
}

#[test]
fn log_record_of_a_server_error() {
    let log = LogMiddleware::new();
    let mut req = request(&[]);
    req.ext.request_id = Some(RequestId::from_u128(5));
    let incoming = log.on_request(&mut req).unwrap();

    let mut res = failed(500, "boom");
    res.correlation_id = Some(CorrelationId::from_u128(9));
    assert_eq!(LogMiddleware::outcome(&res), Outcome::ServerError);
    let record = log.on_response(&incoming.summary, &res, "1ms");
    assert_eq!(record.level, Level::Error);
    assert_eq!(record.message, "Internal Error");
    assert_eq!(
        keys(&record),
        [
            "status", "method", "path", "ip", "referer", "user_agent", "message", "error_type",
            "correlation_id", "request_id", "honeycomb_trace_id", "elapsed"
        ]
    );
    assert_eq!(text_of(&record, "error_type"), "app::Failure");
    assert_eq!(
        text_of(&record, "correlation_id"),
        "00000000-0000-0000-0000-000000000009"
    );

    res.error = None;
    let bare = log.on_response(&incoming.summary, &res, "1ms");
    assert_eq!(
        keys(&bare),
        [
            "status", "method", "path", "ip", "referer", "user_agent", "correlation_id",
            "request_id", "honeycomb_trace_id", "elapsed"
        ]
    );
}

#[test]
fn log_record_of_a_server_error_that_no_stage_caught() {
    let log = LogMiddleware::new();
    let mut req = request(&[]);
    req.ext.request_id = Some(RequestId::from_u128(5));
    let incoming = log.on_request(&mut req).unwrap();
    let res = failed(502, "boom");
    assert_eq!(LogMiddleware::outcome(&res), Outcome::Unhandled);
    let record = log.on_response(&incoming.summary, &res, "1ms");
    assert_eq!(record.level, Level::Error);
    assert_eq!(
        record.message,
        "Internal Error -- JsonErrorMiddleware must be installed after LogMiddleware"
    );
    assert!(record.fields.is_empty());
}

#[test]
fn a_correlation_id_decides_before_the_status() {
    let mut res = response(200);
    res.correlation_id = Some(CorrelationId::from_u128(1));
    assert_eq!(LogMiddleware::outcome(&res), Outcome::ServerError);
}

#[test]
fn clacks_overhead() {
    let stage = ClacksMiddleware::new();
    let mut res = response(200);
    res.headers.insert("x-clacks-overhead", "old");
    res.headers.insert("Other", "stays");
    stage.on_response(&mut res);
    assert_eq!(
        res.headers.get("X-Clacks-Overhead"),
        Some("GNU/Terry Pratchett".to_string())
    );
    assert_eq!(res.headers.get("other"), Some("stays".to_string()));
    assert_eq!(res.headers.entries.len(), 2);
}

#[test]
fn headers_are_found_whatever_the_case() {
    let mut headers = Headers::new();
    assert_eq!(headers.get("Accept"), None);
    headers.insert("Accept", "text/html");
    headers.insert("ACCEPT", "application/json");
    headers.insert("Accept-Language", "de");
    assert_eq!(headers.get("accept"), Some("application/json".to_string()));
    assert_eq!(headers.get("accept-language"), Some("de".to_string()));
    assert_eq!(headers.get("accept-"), None);
    assert_eq!(headers.entries.len(), 2);
    assert_eq!(headers.get("ACCEPT-LANGUAGE"), Some("de".to_string()));
}

#[test]
fn status_codes() {
    assert!(StatusCode::new(0).is_none());
    assert!(StatusCode::new(99).is_none());
    assert!(StatusCode::new(299).is_none());
    assert!(StatusCode::new(600).is_none());
    let not_found = StatusCode::new(404).unwrap();
    assert_eq!(not_found.as_u16(), 404);
    assert_eq!(not_found.canonical_reason(), "Not Found");
    assert!(not_found.is_client_error());
    assert!(!not_found.is_server_error());
    let unavailable = StatusCode::new(503).unwrap();
    assert_eq!(unavailable.canonical_reason(), "Service Unavailable");
    assert!(unavailable.is_server_error());
    assert!(!unavailable.is_client_error());
    let ok = StatusCode::new(200).unwrap();
    assert!(!ok.is_client_error() && !ok.is_server_error());
    assert!(StatusCode::new(400).unwrap().is_client_error());
    assert!(StatusCode::new(451).unwrap().is_client_error());
    assert!(StatusCode::new(500).unwrap().is_server_error());
    assert!(StatusCode::new(511).unwrap().is_server_error());
}

#[test]
fn middleware_values_by_default() {
    let _ = ClacksMiddleware::default();
    let _ = RequestIdMiddleware::default();
    let _ = LogMiddleware::default();
    let _ = JsonErrorMiddleware::default();
    let _ = preroll::trace::TraceMiddleware::default();
}

#[test]
fn error_stage_says_what_it_did() {
    let errors = JsonErrorMiddleware::new();
    let mut req = request(&[]);
    RequestIdMiddleware::new().on_request(&mut req);
    let ctx = errors.on_request(&mut req).unwrap();
    for (code, done) in [
        (200, Rewrite::Untouched),
        (302, Rewrite::Untouched),
        (400, Rewrite::ClientError),
        (499, Rewrite::ClientError),
        (404, Rewrite::ClientError),
        (500, Rewrite::ServerError),
        (503, Rewrite::ServerError),
    ] {
        let Some(status) = StatusCode::new(code) else { continue };
        let mut res = Response::new(status);
        assert_eq!(errors.on_response(&ctx, &mut res), done);
        assert_eq!(res.body.is_empty(), done == Rewrite::Untouched);
        assert_eq!(res.correlation_id.is_some(), done == Rewrite::ServerError);
    }
}
