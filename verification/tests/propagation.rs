use preroll::propagation::{Propagation, PropagationError, PROPAGATION_HTTP_HEADER, PROPAGATION_VERSION};
use serde_json::Value;

fn sign_on_context() -> String {
    let mut members = serde_json::Map::new();
    members.insert("userID".to_string(), Value::from(1));
    members.insert("errorMsg".to_string(), Value::from("failed to sign on"));
    members.insert("toRetry".to_string(), Value::from(true));
    Value::Object(members).to_string()
}

fn key_value_context() -> String {
    let mut members = serde_json::Map::new();
    members.insert("key".to_string(), Value::from("value"));
    Value::Object(members).to_string()
}

#[test]
fn test_marshal() {
    let mut p = Propagation {
        trace_id: "abcdef123456".to_string(),
        parent_id: "0102030405".to_string(),
        trace_context: sign_on_context(),
        dataset: "".to_string(),
    };
    assert_eq!(
        p.marshal_trace_context(),
        "1;trace_id=abcdef123456,parent_id=0102030405,context=eyJ1c2VySUQiOjEsImVycm9yTXNnIjoiZmFpbGVkIHRvIHNpZ24gb24iLCJ0b1JldHJ5Ijp0cnVlfQ=="
    );

    p.dataset = "dada".to_string();
    assert_eq!(
        p.marshal_trace_context(),
        "1;trace_id=abcdef123456,parent_id=0102030405,dataset=dada,context=eyJ1c2VySUQiOjEsImVycm9yTXNnIjoiZmFpbGVkIHRvIHNpZ24gb24iLCJ0b1JldHJ5Ijp0cnVlfQ=="
    );
}

#[test]
fn test_unmarshal_with_dataset() {
    let p = Propagation {
        trace_id: "weofijwoeifj".to_string(),
        parent_id: "owefjoweifj".to_string(),
        dataset: "dada".to_string(),
        trace_context: key_value_context(),
    };
    assert_eq!(
        p,
        Propagation::unmarshal_trace_context(&p.marshal_trace_context()).unwrap()
    );
}

#[test]
fn header_name_and_version() {
    assert_eq!(PROPAGATION_HTTP_HEADER, "X-Honeycomb-Trace");
    assert_eq!(PROPAGATION_VERSION, 1);
}

#[test]
fn unmarshal_reads_the_documented_example() {
    // "e30=" is the base64 of "{}".
    let p = Propagation::unmarshal_trace_context(
        "1;trace_id=weofijwoeifj,parent_id=owefjoweifj,context=e30=",
    )
    .unwrap();
    assert_eq!(p.trace_id, "weofijwoeifj");
    assert_eq!(p.parent_id, "owefjoweifj");
    assert_eq!(p.dataset, "");
    assert_eq!(p.trace_context, "{}");
}

#[test]
fn unmarshal_decodes_and_reprints_the_context() {
    // The context is JSON with spaces; it comes back in compact form.
    let spaced = base64::encode("{ \"key\" : \"value\" }");
    let header = format!("1;trace_id=t,parent_id=p,context={}", spaced);
    let p = Propagation::unmarshal_trace_context(&header).unwrap();
    assert_eq!(p.trace_context, "{\"key\":\"value\"}");
    assert_ne!(p.trace_context, spaced);
}

#[test]
fn unmarshal_passes_over_unknown_keys_and_takes_the_last_of_two() {
    let p = Propagation::unmarshal_trace_context(
        "1;trace_id=first,color=blue,noequals,trace_id=second,parent_id=a=b,context=e30=",
    )
    .unwrap();
    assert_eq!(p.trace_id, "second");
    assert_eq!(p.parent_id, "a=b");
}

fn other_version(version: &str) -> PropagationError {
    PropagationError::UnrecognizedVersion { version: version.to_string() }
}

#[test]
fn unmarshal_refuses_other_versions() {
    assert_eq!(
        Propagation::unmarshal_trace_context("2;trace_id=abc,parent_id=def,context=e30="),
        Err(other_version("2"))
    );
    assert_eq!(Propagation::unmarshal_trace_context(""), Err(other_version("")));
    assert_eq!(
        Propagation::unmarshal_trace_context("trace_id=a"),
        Err(other_version("trace_id=a"))
    );
    assert_eq!(
        Propagation::unmarshal_trace_context("11;trace_id=a;b"),
        Err(other_version("11"))
    );
    assert_eq!(
        Propagation::unmarshal_trace_context(" 1;trace_id=a"),
        Err(other_version(" 1"))
    );
}

#[test]
fn the_rejected_version_is_named_in_the_message() {
    let error =
        Propagation::unmarshal_trace_context("2;trace_id=abc,parent_id=def,context=e30=")
            .unwrap_err();
    assert_eq!(error.message(), "unrecognized version for trace header 2");
    assert_eq!(
        Propagation::unmarshal_trace_context("v1.5").unwrap_err().message(),
        "unrecognized version for trace header v1.5"
    );
}

#[test]
fn unmarshal_refuses_a_version_without_payload() {
    assert_eq!(
        Propagation::unmarshal_trace_context("1"),
        Err(PropagationError::Malformed)
    );
}

#[test]
fn unmarshal_refuses_a_key_without_value() {
    assert_eq!(
        Propagation::unmarshal_trace_context("1;trace_id,context=e30="),
        Err(PropagationError::Malformed)
    );
    assert_eq!(
        Propagation::unmarshal_trace_context("1;trace_id=a,context"),
        Err(PropagationError::Malformed)
    );
}

#[test]
fn unmarshal_refuses_a_parent_without_trace() {
    assert_eq!(
        Propagation::unmarshal_trace_context("1;parent_id=abc,context=e30="),
        Err(PropagationError::ParentWithoutTrace)
    );
}

#[test]
fn unmarshal_refuses_a_context_that_is_not_base64() {
    assert_eq!(
        Propagation::unmarshal_trace_context("1;trace_id=a,context=***"),
        Err(PropagationError::ContextNotBase64)
    );
}

#[test]
fn unmarshal_refuses_a_context_that_is_not_json() {
    // "SGVsbG8gV29ybGQ=" is the base64 of "Hello World".
    assert_eq!(
        Propagation::unmarshal_trace_context(
            "1;trace_id=weofijwoeifj,parent_id=owefjoweifj,context=SGVsbG8gV29ybGQ="
        ),
        Err(PropagationError::ContextNotJson)
    );
    // No context at all: the empty text is base64 of nothing, which is no JSON.
    assert_eq!(
        Propagation::unmarshal_trace_context("1;trace_id=a"),
        Err(PropagationError::ContextNotJson)
    );
}

#[test]
fn round_trip_keeps_every_field() {
    let p = Propagation {
        trace_id: "T".to_string(),
        parent_id: "P".to_string(),
        dataset: "".to_string(),
        trace_context: sign_on_context(),
    };
    let header = p.marshal_trace_context();
    assert!(header.starts_with("1;trace_id=T,parent_id=P,context="));
    let q = Propagation::unmarshal_trace_context(&header).unwrap();
    assert_eq!(q, p);
    assert_eq!(q.marshal_trace_context(), header);
}

#[test]
fn faults_have_messages() {
    assert_eq!(
        other_version("").message(),
        "unrecognized version for trace header "
    );
    assert_eq!(
        PropagationError::Malformed.message(),
        "malformed payload for trace header"
    );
    assert_eq!(
        PropagationError::ParentWithoutTrace.message(),
        "parent_id without trace_id"
    );
    assert_eq!(
        PropagationError::ContextNotBase64.message(),
        "unable to decode base64 trace context"
    );
    assert_eq!(
        PropagationError::ContextNotJson.message(),
        "unable to unmarshal trace context"
    );
}
