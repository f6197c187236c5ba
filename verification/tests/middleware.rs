use dd_trace_layer::headers::Headers;
use dd_trace_layer::meta::{extract_metadata, RequestHead};
use dd_trace_layer::span::{span_finish, Attr, AttrValue, Outcome, SpanCommand};
use dd_trace_layer::{DDTrace, DDTraceLayer};

fn health_head() -> RequestHead {
    RequestHead {
        method: "GET".to_string(),
        path: "/health".to_string(),
        url: "/health".to_string(),
        version: "HTTP/1.1".to_string(),
        scheme: None,
        headers: Headers::new(),
    }
}

fn text_attr(key: &str, value: &str) -> Attr {
    Attr {
        key: key.to_string(),
        value: AttrValue::Text(value.to_string()),
    }
}

fn int_attr(key: &str, value: i64) -> Attr {
    Attr {
        key: key.to_string(),
        value: AttrValue::Int(value),
    }
}

#[test]
fn layer_factory_configures_the_wrapper() {
    let layer = DDTraceLayer::new("operation_name".to_string());
    assert_eq!(layer.operation, "operation_name");
    let service = layer.layer(7u32);
    assert_eq!(service.operation, "operation_name");
    assert_eq!(service.inner, 7u32);
}

#[test]
fn wrapper_keeps_inner_and_operation() {
    let service = DDTrace::new("inner", "op");
    assert_eq!(service.operation, "op");
    assert_eq!(service.inner, "inner");
}

#[test]
fn metadata_defaults_for_bare_request() {
    let meta = extract_metadata(&health_head());
    assert_eq!(meta.method, "GET");
    assert_eq!(meta.path, "/health");
    assert_eq!(meta.url, "/health");
    assert_eq!(meta.version, "HTTP/1.1");
    assert_eq!(meta.user_agent, "");
    assert_eq!(meta.host, "");
    assert_eq!(meta.scheme, "http");
    assert_eq!(meta.client_ip, "");
}

#[test]
fn metadata_takes_headers_and_scheme() {
    let mut head = health_head();
    head.scheme = Some("https".to_string());
    head.headers
        .insert("User-Agent".to_string(), Some("curl/8.0".to_string()));
    head.headers
        .insert("Host".to_string(), Some("example.com".to_string()));
    let meta = extract_metadata(&head);
    assert_eq!(meta.user_agent, "curl/8.0");
    assert_eq!(meta.host, "example.com");
    assert_eq!(meta.scheme, "https");
}

#[test]
fn metadata_client_ip_takes_first_forwarded_entry() {
    let mut head = health_head();
    head.headers.insert(
        "X-Forwarded-For".to_string(),
        Some("10.0.0.1, 10.0.0.2".to_string()),
    );
    let meta = extract_metadata(&head);
    assert_eq!(meta.client_ip, "10.0.0.1");
}

#[test]
fn span_starts_with_path_name_and_schema_attributes() {
    let service = DDTrace::new((), "operation_name");
    let meta = extract_metadata(&health_head());
    let start = service.span_start(&meta);
    let expected = SpanCommand::Start {
        operation: "operation_name".to_string(),
        name: "/health".to_string(),
        attributes: vec![
            text_attr("http.url", "/health"),
            text_attr("http.method", "GET"),
            text_attr("http.flavor", "HTTP/1.1"),
            text_attr("http.user_agent", ""),
            text_attr("http.host", ""),
            text_attr("http.scheme", "http"),
            text_attr("http.client_ip", ""),
        ],
    };
    assert_eq!(start, expected);
}

#[test]
fn success_200_sets_status_and_no_failure() {
    let cmds = span_finish(&Outcome::Success { status: 200 });
    assert_eq!(
        cmds,
        vec![
            SpanCommand::SetAttr {
                attr: int_attr("http.status_code", 200)
            },
            SpanCommand::End,
        ]
    );
}

#[test]
fn success_503_marks_failure_with_canonical_reason() {
    let cmds = span_finish(&Outcome::Success { status: 503 });
    assert_eq!(
        cmds,
        vec![
            SpanCommand::SetAttr {
                attr: int_attr("http.status_code", 503)
            },
            SpanCommand::SetError {
                message: "Service Unavailable".to_string()
            },
            SpanCommand::End,
        ]
    );
}

#[test]
fn server_error_without_canonical_reason_gets_empty_message() {
    let cmds = span_finish(&Outcome::Success { status: 599 });
    assert_eq!(
        cmds,
        vec![
            SpanCommand::SetAttr {
                attr: int_attr("http.status_code", 599)
            },
            SpanCommand::SetError {
                message: "".to_string()
            },
            SpanCommand::End,
        ]
    );
}

#[test]
fn inner_error_sets_500_and_error_message() {
    let cmds = span_finish(&Outcome::Failure {
        message: "connection reset".to_string(),
    });
    assert_eq!(
        cmds,
        vec![
            SpanCommand::SetAttr {
                attr: int_attr("http.status_code", 500)
            },
            SpanCommand::SetAttr {
                attr: text_attr("error.msg", "connection reset")
            },
            SpanCommand::SetError {
                message: "connection reset".to_string()
            },
            SpanCommand::End,
        ]
    );
}

#[test]
fn every_plan_ends_the_span_exactly_once_and_last() {
    let outcomes = vec![
        Outcome::Success { status: 200 },
        Outcome::Success { status: 404 },
        Outcome::Success { status: 500 },
        Outcome::Failure {
            message: "boom".to_string(),
        },
    ];
    for outcome in &outcomes {
        let cmds = span_finish(outcome);
        let ends = cmds
            .iter()
            .filter(|c| matches!(c, SpanCommand::End))
            .count();
        assert_eq!(ends, 1);
        assert_eq!(cmds.last(), Some(&SpanCommand::End));
    }
}
