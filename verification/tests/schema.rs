use dd_trace_layer::headers::Headers;
use dd_trace_layer::meta::{extract_metadata, RequestHead};
use dd_trace_layer::span::{span_finish, Outcome, SpanCommand};
use dd_trace_layer::DDTrace;
use opentelemetry_semantic_conventions::attribute;

#[test]
fn attribute_keys_follow_the_semantic_conventions() {
    let service = DDTrace::new((), "op");
    let head = RequestHead {
        method: "GET".to_string(),
        path: "/".to_string(),
        url: "/".to_string(),
        version: "HTTP/1.1".to_string(),
        scheme: None,
        headers: Headers::new(),
    };
    let meta = extract_metadata(&head);
    match service.span_start(&meta) {
        SpanCommand::Start { attributes, .. } => {
            let keys: Vec<&str> = attributes.iter().map(|a| a.key.as_str()).collect();
            assert_eq!(
                keys,
                vec![
                    attribute::HTTP_URL,
                    attribute::HTTP_METHOD,
                    attribute::HTTP_FLAVOR,
                    attribute::HTTP_USER_AGENT,
                    attribute::HTTP_HOST,
                    attribute::HTTP_SCHEME,
                    attribute::HTTP_CLIENT_IP,
                ]
            );
        }
        _ => panic!("expected a start command"),
    }
    match &span_finish(&Outcome::Success { status: 200 })[0] {
        SpanCommand::SetAttr { attr } => assert_eq!(attr.key, attribute::HTTP_STATUS_CODE),
        _ => panic!("expected the status-code attribute"),
    }
}
