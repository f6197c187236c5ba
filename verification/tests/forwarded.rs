use dd_trace_layer::forwarded::{client_ip, parse_x_forwarded_for};
use dd_trace_layer::headers::Headers;

#[test]
fn test_parse_x_forwarded_for() {
    let mut map = Headers::new();
    map.insert(
        "X-Forwarded-For".to_string(),
        Some("203.0.113.195, 203.0.113.194, 203.0.113.193".to_string()),
    );

    assert_eq!(
        parse_x_forwarded_for(&map),
        Some("203.0.113.195".to_string())
    );
}

#[test]
fn absent_header_gives_none() {
    let map = Headers::new();
    assert_eq!(parse_x_forwarded_for(&map), None);
}

#[test]
fn non_text_value_is_treated_as_absent() {
    let mut map = Headers::new();
    map.insert("X-Forwarded-For".to_string(), None);
    assert_eq!(parse_x_forwarded_for(&map), None);
}

#[test]
fn single_value_is_returned_whole() {
    let mut map = Headers::new();
    map.insert(
        "X-Forwarded-For".to_string(),
        Some("203.0.113.195".to_string()),
    );
    assert_eq!(
        parse_x_forwarded_for(&map),
        Some("203.0.113.195".to_string())
    );
}

#[test]
fn first_entry_is_trimmed() {
    let mut map = Headers::new();
    map.insert(
        "X-Forwarded-For".to_string(),
        Some("  203.0.113.195\t , 203.0.113.194".to_string()),
    );
    assert_eq!(
        parse_x_forwarded_for(&map),
        Some("203.0.113.195".to_string())
    );
}

#[test]
fn lookup_is_case_insensitive() {
    let mut map = Headers::new();
    map.insert("x-forwarded-for".to_string(), Some("10.0.0.7".to_string()));
    assert_eq!(parse_x_forwarded_for(&map), Some("10.0.0.7".to_string()));
}

#[test]
fn first_matching_entry_wins() {
    let mut map = Headers::new();
    map.insert("X-Forwarded-For".to_string(), Some("10.0.0.1".to_string()));
    map.insert("X-Forwarded-For".to_string(), Some("10.0.0.2".to_string()));
    assert_eq!(parse_x_forwarded_for(&map), Some("10.0.0.1".to_string()));
}

#[test]
fn trimming_covers_unicode_whitespace() {
    assert_eq!(
        client_ip("\u{A0}203.0.113.195\u{A0}, 203.0.113.194"),
        "203.0.113.195".to_string()
    );
}

#[test]
fn non_ascii_values_are_handled_per_character() {
    assert_eq!(client_ip("  αβγ , δεζ"), "αβγ".to_string());
}

#[test]
fn client_ip_of_empty_value_is_empty() {
    assert_eq!(client_ip(""), "".to_string());
    assert_eq!(client_ip("   "), "".to_string());
    assert_eq!(client_ip(",10.0.0.2"), "".to_string());
}
