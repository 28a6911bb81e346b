use axum::http::header::IF_MATCH;
use axum::http::{HeaderMap, HeaderValue};
use koharu::history::{epoch_precondition_from_bytes, parse_epoch_precondition, router, HistoryResult};
use koharu::routes::Method;

fn headers(value: &'static str) -> HeaderMap {
    let mut headers = HeaderMap::new();
    headers.insert(IF_MATCH, HeaderValue::from_static(value));
    headers
}

#[test]
fn epoch_precondition_accepts_one_strong_numeric_value() {
    assert_eq!(
        parse_epoch_precondition(&headers("\"42\"")).unwrap(),
        Some(42)
    );
    assert_eq!(parse_epoch_precondition(&headers("42")).unwrap(), Some(42));
}

#[test]
fn epoch_precondition_rejects_weak_multiple_or_mismatched_quotes() {
    for value in ["W/\"42\"", "\"42\", \"43\"", "\"42", "42\"", "\"\"42\"\""] {
        assert!(
            parse_epoch_precondition(&headers(value)).is_err(),
            "{value}"
        );
    }
}

#[test]
fn missing_if_match_is_no_precondition() {
    assert_eq!(parse_epoch_precondition(&HeaderMap::new()).unwrap(), None);
}

#[test]
fn header_name_is_case_insensitive() {
    let mut headers = HeaderMap::new();
    headers.insert("If-Match", HeaderValue::from_static("7"));
    assert_eq!(parse_epoch_precondition(&headers).unwrap(), Some(7));
}

#[test]
fn surrounding_whitespace_and_plus_sign_are_accepted() {
    assert_eq!(parse_epoch_precondition(&headers("  \"5\"\t")).unwrap(), Some(5));
    assert_eq!(parse_epoch_precondition(&headers("+9")).unwrap(), Some(9));
    assert_eq!(
        parse_epoch_precondition(&headers("18446744073709551615")).unwrap(),
        Some(u64::MAX)
    );
}

#[test]
fn each_refusal_has_its_message() {
    let cases = [
        ("", "If-Match must contain exactly one strong numeric scene epoch"),
        ("*", "If-Match must contain exactly one strong numeric scene epoch"),
        ("1,2", "If-Match must contain exactly one strong numeric scene epoch"),
        ("W/\"1\"", "If-Match must contain exactly one strong numeric scene epoch"),
        ("\"", "If-Match scene epoch must be either unquoted or enclosed by one quote pair"),
        ("\"12", "If-Match scene epoch must be either unquoted or enclosed by one quote pair"),
        ("\"\"", "If-Match scene epoch must be an unsigned integer"),
        ("\"\"4\"\"", "If-Match scene epoch must be an unsigned integer"),
        ("-1", "If-Match scene epoch is not an unsigned integer"),
        ("+", "If-Match scene epoch is not an unsigned integer"),
        ("12a", "If-Match scene epoch is not an unsigned integer"),
        ("18446744073709551616", "If-Match scene epoch is not an unsigned integer"),
    ];
    for (value, message) in cases {
        let error = parse_epoch_precondition(&headers(value)).unwrap_err();
        assert_eq!(error.status, 400, "{value}");
        assert_eq!(error.message, message, "{value}");
    }
}

#[test]
fn non_ascii_value_is_refused() {
    let error = epoch_precondition_from_bytes(Some(&[0xc3, 0xa9][..])).unwrap_err();
    assert_eq!(error.status, 400);
    assert_eq!(error.message, "If-Match must be an ASCII scene epoch");
    let error = epoch_precondition_from_bytes(Some(&b"4\n2"[..])).unwrap_err();
    assert_eq!(error.message, "If-Match must be an ASCII scene epoch");
}

#[test]
fn history_routes_are_three_posts() {
    let routes = router();
    let paths: Vec<(Method, &str)> = routes.iter().map(|r| (r.method, r.path)).collect();
    assert_eq!(
        paths,
        vec![
            (Method::Post, "/history/apply"),
            (Method::Post, "/history/undo"),
            (Method::Post, "/history/redo"),
        ]
    );
    let result = HistoryResult { epoch: Some(3) };
    assert_eq!(result.epoch, Some(3));
}

#[test]
fn padded_decimal_epoch_is_read_as_that_epoch() {
    for (value, expected) in [
        (" \t0\t ", 0u64),
        ("\t\"18446744073709551615\"  ", u64::MAX),
        ("  \"9\"", 9),
        ("123 \t", 123),
    ] {
        assert_eq!(
            parse_epoch_precondition(&headers(value)).unwrap(),
            Some(expected),
            "{value:?}"
        );
        assert_eq!(
            epoch_precondition_from_bytes(Some(value.as_bytes())).unwrap(),
            Some(expected)
        );
    }
}
