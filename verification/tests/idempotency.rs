use std::collections::HashMap;

use axum::http::{HeaderMap, HeaderValue};
use koharu::error::ApiError;
use koharu::idempotency::{
    check_receipt_schema, lookup_result, parse_key, receipt_file_name, request_hash_of, router,
    validate_key, Decision, IdempotencyReceipt, ReceiptState, Reservation, RECEIPT_VERSION,
};

fn json(text: &str) -> serde_json::Value {
    serde_json::from_str(text).unwrap()
}

/// Receipts kept across store instances, by file name.
type Disk = HashMap<String, IdempotencyReceipt>;

fn request_hash(scope: &str, request: &serde_json::Value) -> String {
    let bytes = serde_json::to_vec(&(scope, request)).unwrap();
    request_hash_of(&bytes)
}

fn begin(disk: &mut Disk, headers: &HeaderMap, scope: &str, hash: String) -> Result<Decision, ApiError> {
    let Some(reservation) =
        Reservation::from_request("/data/http-idempotency".to_string(), headers, scope, hash)?
    else {
        return Ok(Decision::Disabled);
    };
    let name = reservation.receipt_file_name();
    let (decision, write) = reservation.begin_step(disk.get(&name).cloned());
    if let Some(receipt) = write {
        disk.insert(name, receipt);
    }
    decision
}

fn complete_json(disk: &mut Disk, decision: Decision, response: &serde_json::Value) -> Result<(), ApiError> {
    if let Decision::Fresh(reservation) = decision {
        let name = reservation.receipt_file_name();
        let current = disk.get(&name).unwrap().clone();
        if let Some(receipt) = reservation.completion(&current, response.to_string())? {
            disk.insert(name, receipt);
        }
    }
    Ok(())
}

fn replay_json(decision: &Decision) -> Option<serde_json::Value> {
    match decision {
        Decision::Replay(text) => Some(serde_json::from_str(text).unwrap()),
        _ => None,
    }
}

fn key_headers(key: &'static str) -> HeaderMap {
    let mut headers = HeaderMap::new();
    headers.insert("idempotency-key", HeaderValue::from_static(key));
    headers
}

#[test]
fn completed_receipt_replays_and_conflicting_request_is_rejected() {
    let mut disk = Disk::new();
    let headers = key_headers("request-1");
    let hash = request_hash("test", &json(r#"{"value": 1}"#));
    let decision = begin(&mut disk, &headers, "test", hash.clone()).unwrap();
    assert!(matches!(decision, Decision::Fresh(_)));
    complete_json(&mut disk, decision, &json(r#"{"ok": true}"#)).unwrap();

    let replay = begin(&mut disk, &headers, "test", hash).unwrap();
    assert_eq!(replay_json(&replay), Some(json(r#"{"ok": true}"#)));
    let other = request_hash("test", &json(r#"{"value": 2}"#));
    assert!(begin(&mut disk, &headers, "test", other).is_err());
}

#[test]
fn completed_receipt_survives_store_recreation() {
    let mut disk = Disk::new();
    let headers = key_headers("request-1");
    let hash = request_hash("test", &json(r#"{"value": 1}"#));
    let decision = begin(&mut disk, &headers, "test", hash).unwrap();
    assert!(matches!(decision, Decision::Fresh(_)));
    complete_json(&mut disk, decision, &json(r#"{"ok": true}"#)).unwrap();

    validate_key("request-1").unwrap();
    let found = disk.get(&receipt_file_name("request-1")).cloned();
    let receipt = lookup_result("request-1", found).unwrap();
    assert_eq!(receipt.state, ReceiptState::Completed);
    let response: serde_json::Value = serde_json::from_str(receipt.response.as_deref().unwrap()).unwrap();
    assert_eq!(response, json(r#"{"ok": true}"#));
}

#[test]
fn request_without_key_is_not_tracked() {
    let mut disk = Disk::new();
    let decision = begin(&mut disk, &HeaderMap::new(), "test", "h".to_string()).unwrap();
    assert!(matches!(decision, Decision::Disabled));
    assert!(disk.is_empty());
}

#[test]
fn pending_request_is_refused_not_executed_twice() {
    let mut disk = Disk::new();
    let headers = key_headers("k");
    let first = begin(&mut disk, &headers, "s", "h".to_string()).unwrap();
    assert!(matches!(first, Decision::Fresh(_)));
    let error = begin(&mut disk, &headers, "s", "h".to_string()).unwrap_err();
    assert_eq!(error.status, 409);
    assert_eq!(
        error.message,
        "idempotent request outcome is pending or ambiguous; query its receipt"
    );
}

#[test]
fn reused_key_with_other_scope_is_a_conflict() {
    let mut disk = Disk::new();
    let headers = key_headers("k");
    begin(&mut disk, &headers, "s", "h".to_string()).unwrap();
    let error = begin(&mut disk, &headers, "other", "h".to_string()).unwrap_err();
    assert_eq!(error.status, 409);
    assert_eq!(error.message, "Idempotency-Key was already used for a different request");
}

#[test]
fn malformed_receipt_state_is_an_internal_error() {
    let headers = key_headers("k");
    let reservation = Reservation::from_request("r".to_string(), &headers, "s", "h".to_string())
        .unwrap()
        .unwrap();
    let mut receipt = reservation.pending_receipt();
    receipt.state = ReceiptState::Completed;
    let error = reservation.resume(receipt).unwrap_err();
    assert_eq!(error.status, 500);
    assert_eq!(error.message, "invalid idempotency receipt state");
}

#[test]
fn completion_is_idempotent_and_rejects_a_changed_response() {
    let headers = key_headers("k");
    let reservation = Reservation::from_request("r".to_string(), &headers, "s", "h".to_string())
        .unwrap()
        .unwrap();
    let pending = reservation.pending_receipt();
    assert_eq!(pending.schema_version, RECEIPT_VERSION);
    assert_eq!(pending.state, ReceiptState::Pending);
    let completed = reservation.completion(&pending, "{\"a\":1}".to_string()).unwrap().unwrap();
    assert_eq!(completed.state, ReceiptState::Completed);
    assert_eq!(completed.response.as_deref(), Some("{\"a\":1}"));
    assert!(reservation.completion(&completed, "{\"a\":1}".to_string()).unwrap().is_none());
    let error = reservation.completion(&completed, "{\"a\":2}".to_string()).unwrap_err();
    assert_eq!(error.status, 409);
    assert_eq!(error.message, "idempotency receipt response changed");

    let zero = reservation.completion(&pending, "{\"x\":0.0}".to_string()).unwrap().unwrap();
    assert!(reservation.completion(&zero, "{\"x\":-0.0}".to_string()).unwrap().is_none());
    assert!(reservation.completion(&zero, "{ \"x\" : 0.0 }".to_string()).unwrap().is_none());
    assert!(reservation.completion(&zero, "{\"x\":0}".to_string()).is_err());

    let text = reservation.completion(&pending, "not json".to_string()).unwrap().unwrap();
    assert!(reservation.completion(&text, "not json".to_string()).unwrap().is_none());
    assert!(reservation.completion(&text, "not json either".to_string()).is_err());

    let other = Reservation::from_request("r".to_string(), &headers, "s", "g".to_string())
        .unwrap()
        .unwrap();
    let error = other.completion(&pending, "{}".to_string()).unwrap_err();
    assert_eq!(error.message, "idempotency receipt binding changed");
}

#[test]
fn begin_step_writes_a_pending_receipt_only_for_a_new_key() {
    let headers = key_headers("k");
    let reservation = Reservation::from_request("r".to_string(), &headers, "s", "h".to_string())
        .unwrap()
        .unwrap();
    let existing = reservation.pending_receipt();
    let (decision, write) = reservation.clone().begin_step(Some(existing));
    assert!(decision.is_err());
    assert!(write.is_none());
    let (decision, write) = reservation.begin_step(None);
    assert!(matches!(decision, Ok(Decision::Fresh(_))));
    let pending = write.unwrap();
    assert_eq!(pending.state, ReceiptState::Pending);
    assert_eq!(pending.key, "k");
    assert!(pending.response.is_none());
}

#[test]
fn reservation_records_its_binding() {
    let headers = key_headers("abc");
    let reservation =
        Reservation::from_request("/root".to_string(), &headers, "scope", "hash".to_string())
            .unwrap()
            .unwrap();
    assert_eq!(reservation.root(), "/root");
    assert_eq!(reservation.key(), "abc");
    assert_eq!(reservation.scope(), "scope");
    assert_eq!(reservation.request_hash(), "hash");
}

#[test]
fn keys_must_be_1_to_255_bytes_without_ascii_control_or_white_space() {
    assert!(validate_key("a").is_ok());
    assert!(validate_key(&"x".repeat(255)).is_ok());
    assert!(validate_key("é").is_ok());
    for key in ["", "a b", "a\tb", "a\u{7f}", "a\nb"] {
        let error = validate_key(key).unwrap_err();
        assert_eq!(error.status, 400);
        assert_eq!(
            error.message,
            "Idempotency-Key must be 1..255 printable non-whitespace ASCII characters"
        );
    }
    assert!(validate_key(&"x".repeat(256)).is_err());
}

#[test]
fn key_header_must_be_visible_ascii() {
    let mut headers = HeaderMap::new();
    headers.insert("idempotency-key", HeaderValue::from_bytes(&[0xc3, 0xa9]).unwrap());
    let error = parse_key(&headers).unwrap_err();
    assert_eq!(error.status, 400);
    assert_eq!(error.message, "Idempotency-Key must be ASCII");
    assert_eq!(parse_key(&key_headers("good-key")).unwrap().as_deref(), Some("good-key"));
    assert_eq!(parse_key(&HeaderMap::new()).unwrap(), None);
    let error = parse_key(&key_headers("a b")).unwrap_err();
    assert_eq!(error.status, 400);
}

#[test]
fn admitted_key_names_the_receipt_that_lookup_reads() {
    let headers = key_headers("request-1");
    let reservation = Reservation::from_request("r".to_string(), &headers, "s", "h".to_string())
        .unwrap()
        .unwrap();
    assert!(validate_key(reservation.key()).is_ok());
    assert_eq!(reservation.receipt_file_name(), receipt_file_name("request-1"));
}

#[test]
fn receipt_file_name_is_the_blake3_hex_of_the_key() {
    let name = receipt_file_name("request-1");
    assert_eq!(name, format!("{}.json", blake3::hash(b"request-1").to_hex()));
    assert_eq!(name.len(), 69);
}

#[test]
fn request_hash_is_blake3_of_the_serialised_pair() {
    let bytes = serde_json::to_vec(&("test", json(r#"{"value": 1}"#))).unwrap();
    let hash = request_hash_of(&bytes);
    assert_eq!(hash, format!("blake3:{}", blake3::hash(&bytes).to_hex()));
    assert_ne!(hash, request_hash_of(b"other"));
}

#[test]
fn lookup_reports_missing_and_colliding_receipts() {
    let error = lookup_result("k", None).unwrap_err();
    assert_eq!(error.status, 404);
    assert_eq!(error.message, "idempotency receipt not found");
    let headers = key_headers("other");
    let reservation = Reservation::from_request("r".to_string(), &headers, "s", "h".to_string())
        .unwrap()
        .unwrap();
    let error = lookup_result("k", Some(reservation.pending_receipt())).unwrap_err();
    assert_eq!(error.status, 500);
    assert_eq!(error.message, "idempotency receipt key digest collision");
}

#[test]
fn receipts_of_another_schema_are_refused() {
    let headers = key_headers("k");
    let reservation = Reservation::from_request("r".to_string(), &headers, "s", "h".to_string())
        .unwrap()
        .unwrap();
    let mut receipt = reservation.pending_receipt();
    assert!(check_receipt_schema(receipt.clone()).is_ok());
    receipt.schema_version = "v0".to_string();
    assert_eq!(check_receipt_schema(receipt).unwrap_err(), "unsupported receipt schema v0");
}

#[test]
fn receipt_route_is_a_get() {
    let routes = router();
    assert_eq!(routes.len(), 1);
    assert_eq!(routes[0].path, "/idempotency/receipt");
}
