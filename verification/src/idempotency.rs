//! Idempotency receipts for side-effecting gateway requests.
//!
//! A request is first recorded as `pending`, then replaced with its exact
//! JSON response.  Completed requests replay that response.  A request whose
//! outcome is still pending (for instance after a crash between the effect
//! and its completion) is refused rather than executed twice.
//!
//! This module decides; the caller keeps the receipts durable and serialises
//! access to them.

use axum::http::HeaderMap;
use vstd::prelude::*;

use crate::routes::{Method, Route, routes_view, idempotency_routes};
use vstd::string::StringSliceAdditionalSpecFns;
use vstd::utf8::{encode_utf8, is_ascii_chars, is_ascii_chars_encode_utf8};

use crate::bytes::{all_bytes_visible_ascii, all_visible_ascii};
use crate::digest::{
    blake3_digest, blake3_hash_of, is_lower_hex_char, lemma_lower_hex_shape, lower_hex,
    push_lower_hex,
};
use crate::error::{ApiError, BAD_REQUEST, CONFLICT, INTERNAL_SERVER_ERROR, NOT_FOUND};
use crate::headers::{
    first_header_value, header_bytes, header_map_entries, is_lowercase_header_name,
};

verus! {

/// Routes of the idempotency receipts: `GET /idempotency/receipt`.
pub fn router() -> (routes: Vec<Route>)
    ensures
        routes_view(routes@) == idempotency_routes(),
{
    let routes = vec![Route { method: Method::Get, path: "/idempotency/receipt" }];
    assert(routes_view(routes@) =~= idempotency_routes());
    routes
}

/// Version written into every receipt.
pub const RECEIPT_VERSION: &'static str = "koharu-http-receipt.v1";

/// Request header that carries the client's idempotency key.
pub const IDEMPOTENCY_HEADER: &'static str = "idempotency-key";

/// Directory, below the data root, that holds the receipts.
pub const RECEIPT_DIR: &'static str = "http-idempotency";

/// Query of `GET /idempotency/receipt`.
#[derive(Debug)]
pub struct ReceiptQuery {
    pub key: String,
}

#[derive(Clone, Copy, Debug, PartialEq, Eq, Structural)]
pub enum ReceiptState {
    Pending,
    Completed,
}

/// A stored receipt.  `response` is the JSON text of the recorded answer.
#[derive(Clone, Debug)]
pub struct IdempotencyReceipt {
    pub schema_version: String,
    pub key: String,
    pub scope: String,
    pub request_hash: String,
    pub state: ReceiptState,
    pub response: Option<String>,
}

/// The contents of a receipt.
pub struct ReceiptModel {
    pub schema_version: Seq<char>,
    pub key: Seq<char>,
    pub scope: Seq<char>,
    pub request_hash: Seq<char>,
    pub state: ReceiptState,
    pub response: Option<Seq<char>>,
}

pub open spec fn option_string_view(s: Option<String>) -> Option<Seq<char>> {
    match s {
        Some(s) => Some(s@),
        None => None,
    }
}

impl View for IdempotencyReceipt {
    type V = ReceiptModel;

    open spec fn view(&self) -> ReceiptModel {
        ReceiptModel {
            schema_version: self.schema_version@,
            key: self.key@,
            scope: self.scope@,
            request_hash: self.request_hash@,
            state: self.state,
            response: option_string_view(self.response),
        }
    }
}

/// A request admitted for execution: the receipt directory and the request's
/// binding (key, scope, request hash).
#[derive(Clone, Debug)]
pub struct Reservation {
    root: String,
    key: String,
    scope: String,
    request_hash: String,
}

pub struct ReservationModel {
    pub root: Seq<char>,
    pub key: Seq<char>,
    pub scope: Seq<char>,
    pub request_hash: Seq<char>,
}

impl View for Reservation {
    type V = ReservationModel;

    closed spec fn view(&self) -> ReservationModel {
        ReservationModel {
            root: self.root@,
            key: self.key@,
            scope: self.scope@,
            request_hash: self.request_hash@,
        }
    }
}

/// What to do with an incoming request.
#[derive(Debug)]
pub enum Decision {
    /// No idempotency key: execute without a receipt.
    Disabled,
    /// First sighting of the key: execute, then complete the reservation.
    Fresh(Reservation),
    /// Already completed: answer with the recorded JSON response.
    Replay(String),
}

pub enum DecisionModel {
    Disabled,
    Fresh(ReservationModel),
    Replay(Seq<char>),
}

impl View for Decision {
    type V = DecisionModel;

    open spec fn view(&self) -> DecisionModel {
        match self {
            Decision::Disabled => DecisionModel::Disabled,
            Decision::Fresh(r) => DecisionModel::Fresh(r@),
            Decision::Replay(s) => DecisionModel::Replay(s@),
        }
    }
}

pub type ErrorModel = (u16, Seq<char>);

pub open spec fn key_message() -> Seq<char> {
    "Idempotency-Key must be 1..255 printable non-whitespace ASCII characters"@
}

pub open spec fn key_not_ascii_message() -> Seq<char> {
    "Idempotency-Key must be ASCII"@
}

pub open spec fn key_reused_message() -> Seq<char> {
    "Idempotency-Key was already used for a different request"@
}

pub open spec fn pending_message() -> Seq<char> {
    "idempotent request outcome is pending or ambiguous; query its receipt"@
}

pub open spec fn invalid_state_message() -> Seq<char> {
    "invalid idempotency receipt state"@
}

pub open spec fn binding_changed_message() -> Seq<char> {
    "idempotency receipt binding changed"@
}

pub open spec fn response_changed_message() -> Seq<char> {
    "idempotency receipt response changed"@
}

pub open spec fn receipt_not_found_message() -> Seq<char> {
    "idempotency receipt not found"@
}

pub open spec fn digest_collision_message() -> Seq<char> {
    "idempotency receipt key digest collision"@
}

/// `u8::is_ascii_control`.
pub open spec fn is_ascii_control(b: u8) -> bool {
    b < 32 || b == 127
}

/// `u8::is_ascii_whitespace`: space, tab, line feed, form feed, carriage return.
pub open spec fn is_ascii_whitespace(b: u8) -> bool {
    b == 32 || b == 9 || b == 10 || b == 12 || b == 13
}

/// A key of 1 to 255 bytes, none of them an ASCII control or white-space byte.
pub open spec fn is_valid_key(bytes: Seq<u8>) -> bool {
    &&& 0 < bytes.len() <= 255
    &&& forall|i: int|
        0 <= i < bytes.len() ==> !is_ascii_control(#[trigger] bytes[i]) && !is_ascii_whitespace(
            bytes[i],
        )
}

/// The characters of an ASCII byte string.
pub open spec fn ascii_chars(bytes: Seq<u8>) -> Seq<char> {
    Seq::new(bytes.len(), |i: int| bytes[i] as char)
}

/// The key carried by a raw idempotency header value, if any.
pub open spec fn key_from_header(header: Option<Seq<u8>>) -> Result<Option<Seq<char>>, ErrorModel> {
    match header {
        None => Ok(None),
        Some(bytes) => if !all_visible_ascii(bytes) {
            Err((BAD_REQUEST, key_not_ascii_message()))
        } else if !is_valid_key(bytes) {
            Err((BAD_REQUEST, key_message()))
        } else {
            Ok(Some(ascii_chars(bytes)))
        },
    }
}

fn validate_key_bytes(bytes: &[u8]) -> (r: Result<(), ApiError>)
    ensures
        r is Ok <==> is_valid_key(bytes@),
        r matches Err(e) ==> e@ == (BAD_REQUEST, key_message()),
{
    if bytes.len() == 0 || bytes.len() > 255 {
        return Err(
            ApiError::bad_request(
                "Idempotency-Key must be 1..255 printable non-whitespace ASCII characters",
            ),
        );
    }
    for i in 0..bytes.len()
        invariant
            0 < bytes@.len() <= 255,
            forall|j: int|
                0 <= j < i ==> !is_ascii_control(#[trigger] bytes@[j]) && !is_ascii_whitespace(
                    bytes@[j],
                ),
    {
        let b = bytes[i];
        if b < 32 || b == 127 || b == 32 || b == 9 || b == 10 || b == 12 || b == 13 {
            assert(is_ascii_control(bytes@[i as int]) || is_ascii_whitespace(bytes@[i as int]));
            return Err(
                ApiError::bad_request(
                    "Idempotency-Key must be 1..255 printable non-whitespace ASCII characters",
                ),
            );
        }
    }
    Ok(())
}

/// Accepts a key of 1 to 255 bytes without ASCII control or white-space bytes.
pub fn validate_key(key: &str) -> (r: Result<(), ApiError>)
    ensures
        r is Ok <==> is_valid_key(key.spec_bytes()),
        r matches Err(e) ==> e@ == (BAD_REQUEST, key_message()),
{
    validate_key_bytes(key.as_bytes())
}

fn ascii_string(bytes: &[u8]) -> (s: String)
    ensures
        s@ == ascii_chars(bytes@),
{
    let mut s = String::new();
    for i in 0..bytes.len()
        invariant
            s@ == ascii_chars(bytes@.take(i as int)),
    {
        crate::text::push_char(&mut s, bytes[i] as char);
        assert(ascii_chars(bytes@.take(i + 1)) == ascii_chars(bytes@.take(i as int)).push(
            bytes@[i as int] as char,
        ));
    }
    assert(bytes@.take(bytes@.len() as int) == bytes@);
    s
}

pub open spec fn key_result_view(r: Result<Option<String>, ApiError>) -> Result<Option<Seq<char>>, ErrorModel> {
    match r {
        Ok(k) => Ok(option_string_view(k)),
        Err(e) => Err(e@),
    }
}

/// The idempotency key of a request: `Ok(None)` without the header, the key
/// when it is valid, and a bad request otherwise.
pub fn parse_key(headers: &HeaderMap) -> (r: Result<Option<String>, ApiError>)
    ensures
        key_result_view(r) == key_from_header(
            first_header_value(header_map_entries(*headers), IDEMPOTENCY_HEADER@),
        ),
{
    proof {
        reveal_strlit("idempotency-key");
    }
    assert(is_lowercase_header_name(IDEMPOTENCY_HEADER@));
    let value = header_bytes(headers, IDEMPOTENCY_HEADER);
    match value {
        None => Ok(None),
        Some(bytes) => {
            if !all_bytes_visible_ascii(bytes.as_slice()) {
                return Err(ApiError::bad_request("Idempotency-Key must be ASCII"));
            }
            match validate_key_bytes(bytes.as_slice()) {
                Err(e) => Err(e),
                Ok(()) => Ok(Some(ascii_string(bytes.as_slice()))),
            }
        },
    }
}

/// File name of the receipt for `key`: the lower-case hexadecimal BLAKE3
/// hash of the key's bytes, then `.json`.
pub open spec fn receipt_file_name_of(key: Seq<char>) -> Seq<char> {
    lower_hex(blake3_hash_of(encode_utf8(key))) + ".json"@
}

pub fn receipt_file_name(key: &str) -> (name: String)
    ensures
        name@ == receipt_file_name_of(key@),
{
    let digest = blake3_digest(key.as_bytes());
    let mut name = String::new();
    push_lower_hex(&mut name, &digest);
    name.append(".json");
    name
}

/// `blake3:` followed by the lower-case hexadecimal BLAKE3 hash of the
/// serialised `(scope, request)` pair.
pub open spec fn request_hash_text(serialized: Seq<u8>) -> Seq<char> {
    "blake3:"@ + lower_hex(blake3_hash_of(serialized))
}

/// Fingerprint of a request, given the JSON serialisation of its
/// `(scope, request)` pair.
pub fn request_hash_of(serialized: &[u8]) -> (h: String)
    ensures
        h@ == request_hash_text(serialized@),
        h@.len() == 71,
        forall|i: int| 7 <= i < 71 ==> is_lower_hex_char(#[trigger] h@[i]),
{
    let digest = blake3_digest(serialized);
    proof {
        lemma_lower_hex_shape(digest@);
        reveal_strlit("blake3:");
    }
    let mut h = String::from_str("blake3:");
    push_lower_hex(&mut h, &digest);
    h
}

/// Whether a receipt was written for exactly this request.
pub open spec fn same_binding(rv: ReservationModel, receipt: ReceiptModel) -> bool {
    &&& receipt.key == rv.key
    &&& receipt.scope == rv.scope
    &&& receipt.request_hash == rv.request_hash
}

/// The pending receipt recorded before a fresh request executes.
pub open spec fn pending_receipt_of(rv: ReservationModel) -> ReceiptModel {
    ReceiptModel {
        schema_version: RECEIPT_VERSION@,
        key: rv.key,
        scope: rv.scope,
        request_hash: rv.request_hash,
        state: ReceiptState::Pending,
        response: None,
    }
}

/// The completed receipt that records `response`.
pub open spec fn completed_receipt_of(rv: ReservationModel, response: Seq<char>) -> ReceiptModel {
    ReceiptModel {
        schema_version: RECEIPT_VERSION@,
        key: rv.key,
        scope: rv.scope,
        request_hash: rv.request_hash,
        state: ReceiptState::Completed,
        response: Some(response),
    }
}

/// Whether two texts both parse as JSON, to equal `serde_json::Value`s.
pub uninterp spec fn json_texts_equal(a: Seq<char>, b: Seq<char>) -> bool;

/// `serde_json::from_str::<Value>` of both texts, compared with `Value`'s
/// `==`; false when either text does not parse.
#[verifier::external_body]
fn json_text_equal(a: &str, b: &str) -> (r: bool)
    ensures
        r == json_texts_equal(a@, b@),
{
    match (
        serde_json::from_str::<serde_json::Value>(a),
        serde_json::from_str::<serde_json::Value>(b),
    ) {
        (Ok(x), Ok(y)) => x == y,
        _ => false,
    }
}

/// Whether a recorded response is the same JSON as a new one: identical text,
/// or texts of equal JSON values (such as `0.0` and `-0.0`).
pub open spec fn same_response(recorded: Seq<char>, response: Seq<char>) -> bool {
    recorded == response || json_texts_equal(recorded, response)
}

/// How a request whose key already has a receipt is answered.
pub open spec fn resume_outcome(rv: ReservationModel, existing: ReceiptModel) -> Result<DecisionModel, ErrorModel> {
    if !same_binding(rv, existing) {
        Err((CONFLICT, key_reused_message()))
    } else {
        match (existing.state, existing.response) {
            (ReceiptState::Completed, Some(response)) => Ok(DecisionModel::Replay(response)),
            (ReceiptState::Pending, None) => Err((CONFLICT, pending_message())),
            _ => Err((INTERNAL_SERVER_ERROR, invalid_state_message())),
        }
    }
}

/// What completing a reservation does to its current receipt: nothing
/// (`Ok(None)`), write a new receipt (`Ok(Some(..))`), or refuse.
pub open spec fn completion_outcome(
    rv: ReservationModel,
    current: ReceiptModel,
    response: Seq<char>,
) -> Result<Option<ReceiptModel>, ErrorModel> {
    if !same_binding(rv, current) {
        Err((CONFLICT, binding_changed_message()))
    } else if current.state == ReceiptState::Completed {
        if current.response matches Some(recorded) && same_response(recorded, response) {
            Ok(None)
        } else {
            Err((CONFLICT, response_changed_message()))
        }
    } else {
        Ok(Some(completed_receipt_of(rv, response)))
    }
}

/// How `GET /idempotency/receipt` answers for a valid key, given the receipt
/// stored under the key's file name, if any.
pub open spec fn lookup_outcome(key: Seq<char>, found: Option<ReceiptModel>) -> Result<ReceiptModel, ErrorModel> {
    match found {
        None => Err((NOT_FOUND, receipt_not_found_message())),
        Some(receipt) => if receipt.key != key {
            Err((INTERNAL_SERVER_ERROR, digest_collision_message()))
        } else {
            Ok(receipt)
        },
    }
}

pub open spec fn reservation_result_view(r: Result<Option<Reservation>, ApiError>) -> Result<Option<ReservationModel>, ErrorModel> {
    match r {
        Ok(Some(rv)) => Ok(Some(rv@)),
        Ok(None) => Ok(None),
        Err(e) => Err(e@),
    }
}

fn copy_string(s: &str) -> (r: String)
    ensures
        r@ == s@,
{
    String::from_str(s)
}

impl Reservation {
    pub fn root(&self) -> (r: &str)
        ensures
            r@ == self@.root,
    {
        self.root.as_str()
    }

    pub fn key(&self) -> (r: &str)
        ensures
            r@ == self@.key,
    {
        self.key.as_str()
    }

    pub fn scope(&self) -> (r: &str)
        ensures
            r@ == self@.scope,
    {
        self.scope.as_str()
    }

    pub fn request_hash(&self) -> (r: &str)
        ensures
            r@ == self@.request_hash,
    {
        self.request_hash.as_str()
    }

    /// Admits a request: `Ok(None)` when it carries no idempotency key, a
    /// reservation bound to its key, scope and hash when the key is valid,
    /// and a bad request otherwise.  `root` is the receipt directory.
    pub fn from_request(root: String, headers: &HeaderMap, scope: &str, request_hash: String) -> (r:
        Result<Option<Reservation>, ApiError>)
        ensures
            match key_from_header(
                first_header_value(header_map_entries(*headers), IDEMPOTENCY_HEADER@),
            ) {
                Ok(None) => r matches Ok(None),
                Ok(Some(key)) => r matches Ok(Some(rv)) && rv@ == (ReservationModel {
                    root: root@,
                    key,
                    scope: scope@,
                    request_hash: request_hash@,
                }),
                Err(e) => r matches Err(err) && err@ == e,
            },
    {
        match parse_key(headers) {
            Err(e) => Err(e),
            Ok(None) => Ok(None),
            Ok(Some(key)) => Ok(
                Some(Reservation { root, key, scope: copy_string(scope), request_hash }),
            ),
        }
    }

    /// File name of this reservation's receipt.
    pub fn receipt_file_name(&self) -> (name: String)
        ensures
            name@ == receipt_file_name_of(self@.key),
    {
        receipt_file_name(self.key.as_str())
    }

    /// The receipt recorded before the request executes.
    pub fn pending_receipt(&self) -> (receipt: IdempotencyReceipt)
        ensures
            receipt@ == pending_receipt_of(self@),
            receipt@.schema_version == RECEIPT_VERSION@,
            receipt@.key == self@.key,
            receipt@.state == ReceiptState::Pending,
            receipt@.response is None,
    {
        IdempotencyReceipt {
            schema_version: String::from_str(RECEIPT_VERSION),
            key: self.key.clone(),
            scope: self.scope.clone(),
            request_hash: self.request_hash.clone(),
            state: ReceiptState::Pending,
            response: None,
        }
    }

    /// Admits this reservation against the receipt stored under its key, if
    /// any: the decision, and the receipt to write before acting on it.  A
    /// known key is answered from its receipt and nothing is written; an
    /// unknown key is executed (`Fresh`) once its pending receipt is written.
    pub fn begin_step(self, existing: Option<IdempotencyReceipt>) -> (r: (
        Result<Decision, ApiError>,
        Option<IdempotencyReceipt>,
    ))
        ensures
            ({
                let (decision, write) = begin_outcome(
                    self@,
                    match existing {
                        Some(e) => Some(e@),
                        None => None,
                    },
                );
                &&& match decision {
                    Ok(d) => r.0 matches Ok(got) && got@ == d,
                    Err(e) => r.0 matches Err(err) && err@ == e,
                }
                &&& match write {
                    Some(w) => r.1 matches Some(receipt) && receipt@ == w,
                    None => r.1 is None,
                }
            }),
            r.1 matches Some(w) ==> {
                &&& existing is None
                &&& w@.schema_version == RECEIPT_VERSION@
                &&& w@.key == self@.key
                &&& w@.state == ReceiptState::Pending
            },
    {
        proof {
            lemma_written_receipts_are_current(
                self@,
                pending_receipt_of(self@),
                Seq::empty(),
                match &existing {
                    Some(e) => Some(e@),
                    None => None,
                },
            );
        }
        match existing {
            Some(receipt) => (self.resume(receipt), None),
            None => {
                let pending = self.pending_receipt();
                (Ok(Decision::Fresh(self)), Some(pending))
            },
        }
    }

    fn binds(&self, receipt: &IdempotencyReceipt) -> (b: bool)
        ensures
            b == same_binding(self@, receipt@),
    {
        receipt.key == self.key && receipt.scope == self.scope && receipt.request_hash
            == self.request_hash
    }

    /// Answers a request whose key already has a receipt: replay a completed
    /// response; refuse a different request under the same key, a pending
    /// outcome, and a malformed receipt.
    pub fn resume(&self, existing: IdempotencyReceipt) -> (r: Result<Decision, ApiError>)
        ensures
            match resume_outcome(self@, existing@) {
                Ok(d) => r matches Ok(decision) && decision@ == d,
                Err(e) => r matches Err(err) && err@ == e,
            },
    {
        if !self.binds(&existing) {
            return Err(
                ApiError::new(CONFLICT, "Idempotency-Key was already used for a different request"),
            );
        }
        match (existing.state, existing.response) {
            (ReceiptState::Completed, Some(response)) => Ok(Decision::Replay(response)),
            (ReceiptState::Pending, None) => Err(
                ApiError::new(
                    CONFLICT,
                    "idempotent request outcome is pending or ambiguous; query its receipt",
                ),
            ),
            _ => Err(ApiError::internal("invalid idempotency receipt state")),
        }
    }

    /// Records `response` against the current receipt: `Ok(None)` when the
    /// same response is already recorded, `Ok(Some(receipt))` with the
    /// completed receipt to store, and a conflict when the receipt belongs
    /// to another request or holds another response.
    pub fn completion(&self, current: &IdempotencyReceipt, response: String) -> (r: Result<
        Option<IdempotencyReceipt>,
        ApiError,
    >)
        ensures
            match completion_outcome(self@, current@, response@) {
                Ok(None) => r matches Ok(None),
                Ok(Some(c)) => r matches Ok(Some(receipt)) && receipt@ == c,
                Err(e) => r matches Err(err) && err@ == e,
            },
            r matches Ok(Some(w)) ==> {
                &&& w@.schema_version == RECEIPT_VERSION@
                &&& w@.key == self@.key
                &&& w@.scope == self@.scope
                &&& w@.request_hash == self@.request_hash
                &&& w@.state == ReceiptState::Completed
                &&& w@.response == Some(response@)
            },
    {
        proof {
            lemma_written_receipts_are_current(self@, current@, response@, None);
        }
        if !self.binds(current) {
            return Err(ApiError::new(CONFLICT, "idempotency receipt binding changed"));
        }
        if current.state == ReceiptState::Completed {
            let same = match &current.response {
                Some(recorded) => *recorded == response || json_text_equal(
                    recorded.as_str(),
                    response.as_str(),
                ),
                None => false,
            };
            if same {
                return Ok(None);
            }
            return Err(ApiError::new(CONFLICT, "idempotency receipt response changed"));
        }
        Ok(
            Some(
                IdempotencyReceipt {
                    schema_version: String::from_str(RECEIPT_VERSION),
                    key: self.key.clone(),
                    scope: self.scope.clone(),
                    request_hash: self.request_hash.clone(),
                    state: ReceiptState::Completed,
                    response: Some(response),
                },
            ),
        )
    }
}

/// Answers a receipt lookup for an already validated key, given the receipt
/// stored under its file name, if any.
pub fn lookup_result(key: &str, found: Option<IdempotencyReceipt>) -> (r: Result<
    IdempotencyReceipt,
    ApiError,
>)
    ensures
        match lookup_outcome(key@, match found {
            Some(f) => Some(f@),
            None => None,
        }) {
            Ok(m) => r matches Ok(receipt) && receipt@ == m,
            Err(e) => r matches Err(err) && err@ == e,
        },
{
    match found {
        None => Err(ApiError::not_found("idempotency receipt not found")),
        Some(receipt) => {
            let wanted = String::from_str(key);
            if !(receipt.key == wanted) {
                Err(ApiError::internal("idempotency receipt key digest collision"))
            } else {
                Ok(receipt)
            }
        },
    }
}

/// A receipt read back from storage is accepted only with the current
/// schema version.
pub open spec fn schema_error_message(version: Seq<char>) -> Seq<char> {
    "unsupported receipt schema "@ + version
}

pub fn check_receipt_schema(receipt: IdempotencyReceipt) -> (r: Result<IdempotencyReceipt, String>)
    ensures
        receipt@.schema_version == RECEIPT_VERSION@ ==> (r matches Ok(k) && k@ == receipt@),
        receipt@.schema_version != RECEIPT_VERSION@ ==> (r matches Err(m) && m@
            == schema_error_message(receipt@.schema_version)),
{
    let expected = String::from_str(RECEIPT_VERSION);
    if receipt.schema_version == expected {
        Ok(receipt)
    } else {
        let mut message = String::from_str("unsupported receipt schema ");
        message.append(receipt.schema_version.as_str());
        Err(message)
    }
}

/// The receipts of a data root, by file name.
pub type ReceiptStore = Map<Seq<char>, ReceiptModel>;

/// Admitting a reservation against the receipt stored under its key, if
/// any: a known key is answered from its receipt, with nothing to write; an
/// unknown one is executed after its pending receipt is written.
pub open spec fn begin_outcome(rv: ReservationModel, existing: Option<ReceiptModel>) -> (Result<
    DecisionModel,
    ErrorModel,
>, Option<ReceiptModel>) {
    match existing {
        Some(receipt) => (resume_outcome(rv, receipt), None),
        None => (Ok(DecisionModel::Fresh(rv)), Some(pending_receipt_of(rv))),
    }
}

/// Admitting a reservation against the stored receipts.
pub open spec fn begin_on(store: ReceiptStore, rv: ReservationModel) -> (ReceiptStore, Result<
    DecisionModel,
    ErrorModel,
>) {
    let name = receipt_file_name_of(rv.key);
    let (decision, write) = begin_outcome(
        rv,
        if store.contains_key(name) {
            Some(store[name])
        } else {
            None
        },
    );
    match write {
        Some(receipt) => (store.insert(name, receipt), decision),
        None => (store, decision),
    }
}

/// Completing a reservation whose receipt is stored.
pub open spec fn complete_on(store: ReceiptStore, rv: ReservationModel, response: Seq<char>) -> (
    ReceiptStore,
    Result<(), ErrorModel>,
) {
    let name = receipt_file_name_of(rv.key);
    match completion_outcome(rv, store[name], response) {
        Ok(None) => (store, Ok(())),
        Ok(Some(receipt)) => (store.insert(name, receipt), Ok(())),
        Err(e) => (store, Err(e)),
    }
}

/// Every receipt the protocol writes carries the current schema version, so
/// reading it back passes the schema check: a fresh request writes its
/// pending receipt, and completion writes a completed receipt that records
/// the response, both under the request's own key, scope and request hash.
pub proof fn lemma_written_receipts_are_current(
    rv: ReservationModel,
    current: ReceiptModel,
    response: Seq<char>,
    existing: Option<ReceiptModel>,
)
    ensures
        completion_outcome(rv, current, response) matches Ok(Some(w)) ==> {
            &&& w.schema_version == RECEIPT_VERSION@
            &&& w.key == rv.key
            &&& w.scope == rv.scope
            &&& w.request_hash == rv.request_hash
            &&& w.state == ReceiptState::Completed
            &&& w.response == Some(response)
        },
        begin_outcome(rv, existing).1 matches Some(w) ==> {
            &&& existing is None
            &&& w.schema_version == RECEIPT_VERSION@
            &&& w.key == rv.key
            &&& w.scope == rv.scope
            &&& w.request_hash == rv.request_hash
            &&& w.state == ReceiptState::Pending
            &&& w.response is None
        },
{
}

/// Receipts stay readable: if every stored receipt has the current schema
/// version, so does every receipt after a request is admitted or completed.
pub proof fn lemma_receipts_stay_readable(store: ReceiptStore, rv: ReservationModel, response: Seq<char>)
    requires
        forall|name: Seq<char>|
            #[trigger] store.contains_key(name) ==> store[name].schema_version == RECEIPT_VERSION@,
    ensures
        forall|name: Seq<char>| #[trigger]
            begin_on(store, rv).0.contains_key(name) ==> begin_on(store, rv).0[name].schema_version
                == RECEIPT_VERSION@,
        forall|name: Seq<char>| #[trigger]
            complete_on(store, rv, response).0.contains_key(name) ==> complete_on(
                store,
                rv,
                response,
            ).0[name].schema_version == RECEIPT_VERSION@,
{
    let file = receipt_file_name_of(rv.key);
    let existing = if store.contains_key(file) {
        Some(store[file])
    } else {
        None
    };
    lemma_written_receipts_are_current(rv, store[file], response, existing);
}

/// The receipt protocol end to end: a first request under a new key is
/// executed; once completed with a response, the same request is answered
/// with that response and leaves the receipts unchanged, a lookup of its key
/// finds the completed receipt, and a different request under the key is
/// refused.
pub proof fn lemma_receipt_protocol(
    store: ReceiptStore,
    rv: ReservationModel,
    response: Seq<char>,
    other: ReservationModel,
)
    requires
        !store.contains_key(receipt_file_name_of(rv.key)),
        other.key == rv.key,
        other.scope != rv.scope || other.request_hash != rv.request_hash,
    ensures
        ({
            let (s1, first) = begin_on(store, rv);
            let (s2, done) = complete_on(s1, rv, response);
            let (s3, again) = begin_on(s2, rv);
            let (s4, refused) = begin_on(s2, other);
            &&& first == Ok::<_, ErrorModel>(DecisionModel::Fresh(rv))
            &&& done == Ok::<(), ErrorModel>(())
            &&& again == Ok::<_, ErrorModel>(DecisionModel::Replay(response))
            &&& s3 == s2
            &&& lookup_outcome(rv.key, Some(s2[receipt_file_name_of(rv.key)])) == Ok::<
                _,
                ErrorModel,
            >(completed_receipt_of(rv, response))
            &&& refused == Err::<DecisionModel, _>((CONFLICT, key_reused_message()))
            &&& s4 == s2
        }),
{
    let name = receipt_file_name_of(rv.key);
    let s1 = store.insert(name, pending_receipt_of(rv));
    assert(s1[name] == pending_receipt_of(rv));
    let s2 = s1.insert(name, completed_receipt_of(rv, response));
    assert(s2.contains_key(name));
    assert(s2[name] == completed_receipt_of(rv, response));
}

/// A request admitted but not yet completed is never admitted again: every
/// later attempt with the same request is refused as pending.
pub proof fn lemma_uncompleted_request_is_not_admitted_twice(store: ReceiptStore, rv: ReservationModel)
    requires
        !store.contains_key(receipt_file_name_of(rv.key)),
    ensures
        ({
            let (s1, first) = begin_on(store, rv);
            let (s2, second) = begin_on(s1, rv);
            &&& first == Ok::<_, ErrorModel>(DecisionModel::Fresh(rv))
            &&& second == Err::<DecisionModel, _>((CONFLICT, pending_message()))
            &&& s2 == s1
        }),
{
    let name = receipt_file_name_of(rv.key);
    assert(store.insert(name, pending_receipt_of(rv))[name] == pending_receipt_of(rv));
}

/// A key admitted from a request header is the header's bytes read as ASCII:
/// it encodes back to those bytes, so it passes the key check of a receipt
/// lookup and names the same receipt file.
pub proof fn lemma_admitted_key_is_looked_up_by_its_bytes(bytes: Seq<u8>)
    requires
        key_from_header(Some(bytes)) matches Ok(Some(_)),
    ensures
        key_from_header(Some(bytes)) == Ok::<_, ErrorModel>(Some(ascii_chars(bytes))),
        encode_utf8(ascii_chars(bytes)) == bytes,
        is_valid_key(encode_utf8(ascii_chars(bytes))),
        receipt_file_name_of(ascii_chars(bytes)) == lower_hex(blake3_hash_of(bytes)) + ".json"@,
{
    let chars = ascii_chars(bytes);
    assert forall|i: int| 0 <= i < chars.len() implies '\0' <= #[trigger] chars[i] <= '\u{7f}' by {
        assert(crate::bytes::is_visible_ascii(bytes[i]));
    }
    assert(is_ascii_chars(chars));
    is_ascii_chars_encode_utf8(chars);
    assert forall|i: int| 0 <= i < bytes.len() implies #[trigger] encode_utf8(chars)[i] == bytes[i] by {
        assert(chars[i] as u8 == encode_utf8(chars)[i]);
        assert(chars[i] == bytes[i] as char);
    }
    assert(encode_utf8(chars) =~= bytes);
}

/// A completed request replays its response: completing the pending receipt
/// of a fresh reservation stores the completed receipt, under which the same
/// request is answered with exactly the recorded response.
pub proof fn lemma_completed_receipt_replays(rv: ReservationModel, response: Seq<char>)
    ensures
        completion_outcome(rv, pending_receipt_of(rv), response) == Ok::<_, ErrorModel>(
            Some(completed_receipt_of(rv, response)),
        ),
        resume_outcome(rv, completed_receipt_of(rv, response)) == Ok::<_, ErrorModel>(
            DecisionModel::Replay(response),
        ),
{
}

/// A request whose outcome is still pending is refused with a conflict; it is
/// never admitted for a second execution.
pub proof fn lemma_pending_request_is_refused(rv: ReservationModel)
    ensures
        resume_outcome(rv, pending_receipt_of(rv)) == Err::<DecisionModel, _>(
            (CONFLICT, pending_message()),
        ),
{
}

/// A different request under a key that already has a receipt (another
/// scope or another request hash) is refused with a conflict, whatever the
/// receipt's state.
pub proof fn lemma_conflicting_request_is_rejected(rv: ReservationModel, existing: ReceiptModel)
    requires
        !same_binding(rv, existing),
    ensures
        resume_outcome(rv, existing) == Err::<DecisionModel, _>((CONFLICT, key_reused_message())),
{
}

/// Completing a completed request again with the same response (the same
/// JSON value) changes nothing; with another response it is refused.
pub proof fn lemma_completion_is_idempotent(
    rv: ReservationModel,
    response: Seq<char>,
    other: Seq<char>,
)
    ensures
        completion_outcome(rv, completed_receipt_of(rv, response), response) == Ok::<
            Option<ReceiptModel>,
            ErrorModel,
        >(None),
        same_response(response, other) ==> completion_outcome(
            rv,
            completed_receipt_of(rv, response),
            other,
        ) == Ok::<Option<ReceiptModel>, ErrorModel>(None),
        !same_response(response, other) ==> completion_outcome(
            rv,
            completed_receipt_of(rv, response),
            other,
        ) == Err::<Option<ReceiptModel>, _>((CONFLICT, response_changed_message())),
{
}

/// Looking up the key of a completed request yields its completed receipt,
/// with the recorded response.
pub proof fn lemma_lookup_returns_completed_receipt(rv: ReservationModel, response: Seq<char>)
    ensures
        lookup_outcome(rv.key, Some(completed_receipt_of(rv, response))) == Ok::<_, ErrorModel>(
            completed_receipt_of(rv, response),
        ),
        lookup_outcome(rv.key, Some(completed_receipt_of(rv, response)))->Ok_0.state
            == ReceiptState::Completed,
        lookup_outcome(rv.key, Some(completed_receipt_of(rv, response)))->Ok_0.response == Some(
            response,
        ),
{
}

} // verus!
