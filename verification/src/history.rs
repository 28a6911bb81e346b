//! The scene-history endpoints' request logic: the `If-Match` epoch
//! precondition and the shape of their answer.

use axum::http::HeaderMap;
use vstd::prelude::*;

use crate::routes::{Method, Route, routes_view, history_routes};

use crate::bytes::{
    all_bytes_visible_ascii, all_digits, all_visible_ascii, contains_byte, digits_value,
    is_ascii_white, is_digit, is_visible_ascii, parse_u64, parse_u64_bytes, trim, trim_bytes, trim_end,
    trim_start,
};
use crate::text::{decimal, digit_char};
use crate::error::{ApiError, BAD_REQUEST};
use crate::headers::{
    first_header_value, header_bytes, header_map_entries, is_lowercase_header_name,
};

verus! {

/// Routes of the scene history: apply, undo and redo, all `POST`.
pub fn router() -> (routes: Vec<Route>)
    ensures
        routes_view(routes@) == history_routes(),
{
    let routes = vec![
        Route { method: Method::Post, path: "/history/apply" },
        Route { method: Method::Post, path: "/history/undo" },
        Route { method: Method::Post, path: "/history/redo" },
    ];
    assert(routes_view(routes@) =~= history_routes());
    routes
}

/// Answer of `/history/apply`, `/history/undo` and `/history/redo`.
#[derive(Debug)]
pub struct HistoryResult {
    /// New epoch. `None` only for a no-op undo/redo at the stack boundary.
    pub epoch: Option<u64>,
}

/// The header that carries the expected scene epoch.
pub const IF_MATCH: &'static str = "if-match";

pub open spec fn not_ascii_message() -> Seq<char> {
    "If-Match must be an ASCII scene epoch"@
}

pub open spec fn not_single_strong_message() -> Seq<char> {
    "If-Match must contain exactly one strong numeric scene epoch"@
}

pub open spec fn bad_quotes_message() -> Seq<char> {
    "If-Match scene epoch must be either unquoted or enclosed by one quote pair"@
}

pub open spec fn not_unsigned_message() -> Seq<char> {
    "If-Match scene epoch must be an unsigned integer"@
}

pub open spec fn unparsable_message() -> Seq<char> {
    "If-Match scene epoch is not an unsigned integer"@
}

/// Whether a trimmed value is refused outright: empty, a wildcard, a list,
/// or a weak validator.
pub open spec fn is_refused_form(raw: Seq<u8>) -> bool {
    ||| raw.len() == 0
    ||| raw == seq![42u8]
    ||| raw.contains(44u8)
    ||| (raw.len() >= 2 && raw[0] == 87u8 && raw[1] == 47u8)
}

/// The value between one pair of enclosing quotes, or the value itself when
/// it is unquoted; `None` when the quotes do not pair up.
pub open spec fn unquote(raw: Seq<u8>) -> Option<Seq<u8>> {
    let opens = raw.len() > 0 && raw[0] == 34u8;
    let closes = raw.len() > 0 && raw.last() == 34u8;
    if opens && closes && raw.len() >= 2 {
        Some(raw.subrange(1, raw.len() - 1))
    } else if !opens && !closes {
        Some(raw)
    } else {
        None
    }
}

/// What the `If-Match` header asks for: no precondition, one expected epoch,
/// or a refusal with its status and message.
pub open spec fn epoch_precondition(header: Option<Seq<u8>>) -> Result<Option<u64>, (u16, Seq<char>)> {
    match header {
        None => Ok(None),
        Some(bytes) => {
            if !all_visible_ascii(bytes) {
                Err((BAD_REQUEST, not_ascii_message()))
            } else {
                let raw = trim(bytes);
                if is_refused_form(raw) {
                    Err((BAD_REQUEST, not_single_strong_message()))
                } else {
                    match unquote(raw) {
                        None => Err((BAD_REQUEST, bad_quotes_message())),
                        Some(normalized) => {
                            if normalized.len() == 0 || normalized.contains(34u8) {
                                Err((BAD_REQUEST, not_unsigned_message()))
                            } else {
                                match parse_u64(normalized) {
                                    Some(epoch) => Ok(Some(epoch)),
                                    None => Err((BAD_REQUEST, unparsable_message())),
                                }
                            }
                        },
                    }
                }
            }
        },
    }
}

pub open spec fn result_view(r: Result<Option<u64>, ApiError>) -> Result<Option<u64>, (u16, Seq<char>)> {
    match r {
        Ok(v) => Ok(v),
        Err(e) => Err(e@),
    }
}

/// The expected epoch carried by a raw `If-Match` value, if one is present.
pub fn epoch_precondition_from_bytes(header: Option<&[u8]>) -> (r: Result<Option<u64>, ApiError>)
    ensures
        result_view(r) == epoch_precondition(
            match header {
                Some(b) => Some(b@),
                None => None,
            },
        ),
{
    let bytes = match header {
        None => {
            return Ok(None);
        },
        Some(b) => b,
    };
    if !all_bytes_visible_ascii(bytes) {
        return Err(ApiError::bad_request("If-Match must be an ASCII scene epoch"));
    }
    let raw = trim_bytes(bytes);
    let n = raw.len();
    if n == 0 || (n == 1 && raw[0] == 42) || contains_byte(raw.as_slice(), 44) || (n >= 2
        && raw[0] == 87 && raw[1] == 47) {
        assert(n == 1 && raw[0] == 42 ==> raw@ == seq![42u8]);
        return Err(
            ApiError::bad_request("If-Match must contain exactly one strong numeric scene epoch"),
        );
    }
    assert(raw@ != seq![42u8]);
    let opens = raw[0] == 34;
    let closes = raw[n - 1] == 34;
    let normalized = if opens && closes && n >= 2 {
        copy_inner(raw.as_slice())
    } else if !opens && !closes {
        raw
    } else {
        return Err(
            ApiError::bad_request(
                "If-Match scene epoch must be either unquoted or enclosed by one quote pair",
            ),
        );
    };
    if normalized.len() == 0 || contains_byte(normalized.as_slice(), 34) {
        return Err(ApiError::bad_request("If-Match scene epoch must be an unsigned integer"));
    }
    match parse_u64_bytes(normalized.as_slice()) {
        Some(epoch) => Ok(Some(epoch)),
        None => Err(ApiError::bad_request("If-Match scene epoch is not an unsigned integer")),
    }
}

fn copy_inner(raw: &[u8]) -> (r: Vec<u8>)
    requires
        raw@.len() >= 2,
    ensures
        r@ == raw@.subrange(1, raw@.len() - 1),
{
    crate::bytes::copy_range(raw, 1, raw.len() - 1)
}

/// Reads the `If-Match` precondition of a request: `Ok(None)` without the
/// header, `Ok(Some(epoch))` for one strong numeric epoch, quoted or not, and
/// a bad request otherwise.
pub fn parse_epoch_precondition(headers: &HeaderMap) -> (r: Result<Option<u64>, ApiError>)
    ensures
        result_view(r) == epoch_precondition(
            first_header_value(header_map_entries(*headers), IF_MATCH@),
        ),
{
    proof {
        reveal_strlit("if-match");
    }
    assert(is_lowercase_header_name(IF_MATCH@));
    let value = header_bytes(headers, IF_MATCH);
    match value {
        Some(v) => epoch_precondition_from_bytes(Some(v.as_slice())),
        None => epoch_precondition_from_bytes(None),
    }
}

/// An epoch may be sent quoted or unquoted: a decimal number that fits in
/// 64 bits is accepted as that epoch either way.
pub proof fn lemma_quoted_and_unquoted_epochs_agree(digits: Seq<u8>)
    requires
        digits.len() > 0,
        all_digits(digits),
        digits_value(digits) <= u64::MAX,
    ensures
        epoch_precondition(Some(digits)) == Ok::<Option<u64>, (u16, Seq<char>)>(
            Some(digits_value(digits) as u64),
        ),
        epoch_precondition(Some(seq![34u8] + digits + seq![34u8])) == Ok::<
            Option<u64>,
            (u16, Seq<char>),
        >(Some(digits_value(digits) as u64)),
{
    let quoted = seq![34u8] + digits + seq![34u8];
    assert(all_visible_ascii(digits));
    assert(all_visible_ascii(quoted));
    assert(trim_start(digits) == digits);
    assert(trim_end(digits) == digits);
    assert(trim_start(quoted) == quoted);
    assert(trim_end(quoted) == quoted);
    assert(!digits.contains(44u8));
    assert(!digits.contains(34u8));
    assert(!quoted.contains(44u8)) by {
        if quoted.contains(44u8) {
            let i = choose|i: int| 0 <= i < quoted.len() && quoted[i] == 44u8;
            if 0 < i < quoted.len() - 1 {
                assert(quoted[i] == digits[i - 1]);
            }
        }
    }
    assert(digits != seq![42u8]);
    assert(quoted != seq![42u8]);
    assert(quoted.subrange(1, quoted.len() - 1) == digits);
    assert(unquote(digits) == Some(digits));
    assert(unquote(quoted) == Some(digits));
    assert(parse_u64(digits) == Some(digits_value(digits) as u64));
}

/// The bytes of an ASCII character string.
pub open spec fn ascii_bytes(s: Seq<char>) -> Seq<u8> {
    s.map_values(|c: char| c as u8)
}

/// Spaces and horizontal tabs only.
pub open spec fn is_padding(s: Seq<u8>) -> bool {
    forall|i: int| 0 <= i < s.len() ==> (#[trigger] s[i] == 32u8 || s[i] == 9u8)
}

proof fn lemma_digit_char_byte(d: nat)
    requires
        d < 10,
    ensures
        digit_char(d) as u8 == 48 + d,
{
}

/// The decimal form of `n` is a non-empty string of digits worth `n`.
proof fn lemma_decimal_bytes(n: nat)
    ensures
        ascii_bytes(decimal(n)).len() > 0,
        all_digits(ascii_bytes(decimal(n))),
        digits_value(ascii_bytes(decimal(n))) == n,
    decreases n,
{
    if n < 10 {
        lemma_digit_char_byte(n);
        let d = ascii_bytes(decimal(n));
        assert(d =~= seq![(48 + n) as u8]);
        assert(d.drop_last() =~= Seq::<u8>::empty());
        assert(digits_value(d.drop_last()) == 0);
        assert(digits_value(d) == digits_value(d.drop_last()) * 10 + ((d.last() - 48) as nat));
    } else {
        lemma_decimal_bytes(n / 10);
        lemma_digit_char_byte(n % 10);
        let prefix = ascii_bytes(decimal(n / 10));
        let d = ascii_bytes(decimal(n));
        assert(d =~= prefix.push((48 + n % 10) as u8));
        assert(d.drop_last() =~= prefix);
        assert(d.last() == (48 + n % 10) as u8);
        assert(digits_value(d) == digits_value(prefix) * 10 + ((d.last() - 48) as nat));
        assert((n / 10) * 10 + n % 10 == n);
        assert forall|i: int| 0 <= i < d.len() implies is_digit(#[trigger] d[i]) by {
            if i < prefix.len() {
                assert(d[i] == prefix[i]);
            }
        }
    }
}

proof fn lemma_trim_start_padding(pad: Seq<u8>, rest: Seq<u8>)
    requires
        is_padding(pad),
        rest.len() > 0,
        !is_ascii_white(rest[0]),
    ensures
        trim_start(pad + rest) == rest,
    decreases pad.len(),
{
    if pad.len() == 0 {
        assert(pad + rest =~= rest);
    } else {
        assert((pad + rest)[0] == pad[0]);
        assert((pad + rest).drop_first() =~= pad.drop_first() + rest);
        lemma_trim_start_padding(pad.drop_first(), rest);
    }
}

proof fn lemma_trim_end_padding(rest: Seq<u8>, pad: Seq<u8>)
    requires
        is_padding(pad),
        rest.len() > 0,
        !is_ascii_white(rest.last()),
    ensures
        trim_end(rest + pad) == rest,
    decreases pad.len(),
{
    if pad.len() == 0 {
        assert(rest + pad =~= rest);
    } else {
        assert((rest + pad).last() == pad.last());
        assert((rest + pad).drop_last() =~= rest + pad.drop_last());
        lemma_trim_end_padding(rest, pad.drop_last());
    }
}

/// Spaces and tabs around a value do not change how it is read.
proof fn lemma_padding_is_trimmed(pre: Seq<u8>, core: Seq<u8>, post: Seq<u8>)
    requires
        is_padding(pre),
        is_padding(post),
        core.len() > 0,
        !is_ascii_white(core[0]),
        !is_ascii_white(core.last()),
        all_visible_ascii(core),
    ensures
        epoch_precondition(Some(pre + core + post)) == epoch_precondition(Some(core)),
{
    let whole = pre + core + post;
    assert forall|i: int| 0 <= i < whole.len() implies is_visible_ascii(#[trigger] whole[i]) by {
        if i < pre.len() {
            assert(whole[i] == pre[i]);
        } else if i < pre.len() + core.len() {
            assert(whole[i] == core[i - pre.len()]);
        } else {
            assert(whole[i] == post[i - pre.len() - core.len()]);
        }
    }
    assert(whole =~= pre + (core + post));
    assert((core + post)[0] == core[0]);
    lemma_trim_start_padding(pre, core + post);
    lemma_trim_end_padding(core, post);
    lemma_trim_start_padding(Seq::empty(), core);
    assert(Seq::<u8>::empty() + core =~= core);
    lemma_trim_end_padding(core, Seq::empty());
    assert(core + Seq::<u8>::empty() =~= core);
}

/// An epoch `n` sent as its decimal form, bare or in one pair of quotes and
/// with any spaces or tabs around it, is read as `n`; without the header
/// there is no precondition.
pub proof fn lemma_padded_decimal_epoch_is_accepted(n: u64, pre: Seq<u8>, post: Seq<u8>)
    requires
        is_padding(pre),
        is_padding(post),
    ensures
        epoch_precondition(None) == Ok::<Option<u64>, (u16, Seq<char>)>(None),
        epoch_precondition(Some(pre + ascii_bytes(decimal(n as nat)) + post)) == Ok::<
            Option<u64>,
            (u16, Seq<char>),
        >(Some(n)),
        epoch_precondition(
            Some(pre + (seq![34u8] + ascii_bytes(decimal(n as nat)) + seq![34u8]) + post),
        ) == Ok::<Option<u64>, (u16, Seq<char>)>(Some(n)),
{
    let d = ascii_bytes(decimal(n as nat));
    lemma_decimal_bytes(n as nat);
    lemma_quoted_and_unquoted_epochs_agree(d);
    assert(all_visible_ascii(d));
    assert(!is_ascii_white(d[0]) && !is_ascii_white(d.last()));
    lemma_padding_is_trimmed(pre, d, post);
    let q = seq![34u8] + d + seq![34u8];
    assert(q[0] == 34u8 && q.last() == 34u8);
    assert forall|i: int| 0 <= i < q.len() implies is_visible_ascii(#[trigger] q[i]) by {
        if 0 < i < q.len() - 1 {
            assert(q[i] == d[i - 1]);
        }
    }
    lemma_padding_is_trimmed(pre, q, post);
}

} // verus!
