//! Byte-string helpers for header values, which are ASCII on the wire.

use vstd::prelude::*;

verus! {

/// `HeaderValue::to_str` accepts a value whose every byte is visible ASCII
/// or a horizontal tab.
pub open spec fn is_visible_ascii(b: u8) -> bool {
    (32 <= b && b < 127) || b == 9
}

pub open spec fn all_visible_ascii(s: Seq<u8>) -> bool {
    forall|i: int| 0 <= i < s.len() ==> is_visible_ascii(#[trigger] s[i])
}

/// The ASCII bytes that `str::trim` removes (the `White_Space` characters
/// below 128).
pub open spec fn is_ascii_white(b: u8) -> bool {
    (9 <= b && b <= 13) || b == 32
}

pub open spec fn trim_start(s: Seq<u8>) -> Seq<u8>
    decreases s.len(),
{
    if s.len() > 0 && is_ascii_white(s[0]) {
        trim_start(s.drop_first())
    } else {
        s
    }
}

pub open spec fn trim_end(s: Seq<u8>) -> Seq<u8>
    decreases s.len(),
{
    if s.len() > 0 && is_ascii_white(s.last()) {
        trim_end(s.drop_last())
    } else {
        s
    }
}

/// `str::trim` on an ASCII string.
pub open spec fn trim(s: Seq<u8>) -> Seq<u8> {
    trim_end(trim_start(s))
}

pub fn byte_is_ascii_white(b: u8) -> (r: bool)
    ensures
        r == is_ascii_white(b),
{
    (9 <= b && b <= 13) || b == 32
}

pub fn all_bytes_visible_ascii(s: &[u8]) -> (r: bool)
    ensures
        r == all_visible_ascii(s@),
{
    for i in 0..s.len()
        invariant
            forall|j: int| 0 <= j < i ==> is_visible_ascii(#[trigger] s@[j]),
    {
        let b = s[i];
        if !((32 <= b && b < 127) || b == 9) {
            return false;
        }
    }
    true
}

/// The bytes `s[from..to]`.
pub fn copy_range(s: &[u8], from: usize, to: usize) -> (r: Vec<u8>)
    requires
        from <= to <= s@.len(),
    ensures
        r@ == s@.subrange(from as int, to as int),
{
    let mut r: Vec<u8> = Vec::new();
    let mut k = from;
    while k < to
        invariant
            from <= k <= to <= s@.len(),
            r@ == s@.subrange(from as int, k as int),
        decreases to - k,
    {
        r.push(s[k]);
        assert(s@.subrange(from as int, k + 1) == s@.subrange(from as int, k as int).push(
            s@[k as int],
        ));
        k = k + 1;
    }
    r
}

/// `str::trim` on ASCII bytes.
pub fn trim_bytes(s: &[u8]) -> (r: Vec<u8>)
    ensures
        r@ == trim(s@),
{
    let n = s.len();
    let mut i: usize = 0;
    assert(s@.subrange(0, n as int) == s@);
    while i < n && byte_is_ascii_white(s[i])
        invariant
            i <= n == s@.len(),
            trim_start(s@.subrange(i as int, n as int)) == trim_start(s@),
        decreases n - i,
    {
        assert(s@.subrange(i as int, n as int).drop_first() == s@.subrange(i + 1, n as int));
        i = i + 1;
    }
    assert(trim_start(s@) == s@.subrange(i as int, n as int));
    let mut j: usize = n;
    while j > i && byte_is_ascii_white(s[j - 1])
        invariant
            i <= j <= n == s@.len(),
            trim_start(s@) == s@.subrange(i as int, n as int),
            trim_end(s@.subrange(i as int, j as int)) == trim(s@),
        decreases j - i,
    {
        assert(s@.subrange(i as int, j as int).drop_last() == s@.subrange(i as int, j - 1));
        j = j - 1;
    }
    copy_range(s, i, j)
}

/// Whether `s` holds the byte `b`.
pub fn contains_byte(s: &[u8], b: u8) -> (r: bool)
    ensures
        r == s@.contains(b),
{
    for i in 0..s.len()
        invariant
            forall|j: int| 0 <= j < i ==> s@[j] != b,
    {
        if s[i] == b {
            assert(s@[i as int] == b);
            return true;
        }
    }
    false
}

pub open spec fn is_digit(b: u8) -> bool {
    48 <= b && b <= 57
}

pub open spec fn all_digits(s: Seq<u8>) -> bool {
    forall|i: int| 0 <= i < s.len() ==> is_digit(#[trigger] s[i])
}

/// The number written by a string of decimal digits.
pub open spec fn digits_value(s: Seq<u8>) -> nat
    decreases s.len(),
{
    if s.len() == 0 {
        0
    } else {
        digits_value(s.drop_last()) * 10 + ((s.last() - 48) as nat)
    }
}

/// `<u64 as FromStr>::from_str`: an optional `+`, then at least one decimal
/// digit, and a value that fits.
pub open spec fn parse_u64(s: Seq<u8>) -> Option<u64> {
    let digits = if s.len() > 0 && s[0] == 43 {
        s.drop_first()
    } else {
        s
    };
    if digits.len() > 0 && all_digits(digits) && digits_value(digits) <= u64::MAX {
        Some(digits_value(digits) as u64)
    } else {
        None
    }
}

proof fn lemma_digits_value_prefix(s: Seq<u8>, i: int)
    requires
        0 <= i <= s.len(),
        all_digits(s),
    ensures
        digits_value(s.take(i)) <= digits_value(s),
    decreases s.len(),
{
    if i < s.len() {
        assert(s.take(i) == s.drop_last().take(i));
        lemma_digits_value_prefix(s.drop_last(), i);
    } else {
        assert(s.take(i) == s);
    }
}

/// Parses an unsigned decimal integer as `str::parse::<u64>` does.
pub fn parse_u64_bytes(s: &[u8]) -> (r: Option<u64>)
    ensures
        r == parse_u64(s@),
{
    let start: usize = if s.len() > 0 && s[0] == 43 { 1 } else { 0 };
    let ghost digits = if s@.len() > 0 && s@[0] == 43 { s@.drop_first() } else { s@ };
    assert(digits == s@.subrange(start as int, s@.len() as int));
    if start == s.len() {
        return None;
    }
    let mut acc: u64 = 0;
    let mut i = start;
    let mut overflow = false;
    while i < s.len()
        invariant
            start <= i <= s@.len(),
            digits == (if s@.len() > 0 && s@[0] == 43 { s@.drop_first() } else { s@ }),
            digits == s@.subrange(start as int, s@.len() as int),
            forall|k: int| 0 <= k < i - start ==> is_digit(#[trigger] digits[k]),
            !overflow ==> acc == digits_value(digits.take(i - start)),
            overflow ==> digits_value(digits.take(i - start)) > u64::MAX,
        decreases s@.len() - i,
    {
        let b = s[i];
        if !(48 <= b && b <= 57) {
            assert(!is_digit(digits[i - start]));
            return None;
        }
        assert(digits.take(i - start + 1).drop_last() == digits.take(i - start));
        if !overflow {
            match acc.checked_mul(10) {
                Some(m) => match m.checked_add((b - 48) as u64) {
                    Some(v) => {
                        acc = v;
                    },
                    None => {
                        overflow = true;
                    },
                },
                None => {
                    overflow = true;
                },
            }
        }
        i = i + 1;
    }
    assert(digits.take(digits.len() as int) == digits);
    assert(all_digits(digits));
    if overflow {
        None
    } else {
        Some(acc)
    }
}

} // verus!
