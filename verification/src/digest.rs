//! Content digests (BLAKE3, SHA-256) and their lower-case hexadecimal form.

use sha2::Digest;
use vstd::prelude::*;

verus! {

/// The 32-byte BLAKE3 hash of `data`.
pub uninterp spec fn blake3_hash_of(data: Seq<u8>) -> Seq<u8>;

/// The 32-byte SHA-256 digest of `data`.
pub uninterp spec fn sha256_of(data: Seq<u8>) -> Seq<u8>;

/// `blake3::hash`: the 32-byte BLAKE3 hash of `data`, taken out of the
/// returned `Hash` by `Hash::as_bytes`.
#[verifier::external_body]
pub fn blake3_digest(data: &[u8]) -> (r: [u8; 32])
    ensures
        r@ == blake3_hash_of(data@),
{
    *blake3::hash(data).as_bytes()
}

/// `<sha2::Sha256 as Digest>::digest`: the 32-byte SHA-256 digest of `data`,
/// converted from the returned `GenericArray` into an array.
#[verifier::external_body]
pub fn sha256_digest(data: &[u8]) -> (r: [u8; 32])
    ensures
        r@ == sha256_of(data@),
{
    sha2::Sha256::digest(data).into()
}

/// The lower-case hexadecimal digit of `n < 16`.
pub open spec fn hex_digit(n: nat) -> char {
    if n < 10 {
        crate::text::digit_char(n)
    } else if n == 10 {
        'a'
    } else if n == 11 {
        'b'
    } else if n == 12 {
        'c'
    } else if n == 13 {
        'd'
    } else if n == 14 {
        'e'
    } else {
        'f'
    }
}

pub open spec fn is_lower_hex_char(c: char) -> bool {
    ('0' <= c && c <= '9') || ('a' <= c && c <= 'f')
}

/// Two lower-case hexadecimal digits per byte, high nibble first: what
/// `blake3::Hash::to_hex` and `format!("{byte:02x}")` write.
pub open spec fn lower_hex(bytes: Seq<u8>) -> Seq<char>
    decreases bytes.len(),
{
    if bytes.len() == 0 {
        Seq::empty()
    } else {
        lower_hex(bytes.drop_last()) + seq![
            hex_digit((bytes.last() / 16) as nat),
            hex_digit((bytes.last() % 16) as nat),
        ]
    }
}

pub proof fn lemma_lower_hex_shape(bytes: Seq<u8>)
    ensures
        lower_hex(bytes).len() == 2 * bytes.len(),
        forall|i: int| 0 <= i < lower_hex(bytes).len() ==> is_lower_hex_char(#[trigger] lower_hex(bytes)[i]),
    decreases bytes.len(),
{
    if bytes.len() > 0 {
        lemma_lower_hex_shape(bytes.drop_last());
    }
}

fn hex_digit_char(n: u8) -> (c: char)
    requires
        n < 16,
    ensures
        c == hex_digit(n as nat),
{
    if n == 0 { '0' }
    else if n == 1 { '1' }
    else if n == 2 { '2' }
    else if n == 3 { '3' }
    else if n == 4 { '4' }
    else if n == 5 { '5' }
    else if n == 6 { '6' }
    else if n == 7 { '7' }
    else if n == 8 { '8' }
    else if n == 9 { '9' }
    else if n == 10 { 'a' }
    else if n == 11 { 'b' }
    else if n == 12 { 'c' }
    else if n == 13 { 'd' }
    else if n == 14 { 'e' }
    else { 'f' }
}

/// Appends the lower-case hexadecimal form of `bytes`.
pub fn push_lower_hex(s: &mut String, bytes: &[u8])
    ensures
        final(s)@ == old(s)@ + lower_hex(bytes@),
{
    let ghost start = s@;
    for k in 0..bytes.len()
        invariant
            s@ == start + lower_hex(bytes@.take(k as int)),
    {
        let b = bytes[k];
        crate::text::push_char(s, hex_digit_char(b / 16));
        crate::text::push_char(s, hex_digit_char(b % 16));
        assert(bytes@.take(k + 1).drop_last() == bytes@.take(k as int));
    }
    assert(bytes@.take(bytes@.len() as int) == bytes@);
}

} // verus!
