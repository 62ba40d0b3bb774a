//! Cryptographic digests and their textual encodings.
//!
//! The digest functions themselves are not modelled: each is given a name, and
//! the library's contracts speak of that name applied to the hashed bytes.

use vstd::prelude::*;

verus! {

/// The BLAKE3 digest (32 bytes) of a byte string.
pub uninterp spec fn blake3_digest(data: Seq<u8>) -> Seq<u8>;

/// The SHA-256 digest (32 bytes) of a byte string.
pub uninterp spec fn sha256_digest(data: Seq<u8>) -> Seq<u8>;

/// The SHA3-256 digest (32 bytes) of a byte string.
pub uninterp spec fn sha3_256_digest(data: Seq<u8>) -> Seq<u8>;

/// The Base58 text (Bitcoin alphabet) of a byte string.
pub uninterp spec fn base58_text(data: Seq<u8>) -> Seq<char>;

/// The lower-case hexadecimal digit for a value below sixteen.
pub open spec fn hex_digit(n: int) -> char {
    seq!['0', '1', '2', '3', '4', '5', '6', '7', '8', '9', 'a', 'b', 'c', 'd', 'e', 'f'][n]
}

/// Lower-case hexadecimal text of a byte string: two digits per byte, high
/// nibble first.
pub open spec fn hex_lower(bytes: Seq<u8>) -> Seq<char> {
    Seq::new(
        2 * bytes.len(),
        |i: int|
            if i % 2 == 0 {
                hex_digit(bytes[i / 2] as int / 16)
            } else {
                hex_digit(bytes[i / 2] as int % 16)
            },
    )
}

/// Different values below sixteen have different hexadecimal digits.
pub proof fn lemma_hex_digit_injective(m: int, n: int)
    requires
        0 <= m < 16,
        0 <= n < 16,
        hex_digit(m) == hex_digit(n),
    ensures
        m == n,
{
    assert(m == 0 || m == 1 || m == 2 || m == 3 || m == 4 || m == 5 || m == 6 || m == 7 || m == 8 || m == 9 || m == 10 || m == 11 || m == 12 || m == 13 || m == 14 || m == 15);
    assert(n == 0 || n == 1 || n == 2 || n == 3 || n == 4 || n == 5 || n == 6 || n == 7 || n == 8 || n == 9 || n == 10 || n == 11 || n == 12 || n == 13 || n == 14 || n == 15);
}

/// Different byte strings have different hexadecimal texts.
pub proof fn lemma_hex_lower_injective(x: Seq<u8>, y: Seq<u8>)
    requires
        hex_lower(x) == hex_lower(y),
    ensures
        x == y,
{
    assert(hex_lower(x).len() == 2 * x.len());
    assert(hex_lower(y).len() == 2 * y.len());
    assert forall|i: int| 0 <= i < x.len() implies x[i] == y[i] by {
        assert(hex_lower(x)[2 * i] == hex_digit(x[i] as int / 16));
        assert(hex_lower(y)[2 * i] == hex_digit(y[i] as int / 16));
        assert(hex_lower(x)[2 * i + 1] == hex_digit(x[i] as int % 16));
        assert(hex_lower(y)[2 * i + 1] == hex_digit(y[i] as int % 16));
        lemma_hex_digit_injective(x[i] as int / 16, y[i] as int / 16);
        lemma_hex_digit_injective(x[i] as int % 16, y[i] as int % 16);
    }
    assert(x =~= y);
}

/// BLAKE3 of a byte string, as lower-case hexadecimal text.
pub open spec fn blake3_hex(data: Seq<u8>) -> Seq<char> {
    hex_lower(blake3_digest(data))
}

/// SHA-256 of a byte string, as lower-case hexadecimal text.
pub open spec fn sha256_hex(data: Seq<u8>) -> Seq<char> {
    hex_lower(sha256_digest(data))
}

/// Calls `blake3::hash` and copies the digest out. Trusted: the result is the
/// named digest of the input, and it is 32 bytes long (`blake3::OUT_LEN`).
#[verifier::external_body]
pub(crate) fn blake3_bytes(data: &[u8]) -> (out: Vec<u8>)
    ensures
        out@ == blake3_digest(data@),
        out@.len() == 32,
{
    blake3::hash(data).as_bytes().to_vec()
}

/// Calls `Sha256::digest` of the `sha2` crate and copies the digest out.
/// Trusted: the result is the named digest of the input, 32 bytes long.
#[verifier::external_body]
pub(crate) fn sha256_bytes(data: &[u8]) -> (out: Vec<u8>)
    ensures
        out@ == sha256_digest(data@),
        out@.len() == 32,
{
    <sha2::Sha256 as sha2::Digest>::digest(data).to_vec()
}

/// Calls `Sha3_256::digest` of the `sha3` crate and copies the digest out.
/// Trusted: the result is the named digest of the input, 32 bytes long.
#[verifier::external_body]
pub(crate) fn sha3_256_bytes(data: &[u8]) -> (out: Vec<u8>)
    ensures
        out@ == sha3_256_digest(data@),
        out@.len() == 32,
{
    <sha3::Sha3_256 as sha3::Digest>::digest(data).to_vec()
}

/// Calls `hex::encode`. Trusted: the result is the lower-case hexadecimal
/// text of the input, two digits per byte.
#[verifier::external_body]
pub(crate) fn hex_string(bytes: &[u8]) -> (out: String)
    ensures
        out@ == hex_lower(bytes@),
{
    hex::encode(bytes)
}

/// Calls `bs58::encode(..).into_string()`. Trusted: the result is the named
/// Base58 text of the input.
#[verifier::external_body]
pub(crate) fn base58_string(bytes: &[u8]) -> (out: String)
    ensures
        out@ == base58_text(bytes@),
{
    bs58::encode(bytes).into_string()
}

/// BLAKE3 of `data` as 64 lower-case hexadecimal characters.
pub fn blake3_hex_of(data: &[u8]) -> (out: String)
    ensures
        out@ == blake3_hex(data@),
        out@.len() == 64,
{
    let d = blake3_bytes(data);
    hex_string(d.as_slice())
}

/// SHA-256 of `data` as 64 lower-case hexadecimal characters.
pub fn sha256_hex_of(data: &[u8]) -> (out: String)
    ensures
        out@ == sha256_hex(data@),
        out@.len() == 64,
{
    let d = sha256_bytes(data);
    hex_string(d.as_slice())
}

/// BLAKE3 of the bytes of `a` followed by the bytes of `b`, as hexadecimal
/// text.
pub fn blake3_hex_of_pair(a: &[u8], b: &[u8]) -> (out: String)
    ensures
        out@ == blake3_hex(a@ + b@),
        out@.len() == 64,
{
    let mut buf: Vec<u8> = Vec::new();
    buf.extend_from_slice(a);
    buf.extend_from_slice(b);
    assert(buf@ =~= a@ + b@);
    blake3_hex_of(buf.as_slice())
}

} // verus!
