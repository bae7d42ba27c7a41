//! Content digests: SHA-256 of a file's bytes, written as lower-case
//! hexadecimal text.

use crate::text::push_char;
use sha2::Digest;
use sha2::Sha256;
use vstd::prelude::*;

verus! {

/// The SHA-256 hash of `data`.
pub uninterp spec fn sha256(data: Seq<u8>) -> Seq<u8>;

/// Hashes `data` with SHA-256.
///
/// Trusted: `sha2::Sha256::digest`, which feeds `data` to a fresh hasher and
/// finalizes it. The contract gives that result its name, and says that it
/// has 32 bytes, the output size that the crate fixes for `Sha256`.
#[verifier::external_body]
fn sha256_bytes(data: &[u8]) -> (out: Vec<u8>)
    ensures
        out@ == sha256(data@),
        out@.len() == 32,
{
    Sha256::digest(data).to_vec()
}

/// The lower-case hexadecimal digit for `n`.
pub open spec fn hex_digit(n: int) -> char {
    if n == 0 {
        '0'
    } else if n == 1 {
        '1'
    } else if n == 2 {
        '2'
    } else if n == 3 {
        '3'
    } else if n == 4 {
        '4'
    } else if n == 5 {
        '5'
    } else if n == 6 {
        '6'
    } else if n == 7 {
        '7'
    } else if n == 8 {
        '8'
    } else if n == 9 {
        '9'
    } else if n == 10 {
        'a'
    } else if n == 11 {
        'b'
    } else if n == 12 {
        'c'
    } else if n == 13 {
        'd'
    } else if n == 14 {
        'e'
    } else {
        'f'
    }
}

/// `bytes` in hexadecimal: two lower-case digits for each byte, the high
/// half first.
pub open spec fn hex_lower(bytes: Seq<u8>) -> Seq<char> {
    Seq::new(
        2 * bytes.len(),
        |i: int|
            if i % 2 == 0 {
                hex_digit(bytes[i / 2] as int / 16)
            } else {
                hex_digit(bytes[i / 2] as int % 16)
            },
    )
}

/// The digest of a file with the content `data`, as the ledger records it.
pub open spec fn content_digest(data: Seq<u8>) -> Seq<char> {
    hex_lower(sha256(data))
}

fn hex_digit_of(n: u8) -> (c: char)
    requires
        n < 16,
    ensures
        c == hex_digit(n as int),
{
    if n == 0 {
        '0'
    } else if n == 1 {
        '1'
    } else if n == 2 {
        '2'
    } else if n == 3 {
        '3'
    } else if n == 4 {
        '4'
    } else if n == 5 {
        '5'
    } else if n == 6 {
        '6'
    } else if n == 7 {
        '7'
    } else if n == 8 {
        '8'
    } else if n == 9 {
        '9'
    } else if n == 10 {
        'a'
    } else if n == 11 {
        'b'
    } else if n == 12 {
        'c'
    } else if n == 13 {
        'd'
    } else if n == 14 {
        'e'
    } else {
        'f'
    }
}

/// Writes `bytes` in lower-case hexadecimal.
pub fn to_hex(bytes: &[u8]) -> (out: String)
    ensures
        out@ == hex_lower(bytes@),
{
    let mut out = String::new();
    let mut i: usize = 0;
    while i < bytes.len()
        invariant
            i <= bytes@.len(),
            out@ == hex_lower(bytes@.take(i as int)),
        decreases bytes@.len() - i,
    {
        let byte: u8 = bytes[i];
        let ghost before = out@;
        push_char(&mut out, hex_digit_of(byte / 16));
        push_char(&mut out, hex_digit_of(byte % 16));
        proof {
            let next = bytes@.take(i + 1);
            assert(next[i as int] == byte);
            assert forall|k: int| 0 <= k < 2 * i implies #[trigger] out@[k] == hex_lower(next)[k] by {
                assert(out@[k] == before[k]);
                assert(bytes@.take(i as int)[k / 2] == next[k / 2]);
            }
            assert(out@ =~= hex_lower(next));
        }
        i += 1;
    }
    assert(bytes@.take(i as int) == bytes@);
    out
}

/// The digest of `content`: its SHA-256 hash in lower-case hexadecimal,
/// which has 64 digits.
pub fn calculate_sha256(content: &[u8]) -> (digest: String)
    ensures
        digest@ == content_digest(content@),
        digest@.len() == 64,
{
    let hash = sha256_bytes(content);
    to_hex(hash.as_slice())
}

} // verus!
