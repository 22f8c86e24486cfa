//! Content hashing used to deduplicate documents.
//!
//! A document's `content_hash` is the lowercase hexadecimal rendering of the
//! SHA-256 digest of the UTF-8 bytes of its content.
use sha2::{Digest, Sha256};
use vstd::prelude::*;

verus! {

/// The SHA-256 digest of `data`, as computed by the `sha2` crate.
pub uninterp spec fn sha256_of(data: Seq<u8>) -> Seq<u8>;

/// The lowercase hexadecimal digit for a nibble (`0..16`).
pub open spec fn hex_digit(nibble: int) -> char {
    if nibble < 10 {
        (nibble + 48) as char
    } else {
        (nibble + 87) as char
    }
}

/// Lowercase hexadecimal encoding: two digits per byte, high nibble first.
pub open spec fn hex_lower(bytes: Seq<u8>) -> Seq<char>
    decreases bytes.len(),
{
    if bytes.len() == 0 {
        Seq::empty()
    } else {
        seq![hex_digit((bytes[0] / 16) as int), hex_digit((bytes[0] % 16) as int)] + hex_lower(bytes.drop_first())
    }
}

/// The content hash of a text: hex of the SHA-256 of its UTF-8 encoding.
pub open spec fn content_hash_of(content: Seq<char>) -> Seq<char> {
    hex_lower(sha256_of(vstd::utf8::encode_utf8(content)))
}

/// Hex encoding writes two digits per byte.
pub proof fn lemma_hex_lower_len(bytes: Seq<u8>)
    ensures
        hex_lower(bytes).len() == 2 * bytes.len(),
    decreases bytes.len(),
{
    if bytes.len() > 0 {
        lemma_hex_lower_len(bytes.drop_first());
    }
}

/// The digits of the hex encoding: byte `i` is written at `2 * i` (high
/// nibble) and `2 * i + 1` (low nibble).
pub proof fn lemma_hex_lower_index(bytes: Seq<u8>, i: int)
    requires
        0 <= i < bytes.len(),
    ensures
        hex_lower(bytes)[2 * i] == hex_digit((bytes[i] / 16) as int),
        hex_lower(bytes)[2 * i + 1] == hex_digit((bytes[i] % 16) as int),
    decreases i,
{
    lemma_hex_lower_len(bytes.drop_first());
    if i > 0 {
        lemma_hex_lower_index(bytes.drop_first(), i - 1);
    }
}

/// The content hash spells the SHA-256 digest of all of the content's UTF-8
/// bytes: two lowercase hexadecimal digits per digest byte, high nibble first.
/// So two contents share a hash only when the digests of their full byte
/// strings agree.
pub proof fn law_content_hash_spells_the_whole_digest(content: Seq<char>)
    ensures
        ({
            let d = sha256_of(vstd::utf8::encode_utf8(content));
            let h = content_hash_of(content);
            &&& h.len() == 2 * d.len()
            &&& forall|i: int|
                0 <= i < d.len() ==> {
                    let hi = (d[i] / 16) as int;
                    let lo = (d[i] % 16) as int;
                    &&& #[trigger] h[2 * i] == (if hi < 10 { (hi + 48) as char } else { (hi + 87) as char })
                    &&& h[2 * i + 1] == (if lo < 10 { (lo + 48) as char } else { (lo + 87) as char })
                }
        }),
{
    let d = sha256_of(vstd::utf8::encode_utf8(content));
    lemma_hex_lower_len(d);
    assert forall|i: int| 0 <= i < d.len() implies {
        let hi = (d[i] / 16) as int;
        let lo = (d[i] % 16) as int;
        &&& #[trigger] content_hash_of(content)[2 * i] == (if hi < 10 { (hi + 48) as char } else { (hi + 87) as char })
        &&& content_hash_of(content)[2 * i + 1] == (if lo < 10 { (lo + 48) as char } else { (lo + 87) as char })
    } by {
        lemma_hex_lower_index(d, i);
    }
}

/// Runs `sha2::Sha256` (new, update, finalize) over `data`.
/// The digest is named by `sha256_of`; the crate's output type for SHA-256
/// holds 32 bytes (`U32` in its declaration), which is also stated.
#[verifier::external_body]
fn sha256_digest(data: &[u8]) -> (r: Vec<u8>)
    ensures
        r@ == sha256_of(data@),
        r@.len() == 32,
{
    let mut hasher = Sha256::new();
    hasher.update(data);
    hasher.finalize().to_vec()
}

/// Calls `hex::encode`, which writes each byte as two lowercase hexadecimal
/// digits, high nibble first (table `0123456789abcdef` in the crate's source).
#[verifier::external_body]
fn hex_encode(data: &[u8]) -> (r: String)
    ensures
        r@ == hex_lower(data@),
{
    hex::encode(data)
}

/// SHA-256 content hash, used for deduplication.
pub fn compute_content_hash(content: &str) -> (r: String)
    ensures
        r@ == content_hash_of(content@),
        r@.len() == 64,
        r@ == hex_lower(sha256_of(vstd::utf8::encode_utf8(content@))),
{
    let bytes = content.as_bytes();
    let digest = sha256_digest(bytes);
    let r = hex_encode(digest.as_slice());
    proof {
        lemma_hex_lower_len(digest@);
    }
    r
}

} // verus!
