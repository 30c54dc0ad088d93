//! Short names for contents: SHA-256 in URL-safe base64.

use crate::text::part;
use base64::Engine;
use sha2::{Digest, Sha256};
use vstd::prelude::*;

verus! {

/// The SHA-256 digest of some bytes.
pub uninterp spec fn sha256(bytes: Seq<u8>) -> Seq<u8>;

/// The byte at position `i`, or 0 behind the end.
pub open spec fn byte_or_zero(bytes: Seq<u8>, i: int) -> int {
    if 0 <= i < bytes.len() {
        bytes[i] as int
    } else {
        0
    }
}

/// The `i`-th group of six bits; `0 <= i`. The groups begin at bit 0, 6, 4 and 2 of a byte in
/// turn, and a group that is cut short by the end is filled up with zeros.
pub open spec fn sextet(bytes: Seq<u8>, i: int) -> int {
    let first = byte_or_zero(bytes, i * 6 / 8);
    let second = byte_or_zero(bytes, i * 6 / 8 + 1);
    let pair = first * 256 + second;
    let offset = i * 6 % 8;
    if offset == 0 {
        pair / 1024 % 64
    } else if offset == 2 {
        pair / 256 % 64
    } else if offset == 4 {
        pair / 64 % 64
    } else {
        pair / 16 % 64
    }
}

/// The character of the URL-safe alphabet for a group of six bits.
pub open spec fn url_safe_char(v: int) -> char {
    if v < 26 {
        ('A' as u32 + v) as char
    } else if v < 52 {
        ('a' as u32 + (v - 26)) as char
    } else if v < 62 {
        ('0' as u32 + (v - 52)) as char
    } else if v == 62 {
        '-'
    } else {
        '_'
    }
}

/// URL-safe base64 without padding: one character for each group of six bits.
pub open spec fn base64_url(bytes: Seq<u8>) -> Seq<char> {
    Seq::new((bytes.len() * 8 + 5) / 6, |i: int| url_safe_char(sextet(bytes, i)))
}

/// `Sha256::digest` of `sha2`: the digest of some bytes, 32 bytes long.
#[verifier::external_body]
pub(crate) fn sha256_digest(bytes: &[u8]) -> (r: Vec<u8>)
    ensures
        r@ == sha256(bytes@),
        r@.len() == 32,
{
    Sha256::digest(bytes).to_vec()
}

/// `Engine::encode` of `base64`'s `URL_SAFE_NO_PAD`: base64 with `-` and `_` and without padding.
#[verifier::external_body]
pub(crate) fn encode_url_safe(bytes: &[u8]) -> (r: String)
    requires
        bytes@.len() <= 0xffff,
    ensures
        r@ == base64_url(bytes@),
{
    base64::engine::general_purpose::URL_SAFE_NO_PAD.encode(bytes)
}

/// The first twelve characters of the base64 form of a digest.
pub open spec fn digest_prefix(digest: Seq<u8>) -> Seq<char> {
    base64_url(digest).take(12)
}

/// A name of twelve characters for some contents.
pub open spec fn content_tag(bytes: Seq<u8>) -> Seq<char> {
    digest_prefix(sha256(bytes))
}

/// The first twelve characters of the base64 form of a digest.
pub fn short_digest(digest: &[u8]) -> (r: String)
    requires
        9 <= digest@.len() <= 0xffff,
    ensures
        r@ == digest_prefix(digest@),
        r@.len() == 12,
{
    let text = encode_url_safe(digest);
    let r = part(text.as_str(), 0, 12);
    assert(r@ =~= digest_prefix(digest@));
    r
}

/// A name of twelve URL-safe characters for some contents.
pub fn tag_of(bytes: &[u8]) -> (r: String)
    ensures
        r@ == content_tag(bytes@),
        is_tag(r@),
{
    let digest = sha256_digest(bytes);
    proof {
        law_digest_prefix_is_url_safe(digest@);
    }
    short_digest(digest.as_slice())
}

/// Whether a character may stand in a URL and in a file name as it is.
pub open spec fn url_safe(c: char) -> bool {
    let u = c as u32;
    ||| 'A' as u32 <= u <= 'Z' as u32
    ||| 'a' as u32 <= u <= 'z' as u32
    ||| '0' as u32 <= u <= '9' as u32
    ||| c == '-'
    ||| c == '_'
}

/// Whether `t` has the form of a name for contents: twelve URL-safe characters.
pub open spec fn is_tag(t: Seq<char>) -> bool {
    &&& t.len() == 12
    &&& forall|i: int| 0 <= i < t.len() ==> url_safe(#[trigger] t[i])
}

/// The name of a digest is made of URL-safe characters.
pub proof fn law_digest_prefix_is_url_safe(digest: Seq<u8>)
    requires
        9 <= digest.len(),
    ensures
        is_tag(digest_prefix(digest)),
{
    assert forall|i: int| 0 <= i < 12 implies url_safe(#[trigger] digest_prefix(digest)[i]) by {
        let v = sextet(digest, i);
        assert(0 <= v < 64);
        assert(digest_prefix(digest)[i] == url_safe_char(v));
    }
}

} // verus!
