//! Digests and the entity tags made of them.

use vstd::prelude::*;
use vstd::string::*;
use sha2::Digest;
use crate::header;
use crate::ids;

verus! {

/// The SHA-256 digest of `bytes`.
pub uninterp spec fn sha256(bytes: Seq<u8>) -> Seq<u8>;

/// `sha2::Sha256::digest`: the SHA-256 digest, 32 bytes.
#[verifier::external_body]
fn sha256_digest(bytes: &[u8]) -> (r: Vec<u8>)
    ensures
        r@ == sha256(bytes@),
        r@.len() == 32,
{
    sha2::Sha256::digest(bytes).to_vec()
}

/// `bytes` in hexadecimal, two digits each, in lower case.
pub open spec fn hex_text(bytes: Seq<u8>) -> Seq<char> {
    Seq::new(
        2 * bytes.len(),
        |i: int|
            ids::hex_char(
                if i % 2 == 0 {
                    bytes[i / 2] as int / 16
                } else {
                    bytes[i / 2] as int % 16
                },
            ),
    )
}

/// `hex::encode`: two digits for each byte, in lower case.
#[verifier::external_body]
pub(crate) fn hex_encode(bytes: &[u8]) -> (r: String)
    ensures
        r@ == hex_text(bytes@),
{
    hex::encode(bytes)
}

/// The bytes that a text writes in hexadecimal, two digits each, in either case.
pub open spec fn hex_bytes(s: Seq<char>) -> Option<Seq<u8>> {
    if s.len() % 2 != 0 || !ids::all_hex(s) {
        None
    } else {
        Some(
            Seq::new(
                s.len() / 2,
                |i: int| (ids::hex_value(s[2 * i]) * 16 + ids::hex_value(s[2 * i + 1])) as u8,
            ),
        )
    }
}

/// `hex::decode`: the bytes that a text writes with two digits each, in either case; none where
/// their number is odd or another character is among them.
#[verifier::external_body]
pub(crate) fn hex_decode(s: &str) -> (r: Option<Vec<u8>>)
    ensures
        match r {
            Some(bytes) => hex_bytes(s@) == Some(bytes@),
            None => hex_bytes(s@) is None,
        },
{
    hex::decode(s).ok()
}

/// Bytes that were written in hexadecimal are read back.
pub proof fn law_hex_round_trip(bytes: Seq<u8>)
    ensures
        hex_bytes(hex_text(bytes)) == Some(bytes),
{
    let s = hex_text(bytes);
    assert(ids::all_hex(s));
    let back = Seq::new(
        s.len() / 2,
        |i: int| (ids::hex_value(s[2 * i]) * 16 + ids::hex_value(s[2 * i + 1])) as u8,
    );
    assert forall|i: int| 0 <= i < bytes.len() implies back[i] == bytes[i] by {
        let b = bytes[i] as int;
        assert((2 * i) % 2 == 0 && (2 * i) / 2 == i);
        assert((2 * i + 1) % 2 == 1 && (2 * i + 1) / 2 == i);
        assert(ids::hex_value(s[2 * i]) == b / 16);
        assert(ids::hex_value(s[2 * i + 1]) == b % 16);
    }
    assert(back == bytes);
}

/// The SHA-256 digest of `bytes` in hexadecimal.
pub fn sha256_hex(bytes: &[u8]) -> (r: String)
    ensures
        r@ == hex_text(sha256(bytes@)),
        r@.len() == 64,
        sha256(bytes@).len() == 32,
{
    let digest = sha256_digest(bytes);
    hex_encode(digest.as_slice())
}

/// The entity tag of a digest: its first eight bytes in hexadecimal, quoted.
pub open spec fn etag_of(digest: Seq<u8>) -> Seq<char> {
    seq!['"'] + hex_text(digest).subrange(0, 16) + seq!['"']
}

/// The tag of a digest given in hexadecimal.
pub fn quoted_tag(hex: &str) -> (r: String)
    requires
        hex@.len() >= 16,
    ensures
        r@ == seq!['"'] + hex@.subrange(0, 16) + seq!['"'],
{
    let mut out: String = String::new();
    out.push('"');
    let start = hex.substring_char(0, 16);
    out.append(start);
    out.push('"');
    proof {
        assert(Seq::<char>::empty().push('"') == seq!['"']);
        assert((seq!['"'] + hex@.subrange(0, 16)).push('"') == seq!['"'] + hex@.subrange(0, 16)
            + seq!['"']);
    }
    out
}

/// The strong entity tag of a payload.
pub fn strong_etag(payload: &[u8]) -> (r: String)
    ensures
        r@ == etag_of(sha256(payload@)),
        header::sendable(r@),
{
    let hex = sha256_hex(payload);
    proof {
        lemma_tag_sendable(sha256(payload@));
    }
    quoted_tag(hex.as_str())
}

/// The tag of a digest can be sent in a header.
pub proof fn lemma_tag_sendable(digest: Seq<u8>)
    requires
        digest.len() >= 8,
    ensures
        header::sendable(etag_of(digest)),
{
    let tag = etag_of(digest);
    let hex = hex_text(digest);
    assert forall|i: int| 0 <= i < tag.len() implies header::sendable_char(#[trigger] tag[i]) by {
        if 0 < i < tag.len() - 1 {
            assert(tag[i] == hex[i - 1]);
        }
    }
}

} // verus!
