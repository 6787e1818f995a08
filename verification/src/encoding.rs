//! Base64.

use vstd::prelude::*;
use base64::Engine;
use rand::RngCore;
use crate::header;

verus! {

/// The character that writes six bits in the standard alphabet, or in the one for URLs.
pub open spec fn base64_char(bits: int, for_url: bool) -> char {
    if 0 <= bits < 26 {
        (65 + bits) as char
    } else if bits < 52 {
        (71 + bits) as char
    } else if bits < 62 {
        (bits - 4) as char
    } else if bits == 62 {
        if for_url {
            '-'
        } else {
            '+'
        }
    } else if for_url {
        '_'
    } else {
        '/'
    }
}

/// Bytes in base64: three bytes as four characters; what is left over, padded with `=` up to four
/// characters where `padded`.
pub open spec fn base64_text(bytes: Seq<u8>, for_url: bool, padded: bool) -> Seq<char>
    decreases bytes.len(),
{
    if bytes.len() == 0 {
        Seq::empty()
    } else if bytes.len() == 1 {
        let n = bytes[0] as int * 16;
        let start = seq![base64_char(n / 64, for_url), base64_char(n % 64, for_url)];
        if padded {
            start + seq!['=', '=']
        } else {
            start
        }
    } else if bytes.len() == 2 {
        let n = (bytes[0] as int * 256 + bytes[1] as int) * 4;
        let start = seq![
            base64_char(n / 4096, for_url),
            base64_char(n / 64 % 64, for_url),
            base64_char(n % 64, for_url),
        ];
        if padded {
            start + seq!['=']
        } else {
            start
        }
    } else {
        let n = bytes[0] as int * 65536 + bytes[1] as int * 256 + bytes[2] as int;
        seq![
            base64_char(n / 262144, for_url),
            base64_char(n / 4096 % 64, for_url),
            base64_char(n / 64 % 64, for_url),
            base64_char(n % 64, for_url),
        ] + base64_text(bytes.subrange(3, bytes.len() as int), for_url, padded)
    }
}

/// Padded base64 has four characters for every three bytes, begun or whole.
pub proof fn lemma_base64_length(bytes: Seq<u8>, for_url: bool)
    ensures
        base64_text(bytes, for_url, true).len() == (bytes.len() + 2) / 3 * 4,
    decreases bytes.len(),
{
    if bytes.len() >= 3 {
        lemma_base64_length(bytes.subrange(3, bytes.len() as int), for_url);
    }
}

/// Different bits are written by different characters, none of which is the padding.
proof fn lemma_base64_char(a: int, b: int)
    requires
        0 <= a < 64,
        0 <= b < 64,
        base64_char(a, false) == base64_char(b, false),
    ensures
        a == b,
{
}

proof fn lemma_not_padding(a: int)
    requires
        0 <= a < 64,
    ensures
        base64_char(a, false) != '=',
{
}

/// No two byte strings have the same padded base64.
pub proof fn lemma_base64_injective(a: Seq<u8>, b: Seq<u8>)
    requires
        base64_text(a, false, true) == base64_text(b, false, true),
    ensures
        a == b,
    decreases a.len(),
{
    lemma_base64_length(a, false);
    lemma_base64_length(b, false);
    if a.len() == 0 || b.len() == 0 {
        assert(a =~= b);
    } else {
        lemma_first(a, b);
        if a.len() >= 3 {
            let x = base64_text(a, false, true);
            let y = base64_text(b, false, true);
            let ta = a.subrange(3, a.len() as int);
            let tb = b.subrange(3, b.len() as int);
            assert(base64_text(ta, false, true) =~= x.subrange(4, x.len() as int));
            assert(base64_text(tb, false, true) =~= y.subrange(4, y.len() as int));
            lemma_base64_injective(ta, tb);
            assert forall|i: int| 0 <= i < a.len() implies a[i] == b[i] by {
                if i >= 3 {
                    assert(a[i] == ta[i - 3]);
                    assert(b[i] == tb[i - 3]);
                }
            }
        }
        assert(a =~= b);
    }
}

/// A number of 24 bits from its four parts of six bits.
proof fn lemma_parts(n: int)
    requires
        0 <= n < 16777216,
    ensures
        n == n / 262144 * 262144 + n / 4096 % 64 * 4096 + n / 64 % 64 * 64 + n % 64,
        0 <= n / 262144 < 64,
{
}

/// The first three bytes, or the fewer that there are, are read off the first four characters.
proof fn lemma_first(a: Seq<u8>, b: Seq<u8>)
    requires
        a.len() > 0,
        b.len() > 0,
        base64_text(a, false, true) == base64_text(b, false, true),
    ensures
        a.len() == b.len() || (a.len() >= 3 && b.len() >= 3),
        a[0] == b[0],
        a.len() >= 2 ==> a[1] == b[1],
        a.len() >= 3 ==> a[2] == b[2],
{
    let p = bits(a);
    let q = bits(b);
    lemma_start(a);
    lemma_start(b);
    lemma_parts(p);
    lemma_parts(q);
    lemma_base64_char(p / 262144, q / 262144);
    lemma_base64_char(p / 4096 % 64, q / 4096 % 64);
    lemma_not_padding(p / 64 % 64);
    lemma_not_padding(q / 64 % 64);
    lemma_not_padding(p % 64);
    lemma_not_padding(q % 64);
    if a.len() >= 2 {
        lemma_base64_char(p / 64 % 64, q / 64 % 64);
    }
    if a.len() >= 3 {
        lemma_base64_char(p % 64, q % 64);
    }
    assert(p == q);
}

/// The first three bytes as one number, missing ones as zero.
spec fn bits(bytes: Seq<u8>) -> int {
    if bytes.len() == 1 {
        bytes[0] as int * 65536
    } else if bytes.len() == 2 {
        bytes[0] as int * 65536 + bytes[1] as int * 256
    } else {
        bytes[0] as int * 65536 + bytes[1] as int * 256 + bytes[2] as int
    }
}

/// The first four characters, from the bits of the first three bytes.
proof fn lemma_start(bytes: Seq<u8>)
    requires
        bytes.len() > 0,
    ensures
        ({
            let x = base64_text(bytes, false, true);
            let n = bits(bytes);
            &&& 0 <= n < 16777216
            &&& x[0] == base64_char(n / 262144, false)
            &&& x[1] == base64_char(n / 4096 % 64, false)
            &&& x[2] == if bytes.len() == 1 {
                '='
            } else {
                base64_char(n / 64 % 64, false)
            }
            &&& x[3] == if bytes.len() <= 2 {
                '='
            } else {
                base64_char(n % 64, false)
            }
        }),
{
}

/// The text is the padded base64 of these bytes in the standard alphabet.
pub open spec fn writes_bytes(text: Seq<char>, bytes: Seq<u8>) -> bool {
    text == base64_text(bytes, false, true)
}

/// `base64::engine::general_purpose::STANDARD.decode`: the bytes whose encoding the text is. The
/// engine asks for canonical padding and refuses stray bits, so that nothing but an encoding is
/// read.
#[verifier::external_body]
pub(crate) fn base64_decode(text: &str) -> (r: Option<Vec<u8>>)
    ensures
        match r {
            Some(bytes) => writes_bytes(text@, bytes@),
            None => forall|bytes: Seq<u8>| !#[trigger] writes_bytes(text@, bytes),
        },
{
    base64::engine::general_purpose::STANDARD.decode(text.as_bytes()).ok()
}

/// `base64::engine::general_purpose::URL_SAFE_NO_PAD.encode`: the bytes in the alphabet for URLs,
/// not padded.
#[verifier::external_body]
pub(crate) fn base64_url(bytes: &[u8]) -> (r: String)
    ensures
        r@ == base64_text(bytes@, true, false),
{
    base64::engine::general_purpose::URL_SAFE_NO_PAD.encode(bytes)
}

/// `rand::RngCore::fill_bytes` of the generator of the thread (`rand::rng`): that many bytes. Which
/// ones is left to chance.
#[verifier::external_body]
pub(crate) fn random_bytes(count: usize) -> (r: Vec<u8>)
    ensures
        r@.len() == count,
{
    let mut bytes = vec![0u8; count];
    rand::rng().fill_bytes(&mut bytes);
    bytes
}

/// What is written in base64 can be sent in a header.
pub proof fn lemma_base64_sendable(bytes: Seq<u8>, for_url: bool, padded: bool)
    ensures
        header::sendable(base64_text(bytes, for_url, padded)),
    decreases bytes.len(),
{
    assert(forall|b: int|
        0 <= b < 64 ==> header::sendable_char(#[trigger] base64_char(b, for_url)));
    if bytes.len() >= 3 {
        lemma_base64_sendable(bytes.subrange(3, bytes.len() as int), for_url, padded);
    }
}

/// A text is `count` bytes in the alphabet for URLs, not padded.
pub open spec fn url_token(s: Seq<char>, count: nat) -> bool {
    exists|bytes: Seq<u8>| #[trigger] bytes.len() == count && s == base64_text(bytes, true, false)
}

/// `count` random bytes in the alphabet for URLs.
pub fn random_token(count: usize) -> (r: String)
    ensures
        url_token(r@, count as nat),
{
    let bytes = random_bytes(count);
    let token = base64_url(bytes.as_slice());
    assert(bytes@.len() == count && token@ == base64_text(bytes@, true, false));
    token
}

} // verus!
