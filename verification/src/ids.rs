//! Identifiers: UUIDs, how they are written and read.

use vstd::prelude::*;

verus! {

/// A UUID, by its 128 bits.
#[derive(Clone, Copy, Debug, PartialEq, Eq, Structural)]
pub struct Uuid(pub u128);

pub open spec fn is_hex(c: char) -> bool {
    '0' <= c <= '9' || 'a' <= c <= 'f' || 'A' <= c <= 'F'
}

/// The value of a hexadecimal digit.
pub open spec fn hex_value(c: char) -> int {
    if '0' <= c <= '9' {
        c as int - 48
    } else if 'a' <= c <= 'f' {
        c as int - 87
    } else {
        c as int - 55
    }
}

/// The hexadecimal digit of value `d`, in lower case.
pub open spec fn hex_char(d: int) -> char {
    if d < 10 {
        (d + 48) as char
    } else {
        (d + 87) as char
    }
}

pub open spec fn all_hex(s: Seq<char>) -> bool {
    forall|i: int| 0 <= i < s.len() ==> is_hex(#[trigger] s[i])
}

/// The value of a text of hexadecimal digits.
pub open spec fn hex_number(s: Seq<char>) -> int
    decreases s.len(),
{
    if s.len() == 0 {
        0
    } else {
        hex_number(s.drop_last()) * 16 + hex_value(s.last())
    }
}

/// The value of 32 hexadecimal digits.
pub open spec fn simple_uuid(s: Seq<char>) -> Option<u128> {
    if s.len() == 32 && all_hex(s) {
        Some(hex_number(s) as u128)
    } else {
        None
    }
}

/// The value of 32 hexadecimal digits in groups of 8, 4, 4, 4 and 12 with hyphens between them.
pub open spec fn hyphenated_uuid(s: Seq<char>) -> Option<u128> {
    if s.len() == 36 && s[8] == '-' && s[13] == '-' && s[18] == '-' && s[23] == '-' {
        simple_uuid(
            s.subrange(0, 8) + s.subrange(9, 13) + s.subrange(14, 18) + s.subrange(19, 23)
                + s.subrange(24, 36),
        )
    } else {
        None
    }
}

/// A letter from `A` to `Z` in lower case; any other character as it is.
pub open spec fn lower(c: char) -> char {
    if 'A' <= c <= 'Z' {
        (c as int + 32) as char
    } else {
        c
    }
}

/// The UUID that a text writes: its digits alone or hyphenated, the latter also in braces or
/// behind `urn:uuid:` in any case.
pub open spec fn uuid_of(s: Seq<char>) -> Option<u128> {
    if s.len() == 32 {
        simple_uuid(s)
    } else if s.len() == 36 {
        hyphenated_uuid(s)
    } else if s.len() == 38 && s[0] == '{' && s[37] == '}' {
        hyphenated_uuid(s.subrange(1, 37))
    } else if s.len() == 45 && s.subrange(0, 9).map_values(|c: char| lower(c)) == seq![
        'u',
        'r',
        'n',
        ':',
        'u',
        'u',
        'i',
        'd',
        ':',
    ] {
        hyphenated_uuid(s.subrange(9, 45))
    } else {
        None
    }
}

/// `16^e`.
pub open spec fn sixteen(e: nat) -> nat
    decreases e,
{
    if e == 0 {
        1
    } else {
        16 * sixteen((e - 1) as nat)
    }
}

/// The 32 hexadecimal digits of `v`, the most significant first.
pub open spec fn uuid_digits(v: u128) -> Seq<char> {
    Seq::new(32, |k: int| hex_char((v as int / sixteen((31 - k) as nat) as int) % 16))
}

/// `v` as a hyphenated UUID in lower case.
pub open spec fn uuid_text(v: u128) -> Seq<char> {
    let d = uuid_digits(v);
    d.subrange(0, 8) + seq!['-'] + d.subrange(8, 12) + seq!['-'] + d.subrange(12, 16) + seq!['-']
        + d.subrange(16, 20) + seq!['-'] + d.subrange(20, 32)
}

/// `uuid::Uuid::parse_str`: the UUID that a text writes, if it writes one.
#[verifier::external_body]
fn parse_uuid(text: &str) -> (r: Option<u128>)
    ensures
        r == uuid_of(text@),
{
    uuid::Uuid::parse_str(text).ok().map(|id| id.as_u128())
}

/// `uuid::Uuid::to_string`: a UUID hyphenated and in lower case.
#[verifier::external_body]
fn format_uuid(value: u128) -> (r: String)
    ensures
        r@ == uuid_text(value),
{
    uuid::Uuid::from_u128(value).to_string()
}

/// The UUID of an optional value.
pub open spec fn some_uuid(o: Option<u128>) -> Option<Uuid> {
    match o {
        Some(v) => Some(Uuid(v)),
        None => None,
    }
}

/// An optional UUID in text.
pub open spec fn opt_text(o: Option<Uuid>) -> Option<Seq<char>> {
    match o {
        Some(id) => Some(uuid_text(id.0)),
        None => None,
    }
}

impl Uuid {
    /// The UUID that a text writes, in any of the four forms.
    pub fn parse_str(text: &str) -> (r: Option<Uuid>)
        ensures
            r == some_uuid(uuid_of(text@)),
    {
        match parse_uuid(text) {
            Some(v) => Some(Uuid(v)),
            None => None,
        }
    }

    /// The hyphenated form, in lower case.
    pub fn text(&self) -> (r: String)
        ensures
            r@ == uuid_text(self.0),
    {
        format_uuid(self.0)
    }
}

/// An optional UUID in its hyphenated form.
pub fn text_of(id: Option<Uuid>) -> (r: Option<String>)
    ensures
        crate::error::text_view(r) == opt_text(id),
{
    match id {
        Some(id) => Some(id.text()),
        None => None,
    }
}

/// The texts of a list of UUIDs.
pub open spec fn uuid_texts(ids: Seq<Uuid>) -> Seq<Seq<char>> {
    ids.map_values(|id: Uuid| uuid_text(id.0))
}

/// A list of UUIDs, each in its hyphenated form.
pub fn texts_of(ids: &[Uuid]) -> (r: Vec<String>)
    ensures
        crate::text::views(r@) == uuid_texts(ids@),
{
    let mut out: Vec<String> = Vec::new();
    let mut i: usize = 0;
    while i < ids.len()
        invariant
            i <= ids@.len(),
            crate::text::views(out@) == uuid_texts(ids@.subrange(0, i as int)),
        decreases ids.len() - i,
    {
        let ghost before = out@;
        out.push(ids[i].text());
        i = i + 1;
        proof {
            assert(ids@.subrange(0, i as int) == ids@.subrange(0, i - 1).push(ids@[i - 1]));
            assert(crate::text::views(out@) == crate::text::views(before).push(out@.last()@));
            assert(uuid_texts(ids@.subrange(0, i as int)) == uuid_texts(ids@.subrange(0, i - 1)).push(
                uuid_text(ids@[i - 1].0),
            ));
        }
    }
    assert(ids@.subrange(0, i as int) == ids@);
    out
}

proof fn lemma_sixteen_positive(e: nat)
    ensures
        sixteen(e) >= 1,
    decreases e,
{
    if e > 0 {
        lemma_sixteen_positive((e - 1) as nat);
    }
}

/// The first `k` digits of a UUID are its value without the last `32 - k` of them.
proof fn lemma_digits_prefix(v: u128, k: nat)
    requires
        k <= 32,
        v < sixteen(32),
    ensures
        hex_number(uuid_digits(v).subrange(0, k as int)) == v as int / sixteen((32 - k) as nat) as int,
    decreases k,
{
    let d = uuid_digits(v);
    let s = sixteen((32 - k) as nat) as int;
    lemma_sixteen_positive((32 - k) as nat);
    if k == 0 {
        assert(v as int / s == 0) by (nonlinear_arith)
            requires
                0 <= v < s,
        ;
    } else {
        lemma_digits_prefix(v, (k - 1) as nat);
        assert(d.subrange(0, k as int).drop_last() == d.subrange(0, k - 1));
        assert(sixteen((33 - k) as nat) == 16 * s);
        let q = v as int / s;
        assert(v as int / (16 * s) == q / 16) by (nonlinear_arith)
            requires
                s >= 1,
                v >= 0,
                q == v as int / s,
        ;
        assert(d[k - 1] == hex_char((v as int / sixteen((32 - k) as nat) as int) % 16));
        lemma_hex_char(q % 16);
        assert(q == (q / 16) * 16 + q % 16);
    }
}

proof fn lemma_hex_char(d: int)
    requires
        0 <= d < 16,
    ensures
        is_hex(hex_char(d)),
        hex_value(hex_char(d)) == d,
{
}

/// Reading what was written gives the UUID back.
pub proof fn law_uuid_round_trip(v: u128)
    ensures
        uuid_of(uuid_text(v)) == Some(v),
{
    let d = uuid_digits(v);
    let t = uuid_text(v);
    assert(sixteen(32) == 0x1_0000_0000_0000_0000_0000_0000_0000_0000) by {
        reveal_with_fuel(sixteen, 33);
    }
    lemma_digits_prefix(v, 32);
    assert(d.subrange(0, 32) == d);
    assert(v as int / 1 == v);
    assert(t.len() == 36);
    assert(t.subrange(0, 8) + t.subrange(9, 13) + t.subrange(14, 18) + t.subrange(19, 23)
        + t.subrange(24, 36) =~= d);
    assert forall|i: int| 0 <= i < 32 implies is_hex(#[trigger] d[i]) by {
        lemma_hex_char((v as int / sixteen((31 - i) as nat) as int) % 16);
    }
}

/// A UUID in text is 32 digits in lower case in groups of 8, 4, 4, 4 and 12.
pub proof fn law_uuid_text_has_its_shape(v: u128)
    ensures
        uuid_text(v).len() == 36,
        forall|i: int|
            0 <= i < 36 ==> if i == 8 || i == 13 || i == 18 || i == 23 {
                #[trigger] uuid_text(v)[i] == '-'
            } else {
                is_hex(uuid_text(v)[i]) && !('A' <= uuid_text(v)[i] <= 'F')
            },
{
}

/// A UUID in text is read back in braces too, and behind `urn:uuid:`.
pub proof fn law_uuid_is_read_in_every_form(v: u128)
    ensures
        uuid_of(seq!['{'] + uuid_text(v) + seq!['}']) == Some(v),
        uuid_of("urn:uuid:"@ + uuid_text(v)) == Some(v),
{
    law_uuid_round_trip(v);
    law_uuid_text_has_its_shape(v);
    reveal_strlit("urn:uuid:");
    let s = seq!['{'] + uuid_text(v) + seq!['}'];
    assert(s.subrange(1, 37) =~= uuid_text(v));
    let u = "urn:uuid:"@ + uuid_text(v);
    assert(u.subrange(9, 45) =~= uuid_text(v));
    assert(u.subrange(0, 9).map_values(|c: char| lower(c)) =~= seq![
        'u',
        'r',
        'n',
        ':',
        'u',
        'u',
        'i',
        'd',
        ':',
    ]);
}

/// Two UUIDs with the same text are the same.
pub proof fn law_uuid_texts_are_apart(v: u128, w: u128)
    ensures
        uuid_text(v) == uuid_text(w) <==> v == w,
{
    law_uuid_round_trip(v);
    law_uuid_round_trip(w);
}

} // verus!
