//! Header values: which can be read as text, which can be sent, and lists of them.

use vstd::prelude::*;
use vstd::string::*;
use crate::text;
use crate::text::{before_char, chars_of, same, split_on, strip_prefix, trim};

verus! {

/// A byte that a header value may hold to be read as text: visible ASCII, space or tab.
pub open spec fn visible(b: u8) -> bool {
    32 <= b <= 126 || b == 9
}

/// A header value as text, where all of it can be read.
pub open spec fn header_text(value: Seq<u8>) -> Option<Seq<char>> {
    if forall|i: int| 0 <= i < value.len() ==> visible(#[trigger] value[i]) {
        Some(value.map_values(|b: u8| b as char))
    } else {
        None
    }
}

/// The text of a header that may be absent; none where it is absent or cannot be read.
pub open spec fn readable(value: Option<&[u8]>) -> Option<Seq<char>> {
    match value {
        Some(v) => header_text(v@),
        None => None,
    }
}

/// Reads a header value as text.
pub fn read_header(value: Option<&[u8]>) -> (r: Option<String>)
    ensures
        crate::error::text_view(r) == readable(value),
{
    let bytes = match value {
        None => {
            return None;
        },
        Some(v) => v,
    };
    let mut out: String = String::new();
    let mut i: usize = 0;
    while i < bytes.len()
        invariant
            i <= bytes@.len(),
            value == Some(bytes),
            forall|j: int| 0 <= j < i ==> visible(#[trigger] bytes@[j]),
            out@ == bytes@.subrange(0, i as int).map_values(|b: u8| b as char),
        decreases bytes.len() - i,
    {
        let b: u8 = bytes[i];
        if !((32 <= b && b <= 126) || b == 9) {
            assert(!visible(bytes@[i as int]));
            return None;
        }
        let ghost before = out@;
        out.push(b as char);
        i = i + 1;
        assert(bytes@.subrange(0, i as int).map_values(|b: u8| b as char) == before.push(b as char));
    }
    assert(bytes@.subrange(0, i as int) == bytes@);
    Some(out)
}

/// A text that can be sent as a header value: no control character but the tab.
pub open spec fn sendable(s: Seq<char>) -> bool {
    forall|i: int| 0 <= i < s.len() ==> sendable_char(#[trigger] s[i])
}

pub open spec fn sendable_char(c: char) -> bool {
    c == '\t' || (c as u32 >= 32 && c as u32 != 127)
}

/// Whether a text can be sent as a header value.
pub fn can_send(s: &str) -> (r: bool)
    ensures
        r == sendable(s@),
{
    let chars = chars_of(s);
    let mut i: usize = 0;
    while i < chars.len()
        invariant
            i <= chars@.len(),
            chars@ == s@,
            forall|j: int| 0 <= j < i ==> sendable_char(#[trigger] s@[j]),
        decreases chars.len() - i,
    {
        let c: char = chars[i];
        if !(c == '\t' || (c as u32 >= 32 && c as u32 != 127)) {
            assert(!sendable_char(s@[i as int]));
            return false;
        }
        i = i + 1;
    }
    true
}

/// A header to be sent.
#[derive(Debug)]
pub struct Header {
    pub name: String,
    pub value: String,
}

/// The names and values of a list of headers.
pub open spec fn header_views(v: Seq<Header>) -> Seq<(Seq<char>, Seq<char>)> {
    v.map_values(|h: Header| (h.name@, h.value@))
}

/// Appends a header.
pub fn put(headers: &mut Vec<Header>, name: &str, value: &str)
    ensures
        header_views(final(headers)@) == header_views(old(headers)@).push((name@, value@)),
{
    headers.push(Header { name: name.to_owned(), value: value.to_owned() });
    assert(header_views(headers@) == header_views(old(headers)@).push((name@, value@)));
}

/// The headers of any other name.
pub open spec fn others(headers: Seq<(Seq<char>, Seq<char>)>, name: Seq<char>) -> Seq<
    (Seq<char>, Seq<char>),
> {
    headers.filter(|h: (Seq<char>, Seq<char>)| h.0 != name)
}

/// Puts a header in place of any of its name.
pub fn replace(headers: &mut Vec<Header>, name: &str, value: &str)
    ensures
        header_views(final(headers)@) == others(header_views(old(headers)@), name@).push(
            (name@, value@),
        ),
{
    let mut kept: Vec<Header> = Vec::new();
    let ghost all = header_views(headers@);
    let mut i: usize = 0;
    proof {
        reveal(Seq::filter);
        assert(header_views(kept@) == others(all.take(0), name@));
    }
    while i < headers.len()
        invariant
            i <= headers@.len(),
            all == header_views(headers@),
            header_views(kept@) == others(all.take(i as int), name@),
        decreases headers.len() - i,
    {
        let ghost before = kept@;
        proof {
            reveal(Seq::filter);
            assert(all.take(i + 1).drop_last() == all.take(i as int));
            assert(all.take(i + 1).last() == (headers@[i as int].name@, headers@[i as int].value@));
        }
        if !same(headers[i].name.as_str(), name) {
            kept.push(
                Header { name: headers[i].name.clone(), value: headers[i].value.clone() },
            );
            assert(header_views(kept@) == header_views(before).push(all[i as int]));
        }
        i = i + 1;
    }
    assert(all.take(i as int) == all);
    put(&mut kept, name, value);
    *headers = kept;
}

/// No header.
pub fn no_headers() -> (r: Vec<Header>)
    ensures
        header_views(r@) == Seq::<(Seq<char>, Seq<char>)>::empty(),
{
    let headers: Vec<Header> = Vec::new();
    assert(header_views(headers@) == Seq::<(Seq<char>, Seq<char>)>::empty());
    headers
}

/// Headers with one more, where it can be sent.
pub open spec fn with_header(
    headers: Seq<(Seq<char>, Seq<char>)>,
    name: Seq<char>,
    value: Seq<char>,
) -> Seq<(Seq<char>, Seq<char>)> {
    if sendable(value) {
        headers.push((name, value))
    } else {
        headers
    }
}

/// Appends a header where it can be sent.
pub fn put_sendable(headers: &mut Vec<Header>, name: &str, value: &str)
    ensures
        header_views(final(headers)@) == with_header(header_views(old(headers)@), name@, value@),
{
    if can_send(value) {
        put(headers, name, value);
    }
}

/// A letter from `A` to `Z` in lower case; any other character as it is.
pub open spec fn ascii_lower(s: Seq<char>) -> Seq<char> {
    s.map_values(|c: char| crate::ids::lower(c))
}

/// The text with the letters from `A` to `Z` in lower case.
pub fn to_ascii_lower(s: &str) -> (r: String)
    ensures
        r@ == ascii_lower(s@),
{
    let chars = chars_of(s);
    let mut out: String = String::new();
    let mut i: usize = 0;
    while i < chars.len()
        invariant
            i <= chars@.len(),
            chars@ == s@,
            out@ == ascii_lower(s@.subrange(0, i as int)),
        decreases chars.len() - i,
    {
        let c: char = chars[i];
        let low: char = if 'A' <= c && c <= 'Z' {
            lower_letter(c)
        } else {
            c
        };
        let ghost before = out@;
        out.push(low);
        i = i + 1;
        assert(ascii_lower(s@.subrange(0, i as int)) == before.push(crate::ids::lower(c)));
    }
    assert(s@.subrange(0, i as int) == s@);
    out
}

fn lower_letter(c: char) -> (r: char)
    requires
        'A' <= c <= 'Z',
    ensures
        r == crate::ids::lower(c),
{
    let b: u8 = c as u32 as u8;
    (b + 32) as char
}

/// The media type of a content-type header: what stands before the parameters, trimmed and in
/// lower case.
pub open spec fn media_type(value: Option<&[u8]>) -> Option<Seq<char>> {
    match readable(value) {
        Some(s) => Some(ascii_lower(text::trimmed(text::before(s, ';')))),
        None => None,
    }
}

/// Reads the media type of a content-type header.
pub fn read_media_type(value: Option<&[u8]>) -> (r: Option<String>)
    ensures
        crate::error::text_view(r) == media_type(value),
{
    match read_header(value) {
        Some(s) => {
            let head = before_char(s.as_str(), ';');
            Some(to_ascii_lower(trim(head)))
        },
        None => None,
    }
}

/// An entity tag without the mark of a weak one.
pub open spec fn strong_part(tag: Seq<char>) -> Seq<char> {
    if text::begins(tag, "W/"@) {
        text::rest_from(tag, 2)
    } else {
        tag
    }
}

/// A list of entity tags names `tag`, by weak comparison: `*`, or one of the tags between the
/// commas.
pub open spec fn names_tag(header: Seq<char>, tag: Seq<char>) -> bool {
    ||| text::trimmed(header) == "*"@
    ||| exists|i: int|
        0 <= i < text::split(header, ',').len() && strong_part(
            text::trimmed(#[trigger] text::split(header, ',')[i]),
        ) == strong_part(tag)
}

fn without_weak_mark<'a>(tag: &'a str) -> (r: &'a str)
    ensures
        r@ == strong_part(tag@),
{
    proof {
        reveal_strlit("W/");
    }
    match strip_prefix(tag, "W/") {
        Some(rest) => rest,
        None => tag,
    }
}

/// Whether a list of entity tags names `tag`, by weak comparison.
pub fn tags_match(header: &str, tag: &str) -> (r: bool)
    ensures
        r == names_tag(header@, tag@),
{
    if same(trim(header), "*") {
        return true;
    }
    let wanted = without_weak_mark(tag);
    let tokens = split_on(header, ',');
    let ghost pieces = text::split(header@, ',');
    let mut i: usize = 0;
    while i < tokens.len()
        invariant
            i <= tokens@.len(),
            text::views(tokens@) == pieces,
            pieces == text::split(header@, ','),
            wanted@ == strong_part(tag@),
            forall|j: int|
                0 <= j < i ==> strong_part(text::trimmed(#[trigger] pieces[j])) != strong_part(tag@),
        decreases tokens.len() - i,
    {
        assert(pieces[i as int] == tokens@[i as int]@);
        if same(without_weak_mark(trim(tokens[i].as_str())), wanted) {
            return true;
        }
        i = i + 1;
    }
    false
}

/// Whether the `If-None-Match` header of a request names `tag`.
pub fn if_none_matches(header: Option<&[u8]>, tag: &str) -> (r: bool)
    ensures
        r == match readable(header) {
            Some(h) => names_tag(h, tag@),
            None => false,
        },
{
    match read_header(header) {
        Some(h) => tags_match(h.as_str(), tag),
        None => false,
    }
}

/// The reply that nothing has changed: the tag, where it can be sent, and how long to keep it.
pub open spec fn unchanged_headers(tag: Seq<char>, cache_control: Seq<char>) -> Seq<
    (Seq<char>, Seq<char>),
> {
    if sendable(tag) {
        seq![("etag"@, tag), ("cache-control"@, cache_control)]
    } else {
        seq![("cache-control"@, cache_control)]
    }
}

/// The headers of a reply with status 304.
pub fn not_modified(tag: &str, cache_control: &str) -> (r: Vec<Header>)
    ensures
        header_views(r@) == unchanged_headers(tag@, cache_control@),
{
    let mut headers: Vec<Header> = Vec::new();
    assert(header_views(headers@) == Seq::<(Seq<char>, Seq<char>)>::empty());
    if can_send(tag) {
        put(&mut headers, "etag", tag);
    }
    put(&mut headers, "cache-control", cache_control);
    headers
}

/// A quoted tag names itself, alone or weakened on the way, and `*` names every tag.
pub proof fn law_tag_names_itself(value: Seq<char>)
    requires
        !value.contains(','),
    ensures
        ({
            let tag = seq!['"'] + value + seq!['"'];
            &&& names_tag(tag, tag)
            &&& names_tag("W/"@ + tag, tag)
            &&& names_tag("*"@, tag)
        }),
{
    let tag = seq!['"'] + value + seq!['"'];
    let weak = "W/"@ + tag;
    reveal_strlit("W/");
    reveal_strlit("*");
    assert(!tag.contains(',')) by {
        if tag.contains(',') {
            let i = tag.index_of(',');
            assert(value[i - 1] == ',');
        }
    }
    assert(!weak.contains(',')) by {
        if weak.contains(',') {
            let i = weak.index_of(',');
            assert(tag[i - 2] == ',');
        }
    }
    text::lemma_split_single(tag, ',');
    text::lemma_split_single(weak, ',');
    assert(text::split(tag, ',')[0] == tag);
    assert(text::split(weak, ',')[0] == weak);
    assert(text::rest_from(weak, 2) == tag);
    assert(weak.subrange(0, 2) == "W/"@);
    assert(tag.subrange(0, 2)[0] == '"');
    assert(text::trimmed("*"@) == "*"@) by {
        assert("*"@ == seq!['*']);
    }
}

/// A list of quoted tags names a tag, weak or strong, exactly where the tag is one of the list.
pub proof fn law_list_names_its_tags(values: Seq<Seq<char>>, value: Seq<char>)
    requires
        values.len() > 0,
        forall|i: int| 0 <= i < values.len() ==> !(#[trigger] values[i]).contains(','),
    ensures
        names_tag(
            text::joined(
                values.map_values(|v: Seq<char>| seq!['"'] + v + seq!['"']),
                seq![','],
            ),
            seq!['"'] + value + seq!['"'],
        ) <==> values.contains(value),
{
    reveal_strlit("W/");
    reveal_strlit("*");
    let quoted = values.map_values(|v: Seq<char>| seq!['"'] + v + seq!['"']);
    let header = text::joined(quoted, seq![',']);
    let tag = seq!['"'] + value + seq!['"'];
    assert forall|i: int| 0 <= i < quoted.len() implies !(#[trigger] quoted[i]).contains(',')
        && text::trimmed(quoted[i]) == quoted[i] && strong_part(quoted[i]) == quoted[i] by {
        let v = values[i];
        assert(quoted[i] == seq!['"'] + v + seq!['"']);
        assert(!v.contains(','));
        if quoted[i].contains(',') {
            let k = quoted[i].index_of(',');
            assert(v[k - 1] == ',');
        }
        text::law_trimming_is_done_once(quoted[i]);
        assert(quoted[i][0] == '"');
        assert(quoted[i].subrange(0, 2)[0] == '"');
        assert("W/"@[0] == 'W');
    }
    text::law_text_has_its_pieces(quoted, ',');
    assert(tag[0] == '"');
    assert(tag.subrange(0, 2)[0] == '"');
    assert("W/"@[0] == 'W');
    assert(strong_part(tag) == tag);
    assert(text::trimmed(header) != "*"@) by {
        lemma_joined_begins(quoted, seq![',']);
        assert(header[0] == '"');
        let cut = text::law_trimming_takes_white_space_alone(header);
        assert(header[0] == (cut.0 + text::trimmed(header) + cut.1)[0]);
        if cut.0.len() > 0 {
            assert(text::is_white(cut.0[0]));
            assert(cut.0[0] == header[0]);
        }
        if text::trimmed(header) == "*"@ {
            assert(text::trimmed(header)[0] == header[0]);
        }
    }
    if values.contains(value) {
        let i = values.index_of(value);
        assert(quoted[i] == tag);
        assert(strong_part(text::trimmed(text::split(header, ',')[i])) == strong_part(tag));
    }
    if names_tag(header, tag) {
        let i = choose|i: int|
            0 <= i < text::split(header, ',').len() && strong_part(
                text::trimmed(#[trigger] text::split(header, ',')[i]),
            ) == strong_part(tag);
        assert(quoted[i] == tag);
        let v = values[i];
        assert((seq!['"'] + v + seq!['"']).len() == (seq!['"'] + value + seq!['"']).len());
        assert forall|k: int| 0 <= k < v.len() implies v[k] == value[k] by {
            assert((seq!['"'] + v + seq!['"'])[k + 1] == (seq!['"'] + value + seq!['"'])[k + 1]);
        }
        assert(v =~= value);
    }
}

/// What pieces make begins with the first of them.
proof fn lemma_joined_begins(pieces: Seq<Seq<char>>, sep: Seq<char>)
    requires
        pieces.len() > 0,
        pieces[0].len() > 0,
    ensures
        text::joined(pieces, sep).len() > 0,
        text::joined(pieces, sep)[0] == pieces[0][0],
    decreases pieces.len(),
{
    if pieces.len() > 1 {
        lemma_joined_begins(pieces.drop_last(), sep);
    }
}

/// A header is read as text exactly where every byte of it is visible, a space or a tab, and then
/// byte for byte.
pub proof fn law_header_is_read_byte_for_byte(value: Seq<u8>)
    ensures
        match header_text(value) {
            Some(s) => s.len() == value.len() && forall|i: int|
                0 <= i < value.len() ==> #[trigger] s[i] as u32 == value[i] as u32 && (value[i]
                    == 9 || 32 <= value[i] <= 126),
            None => exists|i: int|
                0 <= i < value.len() && (#[trigger] value[i] < 32 || value[i] > 126) && value[i]
                    != 9,
        },
{
}

/// Two content types that differ in their parameters, in white space around the type or in the case
/// of ASCII letters alone have the same media type.
pub proof fn law_parameters_do_not_count(a: &[u8], b: &[u8])
    requires
        header_text(a@) is Some,
        header_text(b@) is Some,
        ascii_lower(text::trimmed(text::before(header_text(a@)->0, ';'))) == ascii_lower(
            text::trimmed(text::before(header_text(b@)->0, ';')),
        ),
    ensures
        media_type(Some(a)) == media_type(Some(b)),
        media_type(Some(a)) is Some,
{
}

/// A header that is put comes last, and one that replaces others of its name is the only one of it;
/// headers of other names are as before.
pub proof fn law_replaced_header_is_alone(headers: &mut Vec<Header>, name: &str, value: &str)
    requires
        call_ensures(replace, (headers, name, value), ()),
    ensures
        header_views(final(headers)@).contains((name@, value@)),
        forall|v: Seq<char>|
            #[trigger] header_views(final(headers)@).contains((name@, v)) ==> v == value@,
        forall|n: Seq<char>, v: Seq<char>|
            n != name@ ==> (#[trigger] header_views(final(headers)@).contains((n, v))
                <==> header_views(old(headers)@).contains((n, v))),
{
    let before = header_views(headers@);
    let after = header_views(final(headers)@);
    let pred = |h: (Seq<char>, Seq<char>)| h.0 != name@;
    let kept = others(before, name@);
    assert(after == kept.push((name@, value@)));
    assert(after[kept.len() as int] == (name@, value@));
    assert forall|v: Seq<char>| #[trigger] after.contains((name@, v)) implies v == value@ by {
        let i = after.index_of((name@, v));
        if i < kept.len() {
            before.lemma_filter_pred(pred, i);
        }
    }
    assert forall|n: Seq<char>, v: Seq<char>| n != name@ implies (#[trigger] after.contains((n, v))
        <==> before.contains((n, v))) by {
        if after.contains((n, v)) {
            let i = after.index_of((n, v));
            assert(kept[i] == (n, v));
            assert(kept.contains((n, v)));
            before.lemma_filter_contains_rev(pred, (n, v));
        }
        if before.contains((n, v)) {
            let i = before.index_of((n, v));
            before.lemma_filter_contains(pred, i);
            let k = kept.index_of((n, v));
            assert(after[k] == (n, v));
        }
    }
}

} // verus!
