//! Text as sequences of characters: trimming, prefixes, splitting, counting.

use vstd::prelude::*;
use vstd::string::*;
use vstd::utf8::*;

verus! {

/// A character with the Unicode property `White_Space`.
pub open spec fn is_white(c: char) -> bool {
    let n = c as u32;
    ||| 0x09 <= n <= 0x0d
    ||| n == 0x20
    ||| n == 0x85
    ||| n == 0xa0
    ||| n == 0x1680
    ||| 0x2000 <= n <= 0x200a
    ||| n == 0x2028
    ||| n == 0x2029
    ||| n == 0x202f
    ||| n == 0x205f
    ||| n == 0x3000
}

/// Whether `c` has the Unicode property `White_Space`.
pub fn white(c: char) -> (r: bool)
    ensures
        r == is_white(c),
{
    let n: u32 = c as u32;
    (0x09 <= n && n <= 0x0d) || n == 0x20 || n == 0x85 || n == 0xa0 || n == 0x1680 || (0x2000 <= n
        && n <= 0x200a) || n == 0x2028 || n == 0x2029 || n == 0x202f || n == 0x205f || n == 0x3000
}

/// `s` without its leading white space.
pub open spec fn trim_start(s: Seq<char>) -> Seq<char>
    decreases s.len(),
{
    if s.len() > 0 && is_white(s[0]) {
        trim_start(s.drop_first())
    } else {
        s
    }
}

/// `s` without its trailing white space.
pub open spec fn trim_end(s: Seq<char>) -> Seq<char>
    decreases s.len(),
{
    if s.len() > 0 && is_white(s.last()) {
        trim_end(s.drop_last())
    } else {
        s
    }
}

/// `s` without the white space on either side.
pub open spec fn trimmed(s: Seq<char>) -> Seq<char> {
    trim_end(trim_start(s))
}

/// `s` without the characters `c` at its end.
pub open spec fn without_trailing(s: Seq<char>, c: char) -> Seq<char>
    decreases s.len(),
{
    if s.len() > 0 && s.last() == c {
        without_trailing(s.drop_last(), c)
    } else {
        s
    }
}

/// `p` stands at the start of `s`.
pub open spec fn begins(s: Seq<char>, p: Seq<char>) -> bool {
    p.len() <= s.len() && s.subrange(0, p.len() as int) == p
}

/// `s` from the character `n` on.
pub open spec fn rest_from(s: Seq<char>, n: int) -> Seq<char> {
    s.subrange(n, s.len() as int)
}

/// `s` up to the first `c`, or all of it.
pub open spec fn before(s: Seq<char>, c: char) -> Seq<char>
    decreases s.len(),
{
    if s.len() == 0 || s[0] == c {
        Seq::empty()
    } else {
        seq![s[0]] + before(s.drop_first(), c)
    }
}

/// The pieces of `s` between the separators `c`, in order; one more than there are separators.
pub open spec fn split(s: Seq<char>, c: char) -> Seq<Seq<char>>
    decreases s.len(),
{
    if s.len() == 0 {
        seq![Seq::<char>::empty()]
    } else {
        let tail = split(s.drop_first(), c);
        if s[0] == c {
            seq![Seq::<char>::empty()] + tail
        } else {
            seq![seq![s[0]] + tail[0]] + tail.drop_first()
        }
    }
}

/// The number of UTF-16 code units of `s`.
pub open spec fn utf16_units(s: Seq<char>) -> nat
    decreases s.len(),
{
    if s.len() == 0 {
        0
    } else {
        utf16_units(s.drop_last()) + if s.last() as u32 > 0xffff {
            2nat
        } else {
            1nat
        }
    }
}

/// The decimal digit of value `d`.
pub open spec fn digit_char(d: int) -> char {
    (d + 48) as char
}

/// `n` in decimal, without leading zeros.
pub open spec fn decimal(n: nat) -> Seq<char>
    decreases n,
{
    if n < 10 {
        seq![digit_char(n as int)]
    } else {
        decimal(n / 10).push(digit_char((n % 10) as int))
    }
}

/// `n` in decimal, with a sign where it is negative.
pub open spec fn signed_decimal(n: int) -> Seq<char> {
    if n < 0 {
        seq!['-'] + decimal((-n) as nat)
    } else {
        decimal(n as nat)
    }
}

/// Appends `c` to `s`: `String::push`.
pub assume_specification[ String::push ](s: &mut String, c: char)
    ensures
        final(s)@ == old(s)@.push(c),
;

/// Whether two texts hold the same characters.
pub fn same(a: &str, b: &str) -> (r: bool)
    ensures
        r == (a@ == b@),
{
    a.to_owned() == b.to_owned()
}

/// The characters of a text.
pub fn chars_of(s: &str) -> (r: Vec<char>)
    ensures
        r@ == s@,
{
    let mut out: Vec<char> = Vec::new();
    for c in iter: s.chars()
        invariant
            out@ == s@.subrange(0, iter.index() as int),
            iter.seq() == s@,
    {
        out.push(c);
    }
    out
}

/// The text made of the given characters.
pub fn string_of(chars: &[char]) -> (r: String)
    ensures
        r@ == chars@,
{
    let mut out: String = String::new();
    let mut i: usize = 0;
    while i < chars.len()
        invariant
            i <= chars@.len(),
            out@ == chars@.subrange(0, i as int),
        decreases chars.len() - i,
    {
        out.push(chars[i]);
        i = i + 1;
        assert(chars@.subrange(0, i as int) == chars@.subrange(0, i - 1).push(chars@[i - 1]));
    }
    assert(chars@.subrange(0, i as int) == chars@);
    out
}

/// The text between two positions, counted in characters.
pub fn slice(chars: &[char], from: usize, to: usize) -> (r: String)
    requires
        from <= to <= chars@.len(),
    ensures
        r@ == chars@.subrange(from as int, to as int),
{
    let mut out: String = String::new();
    let mut i: usize = from;
    while i < to
        invariant
            from <= i <= to <= chars@.len(),
            out@ == chars@.subrange(from as int, i as int),
        decreases to - i,
    {
        out.push(chars[i]);
        i = i + 1;
        assert(chars@.subrange(from as int, i as int) == chars@.subrange(from as int, i - 1).push(
            chars@[i - 1],
        ));
    }
    out
}

/// The text without the white space on either side.
pub fn trim(s: &str) -> (r: &str)
    ensures
        r@ == trimmed(s@),
{
    let chars = chars_of(s);
    let n: usize = chars.len();
    let mut a: usize = 0;
    assert(s@.subrange(0, n as int) == s@);
    while a < n && white(chars[a])
        invariant
            a <= n == chars@.len(),
            chars@ == s@,
            trim_start(s@) == trim_start(s@.subrange(a as int, n as int)),
        decreases n - a,
    {
        assert(s@.subrange(a as int, n as int).drop_first() == s@.subrange(a + 1, n as int));
        a = a + 1;
    }
    let mut b: usize = n;
    while b > a && white(chars[b - 1])
        invariant
            a <= b <= n == chars@.len(),
            chars@ == s@,
            trim_end(s@.subrange(a as int, n as int)) == trim_end(s@.subrange(a as int, b as int)),
        decreases b,
    {
        assert(s@.subrange(a as int, b as int).drop_last() == s@.subrange(a as int, b - 1));
        b = b - 1;
    }
    s.substring_char(a, b)
}

/// The text without the characters `c` at its end.
pub fn trim_end_char(s: &str, c: char) -> (r: &str)
    ensures
        r@ == without_trailing(s@, c),
{
    let chars = chars_of(s);
    let mut b: usize = chars.len();
    assert(s@.subrange(0, b as int) == s@);
    while b > 0 && chars[b - 1] == c
        invariant
            b <= chars@.len(),
            chars@ == s@,
            without_trailing(s@, c) == without_trailing(s@.subrange(0, b as int), c),
        decreases b,
    {
        assert(s@.subrange(0, b as int).drop_last() == s@.subrange(0, b - 1));
        b = b - 1;
    }
    s.substring_char(0, b)
}

/// Whether `s` starts with `p`.
pub fn starts_with(s: &str, p: &str) -> (r: bool)
    ensures
        r == begins(s@, p@),
{
    let n: usize = p.unicode_len();
    if s.unicode_len() < n {
        return false;
    }
    same(s.substring_char(0, n), p)
}

/// What follows the prefix `p` of `s`, where `s` starts with it.
pub fn strip_prefix<'a>(s: &'a str, p: &str) -> (r: Option<&'a str>)
    ensures
        r is Some <==> begins(s@, p@),
        r matches Some(rest) ==> rest@ == rest_from(s@, p@.len() as int),
{
    if starts_with(s, p) {
        let n: usize = p.unicode_len();
        let m: usize = s.unicode_len();
        Some(s.substring_char(n, m))
    } else {
        None
    }
}

/// The text up to the first `c`, or all of it.
pub fn before_char(s: &str, c: char) -> (r: &str)
    ensures
        r@ == before(s@, c),
{
    let chars = chars_of(s);
    let n: usize = chars.len();
    let mut i: usize = 0;
    proof {
        assert(s@.subrange(0, n as int) == s@);
        assert(s@.subrange(0, 0) + before(s@, c) == before(s@, c));
    }
    while i < n && chars[i] != c
        invariant
            i <= n == chars@.len(),
            chars@ == s@,
            before(s@, c) == s@.subrange(0, i as int) + before(s@.subrange(i as int, n as int), c),
        decreases n - i,
    {
        proof {
            let tail = s@.subrange(i as int, n as int);
            assert(tail.drop_first() == s@.subrange(i + 1, n as int));
            assert(s@.subrange(0, i as int) + (seq![tail[0]] + before(tail.drop_first(), c))
                == s@.subrange(0, i + 1) + before(tail.drop_first(), c));
        }
        i = i + 1;
    }
    assert(before(s@.subrange(i as int, n as int), c) == Seq::<char>::empty());
    s.substring_char(0, i)
}

proof fn lemma_split_nonempty(s: Seq<char>, c: char)
    ensures
        split(s, c).len() >= 1,
    decreases s.len(),
{
    if s.len() > 0 {
        lemma_split_nonempty(s.drop_first(), c);
    }
}

/// A text without the separator is one piece.
pub proof fn lemma_split_single(s: Seq<char>, c: char)
    requires
        !s.contains(c),
    ensures
        split(s, c) == seq![s],
    decreases s.len(),
{
    if s.len() > 0 {
        let d = s.drop_first();
        assert(s[0] != c);
        assert(!d.contains(c)) by {
            if d.contains(c) {
                let i = d.index_of(c);
                assert(s[i + 1] == c);
            }
        }
        lemma_split_single(d, c);
        assert(seq![s[0]] + d == s);
        assert(split(s, c) =~= seq![s]);
    } else {
        assert(s == Seq::<char>::empty());
    }
}

/// What `split` gives of a text whose last piece is still being read.
proof fn lemma_split_push(s: Seq<char>, c: char, x: char)
    ensures
        x == c ==> split(s.push(x), c) == split(s, c).push(Seq::empty()),
        x != c ==> split(s.push(x), c) == split(s, c).drop_last().push(split(s, c).last().push(x)),
    decreases s.len(),
{
    lemma_split_nonempty(s, c);
    let t = s.push(x);
    if s.len() == 0 {
        assert(t.drop_first() == Seq::<char>::empty());
        assert(split(t.drop_first(), c) == seq![Seq::<char>::empty()]);
        if x == c {
            assert(split(t, c) == split(s, c).push(Seq::empty()));
        } else {
            assert(seq![t[0]] + Seq::<char>::empty() == Seq::<char>::empty().push(x));
            assert(split(t, c) == split(s, c).drop_last().push(split(s, c).last().push(x)));
        }
    } else {
        let d = s.drop_first();
        lemma_split_push(d, c, x);
        lemma_split_nonempty(d, c);
        assert(t.drop_first() == d.push(x));
        let u = split(d, c);
        let w = split(d.push(x), c);
        if s[0] == c {
            if x == c {
                assert(split(t, c) == split(s, c).push(Seq::empty()));
            } else {
                assert(split(t, c) == split(s, c).drop_last().push(split(s, c).last().push(x)));
            }
        } else if x == c {
            assert(split(t, c) == split(s, c).push(Seq::empty()));
        } else if u.len() == 1 {
            assert(w == seq![u[0].push(x)]);
            assert(seq![s[0]] + u[0].push(x) == (seq![s[0]] + u[0]).push(x));
            assert(split(t, c) == split(s, c).drop_last().push(split(s, c).last().push(x)));
        } else {
            assert(split(t, c) == split(s, c).drop_last().push(split(s, c).last().push(x)));
        }
    }
}

/// The views of a list of texts.
pub open spec fn views(v: Seq<String>) -> Seq<Seq<char>> {
    v.map_values(|s: String| s@)
}

/// The pieces of a text between the separators `c`.
pub fn split_on(s: &str, c: char) -> (r: Vec<String>)
    ensures
        views(r@) == split(s@, c),
{
    let chars = chars_of(s);
    let mut out: Vec<String> = Vec::new();
    let mut piece: String = String::new();
    let mut i: usize = 0;
    assert(views(out@).push(piece@) == split(s@.subrange(0, 0), c));
    while i < chars.len()
        invariant
            i <= chars@.len(),
            chars@ == s@,
            views(out@).push(piece@) == split(s@.subrange(0, i as int), c),
        decreases chars.len() - i,
    {
        let x = chars[i];
        proof {
            lemma_split_push(s@.subrange(0, i as int), c, x);
            assert(s@.subrange(0, i + 1) == s@.subrange(0, i as int).push(x));
        }
        let ghost parts = views(out@).push(piece@);
        if x == c {
            let ghost done = piece@;
            let ghost old_out = out@;
            out.push(piece);
            piece = String::new();
            assert(views(out@) == views(old_out).push(done));
        } else {
            assert(parts.drop_last() == views(out@));
            piece.push(x);
        }
        i = i + 1;
    }
    let ghost done = piece@;
    let ghost old_out = out@;
    out.push(piece);
    assert(views(out@) == views(old_out).push(done));
    assert(s@.subrange(0, i as int) == s@);
    out
}

/// Whether a text has at most `max` UTF-16 code units.
pub fn utf16_within(s: &str, max: usize) -> (r: bool)
    ensures
        r == (utf16_units(s@) <= max),
{
    let chars = chars_of(s);
    let mut left: usize = max;
    let mut i: usize = 0;
    while i < chars.len()
        invariant
            i <= chars@.len(),
            chars@ == s@,
            left <= max,
            max - left == utf16_units(s@.subrange(0, i as int)),
        decreases chars.len() - i,
    {
        proof {
            lemma_utf16_prefix(s@, i + 1);
            assert(s@.subrange(0, i + 1).drop_last() == s@.subrange(0, i as int));
        }
        let units: usize = if chars[i] as u32 > 0xffff {
            2
        } else {
            1
        };
        if left < units {
            return false;
        }
        left = left - units;
        i = i + 1;
    }
    assert(s@.subrange(0, i as int) == s@);
    true
}

/// The longest start of a text that has at most `max` UTF-16 code units.
pub open spec fn utf16_start(s: Seq<char>, max: int) -> Seq<char>
    decreases s.len(),
{
    if s.len() == 0 {
        s
    } else {
        let units = if s[0] as u32 > 0xffff {
            2int
        } else {
            1int
        };
        if max < units {
            Seq::empty()
        } else {
            seq![s[0]] + utf16_start(s.drop_first(), max - units)
        }
    }
}

/// A prefix has no more code units than the whole.
pub proof fn lemma_utf16_prefix(s: Seq<char>, n: int)
    requires
        0 <= n <= s.len(),
    ensures
        utf16_units(s.subrange(0, n)) <= utf16_units(s),
    decreases s.len() - n,
{
    if n == s.len() {
        assert(s.subrange(0, n) == s);
    } else {
        lemma_utf16_prefix(s, n + 1);
        assert(s.subrange(0, n + 1).drop_last() == s.subrange(0, n));
    }
}

/// The text `n` in decimal.
pub fn decimal_string(n: u64) -> (r: String)
    ensures
        r@ == decimal(n as nat),
    decreases n,
{
    let mut out: String = if n < 10 {
        String::new()
    } else {
        decimal_string(n / 10)
    };
    let d: u32 = (n % 10) as u32;
    let c: char = digit(d);
    out.push(c);
    assert(n < 10 ==> Seq::<char>::empty().push(c) == seq![c]);
    out
}

/// The character of the digit `d`.
pub fn digit(d: u32) -> (r: char)
    requires
        d < 10,
    ensures
        r == digit_char(d as int),
{
    match d {
        0 => '0',
        1 => '1',
        2 => '2',
        3 => '3',
        4 => '4',
        5 => '5',
        6 => '6',
        7 => '7',
        8 => '8',
        _ => '9',
    }
}

/// The text `n` in decimal, with a sign where it is negative.
pub fn signed_decimal_string(n: i64) -> (r: String)
    ensures
        r@ == signed_decimal(n as int),
{
    if n >= 0 {
        decimal_string(n as u64)
    } else {
        let m: u64 = ((-(n + 1)) as u64) + 1;
        let mut out: String = String::new();
        out.push('-');
        let digits = decimal_string(m);
        out.append(digits.as_str());
        assert(Seq::<char>::empty().push('-') == seq!['-']);
        out
    }
}

/// Two texts one after the other.
pub fn join2(a: &str, b: &str) -> (r: String)
    ensures
        r@ == a@ + b@,
{
    let mut out: String = a.to_owned();
    out.append(b);
    out
}

/// Three texts one after the other.
pub fn join3(a: &str, b: &str, c: &str) -> (r: String)
    ensures
        r@ == a@ + b@ + c@,
{
    let mut out: String = a.to_owned();
    out.append(b);
    out.append(c);
    out
}

/// Four texts one after the other.
pub fn join4(a: &str, b: &str, c: &str, d: &str) -> (r: String)
    ensures
        r@ == a@ + b@ + c@ + d@,
{
    let mut out: String = a.to_owned();
    out.append(b);
    out.append(c);
    out.append(d);
    out
}

/// Texts one after the other, with `sep` between them.
pub open spec fn joined(pieces: Seq<Seq<char>>, sep: Seq<char>) -> Seq<char>
    decreases pieces.len(),
{
    if pieces.len() == 0 {
        Seq::empty()
    } else if pieces.len() == 1 {
        pieces[0]
    } else {
        joined(pieces.drop_last(), sep) + sep + pieces.last()
    }
}

/// Texts one after the other, with `sep` between them.
pub fn join_all(pieces: &[String], sep: &str) -> (r: String)
    ensures
        r@ == joined(views(pieces@), sep@),
{
    let mut out: String = String::new();
    let mut i: usize = 0;
    assert(views(pieces@).subrange(0, 0) == Seq::<Seq<char>>::empty());
    while i < pieces.len()
        invariant
            i <= pieces@.len(),
            out@ == joined(views(pieces@).subrange(0, i as int), sep@),
        decreases pieces.len() - i,
    {
        let ghost next = views(pieces@).subrange(0, i + 1);
        proof {
            assert(next.drop_last() == views(pieces@).subrange(0, i as int));
            assert(next.last() == pieces@[i as int]@);
        }
        if i > 0 {
            out.append(sep);
        }
        out.append(pieces[i].as_str());
        i = i + 1;
    }
    assert(views(pieces@).subrange(0, i as int) == views(pieces@));
    out
}

/// A line without the carriage return at its end.
pub open spec fn without_return(line: Seq<char>) -> Seq<char> {
    if line.len() > 0 && line.last() == '\r' {
        line.drop_last()
    } else {
        line
    }
}

/// The lines of a text. A line ends with a newline, which a carriage return may precede; the last
/// one may end without.
pub open spec fn lines_of(s: Seq<char>) -> Seq<Seq<char>> {
    let pieces = split(s, '\n');
    let ended = pieces.drop_last().map_values(|line: Seq<char>| without_return(line));
    if pieces.last().len() == 0 {
        ended
    } else {
        ended.push(pieces.last())
    }
}

/// A line without the carriage return at its end.
fn strip_return(line: &str) -> (r: String)
    ensures
        r@ == without_return(line@),
{
    let chars = chars_of(line);
    let n: usize = chars.len();
    if n > 0 && chars[n - 1] == '\r' {
        let r = slice(chars.as_slice(), 0, n - 1);
        assert(r@ == line@.drop_last());
        r
    } else {
        line.to_owned()
    }
}

/// The lines of a text.
pub fn lines(s: &str) -> (r: Vec<String>)
    ensures
        views(r@) == lines_of(s@),
{
    proof {
        lemma_split_nonempty(s@, '\n');
    }
    let pieces = split_on(s, '\n');
    let ghost all = split(s@, '\n');
    let n: usize = pieces.len();
    assert(n == views(pieces@).len());
    let ghost ended = all.drop_last().map_values(|line: Seq<char>| without_return(line));
    let mut out: Vec<String> = Vec::new();
    let mut i: usize = 0;
    while i < n - 1
        invariant
            i <= n - 1,
            n == pieces@.len(),
            views(pieces@) == all,
            ended == all.drop_last().map_values(|line: Seq<char>| without_return(line)),
            views(out@) == ended.subrange(0, i as int),
        decreases n - i,
    {
        let ghost before = out@;
        let line = strip_return(pieces[i].as_str());
        assert(all[i as int] == pieces@[i as int]@);
        assert(ended[i as int] == line@);
        out.push(line);
        assert(views(out@) == views(before).push(line@));
        assert(ended.subrange(0, i + 1) == ended.subrange(0, i as int).push(ended[i as int]));
        i = i + 1;
    }
    assert(ended.subrange(0, n - 1) == ended);
    assert(all.last() == pieces@[n - 1]@);
    let ghost before = out@;
    if !pieces[n - 1].as_str().is_empty() {
        let last = pieces[n - 1].clone();
        out.push(last);
        assert(views(out@) == views(before).push(last@));
    }
    out
}

/// `p` stands at the end of `s`.
pub open spec fn ends(s: Seq<char>, p: Seq<char>) -> bool {
    p.len() <= s.len() && s.subrange(s.len() - p.len(), s.len() as int) == p
}

/// `p` stands in `s` at the position `i`.
pub open spec fn occurs_at(s: Seq<char>, p: Seq<char>, i: int) -> bool {
    0 <= i && i + p.len() <= s.len() && s.subrange(i, i + p.len()) == p
}

/// `p` stands somewhere in `s`.
pub open spec fn occurs(s: Seq<char>, p: Seq<char>) -> bool {
    exists|i: int| occurs_at(s, p, i)
}

/// Whether `s` ends with `p`.
pub fn ends_with(s: &str, p: &str) -> (r: bool)
    ensures
        r == ends(s@, p@),
{
    let n: usize = s.unicode_len();
    let m: usize = p.unicode_len();
    if n < m {
        return false;
    }
    same(s.substring_char(n - m, n), p)
}

/// Whether `p` stands somewhere in `s`.
pub fn contains(s: &str, p: &str) -> (r: bool)
    ensures
        r == occurs(s@, p@),
{
    let n: usize = s.unicode_len();
    let m: usize = p.unicode_len();
    if n < m {
        return false;
    }
    let last: usize = n - m;
    let mut i: usize = 0;
    loop
        invariant
            n == s@.len(),
            m == p@.len(),
            n - m == last,
            i <= last,
            forall|j: int| 0 <= j < i ==> !occurs_at(s@, p@, j),
        decreases last - i,
    {
        if same(s.substring_char(i, i + m), p) {
            assert(occurs_at(s@, p@, i as int));
            return true;
        }
        assert(!occurs_at(s@, p@, i as int));
        if i == last {
            return false;
        }
        i = i + 1;
    }
}

/// The longest start of a text that has at most `max` UTF-16 code units.
pub fn utf16_prefix(s: &str, max: usize) -> (r: &str)
    ensures
        r@ == utf16_start(s@, max as int),
{
    let chars = chars_of(s);
    let n: usize = chars.len();
    let mut left: usize = max;
    let mut i: usize = 0;
    proof {
        assert(s@.subrange(0, n as int) == s@);
        assert(s@.subrange(0, 0) + utf16_start(s@, max as int) == utf16_start(s@, max as int));
    }
    while i < n
        invariant
            i <= n == chars@.len(),
            chars@ == s@,
            left <= max,
            utf16_start(s@, max as int) == s@.subrange(0, i as int) + utf16_start(
                s@.subrange(i as int, n as int),
                left as int,
            ),
        decreases n - i,
    {
        let units: usize = if chars[i] as u32 > 0xffff {
            2
        } else {
            1
        };
        let ghost tail = s@.subrange(i as int, n as int);
        if left < units {
            assert(utf16_start(tail, left as int) == Seq::<char>::empty());
            return s.substring_char(0, i);
        }
        proof {
            assert(tail.drop_first() == s@.subrange(i + 1, n as int));
            let rest = utf16_start(tail.drop_first(), left - units);
            assert(s@.subrange(0, i as int) + (seq![tail[0]] + rest) == s@.subrange(0, i + 1)
                + rest);
        }
        left = left - units;
        i = i + 1;
    }
    assert(utf16_start(s@.subrange(i as int, n as int), left as int) == Seq::<char>::empty());
    s
}

/// The characters that stand for `c` in HTML.
pub open spec fn html_char(c: char) -> Seq<char> {
    if c == '&' {
        "&amp;"@
    } else if c == '<' {
        "&lt;"@
    } else if c == '>' {
        "&gt;"@
    } else if c == '"' {
        "&quot;"@
    } else if c == '\'' {
        "&#x27;"@
    } else {
        seq![c]
    }
}

/// A text as HTML shows it, character for character.
pub open spec fn html_text(s: Seq<char>) -> Seq<char>
    decreases s.len(),
{
    if s.len() == 0 {
        Seq::empty()
    } else {
        html_text(s.drop_last()) + html_char(s.last())
    }
}

/// A text as HTML shows it.
pub fn escape_html(value: &str) -> (r: String)
    ensures
        r@ == html_text(value@),
{
    let chars = chars_of(value);
    let mut out: String = String::new();
    let mut i: usize = 0;
    assert(value@.subrange(0, 0).len() == 0);
    while i < chars.len()
        invariant
            i <= chars@.len(),
            chars@ == value@,
            out@ == html_text(value@.subrange(0, i as int)),
        decreases chars.len() - i,
    {
        let c: char = chars[i];
        proof {
            let next = value@.subrange(0, i + 1);
            assert(next.drop_last() == value@.subrange(0, i as int));
            assert(next.last() == c);
        }
        let ghost before = out@;
        if c == '&' {
            out.append("&amp;");
        } else if c == '<' {
            out.append("&lt;");
        } else if c == '>' {
            out.append("&gt;");
        } else if c == '"' {
            out.append("&quot;");
        } else if c == '\'' {
            out.append("&#x27;");
        } else {
            out.push(c);
            assert(out@ == before + seq![c]);
        }
        i = i + 1;
    }
    assert(value@.subrange(0, i as int) == value@);
    out
}

/// What was escaped opens no tag and ends no attribute.
pub proof fn law_escaped_text_is_inert(s: Seq<char>)
    ensures
        !html_text(s).contains('<'),
        !html_text(s).contains('>'),
        !html_text(s).contains('"'),
        !html_text(s).contains('\''),
    decreases s.len(),
{
    reveal_strlit("&amp;");
    reveal_strlit("&lt;");
    reveal_strlit("&gt;");
    reveal_strlit("&quot;");
    reveal_strlit("&#x27;");
    if s.len() > 0 {
        law_escaped_text_is_inert(s.drop_last());
        let a = html_text(s.drop_last());
        let b = html_char(s.last());
        assert(forall|c: char| (a + b).contains(c) ==> a.contains(c) || b.contains(c)) by {
            assert forall|c: char| (a + b).contains(c) implies a.contains(c) || b.contains(c) by {
                let i = choose|i: int| 0 <= i < (a + b).len() && (a + b)[i] == c;
                if i < a.len() {
                    assert(a[i] == c);
                } else {
                    assert(b[i - a.len()] == c);
                }
            }
        }
    }
}

/// What HTML shows of a text that was escaped.
pub open spec fn html_read(s: Seq<char>) -> Seq<char>
    decreases s.len(),
{
    if s.len() == 0 {
        Seq::empty()
    } else if begins(s, "&amp;"@) && s.len() >= 5 {
        seq!['&'] + html_read(s.subrange(5, s.len() as int))
    } else if begins(s, "&lt;"@) && s.len() >= 4 {
        seq!['<'] + html_read(s.subrange(4, s.len() as int))
    } else if begins(s, "&gt;"@) && s.len() >= 4 {
        seq!['>'] + html_read(s.subrange(4, s.len() as int))
    } else if begins(s, "&quot;"@) && s.len() >= 6 {
        seq!['"'] + html_read(s.subrange(6, s.len() as int))
    } else if begins(s, "&#x27;"@) && s.len() >= 6 {
        seq!['\''] + html_read(s.subrange(6, s.len() as int))
    } else {
        seq![s[0]] + html_read(s.drop_first())
    }
}

/// An escaped text begins with what stands for its first character.
proof fn lemma_html_front(s: Seq<char>)
    requires
        s.len() > 0,
    ensures
        html_text(s) == html_char(s[0]) + html_text(s.drop_first()),
    decreases s.len(),
{
    if s.len() == 1 {
        assert(s.drop_last() =~= Seq::empty());
        assert(s.drop_first() =~= Seq::empty());
        assert(html_text(s) =~= html_char(s[0]) + html_text(s.drop_first()));
    } else {
        lemma_html_front(s.drop_last());
        assert(s.drop_last().drop_first() =~= s.drop_first().drop_last());
        assert(html_text(s) =~= html_char(s[0]) + html_text(s.drop_first()));
    }
}

/// What was escaped is read back, character for character.
pub proof fn law_escaped_text_is_read_back(s: Seq<char>)
    ensures
        html_read(html_text(s)) == s,
    decreases s.len(),
{
    reveal_strlit("&amp;");
    reveal_strlit("&lt;");
    reveal_strlit("&gt;");
    reveal_strlit("&quot;");
    reveal_strlit("&#x27;");
    if s.len() > 0 {
        let c = s[0];
        let rest = s.drop_first();
        law_escaped_text_is_read_back(rest);
        lemma_html_front(s);
        let all = html_text(s);
        let n = html_char(c).len() as int;
        assert(all.subrange(0, n) =~= html_char(c));
        assert(all.subrange(n, all.len() as int) =~= html_text(rest));
        assert(all.drop_first() =~= all.subrange(1, all.len() as int));
        assert(all[0] == html_char(c)[0]);
        if html_char(c).len() > 1 {
            assert(all[1] == html_char(c)[1]);
            assert(all[2] == html_char(c)[2]);
        }
        assert(begins(all, "&amp;"@) ==> all.subrange(0, 5)[1] == 'a');
        assert(begins(all, "&lt;"@) ==> all.subrange(0, 4)[1] == 'l');
        assert(begins(all, "&gt;"@) ==> all.subrange(0, 4)[1] == 'g');
        assert(begins(all, "&quot;"@) ==> all.subrange(0, 6)[1] == 'q');
        assert(begins(all, "&#x27;"@) ==> all.subrange(0, 6)[1] == '#');
        assert(begins(all, "&amp;"@) ==> all.subrange(0, 5)[0] == '&');
        assert(begins(all, "&lt;"@) ==> all.subrange(0, 4)[0] == '&');
        assert(begins(all, "&gt;"@) ==> all.subrange(0, 4)[0] == '&');
        assert(begins(all, "&quot;"@) ==> all.subrange(0, 6)[0] == '&');
        assert(begins(all, "&#x27;"@) ==> all.subrange(0, 6)[0] == '&');
        assert(html_read(all) =~= seq![c] + rest);
        assert(seq![c] + rest =~= s);
    }
}

/// Two texts that are escaped alike are the same.
pub proof fn law_escaping_keeps_texts_apart(a: Seq<char>, b: Seq<char>)
    requires
        html_text(a) == html_text(b),
    ensures
        a == b,
{
    law_escaped_text_is_read_back(a);
    law_escaped_text_is_read_back(b);
}

/// The longest start within the units is a start, and has no more of them.
pub proof fn law_utf16_start_fits(s: Seq<char>, max: int)
    requires
        0 <= max,
    ensures
        begins(s, utf16_start(s, max)),
        utf16_units(utf16_start(s, max)) <= max,
        utf16_units(s) <= max ==> utf16_start(s, max) == s,
    decreases s.len(),
{
    if s.len() > 0 {
        lemma_utf16_front(s);
        let units = if s[0] as u32 > 0xffff {
            2int
        } else {
            1int
        };
        if max >= units {
            let rest = utf16_start(s.drop_first(), max - units);
            law_utf16_start_fits(s.drop_first(), max - units);
            assert(utf16_start(s, max).drop_first() =~= rest);
            lemma_utf16_front(utf16_start(s, max));
            assert(s.subrange(0, utf16_start(s, max).len() as int) =~= seq![s[0]]
                + s.drop_first().subrange(0, rest.len() as int));
            if utf16_units(s) <= max {
                assert(seq![s[0]] + s.drop_first() =~= s);
            }
        } else {
            assert(s.subrange(0, 0) =~= Seq::empty());
        }
    } else {
        assert(s.subrange(0, 0) =~= s);
    }
}

/// The code units of a text are those of its first character and of the rest.
proof fn lemma_utf16_front(s: Seq<char>)
    requires
        s.len() > 0,
    ensures
        utf16_units(s) == utf16_units(s.drop_first()) + if s[0] as u32 > 0xffff {
            2nat
        } else {
            1nat
        },
    decreases s.len(),
{
    if s.len() == 1 {
        assert(s.drop_first() =~= s.drop_last());
    } else {
        lemma_utf16_front(s.drop_last());
        assert(s.drop_last().drop_first() =~= s.drop_first().drop_last());
    }
}

/// Only the empty text has no code units.
pub proof fn lemma_utf16_empty(s: Seq<char>)
    ensures
        utf16_units(s) == 0 <==> s.len() == 0,
{
}

/// A text is what is left of it when trimmed, with white space alone on either side; what is left
/// neither begins nor ends with white space.
pub proof fn law_trimming_takes_white_space_alone(s: Seq<char>) -> (cut: (Seq<char>, Seq<char>))
    ensures
        s == cut.0 + trimmed(s) + cut.1,
        forall|i: int| 0 <= i < cut.0.len() ==> is_white(#[trigger] cut.0[i]),
        forall|i: int| 0 <= i < cut.1.len() ==> is_white(#[trigger] cut.1[i]),
        trimmed(s).len() > 0 ==> !is_white(trimmed(s)[0]) && !is_white(trimmed(s).last()),
{
    let front = lemma_trim_start(s);
    let middle = trim_start(s);
    let back = lemma_trim_end(middle);
    assert(s =~= front + trimmed(s) + back);
    if trimmed(s).len() > 0 {
        assert(trimmed(s)[0] == middle[0]);
    }
    (front, back)
}

proof fn lemma_trim_start(s: Seq<char>) -> (cut: Seq<char>)
    ensures
        s == cut + trim_start(s),
        forall|i: int| 0 <= i < cut.len() ==> is_white(#[trigger] cut[i]),
        trim_start(s).len() > 0 ==> !is_white(trim_start(s)[0]),
    decreases s.len(),
{
    if s.len() > 0 && is_white(s[0]) {
        let rest = lemma_trim_start(s.drop_first());
        let cut = seq![s[0]] + rest;
        assert(s =~= seq![s[0]] + s.drop_first());
        assert(s =~= cut + trim_start(s));
        cut
    } else {
        assert(s =~= Seq::<char>::empty() + s);
        Seq::empty()
    }
}

proof fn lemma_trim_end(s: Seq<char>) -> (cut: Seq<char>)
    ensures
        s == trim_end(s) + cut,
        forall|i: int| 0 <= i < cut.len() ==> is_white(#[trigger] cut[i]),
        trim_end(s).len() > 0 ==> !is_white(trim_end(s).last()),
    decreases s.len(),
{
    if s.len() > 0 && is_white(s.last()) {
        let rest = lemma_trim_end(s.drop_last());
        let cut = rest.push(s.last());
        assert(s =~= s.drop_last().push(s.last()));
        assert(s =~= trim_end(s) + cut);
        cut
    } else {
        assert(s =~= s + Seq::<char>::empty());
        Seq::empty()
    }
}

/// A text that neither begins nor ends with white space is trimmed to itself, and trimming once is
/// enough.
pub proof fn law_trimming_is_done_once(s: Seq<char>)
    ensures
        s.len() == 0 || (!is_white(s[0]) && !is_white(s.last())) ==> trimmed(s) == s,
        trimmed(trimmed(s)) == trimmed(s),
{
    let cut = law_trimming_takes_white_space_alone(s);
    let t = trimmed(s);
    if t.len() > 0 {
        assert(trim_start(t) == t);
        assert(trim_end(t) == t);
    }
}

/// In ASCII, white space is the space and the characters from the tab to the carriage return.
pub proof fn law_ascii_white_space(c: char)
    requires
        c as u32 <= 127,
    ensures
        is_white(c) <==> c == ' ' || '\t' <= c <= '\r',
{
}

/// A text is what is left of it without the characters at its end, with those alone behind it.
pub proof fn law_trailing_characters_alone_go(s: Seq<char>, c: char) -> (cut: Seq<char>)
    ensures
        s == without_trailing(s, c) + cut,
        forall|i: int| 0 <= i < cut.len() ==> #[trigger] cut[i] == c,
        without_trailing(s, c).len() > 0 ==> without_trailing(s, c).last() != c,
    decreases s.len(),
{
    if s.len() > 0 && s.last() == c {
        let rest = law_trailing_characters_alone_go(s.drop_last(), c);
        let cut = rest.push(c);
        assert(s =~= s.drop_last().push(c));
        assert(s =~= without_trailing(s, c) + cut);
        cut
    } else {
        assert(s =~= s + Seq::<char>::empty());
        Seq::empty()
    }
}

/// What stands before a character begins the text, holds none of it, and is followed by it or is
/// all of the text.
pub proof fn law_before_ends_at_the_first(s: Seq<char>, c: char)
    ensures
        begins(s, before(s, c)),
        !before(s, c).contains(c),
        before(s, c) == s || s[before(s, c).len() as int] == c,
    decreases s.len(),
{
    if s.len() > 0 && s[0] != c {
        let rest = s.drop_first();
        law_before_ends_at_the_first(rest, c);
        let b = before(rest, c);
        let out = before(s, c);
        assert(out =~= seq![s[0]] + b);
        assert(s.subrange(0, out.len() as int) =~= seq![s[0]] + rest.subrange(0, b.len() as int));
        if out.contains(c) {
            let i = out.index_of(c);
            assert(b[i - 1] == c);
        }
        assert(rest.subrange(0, rest.len() as int) =~= rest);
        if b == rest {
            assert(out =~= s);
        } else {
            assert(rest[b.len() as int] == s[out.len() as int]);
        }
    } else {
        assert(s.subrange(0, 0) =~= Seq::<char>::empty());
        if s.len() == 0 {
            assert(before(s, c) =~= s);
        }
    }
}

/// The pieces of a text put together again, with the separator between them, are the text, and no
/// piece holds the separator.
pub proof fn law_pieces_make_the_text(s: Seq<char>, c: char)
    ensures
        joined(split(s, c), seq![c]) == s,
        split(s, c).len() > 0,
        forall|i: int| 0 <= i < split(s, c).len() ==> !(#[trigger] split(s, c)[i]).contains(c),
    decreases s.len(),
{
    lemma_split_nonempty(s, c);
    if s.len() == 0 {
        assert(joined(split(s, c), seq![c]) =~= s);
        assert(!split(s, c)[0].contains(c));
    } else {
        let rest = s.drop_first();
        let tail = split(rest, c);
        let out = split(s, c);
        lemma_split_nonempty(rest, c);
        law_pieces_make_the_text(rest, c);
        if s[0] == c {
            lemma_joined_first(Seq::empty(), tail, seq![c]);
            assert(Seq::<char>::empty() + seq![c] + rest =~= s);
            assert forall|i: int| 0 <= i < out.len() implies !(#[trigger] out[i]).contains(c) by {
                if i > 0 {
                    assert(out[i] == tail[i - 1]);
                }
            }
        } else {
            let first = seq![s[0]] + tail[0];
            lemma_joined_longer(seq![s[0]], tail, seq![c]);
            assert(seq![s[0]] + rest =~= s);
            assert forall|i: int| 0 <= i < out.len() implies !(#[trigger] out[i]).contains(c) by {
                if i == 0 {
                    assert(!tail[0].contains(c));
                    if first.contains(c) {
                        let k = first.index_of(c);
                        assert(tail[0][k - 1] == c);
                    }
                } else {
                    assert(out[i] == tail[i]);
                }
            }
        }
    }
}

/// A piece before others.
proof fn lemma_joined_first(first: Seq<char>, rest: Seq<Seq<char>>, sep: Seq<char>)
    requires
        rest.len() > 0,
    ensures
        joined(seq![first] + rest, sep) == first + sep + joined(rest, sep),
    decreases rest.len(),
{
    let all = seq![first] + rest;
    if rest.len() == 1 {
        assert(all.drop_last() =~= seq![first]);
        assert(joined(all, sep) =~= first + sep + joined(rest, sep));
    } else {
        lemma_joined_first(first, rest.drop_last(), sep);
        assert(all.drop_last() =~= seq![first] + rest.drop_last());
        assert(all.last() == rest.last());
        assert(joined(rest, sep) == joined(rest.drop_last(), sep) + sep + rest.last());
        assert(joined(all, sep) == joined(all.drop_last(), sep) + sep + all.last());
        assert(joined(all, sep) =~= first + sep + joined(rest, sep));
    }
}

/// A longer first piece.
proof fn lemma_joined_longer(front: Seq<char>, pieces: Seq<Seq<char>>, sep: Seq<char>)
    requires
        pieces.len() > 0,
    ensures
        joined(seq![front + pieces[0]] + pieces.drop_first(), sep) == front + joined(pieces, sep),
    decreases pieces.len(),
{
    let all = seq![front + pieces[0]] + pieces.drop_first();
    if pieces.len() > 1 {
        let less = pieces.drop_last();
        lemma_joined_longer(front, less, sep);
        assert(all.drop_last() =~= seq![front + less[0]] + less.drop_first());
        assert(joined(all, sep) =~= front + joined(pieces, sep));
    }
}

/// Pieces that do not hold the separator are found again in the text that they make.
pub proof fn law_text_has_its_pieces(pieces: Seq<Seq<char>>, c: char)
    requires
        pieces.len() > 0,
        forall|i: int| 0 <= i < pieces.len() ==> !(#[trigger] pieces[i]).contains(c),
    ensures
        split(joined(pieces, seq![c]), c) == pieces,
    decreases pieces.len(),
{
    if pieces.len() == 1 {
        assert(!pieces[0].contains(c));
        lemma_split_single(pieces[0], c);
        assert(pieces =~= seq![pieces[0]]);
    } else {
        let rest = pieces.drop_first();
        assert forall|i: int| 0 <= i < rest.len() implies !(#[trigger] rest[i]).contains(c) by {
            assert(rest[i] == pieces[i + 1]);
        }
        law_text_has_its_pieces(rest, c);
        lemma_joined_first(pieces[0], rest, seq![c]);
        assert(seq![pieces[0]] + rest =~= pieces);
        assert(!pieces[0].contains(c));
        lemma_split_first(pieces[0], joined(rest, seq![c]), c);
    }
}

/// The first piece is what stands before the first separator.
proof fn lemma_split_first(first: Seq<char>, rest: Seq<char>, c: char)
    requires
        !first.contains(c),
    ensures
        split(first + seq![c] + rest, c) == seq![first] + split(rest, c),
    decreases first.len(),
{
    let s = first + seq![c] + rest;
    if first.len() == 0 {
        assert(s.drop_first() =~= rest);
        assert(first =~= Seq::<char>::empty());
    } else {
        let less = first.drop_first();
        assert(first.contains(first[0]));
        assert forall|k: int| 0 <= k < less.len() implies #[trigger] less[k] != c by {
            assert(first[k + 1] == less[k]);
            assert(first.contains(first[k + 1]));
        }
        lemma_split_first(less, rest, c);
        assert(s.drop_first() =~= less + seq![c] + rest);
        let tail = split(s.drop_first(), c);
        assert(seq![s[0]] + less =~= first);
        assert(split(s, c) =~= seq![first] + split(rest, c));
    }
}

/// The longest start within the units is the longest: one character more does not fit.
pub proof fn law_utf16_start_is_the_longest(s: Seq<char>, max: int)
    requires
        0 <= max,
        utf16_start(s, max) != s,
    ensures
        utf16_start(s, max).len() < s.len(),
        utf16_units(s.subrange(0, utf16_start(s, max).len() + 1int)) > max,
    decreases s.len(),
{
    assert(s.len() > 0);
    let first = seq![s[0]];
    let units = if s[0] as u32 > 0xffff {
        2int
    } else {
        1int
    };
    assert(utf16_units(first.drop_last()) == 0);
    assert(first.last() == s[0]);
    assert(utf16_units(first) == units);
    if max < units {
        assert(s.subrange(0, 1) =~= first);
    } else {
        let rest = s.drop_first();
        let start = utf16_start(rest, max - units);
        if start == rest {
            assert(utf16_start(s, max) =~= s);
        }
        law_utf16_start_is_the_longest(rest, max - units);
        let longer = rest.subrange(0, start.len() + 1int);
        assert(s.subrange(0, start.len() + 2int) =~= first + longer);
        lemma_units_join(first, longer);
    }
}

proof fn lemma_units_join(a: Seq<char>, b: Seq<char>)
    ensures
        utf16_units(a + b) == utf16_units(a) + utf16_units(b),
    decreases b.len(),
{
    if b.len() == 0 {
        assert(a + b =~= a);
    } else {
        lemma_units_join(a, b.drop_last());
        assert((a + b).drop_last() =~= a + b.drop_last());
    }
}

/// A text has one code unit for each character, and one more for each beyond the basic plane.
pub proof fn law_units_of_a_text(s: Seq<char>)
    ensures
        utf16_units(s) == s.len() + s.filter(|c: char| c as u32 >= 0x1_0000).len(),
    decreases s.len(),
{
    reveal(Seq::filter);
    if s.len() > 0 {
        law_units_of_a_text(s.drop_last());
    }
}

/// Lines that hold no newline, end without a carriage return and are ended by a newline each are
/// read back; so are they where a carriage return stands before each newline.
pub proof fn law_ended_lines_are_read_back(lines: Seq<Seq<char>>)
    requires
        forall|i: int| 0 <= i < lines.len() ==> !(#[trigger] lines[i]).contains('\n'),
    ensures
        (forall|i: int|
            0 <= i < lines.len() ==> (#[trigger] lines[i]).len() == 0 || lines[i].last() != '\r')
            ==> lines_of(joined(lines.push(Seq::empty()), seq!['\n'])) == lines,
        lines_of(
            joined(
                lines.map_values(|line: Seq<char>| line.push('\r')).push(Seq::empty()),
                seq!['\n'],
            ),
        ) == lines,
{
    let plain = lines.push(Seq::empty());
    assert forall|i: int| 0 <= i < plain.len() implies !(#[trigger] plain[i]).contains('\n') by {
        if i < lines.len() {
            assert(plain[i] == lines[i]);
        }
    }
    law_text_has_its_pieces(plain, '\n');
    assert(plain.drop_last() =~= lines);
    if forall|i: int|
        0 <= i < lines.len() ==> (#[trigger] lines[i]).len() == 0 || lines[i].last() != '\r' {
        assert(lines.map_values(|line: Seq<char>| without_return(line)) =~= lines);
    }
    let returned = lines.map_values(|line: Seq<char>| line.push('\r'));
    let all = returned.push(Seq::empty());
    assert forall|i: int| 0 <= i < all.len() implies !(#[trigger] all[i]).contains('\n') by {
        if i < lines.len() {
            assert(!lines[i].contains('\n'));
            if all[i].contains('\n') {
                let k = all[i].index_of('\n');
                assert(lines[i][k] == '\n');
            }
        }
    }
    law_text_has_its_pieces(all, '\n');
    assert(all.drop_last() =~= returned);
    assert forall|i: int| 0 <= i < lines.len() implies without_return(#[trigger] returned[i])
        == lines[i] by {
        assert(lines[i].push('\r').drop_last() =~= lines[i]);
    }
    assert(returned.map_values(|line: Seq<char>| without_return(line)) =~= lines);
}

} // verus!
