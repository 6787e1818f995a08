//! JSON values.

use vstd::prelude::*;
use crate::text::same;

verus! {

/// A JSON value. A number is kept as the text that writes it.
#[derive(Debug)]
pub enum Json {
    Null,
    Bool(bool),
    Number(String),
    Text(String),
    Array(Vec<Json>),
    /// The members by name; no name occurs twice.
    Object(Vec<(String, Json)>),
}

/// The contents of a JSON value.
pub enum JsonView {
    Null,
    Bool(bool),
    Number(Seq<char>),
    Text(Seq<char>),
    Array(Seq<JsonView>),
    Object(Seq<(Seq<char>, JsonView)>),
}

/// What a JSON value holds.
pub open spec fn contents(j: Json) -> JsonView
    decreases j,
{
    match j {
        Json::Null => JsonView::Null,
        Json::Bool(b) => JsonView::Bool(b),
        Json::Number(s) => JsonView::Number(s@),
        Json::Text(s) => JsonView::Text(s@),
        Json::Array(v) => JsonView::Array(
            Seq::new(
                v@.len(),
                |i: int|
                    if 0 <= i < v@.len() {
                        contents(v@[i])
                    } else {
                        JsonView::Null
                    },
            ),
        ),
        Json::Object(v) => JsonView::Object(
            Seq::new(
                v@.len(),
                |i: int|
                    if 0 <= i < v@.len() {
                        (v@[i].0@, contents(v@[i].1))
                    } else {
                        (Seq::empty(), JsonView::Null)
                    },
            ),
        ),
    }
}

impl View for Json {
    type V = JsonView;

    open spec fn view(&self) -> JsonView {
        contents(*self)
    }
}

/// The contents of the members of an object.
pub open spec fn members_view(v: Seq<(String, Json)>) -> Seq<(Seq<char>, JsonView)> {
    Seq::new(v.len(), |i: int| (v[i].0@, v[i].1@))
}

/// The contents of the items of an array.
pub open spec fn items_view(v: Seq<Json>) -> Seq<JsonView> {
    Seq::new(v.len(), |i: int| v[i]@)
}

/// The view of an object is made of the views of its members.
pub proof fn lemma_object_view(v: Vec<(String, Json)>)
    ensures
        Json::Object(v)@ == JsonView::Object(members_view(v@)),
{
    let o = Json::Object(v)@->Object_0;
    let m = members_view(v@);
    assert(o =~= m);
}

/// The view of an array is made of the views of its items.
pub proof fn lemma_array_view(v: Vec<Json>)
    ensures
        Json::Array(v)@ == JsonView::Array(items_view(v@)),
{
    assert(Json::Array(v)@->Array_0 =~= items_view(v@));
}

/// The member of an object with this name, the first where there are more.
pub open spec fn find(members: Seq<(Seq<char>, JsonView)>, name: Seq<char>) -> Option<JsonView>
    decreases members.len(),
{
    if members.len() == 0 {
        None
    } else if members[0].0 == name {
        Some(members[0].1)
    } else {
        find(members.drop_first(), name)
    }
}

/// The view of an optional value.
pub open spec fn json_view(o: Option<Json>) -> Option<JsonView> {
    match o {
        Some(j) => Some(j@),
        None => None,
    }
}

/// The member of an object with this name.
pub fn member<'a>(members: &'a Vec<(String, Json)>, name: &str) -> (r: Option<&'a Json>)
    ensures
        match r {
            Some(j) => find(members_view(members@), name@) == Some(j@),
            None => find(members_view(members@), name@) is None,
        },
{
    let mut i: usize = 0;
    let ghost all = members_view(members@);
    assert(all.subrange(0, all.len() as int) == all);
    while i < members.len()
        invariant
            i <= members@.len(),
            all == members_view(members@),
            find(all, name@) == find(all.subrange(i as int, all.len() as int), name@),
        decreases members.len() - i,
    {
        proof {
            let tail = all.subrange(i as int, all.len() as int);
            assert(tail[0] == (members@[i as int].0@, members@[i as int].1@));
            assert(tail.drop_first() == all.subrange(i + 1, all.len() as int));
        }
        if same(members[i].0.as_str(), name) {
            return Some(&members[i].1);
        }
        i = i + 1;
    }
    assert(all.subrange(i as int, all.len() as int).len() == 0);
    None
}

/// An object with this member: it takes the place of one with the same name, or comes last.
pub open spec fn with_member(
    members: Seq<(Seq<char>, JsonView)>,
    name: Seq<char>,
    value: JsonView,
) -> Seq<(Seq<char>, JsonView)>
    decreases members.len(),
{
    if members.len() == 0 {
        seq![(name, value)]
    } else if members[0].0 == name {
        seq![(name, value)] + members.drop_first()
    } else {
        seq![members[0]] + with_member(members.drop_first(), name, value)
    }
}

/// Where the first member with a name stands decides where it is put.
proof fn lemma_with_member(
    members: Seq<(Seq<char>, JsonView)>,
    name: Seq<char>,
    value: JsonView,
    at: int,
)
    requires
        0 <= at <= members.len(),
        forall|j: int| 0 <= j < at ==> (#[trigger] members[j]).0 != name,
        at < members.len() ==> members[at].0 == name,
    ensures
        with_member(members, name, value) == if at < members.len() {
            members.update(at, (name, value))
        } else {
            members.push((name, value))
        },
    decreases members.len(),
{
    if members.len() == 0 {
        assert(members.push((name, value)) == seq![(name, value)]);
    } else if at == 0 {
        assert(seq![(name, value)] + members.drop_first() == members.update(0, (name, value)));
    } else {
        let rest = members.drop_first();
        assert forall|j: int| 0 <= j < at - 1 implies (#[trigger] rest[j]).0 != name by {
            assert(rest[j] == members[j + 1]);
        }
        lemma_with_member(rest, name, value, at - 1);
        if at < members.len() {
            assert(seq![members[0]] + rest.update(at - 1, (name, value)) == members.update(
                at,
                (name, value),
            ));
        } else {
            assert(seq![members[0]] + rest.push((name, value)) == members.push((name, value)));
        }
    }
}

/// Puts a member into an object.
pub fn put_member(members: &mut Vec<(String, Json)>, name: String, value: Json)
    ensures
        members_view(final(members)@) == with_member(
            members_view(old(members)@),
            name@,
            value@,
        ),
{
    let n: usize = members.len();
    let mut i: usize = 0;
    let ghost before = members_view(members@);
    while i < n
        invariant
            i <= n == members@.len(),
            before == members_view(members@),
            before == members_view(old(members)@),
            members@ == old(members)@,
            forall|j: int| 0 <= j < i ==> (#[trigger] before[j]).0 != name@,
        decreases n - i,
    {
        if same(members[i].0.as_str(), name.as_str()) {
            proof {
                lemma_with_member(before, name@, value@, i as int);
            }
            let ghost pair = (name@, value@);
            members.set(i, (name, value));
            assert(members_view(members@) == before.update(i as int, pair));
            return ;
        }
        i = i + 1;
    }
    proof {
        lemma_with_member(before, name@, value@, n as int);
    }
    let ghost pair = (name@, value@);
    members.push((name, value));
    assert(members_view(members@) == before.push(pair));
}

/// A member that was put is found, and the others are as before.
pub proof fn law_put_member_is_found(
    members: Seq<(Seq<char>, JsonView)>,
    name: Seq<char>,
    value: JsonView,
    other: Seq<char>,
)
    ensures
        find(with_member(members, name, value), name) == Some(value),
        other != name ==> find(with_member(members, name, value), other) == find(members, other),
    decreases members.len(),
{
    reveal_with_fuel(find, 2);
    let out = with_member(members, name, value);
    if members.len() == 0 {
        assert(out.drop_first() == Seq::<(Seq<char>, JsonView)>::empty());
    } else {
        law_put_member_is_found(members.drop_first(), name, value, other);
        if members[0].0 == name {
            assert(out.drop_first() == members.drop_first());
        } else {
            assert(out.drop_first() == with_member(members.drop_first(), name, value));
        }
    }
}

/// The same value once more.
pub fn copy_json(j: &Json) -> (r: Json)
    ensures
        r@ == j@,
    decreases j,
{
    match j {
        Json::Null => Json::Null,
        Json::Bool(b) => Json::Bool(*b),
        Json::Number(s) => Json::Number(s.clone()),
        Json::Text(s) => Json::Text(s.clone()),
        Json::Array(v) => {
            let out = copy_items(v);
            proof {
                lemma_array_view(*v);
                lemma_array_view(out);
            }
            Json::Array(out)
        },
        Json::Object(v) => {
            let out = copy_members(v);
            proof {
                lemma_object_view(*v);
                lemma_object_view(out);
            }
            Json::Object(out)
        },
    }
}

/// The same items once more.
pub fn copy_items(v: &Vec<Json>) -> (r: Vec<Json>)
    ensures
        items_view(r@) == items_view(v@),
    decreases v,
{
    let mut out: Vec<Json> = Vec::new();
    let mut i: usize = 0;
    while i < v.len()
        invariant
            i <= v@.len(),
            out@.len() == i,
            forall|k: int| 0 <= k < i ==> out@[k]@ == #[trigger] v@[k]@,
        decreases v.len() - i,
    {
        out.push(copy_json(&v[i]));
        i = i + 1;
    }
    assert(items_view(out@) =~= items_view(v@));
    out
}

/// The same members once more.
pub fn copy_members(v: &Vec<(String, Json)>) -> (r: Vec<(String, Json)>)
    ensures
        members_view(r@) == members_view(v@),
    decreases v,
{
    let mut out: Vec<(String, Json)> = Vec::new();
    let mut i: usize = 0;
    while i < v.len()
        invariant
            i <= v@.len(),
            out@.len() == i,
            forall|k: int|
                0 <= k < i ==> out@[k].0@ == (#[trigger] v@[k]).0@ && out@[k].1@ == v@[k].1@,
        decreases v.len() - i,
    {
        let entry = &v[i];
        out.push((entry.0.clone(), copy_json(&entry.1)));
        i = i + 1;
    }
    assert(members_view(out@) =~= members_view(v@));
    out
}

/// The JSON value that a text writes, if it writes one.
pub uninterp spec fn parsed_json(bytes: Seq<u8>) -> Option<JsonView>;

/// What a parsed value holds.
pub uninterp spec fn value_contents(value: serde_json::Value) -> JsonView;

/// `serde_json::Value`.
#[verifier::external_type_specification]
#[verifier::external_body]
pub struct ExValue(serde_json::Value);

/// `serde_json::from_slice`: the value that a text writes; none where it is not one JSON value.
#[verifier::external_body]
fn value_from_slice(bytes: &[u8]) -> (r: Option<serde_json::Value>)
    ensures
        match r {
            Some(value) => parsed_json(bytes@) == Some(value_contents(value)),
            None => parsed_json(bytes@) is None,
        },
{
    serde_json::from_slice(bytes).ok()
}

/// A `serde_json::Value` by its variants; a number as `serde_json::Number` writes it.
#[verifier::external_body]
fn json_of(value: serde_json::Value) -> (r: Json)
    ensures
        r@ == value_contents(value),
{
    match value {
        serde_json::Value::Null => Json::Null,
        serde_json::Value::Bool(b) => Json::Bool(b),
        serde_json::Value::Number(n) => Json::Number(n.to_string()),
        serde_json::Value::String(s) => Json::Text(s),
        serde_json::Value::Array(items) => Json::Array(items.into_iter().map(json_of).collect()),
        serde_json::Value::Object(map) => {
            Json::Object(map.into_iter().map(|(k, v)| (k, json_of(v))).collect())
        },
    }
}

/// Reads a JSON value.
pub fn parse_json(bytes: &[u8]) -> (r: Option<Json>)
    ensures
        json_view(r) == parsed_json(bytes@),
{
    match value_from_slice(bytes) {
        Some(value) => Some(json_of(value)),
        None => None,
    }
}

/// The integer that a text writes: digits, with a sign where it is negative.
pub open spec fn integer_of(s: Seq<char>) -> Option<int> {
    let digits = if s.len() > 0 && s[0] == '-' {
        s.drop_first()
    } else {
        s
    };
    if digits.len() == 0 || !crate::number::all_digits(digits) {
        None
    } else if s[0] == '-' {
        Some(-(crate::number::digits_value(digits) as int))
    } else {
        Some(crate::number::digits_value(digits) as int)
    }
}

/// The integer between `min` and `max` that a text writes.
pub open spec fn integer_within(s: Seq<char>, min: int, max: int) -> Option<int> {
    match integer_of(s) {
        Some(n) => if min <= n <= max {
            Some(n)
        } else {
            None
        },
        None => None,
    }
}

/// The integer between `min` and `max` that a text writes.
pub fn read_integer(s: &str, min: i64, max: i64) -> (r: Option<i64>)
    ensures
        match r {
            Some(n) => integer_within(s@, min as int, max as int) == Some(n as int),
            None => integer_within(s@, min as int, max as int) is None,
        },
{
    let chars = crate::text::chars_of(s);
    let n: usize = chars.len();
    let minus: bool = n > 0 && chars[0] == '-';
    let first: usize = if minus {
        1
    } else {
        0
    };
    let ghost digits = s@.subrange(first as int, n as int);
    assert(digits == if s@.len() > 0 && s@[0] == '-' {
        s@.drop_first()
    } else {
        s@
    });
    if first == n {
        return None;
    }
    let mut x: i128 = 0;
    let mut i: usize = first;
    while i < n
        invariant
            first <= i <= n == chars@.len(),
            chars@ == s@,
            digits == s@.subrange(first as int, n as int),
            minus == (n > 0 && s@[0] == '-'),
            first == if minus {
                1int
            } else {
                0
            },
            digits == if s@.len() > 0 && s@[0] == '-' {
                s@.drop_first()
            } else {
                s@
            },
            0 <= x < 1_000_000_000_000_000_000_000,
            x == crate::number::digits_value(digits.subrange(0, i - first)) || (x
                >= 100_000_000_000_000_000_000 && crate::number::digits_value(
                digits.subrange(0, i - first),
            ) >= 100_000_000_000_000_000_000),
            forall|j: int| 0 <= j < i - first ==> crate::number::is_digit(#[trigger] digits[j]),
        decreases n - i,
    {
        let c: char = chars[i];
        if c < '0' || c > '9' {
            assert(!crate::number::is_digit(digits[i - first]));
            return None;
        }
        let d: u32 = c as u32 - 48;
        assert(digits.subrange(0, i - first + 1).drop_last() == digits.subrange(0, i - first));
        if x < 100_000_000_000_000_000_000 {
            x = x * 10 + d as i128;
        }
        i = i + 1;
    }
    assert(digits.subrange(0, n - first) == digits);
    assert(crate::number::all_digits(digits));
    let y: i128 = if minus {
        -x
    } else {
        x
    };
    if y < min as i128 || y > max as i128 {
        None
    } else {
        Some(y as i64)
    }
}

/// What is found under a name is the value of the first member of that name, and nothing where no
/// member has it.
pub proof fn law_first_member_is_found(members: Seq<(Seq<char>, JsonView)>, name: Seq<char>)
    ensures
        match find(members, name) {
            Some(value) => exists|k: int|
                0 <= k < members.len() && #[trigger] members[k] == (name, value) && forall|j: int|
                    0 <= j < k ==> (#[trigger] members[j]).0 != name,
            None => forall|j: int| 0 <= j < members.len() ==> (#[trigger] members[j]).0 != name,
        },
    decreases members.len(),
{
    if members.len() > 0 {
        if members[0].0 == name {
            assert(members[0] == (name, members[0].1));
        } else {
            let rest = members.drop_first();
            law_first_member_is_found(rest, name);
            match find(rest, name) {
                Some(value) => {
                    let k = choose|k: int|
                        0 <= k < rest.len() && #[trigger] rest[k] == (name, value) && forall|j: int|
                            0 <= j < k ==> (#[trigger] rest[j]).0 != name;
                    assert(members[k + 1] == (name, value));
                    assert forall|j: int| 0 <= j < k + 1 implies (#[trigger] members[j]).0
                        != name by {
                        if j > 0 {
                            assert(rest[j - 1] == members[j]);
                        }
                    }
                },
                None => {
                    assert forall|j: int| 0 <= j < members.len() implies (#[trigger] members[j]).0
                        != name by {
                        if j > 0 {
                            assert(rest[j - 1] == members[j]);
                        }
                    }
                },
            }
        }
    }
}

/// An integer in decimal is read back, and within bounds exactly where it lies within them.
pub proof fn law_written_integer_is_read_back(n: int, min: int, max: int)
    ensures
        integer_of(crate::text::signed_decimal(n)) == Some(n),
        integer_within(crate::text::signed_decimal(n), min, max) == if min <= n <= max {
            Some(n)
        } else {
            None
        },
{
    let size = if n < 0 {
        -n
    } else {
        n
    };
    crate::number::law_decimal_is_read_back(size as nat);
    let digits = crate::text::decimal(size as nat);
    assert(crate::number::is_digit(digits[0]));
    if n < 0 {
        assert((seq!['-'] + digits).drop_first() =~= digits);
    }
}

} // verus!
