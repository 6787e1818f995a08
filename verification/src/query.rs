//! Query strings that are read strictly: no unknown key, and no key twice.

use vstd::prelude::*;
use crate::error;
use crate::error::{AppError, ProblemCode};
use crate::text::same;

verus! {

/// The pairs that a form-encoded text holds, in order.
pub uninterp spec fn form_pairs(bytes: Seq<u8>) -> Seq<(Seq<char>, Seq<char>)>;

/// The contents of a list of pairs.
pub open spec fn pair_views(pairs: Seq<(String, String)>) -> Seq<(Seq<char>, Seq<char>)> {
    pairs.map_values(|p: (String, String)| (p.0@, p.1@))
}

/// `url::form_urlencoded::parse`: the pairs of a form-encoded text, decoded.
#[verifier::external_body]
pub(crate) fn parse_form(bytes: &[u8]) -> (r: Vec<(String, String)>)
    ensures
        pair_views(r@) == form_pairs(bytes@),
{
    url::form_urlencoded::parse(bytes).into_owned().collect()
}

/// The value of a key, the first where there are more.
pub open spec fn value_of(pairs: Seq<(Seq<char>, Seq<char>)>, key: Seq<char>) -> Option<Seq<char>>
    decreases pairs.len(),
{
    if pairs.len() == 0 {
        None
    } else if pairs[0].0 == key {
        Some(pairs[0].1)
    } else {
        value_of(pairs.drop_first(), key)
    }
}

/// The value of a key.
pub fn lookup<'a>(pairs: &'a Vec<(String, String)>, key: &str) -> (r: Option<&'a str>)
    ensures
        error::str_view(r) == value_of(pair_views(pairs@), key@),
{
    let ghost all = pair_views(pairs@);
    assert(all.subrange(0, all.len() as int) == all);
    let mut i: usize = 0;
    while i < pairs.len()
        invariant
            i <= pairs@.len(),
            all == pair_views(pairs@),
            value_of(all, key@) == value_of(all.subrange(i as int, all.len() as int), key@),
        decreases pairs.len() - i,
    {
        proof {
            let tail = all.subrange(i as int, all.len() as int);
            assert(tail[0] == (pairs@[i as int].0@, pairs@[i as int].1@));
            assert(tail.drop_first() == all.subrange(i + 1, all.len() as int));
        }
        if same(pairs[i].0.as_str(), key) {
            return Some(pairs[i].1.as_str());
        }
        i = i + 1;
    }
    assert(all.subrange(i as int, all.len() as int).len() == 0);
    None
}

/// Every key is allowed.
pub open spec fn all_allowed(
    pairs: Seq<(Seq<char>, Seq<char>)>,
    allowed: Seq<Seq<char>>,
) -> bool {
    forall|i: int| 0 <= i < pairs.len() ==> allowed.contains(#[trigger] pairs[i].0)
}

/// No key occurs twice.
pub open spec fn each_once(pairs: Seq<(Seq<char>, Seq<char>)>) -> bool {
    forall|i: int, j: int|
        0 <= i < j < pairs.len() ==> (#[trigger] pairs[i]).0 != (#[trigger] pairs[j]).0
}

/// The contents of a list of names.
pub open spec fn names(allowed: Seq<&str>) -> Seq<Seq<char>> {
    allowed.map_values(|s: &str| s@)
}

/// Whether a name is among those allowed.
fn is_allowed(allowed: &[&str], key: &str) -> (r: bool)
    ensures
        r == names(allowed@).contains(key@),
{
    let mut i: usize = 0;
    while i < allowed.len()
        invariant
            i <= allowed@.len(),
            forall|j: int| 0 <= j < i ==> #[trigger] names(allowed@)[j] != key@,
        decreases allowed.len() - i,
    {
        if same(allowed[i], key) {
            assert(names(allowed@)[i as int] == key@);
            return true;
        }
        i = i + 1;
    }
    false
}

/// Refuses pairs with a key that is not allowed or that occurs twice.
pub fn check_pairs(pairs: &Vec<(String, String)>, allowed: &[&str]) -> (r: Result<(), AppError>)
    ensures
        r is Ok <==> all_allowed(pair_views(pairs@), names(allowed@)) && each_once(
            pair_views(pairs@),
        ),
        r matches Err(e) ==> e@ == error::problem_at(ProblemCode::InvalidInput, "/"@),
{
    let ghost all = pair_views(pairs@);
    let mut i: usize = 0;
    while i < pairs.len()
        invariant
            i <= pairs@.len(),
            all == pair_views(pairs@),
            forall|k: int| 0 <= k < i ==> names(allowed@).contains(#[trigger] all[k].0),
            forall|k: int, j: int|
                0 <= k < j < i ==> (#[trigger] all[k]).0 != (#[trigger] all[j]).0,
        decreases pairs.len() - i,
    {
        assert(all[i as int].0 == pairs@[i as int].0@);
        if !is_allowed(allowed, pairs[i].0.as_str()) {
            return Err(AppError::with_source(ProblemCode::InvalidInput, "/"));
        }
        let mut j: usize = 0;
        while j < i
            invariant
                j <= i < pairs@.len(),
                all == pair_views(pairs@),
                all[i as int].0 == pairs@[i as int].0@,
                forall|k: int| 0 <= k < j ==> (#[trigger] all[k]).0 != all[i as int].0,
            decreases i - j,
        {
            assert(all[j as int].0 == pairs@[j as int].0@);
            if same(pairs[j].0.as_str(), pairs[i].0.as_str()) {
                assert(!each_once(all));
                return Err(AppError::with_source(ProblemCode::InvalidInput, "/"));
            }
            j = j + 1;
        }
        i = i + 1;
    }
    Ok(())
}

/// The bytes of a query that may be missing.
pub open spec fn query_bytes(raw: Option<&str>) -> Seq<u8> {
    match raw {
        Some(s) => vstd::utf8::encode_utf8(s@),
        None => Seq::empty(),
    }
}

/// Reads a query in which every key is allowed and occurs once.
pub fn strict_query(raw: Option<&str>, allowed: &[&str]) -> (r: Result<
    Vec<(String, String)>,
    AppError,
>)
    ensures
        match r {
            Ok(pairs) => {
                &&& pair_views(pairs@) == form_pairs(query_bytes(raw))
                &&& all_allowed(pair_views(pairs@), names(allowed@))
                &&& each_once(pair_views(pairs@))
            },
            Err(e) => {
                &&& !(all_allowed(form_pairs(query_bytes(raw)), names(allowed@)) && each_once(
                    form_pairs(query_bytes(raw)),
                ))
                &&& e@ == error::problem_at(ProblemCode::InvalidInput, "/"@)
            },
        },
{
    let pairs = match raw {
        Some(s) => parse_form(s.as_bytes()),
        None => {
            let none: Vec<u8> = Vec::new();
            assert(none@ == Seq::<u8>::empty());
            parse_form(none.as_slice())
        },
    };
    match check_pairs(&pairs, allowed) {
        Ok(_) => Ok(pairs),
        Err(e) => Err(e),
    }
}

/// The value of a key is that of the first pair with it, and there is none where no pair has it.
pub proof fn law_first_pair_counts(pairs: Seq<(Seq<char>, Seq<char>)>, key: Seq<char>)
    ensures
        match value_of(pairs, key) {
            Some(value) => exists|k: int|
                0 <= k < pairs.len() && #[trigger] pairs[k] == (key, value) && forall|j: int|
                    0 <= j < k ==> (#[trigger] pairs[j]).0 != key,
            None => forall|j: int| 0 <= j < pairs.len() ==> (#[trigger] pairs[j]).0 != key,
        },
    decreases pairs.len(),
{
    if pairs.len() > 0 {
        if pairs[0].0 == key {
            assert(pairs[0] == (key, pairs[0].1));
        } else {
            let rest = pairs.drop_first();
            law_first_pair_counts(rest, key);
            match value_of(rest, key) {
                Some(value) => {
                    let k = choose|k: int|
                        0 <= k < rest.len() && #[trigger] rest[k] == (key, value) && forall|j: int|
                            0 <= j < k ==> (#[trigger] rest[j]).0 != key;
                    assert(pairs[k + 1] == (key, value));
                    assert forall|j: int| 0 <= j < k + 1 implies (#[trigger] pairs[j]).0
                        != key by {
                        if j > 0 {
                            assert(rest[j - 1] == pairs[j]);
                        }
                    }
                },
                None => {
                    assert forall|j: int| 0 <= j < pairs.len() implies (#[trigger] pairs[j]).0
                        != key by {
                        if j > 0 {
                            assert(rest[j - 1] == pairs[j]);
                        }
                    }
                },
            }
        }
    }
}

} // verus!
