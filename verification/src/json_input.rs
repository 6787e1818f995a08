//! Inputs that are read from JSON by hand, since they tell apart a member that is missing, one
//! that is null and one with a value.

use vstd::prelude::*;
use crate::error::{AppError, ProblemCode};
use crate::error;
use crate::json;
use crate::json::{Json, JsonView, member, read_integer};
use crate::text::{join2, same};

verus! {

/// What becomes of a family name.
#[derive(Debug)]
pub enum FamilyNamePatch {
    Preserve,
    Clear,
    Replace(String),
}

/// A change of a profile.
#[derive(Debug)]
pub struct ProfilePatch {
    pub given_name: String,
    pub family_name: FamilyNamePatch,
    pub locale: Option<String>,
    pub timezone: Option<String>,
    pub week_starts_on: Option<i32>,
    pub text_scale: Option<i16>,
}

/// The members that a change of a profile may have.
pub open spec fn patch_me_field(name: Seq<char>) -> bool {
    ||| name == "givenName"@
    ||| name == "familyName"@
    ||| name == "locale"@
    ||| name == "timezone"@
    ||| name == "weekStartsOn"@
    ||| name == "textScale"@
}

/// The first name of a member that is not known.
pub open spec fn first_unknown(members: Seq<(Seq<char>, JsonView)>) -> Option<Seq<char>>
    decreases members.len(),
{
    if members.len() == 0 {
        None
    } else if !patch_me_field(members[0].0) {
        Some(members[0].0)
    } else {
        first_unknown(members.drop_first())
    }
}

/// A member that may be missing, else has to be a text.
pub open spec fn text_or_missing(m: Option<JsonView>) -> bool {
    m matches Some(v) ==> v is Text
}

/// A member that may be missing, else has to be an integer between `min` and `max`.
pub open spec fn integer_or_missing(m: Option<JsonView>, min: int, max: int) -> bool {
    m matches Some(v) ==> (v matches JsonView::Number(n) && json::integer_within(n, min, max)
        is Some)
}

/// The text of a member that is there.
pub open spec fn text_in(m: Option<JsonView>) -> Option<Seq<char>> {
    match m {
        Some(JsonView::Text(s)) => Some(s),
        _ => None,
    }
}

/// The integer of a member that is there.
pub open spec fn integer_in(m: Option<JsonView>, min: int, max: int) -> Option<int> {
    match m {
        Some(JsonView::Number(n)) => json::integer_within(n, min, max),
        _ => None,
    }
}

/// Where a change of a profile is at fault: the first unknown member, then the known ones in
/// order.
pub open spec fn patch_me_fault(value: JsonView) -> Option<Seq<char>> {
    match value {
        JsonView::Object(m) => {
            let family = json::find(m, "familyName"@);
            if first_unknown(m) is Some {
                Some("/"@ + first_unknown(m)->0)
            } else if text_in(json::find(m, "givenName"@)) is None {
                Some("/givenName"@)
            } else if !(text_or_missing(family) || family == Some(JsonView::Null)) {
                Some("/familyName"@)
            } else if !text_or_missing(json::find(m, "locale"@)) {
                Some("/locale"@)
            } else if !text_or_missing(json::find(m, "timezone"@)) {
                Some("/timezone"@)
            } else if !integer_or_missing(
                json::find(m, "weekStartsOn"@),
                i32::MIN as int,
                i32::MAX as int,
            ) {
                Some("/weekStartsOn"@)
            } else if !integer_or_missing(
                json::find(m, "textScale"@),
                i16::MIN as int,
                i16::MAX as int,
            ) {
                Some("/textScale"@)
            } else {
                None
            }
        },
        _ => Some("/"@),
    }
}

/// The change that a JSON object without fault asks for.
pub open spec fn patch_me_of(value: JsonView, patch: ProfilePatch) -> bool {
    let m = value->Object_0;
    &&& text_in(json::find(m, "givenName"@)) == Some(patch.given_name@)
    &&& match json::find(m, "familyName"@) {
        None => patch.family_name is Preserve,
        Some(JsonView::Text(s)) => patch.family_name matches FamilyNamePatch::Replace(name) && name@
            == s,
        Some(_) => patch.family_name is Clear,
    }
    &&& error::text_view(patch.locale) == text_in(json::find(m, "locale"@))
    &&& error::text_view(patch.timezone) == text_in(json::find(m, "timezone"@))
    &&& match patch.week_starts_on {
        Some(n) => integer_in(
            json::find(m, "weekStartsOn"@),
            i32::MIN as int,
            i32::MAX as int,
        ) == Some(n as int),
        None => json::find(m, "weekStartsOn"@) is None,
    }
    &&& match patch.text_scale {
        Some(n) => integer_in(json::find(m, "textScale"@), i16::MIN as int, i16::MAX as int)
            == Some(n as int),
        None => json::find(m, "textScale"@) is None,
    }
}

fn is_patch_me_field(name: &str) -> (r: bool)
    ensures
        r == patch_me_field(name@),
{
    same(name, "givenName") || same(name, "familyName") || same(name, "locale") || same(
        name,
        "timezone",
    ) || same(name, "weekStartsOn") || same(name, "textScale")
}

/// The first name of a member that is not known.
fn unknown_member(members: &Vec<(String, Json)>) -> (r: Option<String>)
    ensures
        error::text_view(r) == first_unknown(json::members_view(members@)),
{
    let ghost all = json::members_view(members@);
    assert(all.subrange(0, all.len() as int) == all);
    let mut i: usize = 0;
    while i < members.len()
        invariant
            i <= members@.len(),
            all == json::members_view(members@),
            first_unknown(all) == first_unknown(all.subrange(i as int, all.len() as int)),
        decreases members.len() - i,
    {
        proof {
            let tail = all.subrange(i as int, all.len() as int);
            assert(tail[0].0 == members@[i as int].0@);
            assert(tail.drop_first() == all.subrange(i + 1, all.len() as int));
        }
        if !is_patch_me_field(members[i].0.as_str()) {
            return Some(members[i].0.clone());
        }
        i = i + 1;
    }
    assert(all.subrange(i as int, all.len() as int).len() == 0);
    None
}

/// The problem of an input at the member `field`.
fn fault_at(field: &str) -> (r: AppError)
    ensures
        r@ == error::problem_at(ProblemCode::InvalidInput, "/"@ + field@),
{
    let at = join2("/", field);
    AppError::with_source(ProblemCode::InvalidInput, at.as_str())
}

fn parse_optional_string(members: &Vec<(String, Json)>, field: &str) -> (r: Result<
    Option<String>,
    AppError,
>)
    ensures
        match r {
            Ok(o) => text_or_missing(json::find(json::members_view(members@), field@))
                && error::text_view(o) == text_in(
                json::find(json::members_view(members@), field@),
            ),
            Err(e) => !text_or_missing(json::find(json::members_view(members@), field@)) && e@
                == error::problem_at(ProblemCode::InvalidInput, "/"@ + field@),
        },
{
    match member(members, field) {
        None => Ok(None),
        Some(Json::Text(s)) => Ok(Some(s.clone())),
        Some(_) => Err(fault_at(field)),
    }
}

fn parse_optional_integer(
    members: &Vec<(String, Json)>,
    field: &str,
    min: i64,
    max: i64,
) -> (r: Result<Option<i64>, AppError>)
    ensures
        match r {
            Ok(o) => {
                let m = json::find(json::members_view(members@), field@);
                &&& integer_or_missing(m, min as int, max as int)
                &&& match o {
                    Some(n) => min <= n <= max && integer_in(m, min as int, max as int) == Some(
                        n as int,
                    ),
                    None => m is None,
                }
            },
            Err(e) => !integer_or_missing(
                json::find(json::members_view(members@), field@),
                min as int,
                max as int,
            ) && e@ == error::problem_at(ProblemCode::InvalidInput, "/"@ + field@),
        },
{
    match member(members, field) {
        None => Ok(None),
        Some(Json::Number(n)) => match read_integer(n.as_str(), min, max) {
            Some(x) => Ok(Some(x)),
            None => Err(fault_at(field)),
        },
        Some(_) => Err(fault_at(field)),
    }
}

fn parse_optional_i32(members: &Vec<(String, Json)>, field: &str) -> (r: Result<
    Option<i32>,
    AppError,
>)
    ensures
        match r {
            Ok(o) => {
                let m = json::find(json::members_view(members@), field@);
                &&& integer_or_missing(m, i32::MIN as int, i32::MAX as int)
                &&& match o {
                    Some(n) => integer_in(m, i32::MIN as int, i32::MAX as int) == Some(n as int),
                    None => m is None,
                }
            },
            Err(e) => !integer_or_missing(
                json::find(json::members_view(members@), field@),
                i32::MIN as int,
                i32::MAX as int,
            ) && e@ == error::problem_at(ProblemCode::InvalidInput, "/"@ + field@),
        },
{
    match parse_optional_integer(members, field, i32::MIN as i64, i32::MAX as i64) {
        Ok(Some(n)) => Ok(Some(n as i32)),
        Ok(None) => Ok(None),
        Err(e) => Err(e),
    }
}

fn parse_optional_i16(members: &Vec<(String, Json)>, field: &str) -> (r: Result<
    Option<i16>,
    AppError,
>)
    ensures
        match r {
            Ok(o) => {
                let m = json::find(json::members_view(members@), field@);
                &&& integer_or_missing(m, i16::MIN as int, i16::MAX as int)
                &&& match o {
                    Some(n) => integer_in(m, i16::MIN as int, i16::MAX as int) == Some(n as int),
                    None => m is None,
                }
            },
            Err(e) => !integer_or_missing(
                json::find(json::members_view(members@), field@),
                i16::MIN as int,
                i16::MAX as int,
            ) && e@ == error::problem_at(ProblemCode::InvalidInput, "/"@ + field@),
        },
{
    match parse_optional_integer(members, field, i16::MIN as i64, i16::MAX as i64) {
        Ok(Some(n)) => Ok(Some(n as i16)),
        Ok(None) => Ok(None),
        Err(e) => Err(e),
    }
}

/// Where each member of a change of a profile is found at fault.
proof fn lemma_pointers()
    ensures
        "/"@ + "locale"@ == "/locale"@,
        "/"@ + "timezone"@ == "/timezone"@,
        "/"@ + "weekStartsOn"@ == "/weekStartsOn"@,
        "/"@ + "textScale"@ == "/textScale"@,
{
    reveal_strlit("/");
    reveal_strlit("locale");
    reveal_strlit("/locale");
    reveal_strlit("timezone");
    reveal_strlit("/timezone");
    reveal_strlit("weekStartsOn");
    reveal_strlit("/weekStartsOn");
    reveal_strlit("textScale");
    reveal_strlit("/textScale");
    assert("/"@ + "locale"@ =~= "/locale"@);
    assert("/"@ + "timezone"@ =~= "/timezone"@);
    assert("/"@ + "weekStartsOn"@ =~= "/weekStartsOn"@);
    assert("/"@ + "textScale"@ =~= "/textScale"@);
}

/// Reads a change of a profile.
pub fn parse_patch_me(value: Json) -> (r: Result<ProfilePatch, AppError>)
    ensures
        match r {
            Ok(patch) => patch_me_fault(value@) is None && patch_me_of(value@, patch),
            Err(e) => patch_me_fault(value@) is Some && e@ == error::problem_at(
                ProblemCode::InvalidInput,
                patch_me_fault(value@)->0,
            ),
        },
{
    proof {
        lemma_pointers();
    }
    let members = match &value {
        Json::Object(members) => members,
        _ => {
            return Err(AppError::with_source(ProblemCode::InvalidInput, "/"));
        },
    };
    proof {
        json::lemma_object_view(*members);
    }
    if let Some(name) = unknown_member(members) {
        return Err(fault_at(name.as_str()));
    }
    let given_name: String = match member(members, "givenName") {
        Some(Json::Text(s)) => s.clone(),
        _ => {
            return Err(AppError::with_source(ProblemCode::InvalidInput, "/givenName"));
        },
    };
    let family_name: FamilyNamePatch = match member(members, "familyName") {
        None => FamilyNamePatch::Preserve,
        Some(Json::Null) => FamilyNamePatch::Clear,
        Some(Json::Text(s)) => FamilyNamePatch::Replace(s.clone()),
        Some(_) => {
            return Err(AppError::with_source(ProblemCode::InvalidInput, "/familyName"));
        },
    };
    let locale = match parse_optional_string(members, "locale") {
        Err(e) => {
            return Err(e);
        },
        Ok(o) => o,
    };
    let timezone = match parse_optional_string(members, "timezone") {
        Err(e) => {
            return Err(e);
        },
        Ok(o) => o,
    };
    let week_starts_on = match parse_optional_i32(members, "weekStartsOn") {
        Err(e) => {
            return Err(e);
        },
        Ok(o) => o,
    };
    let text_scale = match parse_optional_i16(members, "textScale") {
        Err(e) => {
            return Err(e);
        },
        Ok(o) => o,
    };
    Ok(ProfilePatch { given_name, family_name, locale, timezone, week_starts_on, text_scale })
}

/// Each part of an accepted change of a profile depends on the member of its own name alone: a
/// member that is missing leaves the part as it is, and one that is there gives its value.
pub proof fn law_each_part_follows_its_member(
    m: Seq<(Seq<char>, JsonView)>,
    patch: ProfilePatch,
)
    requires
        patch_me_fault(JsonView::Object(m)) is None,
        patch_me_of(JsonView::Object(m), patch),
    ensures
        json::find(m, "givenName"@) == Some(JsonView::Text(patch.given_name@)),
        match json::find(m, "familyName"@) {
            None => patch.family_name is Preserve,
            Some(JsonView::Null) => patch.family_name is Clear,
            Some(v) => patch.family_name matches FamilyNamePatch::Replace(s) && v
                == JsonView::Text(s@),
        },
        match json::find(m, "locale"@) {
            None => patch.locale is None,
            Some(v) => patch.locale matches Some(s) && v == JsonView::Text(s@),
        },
        match json::find(m, "timezone"@) {
            None => patch.timezone is None,
            Some(v) => patch.timezone matches Some(s) && v == JsonView::Text(s@),
        },
        match json::find(m, "weekStartsOn"@) {
            None => patch.week_starts_on is None,
            Some(v) => patch.week_starts_on matches Some(n) && (v matches JsonView::Number(s)
                && json::integer_of(s) == Some(n as int)),
        },
        match json::find(m, "textScale"@) {
            None => patch.text_scale is None,
            Some(v) => patch.text_scale matches Some(n) && (v matches JsonView::Number(s)
                && json::integer_of(s) == Some(n as int)),
        },
{
}

/// A change of a profile is accepted only as an object without other members than the six, and a
/// member that is not known is named before any other fault.
pub proof fn law_unknown_members_are_refused(m: Seq<(Seq<char>, JsonView)>)
    ensures
        match first_unknown(m) {
            Some(name) => patch_me_fault(JsonView::Object(m)) == Some("/"@ + name) && exists|k: int|
                0 <= k < m.len() && (#[trigger] m[k]).0 == name && !known_name(name) && forall|
                    j: int,
                |
                    0 <= j < k ==> known_name((#[trigger] m[j]).0),
            None => forall|j: int| 0 <= j < m.len() ==> known_name((#[trigger] m[j]).0),
        },
    decreases m.len(),
{
    if m.len() > 0 {
        let rest = m.drop_first();
        law_unknown_members_are_refused(rest);
        lemma_known_names(m[0].0);
        if known_name(m[0].0) {
            match first_unknown(rest) {
                Some(name) => {
                    let k = choose|k: int|
                        0 <= k < rest.len() && (#[trigger] rest[k]).0 == name && forall|j: int|
                            0 <= j < k ==> known_name((#[trigger] rest[j]).0);
                    assert(m[k + 1].0 == name);
                    assert forall|j: int| 0 <= j < k + 1 implies known_name(
                        (#[trigger] m[j]).0,
                    ) by {
                        if j > 0 {
                            assert(rest[j - 1] == m[j]);
                        }
                    }
                },
                None => {
                    assert forall|j: int| 0 <= j < m.len() implies known_name(
                        (#[trigger] m[j]).0,
                    ) by {
                        if j > 0 {
                            assert(rest[j - 1] == m[j]);
                        }
                    }
                },
            }
        } else {
            assert(m[0].0 == first_unknown(m)->0);
        }
    }
}

proof fn lemma_known_names(name: Seq<char>)
    ensures
        known_name(name) <==> patch_me_field(name),
{
    let all = seq![
        "givenName"@,
        "familyName"@,
        "locale"@,
        "timezone"@,
        "weekStartsOn"@,
        "textScale"@,
    ];
    assert(all[0] == "givenName"@ && all[1] == "familyName"@ && all[2] == "locale"@);
    assert(all[3] == "timezone"@ && all[4] == "weekStartsOn"@ && all[5] == "textScale"@);
}

/// One of the six names that a change of a profile knows.
pub open spec fn known_name(name: Seq<char>) -> bool {
    seq![
        "givenName"@,
        "familyName"@,
        "locale"@,
        "timezone"@,
        "weekStartsOn"@,
        "textScale"@,
    ].contains(name)
}

} // verus!
