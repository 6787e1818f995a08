//! The tags of a workspace, and those that a document bears.

use vstd::prelude::*;
use vstd::string::*;
use crate::answer;
use crate::answer::{Answer, answer_all};
use crate::error;
use crate::error::{ApiError, ApiErrorView, ProblemCode};
use crate::ids;
use crate::ids::Uuid;
use crate::number;
use crate::number::coerce;
use crate::routes::collections::invalid;
use crate::routes::stars;
use crate::routes::stars::parse_body_uuid;
use crate::store::ApiRefusal;
use crate::text;
use crate::text::{trim, utf16_within};
use crate::time::Timestamp;

verus! {

/// The tags of a list where a query names no number, and the most of a list.
pub const TAG_POOL_LIMIT_DEFAULT: u64 = 50;

pub const TAG_POOL_LIMIT_MAX: u64 = 100;

/// The query of a list of tags.
#[derive(Debug)]
pub struct PoolQuery {
    pub q: Option<String>,
    pub limit: Option<String>,
}

/// Why the store refused a request about tags.
#[derive(Clone, Copy, Debug, PartialEq, Eq, Structural)]
pub enum TagDbError {
    NotFound,
    Forbidden,
    Conflict,
    ProjectArchived,
}

/// The problem that a refusal about tags is told as.
pub open spec fn tag_code(err: TagDbError) -> ProblemCode {
    match err {
        TagDbError::NotFound => ProblemCode::NotFound,
        TagDbError::Forbidden => ProblemCode::InsufficientPermissions,
        TagDbError::Conflict => ProblemCode::Conflict,
        TagDbError::ProjectArchived => ProblemCode::ProjectArchived,
    }
}

pub fn map_tag_error(err: TagDbError) -> (r: ApiError)
    ensures
        r@ == error::api_problem(tag_code(err)),
{
    match err {
        TagDbError::NotFound => ApiError::app(ProblemCode::NotFound),
        TagDbError::Forbidden => ApiError::app(ProblemCode::InsufficientPermissions),
        TagDbError::Conflict => ApiError::app(ProblemCode::Conflict),
        TagDbError::ProjectArchived => ApiError::app(ProblemCode::ProjectArchived),
    }
}

impl ApiRefusal for TagDbError {
    open spec fn problem(&self) -> ApiErrorView {
        error::api_problem(tag_code(*self))
    }

    fn refusal(&self) -> (r: ApiError) {
        map_tag_error(*self)
    }
}

/// A tag, as the store keeps it.
#[derive(Debug)]
pub struct TagRow {
    pub id: Uuid,
    pub workspace_id: Uuid,
    pub name: String,
    pub color: String,
    pub created_at: Timestamp,
    pub updated_at: Timestamp,
}

/// A tag as it is answered.
#[derive(Debug)]
pub struct DocumentTagOutput {
    pub id: String,
    pub workspace_id: String,
    pub name: String,
    pub color: String,
    pub created_at: Timestamp,
    pub updated_at: Timestamp,
}

impl Answer for TagRow {
    type Out = DocumentTagOutput;

    open spec fn answered(&self, out: &DocumentTagOutput) -> bool {
        &&& out.id@ == ids::uuid_text(self.id.0)
        &&& out.workspace_id@ == ids::uuid_text(self.workspace_id.0)
        &&& out.name@ == self.name@
        &&& out.color@ == self.color@
        &&& out.created_at == self.created_at
        &&& out.updated_at == self.updated_at
    }

    fn answer(&self) -> (r: DocumentTagOutput) {
        DocumentTagOutput {
            id: self.id.text(),
            workspace_id: self.workspace_id.text(),
            name: self.name.clone(),
            color: self.color.clone(),
            created_at: self.created_at,
            updated_at: self.updated_at,
        }
    }
}

/// A tag and how many documents bear it.
#[derive(Debug)]
pub struct PoolTag {
    pub tag: TagRow,
    pub assignment_count: i64,
}

/// A tag and how many documents bear it, as it is answered.
#[derive(Debug)]
pub struct DocumentTagPoolItemOutput {
    pub base: DocumentTagOutput,
    pub assignment_count: i64,
}

impl Answer for PoolTag {
    type Out = DocumentTagPoolItemOutput;

    open spec fn answered(&self, out: &DocumentTagPoolItemOutput) -> bool {
        self.tag.answered(&out.base) && out.assignment_count == self.assignment_count
    }

    fn answer(&self) -> (r: DocumentTagPoolItemOutput) {
        DocumentTagPoolItemOutput {
            base: self.tag.answer(),
            assignment_count: self.assignment_count,
        }
    }
}

/// The tags of a workspace, as the store keeps them.
#[derive(Debug)]
pub struct TagPool {
    pub can_create: bool,
    pub can_manage: bool,
    pub items: Vec<PoolTag>,
}

/// The tags of a workspace as they are answered.
#[derive(Debug)]
pub struct DocumentTagPoolListResponse {
    pub can_create: bool,
    pub can_manage: bool,
    pub items: Vec<DocumentTagPoolItemOutput>,
}

impl Answer for TagPool {
    type Out = DocumentTagPoolListResponse;

    open spec fn answered(&self, out: &DocumentTagPoolListResponse) -> bool {
        &&& out.can_create == self.can_create
        &&& out.can_manage == self.can_manage
        &&& answer::all_answered(self.items@, out.items@)
    }

    fn answer(&self) -> (r: DocumentTagPoolListResponse) {
        DocumentTagPoolListResponse {
            can_create: self.can_create,
            can_manage: self.can_manage,
            items: answer_all(self.items.as_slice()),
        }
    }
}

/// The number of tags that a query asks for: a whole number between one and
/// `TAG_POOL_LIMIT_MAX`, white space around it left aside.
pub fn parse_limit(raw: Option<&str>) -> (r: Result<u64, ApiError>)
    ensures
        match raw {
            None => r == Ok::<_, ApiError>(TAG_POOL_LIMIT_DEFAULT),
            Some(s) => match r {
                Ok(n) => number::coerced(text::trimmed(s@), TAG_POOL_LIMIT_MAX as nat, Some(n)),
                Err(e) => number::coerced(text::trimmed(s@), TAG_POOL_LIMIT_MAX as nat, None) && e@
                    == error::api_problem(ProblemCode::InvalidInput),
            },
        },
{
    match raw {
        None => Ok(TAG_POOL_LIMIT_DEFAULT),
        Some(s) => match coerce(trim(s), TAG_POOL_LIMIT_MAX) {
            Some(n) => Ok(n),
            None => Err(invalid()),
        },
    }
}

/// What a query asks of the tags: `query_max` is the most UTF-16 code units of the text that a
/// tag has to hold.
pub fn pool_query(query: &PoolQuery, query_max: usize) -> (r: Result<
    (Option<String>, u64),
    ApiError,
>)
    ensures
        match r {
            Ok(asked) => {
                &&& match query.q {
                    Some(q) => text::utf16_units(text::trimmed(q@)) <= query_max && (
                    asked.0 matches Some(t) && t@ == text::trimmed(q@)),
                    None => asked.0 is None,
                }
                &&& match query.limit {
                    Some(s) => number::coerced(
                        text::trimmed(s@),
                        TAG_POOL_LIMIT_MAX as nat,
                        Some(asked.1),
                    ),
                    None => asked.1 == TAG_POOL_LIMIT_DEFAULT,
                }
            },
            Err(e) => e@ == error::api_problem(ProblemCode::InvalidInput) && {
                ||| query.q matches Some(q) && text::utf16_units(text::trimmed(q@)) > query_max
                ||| query.limit matches Some(s) && number::coerced(
                    text::trimmed(s@),
                    TAG_POOL_LIMIT_MAX as nat,
                    None,
                )
            },
        },
{
    let q: Option<String> = match &query.q {
        Some(q) => {
            let t = trim(q.as_str());
            if !utf16_within(t, query_max) {
                return Err(invalid());
            }
            Some(t.to_owned())
        },
        None => None,
    };
    let raw = match &query.limit {
        Some(s) => Some(s.as_str()),
        None => None,
    };
    match parse_limit(raw) {
        Ok(n) => Ok((q, n)),
        Err(e) => Err(e),
    }
}

/// A tag to be made: without a color it is gray. `name` is its name in normal form, where it is
/// one; `color_ok`, whether the color, the given one or gray, is one.
pub fn tag_input(name: Option<String>, color: Option<String>, color_ok: bool) -> (r: Result<
    (String, String),
    ApiError,
>)
    ensures
        match r {
            Ok(tag) => {
                &&& color_ok
                &&& name == Some(tag.0)
                &&& match color {
                    Some(c) => tag.1 == c,
                    None => tag.1@ == "gray"@,
                }
            },
            Err(e) => (name is None || !color_ok) && e@ == error::api_problem(
                ProblemCode::InvalidInput,
            ),
        },
{
    let name = match name {
        Some(n) => n,
        None => {
            return Err(invalid());
        },
    };
    if !color_ok {
        return Err(invalid());
    }
    match color {
        Some(c) => Ok((name, c)),
        None => Ok((name, "gray".to_owned())),
    }
}

/// A change of a tag, which has to change something. `name_given` is whether it names one, `name`
/// that name in normal form, where it is one.
pub fn tag_patch(
    name_given: bool,
    name: Option<String>,
    color: Option<String>,
    color_ok: bool,
) -> (r: Result<(Option<String>, Option<String>), ApiError>)
    ensures
        if (!name_given && color is None) || (name_given && name is None) || (color is Some
            && !color_ok) {
            error::api_refused(r, ProblemCode::InvalidInput)
        } else {
            r == Ok::<_, ApiError>(
                (
                    if name_given {
                        name
                    } else {
                        None
                    },
                    color,
                ),
            )
        },
{
    if !name_given && color.is_none() {
        return Err(invalid());
    }
    if name_given && name.is_none() {
        return Err(invalid());
    }
    if color.is_some() && !color_ok {
        return Err(invalid());
    }
    if name_given {
        Ok((name, color))
    } else {
        Ok((None, color))
    }
}

/// The tag that a document is given.
pub fn tag_to_assign(tag_id: &str) -> (r: Result<Uuid, ApiError>)
    ensures
        match stars::body_uuid(tag_id@) {
            Some(v) => r matches Ok(id) && id.0 == v,
            None => error::api_refused(r, ProblemCode::InvalidInput),
        },
{
    match parse_body_uuid(tag_id) {
        Some(id) => Ok(id),
        None => Err(invalid()),
    }
}

/// Each value of a tag is answered under the name that it is kept by.
pub proof fn law_tag_is_answered_as_kept(row: TagRow, out: DocumentTagOutput)
    requires
        row.answered(&out),
    ensures
        ids::uuid_of(out.id@) == Some(row.id.0),
        ids::uuid_of(out.workspace_id@) == Some(row.workspace_id.0),
        out.name@ == row.name@,
        out.color@ == row.color@,
        out.created_at == row.created_at,
        out.updated_at == row.updated_at,
{
    ids::law_uuid_round_trip(row.id.0);
    ids::law_uuid_round_trip(row.workspace_id.0);
}

/// Each value of a tag pool is answered under the name that it is kept by.
pub proof fn law_tag_pool_is_answered_as_kept(row: TagPool, out: DocumentTagPoolListResponse)
    requires
        row.answered(&out),
    ensures
        out.can_create == row.can_create,
        out.can_manage == row.can_manage,
        answer::all_answered(row.items@, out.items@),
{
}

/// A tag is made with the name and colour that were given, and changed in what was given alone.
pub proof fn law_tag_is_made_and_changed_as_asked(
    name: Option<String>,
    color: Option<String>,
    name_given: bool,
    r: Result<(String, String), ApiError>,
    s: Result<(Option<String>, Option<String>), ApiError>,
)
    requires
        call_ensures(tag_input, (name, color, true), r),
        call_ensures(tag_patch, (name_given, name, color, true), s),
    ensures
        r is Ok <==> name is Some,
        r matches Ok(tag) ==> Some(tag.0) == name && (color is Some ==> Some(tag.1) == color) && (
        color is None ==> tag.1@ == "gray"@),
        s is Ok <==> if name_given {
            name is Some
        } else {
            color is Some
        },
        s matches Ok(change) ==> change.1 == color && (name_given ==> change.0 == name) && (
        !name_given ==> change.0 is None),
{
}

} // verus!
