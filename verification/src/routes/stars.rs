//! What a user has starred, and what they changed last.

use vstd::prelude::*;
use vstd::string::*;
use crate::answer::Answer;
use crate::error;
use crate::error::{AppError, ErrorView, ProblemCode};
use crate::ids;
use crate::ids::{Uuid, text_of};
use crate::number;
use crate::number::coerce;
use crate::store::Refusal;
use crate::text;
use crate::text::{same, trim};
use crate::time;
use crate::time::Timestamp;

verus! {

/// The items of a list of recent ones where a query names no number, and the most of a list.
pub const RECENT_DEFAULT_LIMIT: u64 = 20;

pub const RECENT_MAX_LIMIT: u64 = 50;

/// The query of a list of recent items.
#[derive(Debug)]
pub struct RecentQuery {
    pub limit: Option<String>,
}

/// A starred item, as the store keeps it.
#[derive(Debug)]
pub struct StarItem {
    pub id: Uuid,
    pub kind: String,
    pub target_id: Uuid,
    pub title: String,
    pub project_id: Option<Uuid>,
    pub number: Option<i32>,
    pub created_at: Timestamp,
}

/// A starred item as it is answered.
#[derive(Debug)]
pub struct StarItemOutput {
    pub id: String,
    pub kind: String,
    pub target_id: String,
    pub title: String,
    pub project_id: Option<String>,
    pub number: Option<i32>,
    pub created_at: String,
}

impl Answer for StarItem {
    type Out = StarItemOutput;

    open spec fn answered(&self, out: &StarItemOutput) -> bool {
        &&& out.id@ == ids::uuid_text(self.id.0)
        &&& out.kind@ == self.kind@
        &&& out.target_id@ == ids::uuid_text(self.target_id.0)
        &&& out.title@ == self.title@
        &&& error::text_view(out.project_id) == ids::opt_text(self.project_id)
        &&& out.number == self.number
        &&& out.created_at@ == time::rfc3339_millis(self.created_at@ as i64)
    }

    fn answer(&self) -> (r: StarItemOutput) {
        StarItemOutput {
            id: self.id.text(),
            kind: self.kind.clone(),
            target_id: self.target_id.text(),
            title: self.title.clone(),
            project_id: text_of(self.project_id),
            number: self.number,
            created_at: self.created_at.iso(),
        }
    }
}

/// A recent item, as the store keeps it.
#[derive(Debug)]
pub struct RecentItem {
    pub kind: String,
    pub id: Uuid,
    pub title: String,
    pub project_id: Option<Uuid>,
    pub number: Option<i32>,
    pub updated_at: Timestamp,
}

/// A recent item as it is answered.
#[derive(Debug)]
pub struct RecentItemOutput {
    pub kind: String,
    pub id: String,
    pub title: String,
    pub project_id: Option<String>,
    pub number: Option<i32>,
    pub updated_at: String,
}

impl Answer for RecentItem {
    type Out = RecentItemOutput;

    open spec fn answered(&self, out: &RecentItemOutput) -> bool {
        &&& out.kind@ == self.kind@
        &&& out.id@ == ids::uuid_text(self.id.0)
        &&& out.title@ == self.title@
        &&& error::text_view(out.project_id) == ids::opt_text(self.project_id)
        &&& out.number == self.number
        &&& out.updated_at@ == time::rfc3339_millis(self.updated_at@ as i64)
    }

    fn answer(&self) -> (r: RecentItemOutput) {
        RecentItemOutput {
            kind: self.kind.clone(),
            id: self.id.text(),
            title: self.title.clone(),
            project_id: text_of(self.project_id),
            number: self.number,
            updated_at: self.updated_at.iso(),
        }
    }
}

/// Why the store refused a request about stars. Who may not see an item is told that there is
/// none.
#[derive(Clone, Copy, Debug, PartialEq, Eq, Structural)]
pub enum StarDbError {
    NotFound,
    Forbidden,
}

pub fn map_star_error(err: StarDbError) -> (r: AppError)
    ensures
        r@ == error::problem(ProblemCode::NotFound),
{
    AppError::from_code(ProblemCode::NotFound)
}

impl Refusal for StarDbError {
    open spec fn problem(&self) -> ErrorView {
        error::problem(ProblemCode::NotFound)
    }

    fn refusal(&self) -> (r: AppError) {
        map_star_error(*self)
    }
}

/// The number of recent items that a query asks for: a whole number between one and
/// `RECENT_MAX_LIMIT`, white space around it left aside.
pub fn parse_recent_limit(raw: Option<&str>) -> (r: Result<u64, AppError>)
    ensures
        match raw {
            None => r == Ok::<_, AppError>(RECENT_DEFAULT_LIMIT),
            Some(s) => match r {
                Ok(n) => number::coerced(text::trimmed(s@), RECENT_MAX_LIMIT as nat, Some(n)),
                Err(e) => number::coerced(text::trimmed(s@), RECENT_MAX_LIMIT as nat, None) && e@
                    == error::problem(ProblemCode::InvalidInput),
            },
        },
{
    match raw {
        None => Ok(RECENT_DEFAULT_LIMIT),
        Some(s) => match coerce(trim(s), RECENT_MAX_LIMIT) {
            Some(n) => Ok(n),
            None => Err(AppError::from_code(ProblemCode::InvalidInput)),
        },
    }
}

/// The id that a body writes: in 36 bytes, as the form with hyphens has them.
pub open spec fn body_uuid(s: Seq<char>) -> Option<u128> {
    if vstd::utf8::encode_utf8(s).len() != 36 {
        None
    } else {
        ids::uuid_of(s)
    }
}

/// The id that a body writes.
pub fn parse_body_uuid(value: &str) -> (r: Option<Uuid>)
    ensures
        r == ids::some_uuid(body_uuid(value@)),
{
    if value.as_bytes().len() != 36 {
        return None;
    }
    Uuid::parse_str(value)
}

/// What can be starred.
#[derive(Clone, Copy, Debug, PartialEq, Eq, Structural)]
pub enum StarTarget {
    Document(Uuid),
    Task(Uuid),
}

/// What a request stars.
pub fn parse_star_target(id: &str, kind: &str) -> (r: Result<StarTarget, AppError>)
    ensures
        match body_uuid(id@) {
            None => error::refused_at(r, ProblemCode::InvalidInput, "/id"@),
            Some(v) => if kind@ == "document"@ {
                r == Ok::<_, AppError>(StarTarget::Document(Uuid(v)))
            } else if kind@ == "task"@ {
                r == Ok::<_, AppError>(StarTarget::Task(Uuid(v)))
            } else {
                error::refused_at(r, ProblemCode::InvalidInput, "/type"@)
            },
        },
{
    let id = match parse_body_uuid(id) {
        Some(id) => id,
        None => {
            return Err(AppError::with_source(ProblemCode::InvalidInput, "/id"));
        },
    };
    if same(kind, "document") {
        Ok(StarTarget::Document(id))
    } else if same(kind, "task") {
        Ok(StarTarget::Task(id))
    } else {
        Err(AppError::with_source(ProblemCode::InvalidInput, "/type"))
    }
}

/// Each value of a star item is answered under the name that it is kept by.
pub proof fn law_star_item_is_answered_as_kept(row: StarItem, out: StarItemOutput)
    requires
        row.answered(&out),
    ensures
        ids::uuid_of(out.id@) == Some(row.id.0),
        out.kind@ == row.kind@,
        ids::uuid_of(out.target_id@) == Some(row.target_id.0),
        out.title@ == row.title@,
        match (row.project_id, out.project_id) {
            (Some(id), Some(s)) => ids::uuid_of(s@) == Some(id.0),
            (None, None) => true,
            _ => false,
        },
        out.number == row.number,
        out.created_at@ == time::rfc3339_millis(row.created_at@ as i64),
{
    ids::law_uuid_round_trip(row.id.0);
    ids::law_uuid_round_trip(row.target_id.0);
    if let Some(id) = row.project_id {
        ids::law_uuid_round_trip(id.0);
    }
}

/// Each value of a recent item is answered under the name that it is kept by.
pub proof fn law_recent_item_is_answered_as_kept(row: RecentItem, out: RecentItemOutput)
    requires
        row.answered(&out),
    ensures
        out.kind@ == row.kind@,
        ids::uuid_of(out.id@) == Some(row.id.0),
        out.title@ == row.title@,
        match (row.project_id, out.project_id) {
            (Some(id), Some(s)) => ids::uuid_of(s@) == Some(id.0),
            (None, None) => true,
            _ => false,
        },
        out.number == row.number,
        out.updated_at@ == time::rfc3339_millis(row.updated_at@ as i64),
{
    ids::law_uuid_round_trip(row.id.0);
    if let Some(id) = row.project_id {
        ids::law_uuid_round_trip(id.0);
    }
}

/// A star is set on what was named, of the kind that was named, by its id.
pub proof fn law_star_is_set_on_what_was_named(
    id: &str,
    kind: &str,
    r: Result<StarTarget, AppError>,
)
    requires
        call_ensures(parse_star_target, (id, kind), r),
    ensures
        match r {
            Ok(StarTarget::Document(v)) => kind@ == "document"@ && ids::uuid_of(id@) == Some(v.0),
            Ok(StarTarget::Task(v)) => kind@ == "task"@ && ids::uuid_of(id@) == Some(v.0),
            Err(_) => true,
        },
        r is Ok <==> vstd::utf8::encode_utf8(id@).len() == 36 && ids::uuid_of(id@) is Some && (kind@
            == "document"@ || kind@ == "task"@),
{
}

} // verus!
