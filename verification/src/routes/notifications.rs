//! The notifications of a user.

use vstd::prelude::*;
use vstd::string::*;
use crate::answer;
use crate::answer::{Answer, answer_all};
use crate::error;
use crate::error::{AppError, DbFailure, ProblemCode};
use crate::ids::Uuid;
use crate::json::{Json, copy_json};
use crate::routes::account::OkResponse;
use crate::routes::documents::copy_text;
use crate::time::Timestamp;

verus! {

/// The notifications of a page where a query names no number, and the most of a page.
pub const NOTIFICATION_PAGE: i32 = 50;

pub const NOTIFICATION_PAGE_MAX: i32 = 100;

/// The most bytes of a cursor.
pub const NOTIFICATION_CURSOR_MAX: usize = 1024;

/// The query of a list of notifications.
#[derive(Debug)]
pub struct NotificationListQuery {
    pub filter: Option<String>,
    pub cursor: Option<String>,
    pub limit: Option<i32>,
}

/// A notification, as the store keeps it.
#[derive(Debug)]
pub struct NotificationRow {
    pub id: Uuid,
    pub workspace_id: Uuid,
    pub event_id: Uuid,
    pub verb: String,
    pub actor_user_id: Option<Uuid>,
    pub actor_given_name: Option<String>,
    pub actor_family_name: Option<String>,
    pub target_type: Option<String>,
    pub target_id: Option<Uuid>,
    pub display_id: Option<String>,
    pub payload: Json,
    pub read_at: Option<Timestamp>,
    pub archived_at: Option<Timestamp>,
    pub created_at: Timestamp,
}

/// A notification as it is answered.
#[derive(Debug)]
pub struct NotificationItemOutput {
    pub id: Uuid,
    pub workspace_id: Uuid,
    pub event_id: Uuid,
    pub verb: String,
    pub actor_user_id: Option<Uuid>,
    pub actor_given_name: Option<String>,
    pub actor_family_name: Option<String>,
    pub target_type: Option<String>,
    pub target_id: Option<Uuid>,
    pub display_id: Option<String>,
    pub payload: Json,
    pub read_at: Option<Timestamp>,
    pub archived_at: Option<Timestamp>,
    pub created_at: Timestamp,
}

impl Answer for NotificationRow {
    type Out = NotificationItemOutput;

    open spec fn answered(&self, out: &NotificationItemOutput) -> bool {
        &&& out.id == self.id
        &&& out.workspace_id == self.workspace_id
        &&& out.event_id == self.event_id
        &&& out.verb@ == self.verb@
        &&& out.actor_user_id == self.actor_user_id
        &&& error::text_view(out.actor_given_name) == error::text_view(self.actor_given_name)
        &&& error::text_view(out.actor_family_name) == error::text_view(self.actor_family_name)
        &&& error::text_view(out.target_type) == error::text_view(self.target_type)
        &&& out.target_id == self.target_id
        &&& error::text_view(out.display_id) == error::text_view(self.display_id)
        &&& out.payload@ == self.payload@
        &&& out.read_at == self.read_at
        &&& out.archived_at == self.archived_at
        &&& out.created_at == self.created_at
    }

    fn answer(&self) -> (r: NotificationItemOutput) {
        NotificationItemOutput {
            id: self.id,
            workspace_id: self.workspace_id,
            event_id: self.event_id,
            verb: self.verb.clone(),
            actor_user_id: self.actor_user_id,
            actor_given_name: copy_text(&self.actor_given_name),
            actor_family_name: copy_text(&self.actor_family_name),
            target_type: copy_text(&self.target_type),
            target_id: self.target_id,
            display_id: copy_text(&self.display_id),
            payload: copy_json(&self.payload),
            read_at: self.read_at,
            archived_at: self.archived_at,
            created_at: self.created_at,
        }
    }
}

/// A page of notifications, as the store hands it out.
#[derive(Debug)]
pub struct NotificationPage {
    pub items: Vec<NotificationRow>,
    pub next_cursor: Option<String>,
}

/// A page of notifications as it is answered.
#[derive(Debug)]
pub struct NotificationListResponse {
    pub items: Vec<NotificationItemOutput>,
    pub next_cursor: Option<String>,
}

impl Answer for NotificationPage {
    type Out = NotificationListResponse;

    open spec fn answered(&self, out: &NotificationListResponse) -> bool {
        answer::all_answered(self.items@, out.items@) && error::text_view(out.next_cursor)
            == error::text_view(self.next_cursor)
    }

    fn answer(&self) -> (r: NotificationListResponse) {
        NotificationListResponse {
            items: answer_all(self.items.as_slice()),
            next_cursor: copy_text(&self.next_cursor),
        }
    }
}

/// Where a user is notified.
#[derive(Clone, Copy, Debug, PartialEq, Eq, Structural)]
pub struct NotificationPrefs {
    pub in_app: bool,
    pub mail_immediate: bool,
    pub mail_digest: bool,
}

impl Answer for NotificationPrefs {
    type Out = NotificationPrefs;

    open spec fn answered(&self, out: &NotificationPrefs) -> bool {
        *out == *self
    }

    fn answer(&self) -> (r: NotificationPrefs) {
        *self
    }
}

/// A number that is answered as it is.
impl Answer for i64 {
    type Out = i64;

    open spec fn answered(&self, out: &i64) -> bool {
        *out == *self
    }

    fn answer(&self) -> (r: i64) {
        *self
    }
}

/// The name of the filter of a query.
pub open spec fn filter_asked(query: NotificationListQuery) -> Seq<char> {
    match query.filter {
        Some(f) => f@,
        None => "all"@,
    }
}

/// The name of the filter of a query.
pub fn filter_name(query: &NotificationListQuery) -> (r: &str)
    ensures
        r@ == filter_asked(*query),
{
    match &query.filter {
        Some(f) => f.as_str(),
        None => "all",
    }
}

/// The number of notifications that a query asks for.
pub open spec fn page_asked(query: NotificationListQuery) -> i32 {
    match query.limit {
        Some(n) => n,
        None => NOTIFICATION_PAGE,
    }
}

/// A cursor is longer than any that was handed out.
pub open spec fn cursor_too_long(cursor: Option<String>) -> bool {
    cursor matches Some(c) && vstd::utf8::encode_utf8(c@).len() > NOTIFICATION_CURSOR_MAX
}

/// Reads a query of a list of notifications. `filter` is what the name of its filter stands for,
/// if anything; `invalid_cursor` is how the store tells that a cursor is none.
pub fn parse_list_query<F>(
    query: NotificationListQuery,
    filter: Option<F>,
    invalid_cursor: AppError,
) -> (r: Result<(F, Option<String>, i32), AppError>)
    ensures
        match filter {
            None => error::refused(r, ProblemCode::InvalidInput),
            Some(f) => if cursor_too_long(query.cursor) {
                r matches Err(e) && e@ == invalid_cursor@
            } else if 1 <= page_asked(query) <= NOTIFICATION_PAGE_MAX {
                r == Ok::<_, AppError>((f, query.cursor, page_asked(query)))
            } else {
                error::refused(r, ProblemCode::InvalidInput)
            },
        },
{
    let f = match filter {
        None => {
            return Err(AppError::from_code(ProblemCode::InvalidInput));
        },
        Some(f) => f,
    };
    let too_long: bool = match &query.cursor {
        Some(c) => c.as_str().as_bytes().len() > NOTIFICATION_CURSOR_MAX,
        None => false,
    };
    if too_long {
        return Err(invalid_cursor);
    }
    let limit: i32 = match query.limit {
        Some(n) => n,
        None => NOTIFICATION_PAGE,
    };
    if limit < 1 || limit > NOTIFICATION_PAGE_MAX {
        return Err(AppError::from_code(ProblemCode::InvalidInput));
    }
    Ok((f, query.cursor, limit))
}

/// A change of a notification has to change something.
pub fn check_flags(read: Option<bool>, archived: Option<bool>) -> (r: Result<(), AppError>)
    ensures
        r is Ok <==> read is Some || archived is Some,
        r is Err ==> error::refused(r, ProblemCode::InvalidInput),
{
    if read.is_none() && archived.is_none() {
        Err(AppError::from_code(ProblemCode::InvalidInput))
    } else {
        Ok(())
    }
}

/// What the store says to a request about notifications: what it gave, why it refused, or that it
/// failed.
pub fn notification_reply<T: Answer>(found: Result<Result<T, AppError>, DbFailure>) -> (r: Result<
    T::Out,
    AppError,
>)
    ensures
        match found {
            Err(_) => error::refused(r, ProblemCode::Internal),
            Ok(Err(e)) => r matches Err(x) && x@ == e@,
            Ok(Ok(t)) => r matches Ok(out) && t.answered(&out),
        },
{
    match found {
        Err(_) => Err(AppError::internal()),
        Ok(Err(e)) => Err(e),
        Ok(Ok(t)) => Ok(t.answer()),
    }
}

/// The answer to a change of a notification; `Ok(Ok(false))` is one that there is not.
pub fn flags_reply(done: Result<Result<bool, AppError>, DbFailure>) -> (r: Result<
    OkResponse,
    AppError,
>)
    ensures
        match done {
            Err(_) => error::refused(r, ProblemCode::Internal),
            Ok(Err(e)) => r matches Err(x) && x@ == e@,
            Ok(Ok(true)) => r == Ok::<_, AppError>(OkResponse { ok: true }),
            Ok(Ok(false)) => error::refused(r, ProblemCode::NotFound),
        },
{
    match done {
        Err(_) => Err(AppError::internal()),
        Ok(Err(e)) => Err(e),
        Ok(Ok(true)) => Ok(OkResponse { ok: true }),
        Ok(Ok(false)) => Err(AppError::from_code(ProblemCode::NotFound)),
    }
}

/// Each value of a notification is answered under the name that it is kept by.
pub proof fn law_notification_is_answered_as_kept(row: NotificationRow, out: NotificationItemOutput)
    requires
        row.answered(&out),
    ensures
        out.id == row.id,
        out.workspace_id == row.workspace_id,
        out.event_id == row.event_id,
        out.verb@ == row.verb@,
        out.actor_user_id == row.actor_user_id,
        error::text_view(out.actor_given_name) == error::text_view(row.actor_given_name),
        error::text_view(out.actor_family_name) == error::text_view(row.actor_family_name),
        error::text_view(out.target_type) == error::text_view(row.target_type),
        out.target_id == row.target_id,
        error::text_view(out.display_id) == error::text_view(row.display_id),
        out.payload@ == row.payload@,
        out.read_at == row.read_at,
        out.archived_at == row.archived_at,
        out.created_at == row.created_at,
{
}

/// Notifications are listed by the filter, behind the cursor and in pages of the size that were
/// asked for; without a size there is a default.
pub proof fn law_notifications_are_listed_as_asked<F>(
    query: NotificationListQuery,
    filter: Option<F>,
    invalid_cursor: AppError,
    r: Result<(F, Option<String>, i32), AppError>,
)
    requires
        call_ensures(parse_list_query::<F>, (query, filter, invalid_cursor), r),
        r is Ok,
    ensures
        ({
            let asked = r->Ok_0;
            &&& Some(asked.0) == filter
            &&& asked.1 == query.cursor
            &&& query.limit is Some ==> Some(asked.2) == query.limit
            &&& query.limit is None ==> asked.2 == NOTIFICATION_PAGE
            &&& 1 <= asked.2 <= NOTIFICATION_PAGE_MAX
        }),
{
}

} // verus!
