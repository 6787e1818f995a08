//! The administration of an instance: who uses it, what they did, how it is set up and what it
//! looks like.

use vstd::prelude::*;
use vstd::string::*;
use crate::answer;
use crate::answer::{Answer, answer_all};
use crate::digest;
use crate::digest::sha256_hex;
use crate::error;
use crate::error::{AppError, DbFailure, ProblemCode};
use crate::header;
use crate::header::{read_header, read_media_type};
use crate::ids;
use crate::ids::{Uuid, text_of};
use crate::json;
use crate::json::{Json, JsonView, copy_json};
use crate::number;
use crate::number::coerce;
use crate::routes::account::OkResponse;
use crate::routes::attachments;
use crate::routes::attachments::read_length;
use crate::routes::documents::copy_text;
use crate::store::present;
use crate::text;
use crate::text::{join2, same, trim, utf16_within};
use crate::time;
use crate::time::Timestamp;

verus! {

/// The most bytes of a logo or an icon.
pub const BRANDING_ASSET_MAX_BYTES: usize = 524_288;

/// The days between a withdrawal and the erasure.
pub const ERASE_AFTER_DAYS: i64 = 14;

/// The items of a page of the audit log where a query names no number, and the most of a page.
pub const AUDIT_PAGE: u64 = 50;

pub const AUDIT_PAGE_MAX: u64 = 100;

/// The most bytes of a cursor.
pub const AUDIT_CURSOR_MAX: usize = 1024;

/// The most UTF-16 code units of the title and the body of a legal document.
pub const LEGAL_TITLE_MAX: usize = 300;

pub const LEGAL_BODY_MAX: usize = 200_000;

/// Whether a user administers the instance; to others the route does not exist.
pub fn require_admin_read(admin: Result<bool, DbFailure>) -> (r: Result<(), AppError>)
    ensures
        match admin {
            Err(_) => error::refused(r, ProblemCode::Internal),
            Ok(false) => error::refused(r, ProblemCode::NotFound),
            Ok(true) => r is Ok,
        },
{
    match admin {
        Err(_) => Err(AppError::internal()),
        Ok(false) => Err(AppError::from_code(ProblemCode::NotFound)),
        Ok(true) => Ok(()),
    }
}

/// The number of items of the audit log that a query asks for: a whole number between one and
/// `AUDIT_PAGE_MAX`, white space around it left aside.
pub fn audit_limit(raw: Option<&str>) -> (r: Result<u64, AppError>)
    ensures
        match raw {
            None => r == Ok::<_, AppError>(AUDIT_PAGE),
            Some(s) => match r {
                Ok(n) => number::coerced(text::trimmed(s@), AUDIT_PAGE_MAX as nat, Some(n)),
                Err(e) => number::coerced(text::trimmed(s@), AUDIT_PAGE_MAX as nat, None) && e@
                    == error::problem(ProblemCode::InvalidInput),
            },
        },
{
    match raw {
        None => Ok(AUDIT_PAGE),
        Some(s) => match coerce(trim(s), AUDIT_PAGE_MAX) {
            Some(n) => Ok(n),
            None => Err(AppError::from_code(ProblemCode::InvalidInput)),
        },
    }
}

/// The place in the audit log that a query goes on from. `decoded` is what its cursor stands for.
pub fn audit_cursor<C>(raw: Option<&str>, decoded: Option<C>) -> (r: Result<Option<C>, AppError>)
    ensures
        match raw {
            None => r == Ok::<Option<C>, AppError>(None),
            Some(s) => if vstd::utf8::encode_utf8(s@).len() > AUDIT_CURSOR_MAX {
                error::refused(r, ProblemCode::InvalidInput)
            } else {
                match decoded {
                    Some(c) => r == Ok::<Option<C>, AppError>(Some(c)),
                    None => r matches Err(e) && e@ == error::problem_detail(
                        400,
                        ProblemCode::InvalidInput,
                        "invalid_cursor"@,
                    ),
                }
            },
        },
{
    match raw {
        None => Ok(None),
        Some(s) => {
            if s.as_bytes().len() > AUDIT_CURSOR_MAX {
                return Err(AppError::from_code(ProblemCode::InvalidInput));
            }
            match decoded {
                Some(c) => Ok(Some(c)),
                None => Err(AppError::detail(400, ProblemCode::InvalidInput, "invalid_cursor")),
            }
        },
    }
}

/// An entry of the audit log, as the store keeps it.
#[derive(Debug)]
pub struct AuditRow {
    pub id: Uuid,
    pub actor_user_id: Option<Uuid>,
    pub workspace_id: Option<Uuid>,
    pub verb: String,
    pub target_type: Option<String>,
    pub target_id: Option<Uuid>,
    pub payload: Json,
    pub ip: Option<String>,
    pub created_at: Timestamp,
}

/// An entry of the audit log as it is answered.
#[derive(Debug)]
pub struct AuditLogItemOutput {
    pub id: String,
    pub actor_user_id: Option<String>,
    pub workspace_id: Option<String>,
    pub verb: String,
    pub target_type: Option<String>,
    pub target_id: Option<String>,
    pub payload: Json,
    pub ip: Option<String>,
    pub created_at: Timestamp,
}

/// A payload as an object: what is none counts as an empty one.
pub open spec fn payload_object(payload: JsonView) -> JsonView {
    match payload {
        JsonView::Object(m) => JsonView::Object(m),
        _ => JsonView::Object(Seq::empty()),
    }
}

/// A payload as an object.
fn object_of(payload: &Json) -> (r: Json)
    ensures
        r@ == payload_object(payload@),
{
    match payload {
        Json::Object(_) => copy_json(payload),
        _ => {
            let none: Vec<(String, Json)> = Vec::new();
            proof {
                json::lemma_object_view(none);
                assert(json::members_view(none@) =~= Seq::empty());
            }
            Json::Object(none)
        },
    }
}

impl Answer for AuditRow {
    type Out = AuditLogItemOutput;

    open spec fn answered(&self, out: &AuditLogItemOutput) -> bool {
        &&& out.id@ == ids::uuid_text(self.id.0)
        &&& error::text_view(out.actor_user_id) == ids::opt_text(self.actor_user_id)
        &&& error::text_view(out.workspace_id) == ids::opt_text(self.workspace_id)
        &&& out.verb@ == self.verb@
        &&& error::text_view(out.target_type) == error::text_view(self.target_type)
        &&& error::text_view(out.target_id) == ids::opt_text(self.target_id)
        &&& out.payload@ == payload_object(self.payload@)
        &&& error::text_view(out.ip) == error::text_view(self.ip)
        &&& out.created_at == self.created_at
    }

    fn answer(&self) -> (r: AuditLogItemOutput) {
        AuditLogItemOutput {
            id: self.id.text(),
            actor_user_id: text_of(self.actor_user_id),
            workspace_id: text_of(self.workspace_id),
            verb: self.verb.clone(),
            target_type: copy_text(&self.target_type),
            target_id: text_of(self.target_id),
            payload: object_of(&self.payload),
            ip: copy_text(&self.ip),
            created_at: self.created_at,
        }
    }
}

/// A page of the audit log, as the store hands it out.
#[derive(Debug)]
pub struct AuditPage {
    pub items: Vec<AuditRow>,
    pub next_cursor: Option<String>,
}

/// A page of the audit log as it is answered.
#[derive(Debug)]
pub struct AuditLogListResponse {
    pub items: Vec<AuditLogItemOutput>,
    pub next_cursor: Option<String>,
}

impl Answer for AuditPage {
    type Out = AuditLogListResponse;

    open spec fn answered(&self, out: &AuditLogListResponse) -> bool {
        answer::all_answered(self.items@, out.items@) && error::text_view(out.next_cursor)
            == error::text_view(self.next_cursor)
    }

    fn answer(&self) -> (r: AuditLogListResponse) {
        AuditLogListResponse {
            items: answer_all(self.items.as_slice()),
            next_cursor: copy_text(&self.next_cursor),
        }
    }
}

/// The counts of an instance.
#[derive(Clone, Copy, Debug, PartialEq, Eq, Structural)]
pub struct AdminSystemOutput {
    pub users: i64,
    pub workspaces: i64,
    pub documents: i64,
    pub tasks: i64,
}

/// A user of the instance, as the store keeps them.
#[derive(Debug)]
pub struct AdminUserRow {
    pub id: Uuid,
    pub email: String,
    pub given_name: String,
    pub family_name: Option<String>,
    pub instance_admin: bool,
    pub suspended_at: Option<Timestamp>,
    pub deleted_at: Option<Timestamp>,
    pub created_at: Timestamp,
}

/// A user of the instance as they are answered.
#[derive(Debug)]
pub struct AdminUserItemOutput {
    pub id: String,
    pub email: String,
    pub given_name: String,
    pub family_name: Option<String>,
    pub instance_admin: bool,
    pub suspended_at: Option<Timestamp>,
    pub deleted_at: Option<Timestamp>,
    pub erase_at: Option<Timestamp>,
    pub created_at: Timestamp,
}

/// Microseconds from a withdrawal to the erasure.
pub open spec fn grace_period() -> int {
    ERASE_AFTER_DAYS * 86_400_000_000
}

/// The calendar reaches the erasure.
pub open spec fn erasure_in_calendar(row: AdminUserRow) -> bool {
    row.deleted_at matches Some(at) ==> time::in_calendar(at@ + grace_period())
}

/// The answer about a user: one who withdrew is erased after the days of grace.
pub open spec fn answers_user(row: AdminUserRow, out: AdminUserItemOutput) -> bool {
    &&& out.id@ == ids::uuid_text(row.id.0)
    &&& out.email@ == row.email@
    &&& out.given_name@ == row.given_name@
    &&& error::text_view(out.family_name) == error::text_view(row.family_name)
    &&& out.instance_admin == row.instance_admin
    &&& out.suspended_at == row.suspended_at
    &&& out.deleted_at == row.deleted_at
    &&& match row.deleted_at {
        Some(at) => out.erase_at matches Some(e) && e@ == at@ + grace_period(),
        None => out.erase_at is None,
    }
    &&& out.created_at == row.created_at
}

/// The answer about a user of the instance.
pub fn user_output(row: &AdminUserRow) -> (r: AdminUserItemOutput)
    requires
        erasure_in_calendar(*row),
    ensures
        answers_user(*row, r),
{
    let erase_at = match row.deleted_at {
        Some(at) => {
            let micros: i64 = at.micros();
            Timestamp::from_micros(micros + ERASE_AFTER_DAYS * 86_400_000_000)
        },
        None => None,
    };
    AdminUserItemOutput {
        id: row.id.text(),
        email: row.email.clone(),
        given_name: row.given_name.clone(),
        family_name: copy_text(&row.family_name),
        instance_admin: row.instance_admin,
        suspended_at: row.suspended_at,
        deleted_at: row.deleted_at,
        erase_at,
        created_at: row.created_at,
    }
}

/// The answers about the users of the instance.
pub fn users_output(rows: &[AdminUserRow]) -> (r: Vec<AdminUserItemOutput>)
    requires
        forall|i: int| 0 <= i < rows@.len() ==> erasure_in_calendar(#[trigger] rows@[i]),
    ensures
        r@.len() == rows@.len(),
        forall|i: int| 0 <= i < rows@.len() ==> answers_user(#[trigger] rows@[i], r@[i]),
{
    let mut out: Vec<AdminUserItemOutput> = Vec::new();
    let mut i: usize = 0;
    while i < rows.len()
        invariant
            i <= rows@.len(),
            out@.len() == i,
            forall|j: int| 0 <= j < rows@.len() ==> erasure_in_calendar(#[trigger] rows@[j]),
            forall|j: int| 0 <= j < i ==> answers_user(#[trigger] rows@[j], out@[j]),
        decreases rows.len() - i,
    {
        out.push(user_output(&rows[i]));
        i = i + 1;
    }
    out
}

/// A workspace of the instance, as the store keeps it.
#[derive(Debug)]
pub struct AdminWorkspaceRow {
    pub id: Uuid,
    pub slug: String,
    pub name: String,
    pub created_at: Timestamp,
}

/// A workspace of the instance as it is answered.
#[derive(Debug)]
pub struct AdminWorkspaceItemOutput {
    pub id: String,
    pub slug: String,
    pub name: String,
    pub created_at: Timestamp,
}

impl Answer for AdminWorkspaceRow {
    type Out = AdminWorkspaceItemOutput;

    open spec fn answered(&self, out: &AdminWorkspaceItemOutput) -> bool {
        &&& out.id@ == ids::uuid_text(self.id.0)
        &&& out.slug@ == self.slug@
        &&& out.name@ == self.name@
        &&& out.created_at == self.created_at
    }

    fn answer(&self) -> (r: AdminWorkspaceItemOutput) {
        AdminWorkspaceItemOutput {
            id: self.id.text(),
            slug: self.slug.clone(),
            name: self.name.clone(),
            created_at: self.created_at,
        }
    }
}

/// What became of a change of a user.
#[derive(Clone, Copy, Debug)]
pub enum PatchUserOutcome {
    Patched { suspended_at: Option<Timestamp> },
    NotFound,
    LastInstanceAdmin,
    SelfSuspension,
    SeatLimit,
}

/// The answer to a change of a user.
#[derive(Clone, Copy, Debug)]
pub struct AdminUserPatchOutput {
    pub ok: bool,
    pub suspended_at: Option<Timestamp>,
}

pub fn map_patch_outcome(outcome: PatchUserOutcome) -> (r: Result<AdminUserPatchOutput, AppError>)
    ensures
        match outcome {
            PatchUserOutcome::Patched { suspended_at } => r == Ok::<_, AppError>(
                AdminUserPatchOutput { ok: true, suspended_at },
            ),
            PatchUserOutcome::NotFound => error::refused(r, ProblemCode::NotFound),
            PatchUserOutcome::LastInstanceAdmin => error::refused(
                r,
                ProblemCode::LastInstanceAdmin,
            ),
            PatchUserOutcome::SelfSuspension => error::refused(r, ProblemCode::SelfSuspension),
            PatchUserOutcome::SeatLimit => error::refused(r, ProblemCode::LimitSeats),
        },
{
    match outcome {
        PatchUserOutcome::Patched { suspended_at } => Ok(
            AdminUserPatchOutput { ok: true, suspended_at },
        ),
        PatchUserOutcome::NotFound => Err(AppError::from_code(ProblemCode::NotFound)),
        PatchUserOutcome::LastInstanceAdmin => Err(
            AppError::from_code(ProblemCode::LastInstanceAdmin),
        ),
        PatchUserOutcome::SelfSuspension => Err(AppError::from_code(ProblemCode::SelfSuspension)),
        PatchUserOutcome::SeatLimit => Err(AppError::from_code(ProblemCode::LimitSeats)),
    }
}

/// A change of a user has to change something.
pub fn check_user_patch(instance_admin: Option<bool>, suspended: Option<bool>) -> (r: Result<
    (),
    AppError,
>)
    ensures
        r is Ok <==> instance_admin is Some || suspended is Some,
        r is Err ==> error::refused_at(r, ProblemCode::InvalidInput, "/"@),
{
    if instance_admin.is_none() && suspended.is_none() {
        Err(AppError::with_source(ProblemCode::InvalidInput, "/"))
    } else {
        Ok(())
    }
}

/// The answer to a change of a user.
pub fn user_patched(done: Result<Option<PatchUserOutcome>, DbFailure>) -> (r: Result<
    AdminUserPatchOutput,
    AppError,
>)
    ensures
        match done {
            Err(_) => error::refused(r, ProblemCode::Internal),
            Ok(None) => error::refused(r, ProblemCode::NotFound),
            Ok(Some(PatchUserOutcome::Patched { suspended_at })) => r == Ok::<_, AppError>(
                AdminUserPatchOutput { ok: true, suspended_at },
            ),
            Ok(Some(PatchUserOutcome::NotFound)) => error::refused(r, ProblemCode::NotFound),
            Ok(Some(PatchUserOutcome::LastInstanceAdmin)) => error::refused(
                r,
                ProblemCode::LastInstanceAdmin,
            ),
            Ok(Some(PatchUserOutcome::SelfSuspension)) => error::refused(
                r,
                ProblemCode::SelfSuspension,
            ),
            Ok(Some(PatchUserOutcome::SeatLimit)) => error::refused(r, ProblemCode::LimitSeats),
        },
{
    match present(done) {
        Err(e) => Err(e),
        Ok(outcome) => map_patch_outcome(outcome),
    }
}

/// The answer to the appointment of an administrator.
pub fn admin_appointed(done: Result<Option<PatchUserOutcome>, DbFailure>) -> (r: Result<
    OkResponse,
    AppError,
>)
    ensures
        r is Ok <==> done matches Ok(Some(PatchUserOutcome::Patched { .. })),
        r matches Ok(o) ==> o.ok,
        match done {
            Err(_) => error::refused(r, ProblemCode::Internal),
            Ok(None) => error::refused(r, ProblemCode::NotFound),
            Ok(Some(PatchUserOutcome::NotFound)) => error::refused(r, ProblemCode::NotFound),
            Ok(Some(PatchUserOutcome::LastInstanceAdmin)) => error::refused(
                r,
                ProblemCode::LastInstanceAdmin,
            ),
            Ok(Some(PatchUserOutcome::SelfSuspension)) => error::refused(
                r,
                ProblemCode::SelfSuspension,
            ),
            Ok(Some(PatchUserOutcome::SeatLimit)) => error::refused(r, ProblemCode::LimitSeats),
            _ => r is Ok,
        },
{
    match user_patched(done) {
        Err(e) => Err(e),
        Ok(_) => Ok(OkResponse { ok: true }),
    }
}

/// A legal document, as the store keeps it.
#[derive(Debug)]
pub struct LegalDocument {
    pub kind: String,
    pub version: i32,
    pub title: String,
    pub body_html: String,
    pub effective_at: Timestamp,
    pub required: bool,
    pub published_at: Timestamp,
}

/// A legal document as it is answered.
#[derive(Debug)]
pub struct LegalDocumentOutput {
    pub kind: String,
    pub version: i32,
    pub title: String,
    pub body_html: String,
    pub effective_at: Timestamp,
    pub required: bool,
    pub published_at: Timestamp,
}

/// The answer with a legal document.
pub fn legal_output(doc: LegalDocument) -> (r: LegalDocumentOutput)
    ensures
        r == (LegalDocumentOutput {
            kind: doc.kind,
            version: doc.version,
            title: doc.title,
            body_html: doc.body_html,
            effective_at: doc.effective_at,
            required: doc.required,
            published_at: doc.published_at,
        }),
{
    LegalDocumentOutput {
        kind: doc.kind,
        version: doc.version,
        title: doc.title,
        body_html: doc.body_html,
        effective_at: doc.effective_at,
        required: doc.required,
        published_at: doc.published_at,
    }
}

/// A legal document that is published can be one.
pub open spec fn legal_fits(
    kind_ok: bool,
    title: Seq<char>,
    body: Seq<char>,
    effective_at: Option<Timestamp>,
) -> bool {
    &&& kind_ok
    &&& 1 <= text::utf16_units(text::trimmed(title)) <= LEGAL_TITLE_MAX
    &&& 1 <= text::utf16_units(body) <= LEGAL_BODY_MAX
    &&& effective_at is Some
}

/// Checks a legal document that is published: its title without white space around it, and when
/// it takes effect. `effective_at` is the instant that the request names, if it does.
pub fn check_legal(
    kind_ok: bool,
    title: &str,
    body: &str,
    effective_at: Option<Timestamp>,
) -> (r: Result<(String, Timestamp), AppError>)
    ensures
        match r {
            Ok(checked) => legal_fits(kind_ok, title@, body@, effective_at) && checked.0@
                == text::trimmed(title@) && Some(checked.1) == effective_at,
            Err(e) => !legal_fits(kind_ok, title@, body@, effective_at) && e@
                == error::problem_at(ProblemCode::InvalidInput, "/"@),
        },
{
    let trimmed = trim(title);
    proof {
        text::lemma_utf16_empty(trimmed@);
        text::lemma_utf16_empty(body@);
    }
    if !kind_ok || trimmed.is_empty() || !utf16_within(trimmed, LEGAL_TITLE_MAX)
        || body.is_empty() || !utf16_within(body, LEGAL_BODY_MAX) {
        return Err(AppError::with_source(ProblemCode::InvalidInput, "/"));
    }
    match effective_at {
        None => Err(AppError::with_source(ProblemCode::InvalidInput, "/")),
        Some(at) => Ok((trimmed.to_owned(), at)),
    }
}

/// The body of a legal document as it is shown. `html` is missing where nothing renders bodies,
/// and where rendering failed.
pub fn legal_rendered(html: Option<String>) -> (r: Result<String, AppError>)
    ensures
        match html {
            Some(h) => r == Ok::<_, AppError>(h),
            None => error::refused(r, ProblemCode::Internal),
        },
{
    match html {
        Some(h) => Ok(h),
        None => Err(AppError::internal()),
    }
}

/// The answer with a legal document that was published: the store keeps none from one who is no
/// admin.
pub fn legal_published(done: Result<Option<LegalDocument>, DbFailure>) -> (r: Result<
    LegalDocumentOutput,
    AppError,
>)
    ensures
        match done {
            Err(_) => error::refused(r, ProblemCode::Internal),
            Ok(None) => error::refused(r, ProblemCode::NotFound),
            Ok(Some(doc)) => r == Ok::<_, AppError>(
                LegalDocumentOutput {
                    kind: doc.kind,
                    version: doc.version,
                    title: doc.title,
                    body_html: doc.body_html,
                    effective_at: doc.effective_at,
                    required: doc.required,
                    published_at: doc.published_at,
                },
            ),
        },
{
    match done {
        Err(_) => Err(AppError::internal()),
        Ok(None) => Err(AppError::from_code(ProblemCode::NotFound)),
        Ok(Some(doc)) => Ok(legal_output(doc)),
    }
}

/// How an instance is set up, as the store keeps it.
#[derive(Debug)]
pub struct SettingsSnapshot {
    pub revision: i64,
    pub values: Json,
    /// The settings that were changed.
    pub overridden: Vec<String>,
    /// The settings that the environment gave.
    pub env_applied: Vec<String>,
}

/// How an instance is set up as it is answered.
#[derive(Debug)]
pub struct AdminInstanceSettingsOutput {
    pub version: i64,
    pub values: Json,
    pub overridden: Vec<String>,
    pub restart_required: Vec<String>,
    pub env_applied: Vec<String>,
    pub ee_features: Vec<String>,
}

/// The answer about how an instance is set up: `restart_pending` are the settings that only take
/// effect after a restart, `ee_features` what the edition has beyond the common one.
pub fn admin_settings_output(
    snapshot: SettingsSnapshot,
    restart_pending: Vec<String>,
    ee_features: Vec<String>,
) -> (r: AdminInstanceSettingsOutput)
    ensures
        r == (AdminInstanceSettingsOutput {
            version: snapshot.revision,
            values: snapshot.values,
            overridden: snapshot.overridden,
            restart_required: restart_pending,
            env_applied: snapshot.env_applied,
            ee_features,
        }),
{
    AdminInstanceSettingsOutput {
        version: snapshot.revision,
        values: snapshot.values,
        overridden: snapshot.overridden,
        restart_required: restart_pending,
        env_applied: snapshot.env_applied,
        ee_features,
    }
}

/// What the catalog of settings says of a member of a change: the setting that it names, and the
/// value in normal form where it is one.
#[derive(Debug)]
pub struct SettingCheck {
    pub key: Option<String>,
    pub value: Option<Json>,
}

/// A member of a change names a setting, and is null or has a value for it.
pub open spec fn setting_ok(value: JsonView, check: SettingCheck) -> bool {
    check.key is Some && (value is Null || check.value is Some)
}

/// The first member of a change that is not one.
pub open spec fn first_bad_setting(
    members: Seq<(Seq<char>, JsonView)>,
    checks: Seq<SettingCheck>,
) -> Option<Seq<char>>
    decreases members.len(),
{
    if members.len() == 0 || checks.len() == 0 {
        None
    } else if !setting_ok(members[0].1, checks[0]) {
        Some(members[0].0)
    } else {
        first_bad_setting(members.drop_first(), checks.drop_first())
    }
}

/// Where a change of the settings is at fault.
pub open spec fn settings_fault(body: JsonView, checks: Seq<SettingCheck>) -> Option<Seq<char>> {
    match body {
        JsonView::Object(m) => if m.len() == 0 {
            Some("/"@)
        } else {
            match first_bad_setting(m, checks) {
                Some(key) => Some("/"@ + key),
                None => None,
            }
        },
        _ => Some("/"@),
    }
}

/// A setting that is changed, or reset where there is no value.
pub open spec fn setting_item(
    member: (Seq<char>, JsonView),
    check: SettingCheck,
    item: (String, Option<Json>),
) -> bool {
    &&& check.key matches Some(k) && item.0@ == k@
    &&& if member.1 is Null {
        item.1 is None
    } else {
        item.1 matches Some(v) && (check.value matches Some(w) && v@ == w@)
    }
}

/// Reads a change of the settings: an object with at least one member, each of which names a
/// setting and resets it with null or gives it a value. `checks` is what the catalog says of each
/// member.
pub fn parse_settings_patch(body: &Json, checks: &[SettingCheck]) -> (r: Result<
    Vec<(String, Option<Json>)>,
    AppError,
>)
    requires
        body matches Json::Object(m) ==> checks@.len() == m@.len(),
    ensures
        match r {
            Err(e) => settings_fault(body@, checks@) matches Some(at) && e@ == error::problem_at(
                ProblemCode::InvalidInput,
                at,
            ),
            Ok(items) => {
                &&& settings_fault(body@, checks@) is None
                &&& items@.len() == body@->Object_0.len()
                &&& forall|i: int|
                    0 <= i < items@.len() ==> setting_item(
                        body@->Object_0[i],
                        checks@[i],
                        #[trigger] items@[i],
                    )
            },
        },
{
    let members = match body {
        Json::Object(members) => members,
        _ => {
            return Err(AppError::with_source(ProblemCode::InvalidInput, "/"));
        },
    };
    let ghost m = json::members_view(members@);
    proof {
        json::lemma_object_view(*members);
        assert(m.subrange(0, m.len() as int) == m);
        assert(checks@.subrange(0, checks@.len() as int) == checks@);
    }
    if members.len() == 0 {
        return Err(AppError::with_source(ProblemCode::InvalidInput, "/"));
    }
    let mut items: Vec<(String, Option<Json>)> = Vec::new();
    let mut i: usize = 0;
    while i < members.len()
        invariant
            i <= members@.len() == checks@.len(),
            members@.len() > 0,
            m == json::members_view(members@),
            body@ == JsonView::Object(m),
            items@.len() == i,
            forall|k: int|
                0 <= k < i ==> setting_item(m[k], checks@[k], #[trigger] items@[k]),
            first_bad_setting(m, checks@) == first_bad_setting(
                m.subrange(i as int, m.len() as int),
                checks@.subrange(i as int, m.len() as int),
            ),
        decreases members.len() - i,
    {
        let ghost tail = m.subrange(i as int, m.len() as int);
        let ghost rest = checks@.subrange(i as int, m.len() as int);
        proof {
            assert(tail[0] == (members@[i as int].0@, members@[i as int].1@));
            assert(rest[0] == checks@[i as int]);
            assert(tail.drop_first() == m.subrange(i + 1, m.len() as int));
            assert(rest.drop_first() == checks@.subrange(i + 1, m.len() as int));
        }
        let key: String = match &checks[i].key {
            Some(k) => k.clone(),
            None => {
                let at = join2("/", members[i].0.as_str());
                return Err(AppError::with_source(ProblemCode::InvalidInput, at.as_str()));
            },
        };
        let value = match &members[i].1 {
            Json::Null => None,
            _ => match &checks[i].value {
                Some(v) => Some(copy_json(v)),
                None => {
                    let at = join2("/", members[i].0.as_str());
                    return Err(AppError::with_source(ProblemCode::InvalidInput, at.as_str()));
                },
            },
        };
        items.push((key, value));
        i = i + 1;
    }
    assert(m.subrange(i as int, m.len() as int).len() == 0);
    Ok(items)
}

/// Why settings were not written.
#[derive(Clone, Copy, Debug, PartialEq, Eq, Structural)]
pub enum SettingsWriteError {
    NotAdmin,
    AssetMissing,
}

pub fn map_settings_write(err: SettingsWriteError) -> (r: AppError)
    ensures
        r@ == error::problem(ProblemCode::NotFound),
{
    AppError::from_code(ProblemCode::NotFound)
}

/// The settings as they were written.
pub fn settings_written<T>(done: Result<Result<T, SettingsWriteError>, DbFailure>) -> (r: Result<
    T,
    AppError,
>)
    ensures
        match done {
            Err(_) => error::refused(r, ProblemCode::Internal),
            Ok(Err(_)) => error::refused(r, ProblemCode::NotFound),
            Ok(Ok(t)) => r == Ok::<T, AppError>(t),
        },
{
    match done {
        Err(_) => Err(AppError::internal()),
        Ok(Err(err)) => Err(map_settings_write(err)),
        Ok(Ok(t)) => Ok(t),
    }
}

/// The logo or icon that a path names, where it names one.
pub fn parse_asset_kind<K>(known: Option<K>) -> (r: Result<K, AppError>)
    ensures
        match known {
            Some(k) => r == Ok::<K, AppError>(k),
            None => error::refused_at(r, ProblemCode::InvalidInput, "/asset"@),
        },
{
    match known {
        Some(k) => Ok(k),
        None => Err(AppError::with_source(ProblemCode::InvalidInput, "/asset")),
    }
}

/// A chunk of a PNG file is of this type.
pub open spec fn chunk_is(bytes: Seq<u8>, pos: int, a: u8, b: u8, c: u8, d: u8) -> bool {
    bytes[pos + 4] == a && bytes[pos + 5] == b && bytes[pos + 6] == c && bytes[pos + 7] == d
}

/// The length of the data of a chunk.
pub open spec fn chunk_length(bytes: Seq<u8>, pos: int) -> int {
    bytes[pos] * 16777216 + bytes[pos + 1] * 65536 + bytes[pos + 2] * 256 + bytes[pos + 3]
}

/// An animation chunk (`acTL`) comes before the first image data (`IDAT`), from `pos` on. The
/// chunks are walked by their lengths.
pub open spec fn animated_from(bytes: Seq<u8>, pos: int) -> bool
    decreases bytes.len() - pos,
{
    if pos < 0 || pos + 8 > bytes.len() {
        false
    } else if chunk_is(bytes, pos, 97, 99, 84, 76) {
        true
    } else if chunk_is(bytes, pos, 73, 68, 65, 84) {
        false
    } else if pos + 12 + chunk_length(bytes, pos) > bytes.len() {
        false
    } else {
        animated_from(bytes, pos + 12 + chunk_length(bytes, pos))
    }
}

/// Whether a PNG file is an animation.
pub fn is_apng(bytes: &[u8]) -> (r: bool)
    ensures
        r == animated_from(bytes@, 8),
{
    let n: usize = bytes.len();
    let mut pos: usize = 8;
    while pos <= n && n - pos >= 8
        invariant
            n == bytes@.len(),
            animated_from(bytes@, 8) == animated_from(bytes@, pos as int),
        decreases n - pos,
    {
        let len: u64 = bytes[pos] as u64 * 16777216 + bytes[pos + 1] as u64 * 65536 + bytes[pos
            + 2] as u64 * 256 + bytes[pos + 3] as u64;
        if bytes[pos + 4] == 97 && bytes[pos + 5] == 99 && bytes[pos + 6] == 84 && bytes[pos + 7]
            == 76 {
            return true;
        }
        if bytes[pos + 4] == 73 && bytes[pos + 5] == 68 && bytes[pos + 6] == 65 && bytes[pos + 7]
            == 84 {
            return false;
        }
        let room: u64 = (n - pos) as u64;
        if 12 + len > room {
            return false;
        }
        pos = pos + (12 + len) as usize;
    }
    false
}

/// The media type of an image, where it is one of those accepted: an animated PNG has a type of
/// its own.
pub open spec fn branding_mime(
    sniffed: Seq<char>,
    bytes: Seq<u8>,
    accepted: Seq<Seq<char>>,
) -> Option<Seq<char>> {
    let mime = if sniffed == "image/png"@ && animated_from(bytes, 8) {
        "image/apng"@
    } else {
        sniffed
    };
    if accepted.contains(mime) {
        Some(mime)
    } else {
        None
    }
}

/// The media type of an image, where it is accepted. `sniffed` is what its first bytes say.
pub fn sniff_branding_mime(sniffed: &str, bytes: &[u8], accepted: &[&str]) -> (r: Option<String>)
    ensures
        error::text_view(r) == branding_mime(
            sniffed@,
            bytes@,
            crate::query::names(accepted@),
        ),
{
    let mime = if same(sniffed, "image/png") && is_apng(bytes) {
        "image/apng"
    } else {
        sniffed
    };
    let mut i: usize = 0;
    while i < accepted.len()
        invariant
            i <= accepted@.len(),
            mime@ == if sniffed@ == "image/png"@ && animated_from(bytes@, 8) {
                "image/apng"@
            } else {
                sniffed@
            },
            forall|j: int| 0 <= j < i ==> #[trigger] crate::query::names(accepted@)[j] != mime@,
        decreases accepted.len() - i,
    {
        if same(accepted[i], mime) {
            assert(crate::query::names(accepted@)[i as int] == mime@);
            return Some(mime.to_owned());
        }
        i = i + 1;
    }
    assert(crate::query::names(accepted@).len() == accepted@.len());
    None
}

/// A declared length that is too large for a logo or an icon.
pub open spec fn declared_too_large(content_length: Option<&[u8]>) -> bool {
    match header::readable(content_length) {
        Some(s) => attachments::length_of(s) matches Some(n) && n > BRANDING_ASSET_MAX_BYTES,
        None => false,
    }
}

/// What the headers say of a logo or an icon that is sent: only raw bytes are taken, and not too
/// many.
pub fn branding_head(content_type: Option<&[u8]>, content_length: Option<&[u8]>) -> (r: Result<
    (),
    AppError,
>)
    ensures
        if header::media_type(content_type) != Some("application/octet-stream"@) {
            error::refused(r, ProblemCode::UnsupportedMediaType)
        } else if declared_too_large(content_length) {
            r matches Err(e) && e@ == error::problem_with(413, ProblemCode::InvalidInput)
        } else {
            r is Ok
        },
{
    let raw: bool = match read_media_type(content_type) {
        Some(t) => same(t.as_str(), "application/octet-stream"),
        None => false,
    };
    if !raw {
        return Err(AppError::from_code(ProblemCode::UnsupportedMediaType));
    }
    if let Some(s) = read_header(content_length) {
        if let Some(n) = read_length(s.as_str()) {
            if n > BRANDING_ASSET_MAX_BYTES as u64 {
                return Err(AppError::problem(413, ProblemCode::InvalidInput));
            }
        }
    }
    Ok(())
}

/// A logo or an icon that is kept: where, its digest, and its media type.
#[derive(Debug)]
pub struct BrandingAsset {
    pub key: Uuid,
    pub sha256: String,
    pub mime: String,
}

/// A record is that of these bytes.
pub open spec fn records(asset: BrandingAsset, bytes: Seq<u8>) -> bool {
    asset.sha256@ == digest::hex_text(digest::sha256(bytes))
}

/// The record of a logo or an icon: `read` is none where more bytes came than it may have;
/// `sniffed` is what its first bytes say.
pub fn branding_record(
    read: Option<&[u8]>,
    key: Uuid,
    sniffed: &str,
    accepted: &[&str],
) -> (r: Result<BrandingAsset, AppError>)
    ensures
        match read {
            None => r matches Err(e) && e@ == error::problem_with(413, ProblemCode::InvalidInput),
            Some(bytes) => if bytes@.len() == 0 {
                error::refused(r, ProblemCode::RawApplicationOctetStreamBodyRequired)
            } else {
                match branding_mime(sniffed@, bytes@, crate::query::names(accepted@)) {
                    None => error::refused(r, ProblemCode::UnsupportedBrandingAssetType),
                    Some(mime) => r matches Ok(asset) && asset.key == key && asset.mime@ == mime
                        && records(asset, bytes@),
                }
            },
        },
{
    let bytes = match read {
        None => {
            return Err(AppError::problem(413, ProblemCode::InvalidInput));
        },
        Some(b) => b,
    };
    if bytes.len() == 0 {
        return Err(AppError::from_code(ProblemCode::RawApplicationOctetStreamBodyRequired));
    }
    match sniff_branding_mime(sniffed, bytes, accepted) {
        None => Err(AppError::from_code(ProblemCode::UnsupportedBrandingAssetType)),
        Some(mime) => Ok(BrandingAsset { key, sha256: sha256_hex(bytes), mime }),
    }
}

/// What is deleted once the settings were, or were not, written.
#[derive(Clone, Copy, Debug, PartialEq, Eq, Structural)]
pub enum BrandingCleanup {
    Nothing,
    /// The object that was just stored.
    New,
    /// The object that the settings named before.
    Previous(Uuid),
}

/// What is deleted once the settings were, or were not, written with a new object: an object that
/// the settings name is never deleted.
pub fn branding_cleanup(
    written: &Result<Result<Option<Uuid>, SettingsWriteError>, DbFailure>,
) -> (r: BrandingCleanup)
    ensures
        r == match written {
            Ok(Ok(Some(previous))) => BrandingCleanup::Previous(*previous),
            Ok(Ok(None)) => BrandingCleanup::Nothing,
            _ => BrandingCleanup::New,
        },
{
    match written {
        Ok(Ok(Some(previous))) => BrandingCleanup::Previous(*previous),
        Ok(Ok(None)) => BrandingCleanup::Nothing,
        Ok(Err(_)) => BrandingCleanup::New,
        Err(_) => BrandingCleanup::New,
    }
}

/// An object that could not be stored whole is taken back, and the request fails.
pub fn branding_stored(stored: Result<(), DbFailure>) -> (r: Result<(), AppError>)
    ensures
        r is Ok <==> stored is Ok,
        r is Err ==> error::refused(r, ProblemCode::Internal),
{
    match stored {
        Ok(_) => Ok(()),
        Err(_) => Err(AppError::internal()),
    }
}

/// The first chunk that is control data for an animation or image data decides: `at` are the places
/// of the chunks from the first one on, each behind the length of the one before.
pub proof fn law_first_deciding_chunk_counts(bytes: Seq<u8>, at: Seq<int>)
    requires
        at.len() > 0,
        forall|i: int| 0 <= i < at.len() ==> 0 <= #[trigger] at[i] && at[i] + 8 <= bytes.len(),
        forall|i: int|
            0 <= i < at.len() - 1 ==> at[i + 1] == #[trigger] at[i] + 12 + bytes[at[i]] * 16777216
                + bytes[at[i] + 1] * 65536 + bytes[at[i] + 2] * 256 + bytes[at[i] + 3],
        forall|i: int|
            0 <= i < at.len() - 1 ==> bytes.subrange(#[trigger] at[i] + 4, at[i] + 8) != seq![
                97u8,
                99u8,
                84u8,
                76u8,
            ] && bytes.subrange(at[i] + 4, at[i] + 8) != seq![73u8, 68u8, 65u8, 84u8],
    ensures
        bytes.subrange(at.last() + 4, at.last() + 8) == seq![97u8, 99u8, 84u8, 76u8]
            ==> animated_from(bytes, at[0]),
        bytes.subrange(at.last() + 4, at.last() + 8) == seq![73u8, 68u8, 65u8, 84u8]
            ==> !animated_from(bytes, at[0]),
    decreases at.len(),
{
    let name = bytes.subrange(at[0] + 4, at[0] + 8);
    assert(name[0] == bytes[at[0] + 4] && name[1] == bytes[at[0] + 5] && name[2] == bytes[at[0] + 6]
        && name[3] == bytes[at[0] + 7]);
    if chunk_is(bytes, at[0], 97, 99, 84, 76) {
        assert(name =~= seq![97u8, 99u8, 84u8, 76u8]);
    }
    if chunk_is(bytes, at[0], 73, 68, 65, 84) {
        assert(name =~= seq![73u8, 68u8, 65u8, 84u8]);
    }
    if at.len() > 1 {
        let rest = at.drop_first();
        assert forall|i: int| 0 <= i < rest.len() implies 0 <= #[trigger] rest[i] && rest[i] + 8
            <= bytes.len() by {
            assert(rest[i] == at[i + 1]);
        }
        assert forall|i: int| 0 <= i < rest.len() - 1 implies rest[i + 1] == #[trigger] rest[i] + 12
            + bytes[rest[i]] * 16777216 + bytes[rest[i] + 1] * 65536 + bytes[rest[i] + 2] * 256
            + bytes[rest[i] + 3] && bytes.subrange(rest[i] + 4, rest[i] + 8) != seq![
            97u8,
            99u8,
            84u8,
            76u8,
        ] && bytes.subrange(rest[i] + 4, rest[i] + 8) != seq![73u8, 68u8, 65u8, 84u8] by {
            assert(rest[i] == at[i + 1]);
            assert(rest[i + 1] == at[i + 2]);
        }
        law_first_deciding_chunk_counts(bytes, rest);
        assert(at[1] == at[0] + 12 + chunk_length(bytes, at[0]));
        assert(rest[0] == at[1]);
        assert(rest.last() == at.last());
    } else {
        assert(at.last() == at[0]);
    }
}

/// A type that is accepted is one of those that are, and that of the bytes: an animated image
/// counts as one.
pub proof fn law_accepted_type_is_that_of_the_bytes(
    sniffed: Seq<char>,
    bytes: Seq<u8>,
    accepted: Seq<Seq<char>>,
)
    ensures
        branding_mime(sniffed, bytes, accepted) matches Some(mime) ==> accepted.contains(mime) && (
        mime == sniffed || (sniffed == "image/png"@ && mime == "image/apng"@)),
        sniffed == "image/png"@ && animated_from(bytes, 8) ==> branding_mime(
            sniffed,
            bytes,
            accepted,
        ) != Some("image/png"@),
        accepted.contains(sniffed) && !animated_from(bytes, 8) ==> branding_mime(
            sniffed,
            bytes,
            accepted,
        ) == Some(sniffed),
{
    reveal_strlit("image/png");
    reveal_strlit("image/apng");
    assert("image/png"@.len() != "image/apng"@.len());
}

/// The setting at fault is the first whose key is not known or whose value is not one of it; there
/// is none exactly where all are known.
pub proof fn law_first_bad_setting_is_named(
    members: Seq<(Seq<char>, JsonView)>,
    checks: Seq<SettingCheck>,
)
    requires
        members.len() == checks.len(),
    ensures
        match first_bad_setting(members, checks) {
            Some(key) => exists|k: int|
                0 <= k < members.len() && (#[trigger] members[k]).0 == key && !setting_ok(
                    members[k].1,
                    checks[k],
                ) && forall|j: int|
                    0 <= j < k ==> setting_ok((#[trigger] members[j]).1, checks[j]),
            None => forall|j: int|
                0 <= j < members.len() ==> setting_ok((#[trigger] members[j]).1, checks[j]),
        },
    decreases members.len(),
{
    if members.len() > 0 {
        if !setting_ok(members[0].1, checks[0]) {
            assert(members[0].0 == first_bad_setting(members, checks)->0);
        } else {
            let rest = members.drop_first();
            let more = checks.drop_first();
            law_first_bad_setting_is_named(rest, more);
            match first_bad_setting(rest, more) {
                Some(key) => {
                    let k = choose|k: int|
                        0 <= k < rest.len() && (#[trigger] rest[k]).0 == key && !setting_ok(
                            rest[k].1,
                            more[k],
                        ) && forall|j: int|
                            0 <= j < k ==> setting_ok((#[trigger] rest[j]).1, more[j]);
                    assert(members[k + 1].0 == key);
                    assert forall|j: int| 0 <= j < k + 1 implies setting_ok(
                        (#[trigger] members[j]).1,
                        checks[j],
                    ) by {
                        if j > 0 {
                            assert(rest[j - 1] == members[j]);
                            assert(more[j - 1] == checks[j]);
                        }
                    }
                },
                None => {
                    assert forall|j: int| 0 <= j < members.len() implies setting_ok(
                        (#[trigger] members[j]).1,
                        checks[j],
                    ) by {
                        if j > 0 {
                            assert(rest[j - 1] == members[j]);
                            assert(more[j - 1] == checks[j]);
                        }
                    }
                },
            }
        }
    }
}

/// Each value of an audit entry is answered under the name that it is kept by.
pub proof fn law_audit_is_answered_as_kept(row: AuditRow, out: AuditLogItemOutput)
    requires
        row.answered(&out),
    ensures
        ids::uuid_of(out.id@) == Some(row.id.0),
        match (row.actor_user_id, out.actor_user_id) {
            (Some(id), Some(s)) => ids::uuid_of(s@) == Some(id.0),
            (None, None) => true,
            _ => false,
        },
        match (row.workspace_id, out.workspace_id) {
            (Some(id), Some(s)) => ids::uuid_of(s@) == Some(id.0),
            (None, None) => true,
            _ => false,
        },
        out.verb@ == row.verb@,
        error::text_view(out.target_type) == error::text_view(row.target_type),
        match (row.target_id, out.target_id) {
            (Some(id), Some(s)) => ids::uuid_of(s@) == Some(id.0),
            (None, None) => true,
            _ => false,
        },
        out.payload@ == payload_object(row.payload@),
        error::text_view(out.ip) == error::text_view(row.ip),
        out.created_at == row.created_at,
{
    ids::law_uuid_round_trip(row.id.0);
    if let Some(id) = row.actor_user_id {
        ids::law_uuid_round_trip(id.0);
    }
    if let Some(id) = row.workspace_id {
        ids::law_uuid_round_trip(id.0);
    }
    if let Some(id) = row.target_id {
        ids::law_uuid_round_trip(id.0);
    }
}

/// Each value of an admin workspace is answered under the name that it is kept by.
pub proof fn law_admin_workspace_is_answered_as_kept(
    row: AdminWorkspaceRow,
    out: AdminWorkspaceItemOutput,
)
    requires
        row.answered(&out),
    ensures
        ids::uuid_of(out.id@) == Some(row.id.0),
        out.slug@ == row.slug@,
        out.name@ == row.name@,
        out.created_at == row.created_at,
{
    ids::law_uuid_round_trip(row.id.0);
}

/// Each value of a user is answered under the name that it is kept by.
pub proof fn law_user_is_answered_as_kept(row: AdminUserRow, out: AdminUserItemOutput)
    requires
        answers_user(row, out),
    ensures
        ids::uuid_of(out.id@) == Some(row.id.0),
        out.email@ == row.email@,
        out.given_name@ == row.given_name@,
        error::text_view(out.family_name) == error::text_view(row.family_name),
        out.instance_admin == row.instance_admin,
        out.suspended_at == row.suspended_at,
        out.deleted_at == row.deleted_at,
        match row.deleted_at {
            Some(at) => out.erase_at matches Some(e) && e@ - at@ == ERASE_AFTER_DAYS * 24 * 3600 * 1_000_000,
            None => out.erase_at is None,
        },
        out.created_at == row.created_at,
{
    ids::law_uuid_round_trip(row.id.0);
}

/// Each value of a legal document and of the settings is told under the name that it is kept by.
pub proof fn law_documents_and_settings_are_told_as_kept(
    doc: LegalDocument,
    snapshot: SettingsSnapshot,
    restart_pending: Vec<String>,
    ee_features: Vec<String>,
    d: LegalDocumentOutput,
    s: AdminInstanceSettingsOutput,
)
    requires
        call_ensures(legal_output, (doc,), d),
        call_ensures(admin_settings_output, (snapshot, restart_pending, ee_features), s),
    ensures
        d.kind == doc.kind,
        d.version == doc.version,
        d.title == doc.title,
        d.body_html == doc.body_html,
        d.effective_at == doc.effective_at,
        d.required == doc.required,
        d.published_at == doc.published_at,
        s.version == snapshot.revision,
        s.values == snapshot.values,
        s.overridden == snapshot.overridden,
        s.env_applied == snapshot.env_applied,
        s.restart_required == restart_pending,
        s.ee_features == ee_features,
{
}

/// A change of settings keeps the members in their order: each is cleared where it is null, and
/// else takes the value that was settled on.
pub proof fn law_settings_are_changed_in_order(
    body: &Json,
    checks: &[SettingCheck],
    r: Result<Vec<(String, Option<Json>)>, AppError>,
)
    requires
        body is Object,
        checks@.len() == body@->Object_0.len(),
        body matches Json::Object(m) ==> checks@.len() == m@.len(),
        call_ensures(parse_settings_patch, (body, checks), r),
        r is Ok,
    ensures
        r->Ok_0@.len() == body@->Object_0.len(),
        r->Ok_0@.len() > 0,
        forall|i: int|
            0 <= i < r->Ok_0@.len() ==> {
                let item = #[trigger] r->Ok_0@[i];
                let member = body@->Object_0[i];
                &&& checks@[i].key is Some && item.0@ == checks@[i].key->0@
                &&& item.1 is None <==> member.1 is Null
                &&& item.1 is Some ==> checks@[i].value is Some && item.1->0@
                    == checks@[i].value->0@
            },
{
}

} // verus!
