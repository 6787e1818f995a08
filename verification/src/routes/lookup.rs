//! Items by the id that users see.

use vstd::prelude::*;
use vstd::string::*;
use crate::answer::Answer;
use crate::error;
use crate::error::{AppError, ErrorView, ProblemCode};
use crate::ids;
use crate::ids::{Uuid, text_of};
use crate::rate_limit;
use crate::rate_limit::{RateLimiter, WINDOW, charge};
use crate::store::Refusal;
use crate::text;
use crate::text::{join2, trim};

verus! {

/// Lookups that one address, and one user, may make within five minutes.
pub const LOOKUP_IP_LIMIT: u32 = 120;

pub const LOOKUP_USER_LIMIT: u32 = 60;

/// The most characters of an id that users see.
pub const DISPLAY_ID_MAX: usize = 64;

/// The query of a lookup.
#[derive(Debug)]
pub struct LookupQuery {
    pub project_id: Option<Uuid>,
}

/// An id that users see holds something, and not too much.
pub fn check_display_id(display_id: &str) -> (r: Result<(), AppError>)
    ensures
        r is Ok <==> text::trimmed(display_id@).len() > 0 && display_id@.len() <= DISPLAY_ID_MAX,
        r is Err ==> error::refused(r, ProblemCode::InvalidInput),
{
    if trim(display_id).unicode_len() == 0 || display_id.unicode_len() > DISPLAY_ID_MAX {
        Err(AppError::from_code(ProblemCode::InvalidInput))
    } else {
        Ok(())
    }
}

/// Charges an address with a lookup.
pub fn lookup_ip_limit(limiter: &mut RateLimiter, ip: &str, now: u64) -> (r: Result<(), AppError>)
    requires
        old(limiter).wf(),
    ensures
        final(limiter).wf(),
        rate_limit::charged_once(
            old(limiter)@,
            final(limiter)@,
            "lookup:ip:"@ + ip@,
            LOOKUP_IP_LIMIT,
            WINDOW,
            now,
            error::told(r),
        ),
{
    let key = join2("lookup:ip:", ip);
    charge(limiter, key.as_str(), LOOKUP_IP_LIMIT, WINDOW, now)
}

/// Charges a user with a lookup.
pub fn lookup_user_limit(limiter: &mut RateLimiter, user_id: Uuid, now: u64) -> (r: Result<
    (),
    AppError,
>)
    requires
        old(limiter).wf(),
    ensures
        final(limiter).wf(),
        rate_limit::charged_once(
            old(limiter)@,
            final(limiter)@,
            "lookup:user:"@ + ids::uuid_text(user_id.0),
            LOOKUP_USER_LIMIT,
            WINDOW,
            now,
            error::told(r),
        ),
{
    let id = user_id.text();
    let key = join2("lookup:user:", id.as_str());
    charge(limiter, key.as_str(), LOOKUP_USER_LIMIT, WINDOW, now)
}

/// An item that was found, as the store keeps it.
#[derive(Debug)]
pub struct LookupItem {
    pub kind: String,
    pub id: Uuid,
    pub display_id: String,
    pub title: String,
    pub project_id: Option<Uuid>,
}

/// An item that was found as it is answered.
#[derive(Debug)]
pub struct LookupItemOutput {
    pub kind: String,
    pub id: String,
    pub display_id: String,
    pub title: String,
    pub project_id: Option<String>,
}

impl Answer for LookupItem {
    type Out = LookupItemOutput;

    open spec fn answered(&self, out: &LookupItemOutput) -> bool {
        &&& out.kind@ == self.kind@
        &&& out.id@ == ids::uuid_text(self.id.0)
        &&& out.display_id@ == self.display_id@
        &&& out.title@ == self.title@
        &&& error::text_view(out.project_id) == ids::opt_text(self.project_id)
    }

    fn answer(&self) -> (r: LookupItemOutput) {
        LookupItemOutput {
            kind: self.kind.clone(),
            id: self.id.text(),
            display_id: self.display_id.clone(),
            title: self.title.clone(),
            project_id: text_of(self.project_id),
        }
    }
}

/// Why the store refused a lookup. Who may not see the workspace is told that there is none.
#[derive(Clone, Copy, Debug, PartialEq, Eq, Structural)]
pub enum LookupDbError {
    NotFound,
    Forbidden,
}

impl Refusal for LookupDbError {
    open spec fn problem(&self) -> ErrorView {
        error::problem(ProblemCode::NotFound)
    }

    fn refusal(&self) -> (r: AppError) {
        AppError::from_code(ProblemCode::NotFound)
    }
}

/// Each value of a lookup item is answered under the name that it is kept by.
pub proof fn law_lookup_item_is_answered_as_kept(row: LookupItem, out: LookupItemOutput)
    requires
        row.answered(&out),
    ensures
        out.kind@ == row.kind@,
        ids::uuid_of(out.id@) == Some(row.id.0),
        out.display_id@ == row.display_id@,
        out.title@ == row.title@,
        match (row.project_id, out.project_id) {
            (Some(id), Some(s)) => ids::uuid_of(s@) == Some(id.0),
            (None, None) => true,
            _ => false,
        },
{
    ids::law_uuid_round_trip(row.id.0);
    if let Some(id) = row.project_id {
        ids::law_uuid_round_trip(id.0);
    }
}

/// What one address is told by this limit does not depend on the requests of another: `lookup_ip_limit`
/// answers `b` alike behind a request of `a` and without it.
pub proof fn law_lookup_ip_limit_is_one_for_each_address(
    first: &mut RateLimiter,
    second: &mut RateLimiter,
    alone: &mut RateLimiter,
    a: &str,
    b: &str,
    now: u64,
    later: u64,
    told_a: Result<(), AppError>,
    told_b: Result<(), AppError>,
    told_alone: Result<(), AppError>,
)
    requires
        first.wf(),
        second.wf(),
        alone.wf(),
        a@ != b@,
        old(first)@.dom().len() < rate_limit::MAX_KEYS,
        old(second)@ == final(first)@,
        old(alone)@ == old(first)@,
        call_ensures(lookup_ip_limit, (first, a, now), told_a),
        call_ensures(lookup_ip_limit, (second, b, later), told_b),
        call_ensures(lookup_ip_limit, (alone, b, later), told_alone),
    ensures
        told_b is Ok <==> told_alone is Ok,
        error::told(told_b) == error::told(told_alone),
{
    rate_limit::lemma_keys_apart("lookup:ip:"@, a@, b@);
    rate_limit::lemma_other_keys_stay(
        old(first)@,
        final(first)@,
        "lookup:ip:"@ + a@,
        LOOKUP_IP_LIMIT,
        WINDOW,
        now,
        "lookup:ip:"@ + b@,
    );
}

/// What one user is told by this limit does not depend on the requests of another: `lookup_user_limit`
/// answers `b` alike behind a request of `a` and without it.
pub proof fn law_lookup_user_limit_is_one_for_each_user(
    first: &mut RateLimiter,
    second: &mut RateLimiter,
    alone: &mut RateLimiter,
    a: Uuid,
    b: Uuid,
    now: u64,
    later: u64,
    told_a: Result<(), AppError>,
    told_b: Result<(), AppError>,
    told_alone: Result<(), AppError>,
)
    requires
        first.wf(),
        second.wf(),
        alone.wf(),
        a != b,
        old(first)@.dom().len() < rate_limit::MAX_KEYS,
        old(second)@ == final(first)@,
        old(alone)@ == old(first)@,
        call_ensures(lookup_user_limit, (first, a, now), told_a),
        call_ensures(lookup_user_limit, (second, b, later), told_b),
        call_ensures(lookup_user_limit, (alone, b, later), told_alone),
    ensures
        told_b is Ok <==> told_alone is Ok,
        error::told(told_b) == error::told(told_alone),
{
    ids::law_uuid_texts_are_apart(a.0, b.0);
    rate_limit::lemma_keys_apart("lookup:user:"@, ids::uuid_text(a.0), ids::uuid_text(b.0));
    rate_limit::lemma_other_keys_stay(
        old(first)@,
        final(first)@,
        "lookup:user:"@ + ids::uuid_text(a.0),
        LOOKUP_USER_LIMIT,
        WINDOW,
        now,
        "lookup:user:"@ + ids::uuid_text(b.0),
    );
}

} // verus!
