//! The holidays of a workspace, and its calendar feed.

use vstd::prelude::*;
use crate::answer::Answer;
use crate::error;
use crate::error::{AppError, DbFailure, ErrorView, ProblemCode};
use crate::header;
use crate::header::{Header, no_headers, put, put_sendable};
use crate::rate_limit;
use crate::rate_limit::{RateLimiter, charge};
use crate::store::Refusal;
use crate::text::{join2, same};
use crate::time;
use crate::time::Date;

verus! {

/// The nanoseconds within which the feeds that one address reads are counted, and how many it may
/// read.
pub const ICS_RATE_WINDOW: u64 = 60_000_000_000;

pub const ICS_RATE_LIMIT: u32 = 60;

/// Why the store refused a request about holidays. Who may not see them is told that there are
/// none.
#[derive(Clone, Copy, Debug, PartialEq, Eq, Structural)]
pub enum HolidayDbError {
    NotFound,
    Forbidden,
}

pub fn map_holiday_error(err: HolidayDbError) -> (r: AppError)
    ensures
        r@ == error::problem(ProblemCode::NotFound),
{
    AppError::from_code(ProblemCode::NotFound)
}

impl Refusal for HolidayDbError {
    open spec fn problem(&self) -> ErrorView {
        error::problem(ProblemCode::NotFound)
    }

    fn refusal(&self) -> (r: AppError) {
        map_holiday_error(*self)
    }
}

/// Why the store refused a request about a feed.
#[derive(Clone, Copy, Debug, PartialEq, Eq, Structural)]
pub enum IcsDbError {
    NotFound,
    Forbidden,
}

pub fn map_ics_error(err: IcsDbError) -> (r: AppError)
    ensures
        r@ == error::problem(ProblemCode::NotFound),
{
    AppError::from_code(ProblemCode::NotFound)
}

impl Refusal for IcsDbError {
    open spec fn problem(&self) -> ErrorView {
        error::problem(ProblemCode::NotFound)
    }

    fn refusal(&self) -> (r: AppError) {
        map_ics_error(*self)
    }
}

/// The holidays of a workspace, as the store keeps them.
#[derive(Debug)]
pub struct HolidayList {
    pub can_edit: bool,
    pub items: Vec<Date>,
}

/// The holidays of a workspace as they are answered.
#[derive(Debug)]
pub struct HolidaysListResponse {
    pub can_edit: bool,
    pub items: Vec<String>,
}

impl Answer for Date {
    type Out = String;

    open spec fn answered(&self, out: &String) -> bool {
        out@ == time::date_pattern(self@ as i32)
    }

    fn answer(&self) -> (r: String) {
        self.by_pattern()
    }
}

impl Answer for HolidayList {
    type Out = HolidaysListResponse;

    open spec fn answered(&self, out: &HolidaysListResponse) -> bool {
        out.can_edit == self.can_edit && self.items.answered(&out.items)
    }

    fn answer(&self) -> (r: HolidaysListResponse) {
        HolidaysListResponse { can_edit: self.can_edit, items: self.items.answer() }
    }
}

/// The day that a path names, where it names one.
pub fn holiday_param(day: Option<Date>) -> (r: Result<Date, AppError>)
    ensures
        match day {
            Some(d) => r == Ok::<_, AppError>(d),
            None => error::refused(r, ProblemCode::NotFound),
        },
{
    match day {
        Some(d) => Ok(d),
        None => Err(AppError::from_code(ProblemCode::NotFound)),
    }
}

/// Charges an address with the reading of a feed.
pub fn enforce_ics_limit(limiter: &mut RateLimiter, ip: &str, now: u64) -> (r: Result<
    (),
    AppError,
>)
    requires
        old(limiter).wf(),
    ensures
        final(limiter).wf(),
        rate_limit::charged_once(
            old(limiter)@,
            final(limiter)@,
            "ics-ip:"@ + ip@,
            ICS_RATE_LIMIT,
            ICS_RATE_WINDOW,
            now,
            error::told(r),
        ),
{
    let key = join2("ics-ip:", ip);
    charge(limiter, key.as_str(), ICS_RATE_LIMIT, ICS_RATE_WINDOW, now)
}

/// What a client asks of a feed.
#[derive(Clone, Copy, Debug, PartialEq, Eq, Structural)]
pub enum IcsReadKind {
    Options,
    Get,
    Head,
    Caldav,
}

/// What a method asks of a feed, if anything.
pub open spec fn ics_kind(method: Seq<char>) -> Option<IcsReadKind> {
    if method == "OPTIONS"@ {
        Some(IcsReadKind::Options)
    } else if method == "GET"@ {
        Some(IcsReadKind::Get)
    } else if method == "HEAD"@ {
        Some(IcsReadKind::Head)
    } else if method == "PROPFIND"@ || method == "REPORT"@ {
        Some(IcsReadKind::Caldav)
    } else {
        None
    }
}

/// What a method asks of a feed: any other is answered as if there were none.
pub fn ics_method(method: &str) -> (r: Result<IcsReadKind, AppError>)
    ensures
        match ics_kind(method@) {
            Some(kind) => r == Ok::<_, AppError>(kind),
            None => error::refused(r, ProblemCode::NotFound),
        },
{
    if same(method, "OPTIONS") {
        Ok(IcsReadKind::Options)
    } else if same(method, "GET") {
        Ok(IcsReadKind::Get)
    } else if same(method, "HEAD") {
        Ok(IcsReadKind::Head)
    } else if same(method, "PROPFIND") || same(method, "REPORT") {
        Ok(IcsReadKind::Caldav)
    } else {
        Err(AppError::from_code(ProblemCode::NotFound))
    }
}

/// A feed, as the store makes it.
#[derive(Debug)]
pub struct CalendarFeed {
    pub ics: String,
    pub etag: String,
}

/// What the body of an answer holds.
#[derive(Debug)]
pub enum IcsBody {
    Empty,
    Calendar(String),
    /// The document that says that nothing is at an address.
    Missing { href: String },
    /// The document that says what is at an address.
    Listing { href: String, ics: String, etag: String },
}

/// The contents of an `IcsBody`.
#[verifier::ext_equal]
pub enum IcsBodyView {
    Empty,
    Calendar(Seq<char>),
    Missing { href: Seq<char> },
    Listing { href: Seq<char>, ics: Seq<char>, etag: Seq<char> },
}

impl View for IcsBody {
    type V = IcsBodyView;

    open spec fn view(&self) -> IcsBodyView {
        match self {
            IcsBody::Empty => IcsBodyView::Empty,
            IcsBody::Calendar(s) => IcsBodyView::Calendar(s@),
            IcsBody::Missing { href } => IcsBodyView::Missing { href: href@ },
            IcsBody::Listing { href, ics, etag } => IcsBodyView::Listing {
                href: href@,
                ics: ics@,
                etag: etag@,
            },
        }
    }
}

/// The answer to a request for a feed.
#[derive(Debug)]
pub struct IcsReply {
    pub status: u16,
    pub headers: Vec<Header>,
    pub body: IcsBody,
}

/// The contents of an `IcsReply`.
#[verifier::ext_equal]
pub struct IcsReplyView {
    pub status: u16,
    pub headers: Seq<(Seq<char>, Seq<char>)>,
    pub body: IcsBodyView,
}

impl View for IcsReply {
    type V = IcsReplyView;

    open spec fn view(&self) -> IcsReplyView {
        IcsReplyView {
            status: self.status,
            headers: header::header_views(self.headers@),
            body: self.body@,
        }
    }
}

/// The headers before a calendar.
pub open spec fn calendar_header_views(etag: Seq<char>) -> Seq<(Seq<char>, Seq<char>)> {
    header::with_header(seq![("content-type"@, "text/calendar; charset=utf-8"@)], "etag"@, etag)
}

/// The headers before a document about a calendar.
pub open spec fn dav_header_views() -> Seq<(Seq<char>, Seq<char>)> {
    seq![("content-type"@, "application/xml; charset=utf-8"@), ("dav"@, "1, calendar-access"@)]
}

/// The answer about a feed.
pub open spec fn ics_view(
    kind: IcsReadKind,
    token: Seq<char>,
    found: Option<CalendarFeed>,
) -> Result<IcsReplyView, ErrorView> {
    let href = "/api/v1/ics/"@ + token;
    match (kind, found) {
        (IcsReadKind::Options, None) | (IcsReadKind::Caldav, None) => Ok(
            IcsReplyView {
                status: 404,
                headers: dav_header_views(),
                body: IcsBodyView::Missing { href },
            },
        ),
        (_, None) => Err(error::problem(ProblemCode::NotFound)),
        (IcsReadKind::Options, Some(_)) => Ok(
            IcsReplyView {
                status: 204,
                headers: seq![
                    ("dav"@, "1, calendar-access"@),
                    ("allow"@, "OPTIONS, GET, HEAD, PROPFIND, REPORT"@),
                ],
                body: IcsBodyView::Empty,
            },
        ),
        (IcsReadKind::Caldav, Some(feed)) => Ok(
            IcsReplyView {
                status: 207,
                headers: dav_header_views(),
                body: IcsBodyView::Listing { href, ics: feed.ics@, etag: feed.etag@ },
            },
        ),
        (IcsReadKind::Head, Some(feed)) => Ok(
            IcsReplyView {
                status: 200,
                headers: calendar_header_views(feed.etag@),
                body: IcsBodyView::Empty,
            },
        ),
        (IcsReadKind::Get, Some(feed)) => Ok(
            IcsReplyView {
                status: 200,
                headers: calendar_header_views(feed.etag@),
                body: IcsBodyView::Calendar(feed.ics@),
            },
        ),
    }
}

/// The headers before a calendar.
fn calendar_headers(etag: &str) -> (r: Vec<Header>)
    ensures
        header::header_views(r@) == calendar_header_views(etag@),
{
    let mut headers = no_headers();
    put(&mut headers, "content-type", "text/calendar; charset=utf-8");
    assert(header::header_views(headers@) == seq![
        ("content-type"@, "text/calendar; charset=utf-8"@),
    ]);
    put_sendable(&mut headers, "etag", etag);
    headers
}

/// The headers before a document about a calendar.
fn dav_xml_headers() -> (r: Vec<Header>)
    ensures
        header::header_views(r@) == dav_header_views(),
{
    let mut headers = no_headers();
    put(&mut headers, "content-type", "application/xml; charset=utf-8");
    put(&mut headers, "dav", "1, calendar-access");
    headers
}

/// The answer about a feed, and to what a client may do with it.
pub fn ics_read(kind: IcsReadKind, token: &str, found: Result<Option<CalendarFeed>, DbFailure>) -> (r:
    Result<IcsReply, AppError>)
    ensures
        match found {
            Err(_) => error::refused(r, ProblemCode::Internal),
            Ok(feed) => match r {
                Ok(reply) => ics_view(kind, token@, feed) == Ok::<_, ErrorView>(reply@),
                Err(e) => ics_view(kind, token@, feed) == Err::<IcsReplyView, _>(e@),
            },
        },
{
    let found = match found {
        Err(_) => {
            return Err(AppError::internal());
        },
        Ok(f) => f,
    };
    let href = join2("/api/v1/ics/", token);
    let feed = match found {
        None => {
            return match kind {
                IcsReadKind::Options | IcsReadKind::Caldav => Ok(
                    IcsReply {
                        status: 404,
                        headers: dav_xml_headers(),
                        body: IcsBody::Missing { href },
                    },
                ),
                IcsReadKind::Get | IcsReadKind::Head => Err(
                    AppError::from_code(ProblemCode::NotFound),
                ),
            };
        },
        Some(feed) => feed,
    };
    match kind {
        IcsReadKind::Options => {
            let mut headers = no_headers();
            put(&mut headers, "dav", "1, calendar-access");
            put(&mut headers, "allow", "OPTIONS, GET, HEAD, PROPFIND, REPORT");
            assert(header::header_views(headers@) == seq![
                ("dav"@, "1, calendar-access"@),
                ("allow"@, "OPTIONS, GET, HEAD, PROPFIND, REPORT"@),
            ]);
            Ok(IcsReply { status: 204, headers, body: IcsBody::Empty })
        },
        IcsReadKind::Caldav => Ok(
            IcsReply {
                status: 207,
                headers: dav_xml_headers(),
                body: IcsBody::Listing { href, ics: feed.ics, etag: feed.etag },
            },
        ),
        IcsReadKind::Head => Ok(
            IcsReply {
                status: 200,
                headers: calendar_headers(feed.etag.as_str()),
                body: IcsBody::Empty,
            },
        ),
        IcsReadKind::Get => {
            let headers = calendar_headers(feed.etag.as_str());
            Ok(IcsReply { status: 200, headers, body: IcsBody::Calendar(feed.ics) })
        },
    }
}

/// A request for the headers of a feed is answered as one for the feed, but for the body.
pub proof fn law_head_answers_alike(token: Seq<char>, found: Option<CalendarFeed>)
    ensures
        match (
            ics_view(IcsReadKind::Get, token, found),
            ics_view(IcsReadKind::Head, token, found),
        ) {
            (Ok(get), Ok(head)) => head == (IcsReplyView { body: IcsBodyView::Empty, ..get }),
            (Err(a), Err(b)) => a == b,
            _ => false,
        },
{
}

/// A calendar is given under its own token and as it is; one that is not there is told as missing,
/// and nothing of a calendar is.
pub proof fn law_calendar_is_given_as_it_is(token: Seq<char>, feed: CalendarFeed)
    ensures
        ics_view(IcsReadKind::Get, token, Some(feed)) matches Ok(get) && get.status == 200
            && get.body == IcsBodyView::Calendar(feed.ics@),
        ics_view(IcsReadKind::Caldav, token, Some(feed)) matches Ok(listing) && listing.status == 207
            && (listing.body matches IcsBodyView::Listing { href, ics, etag } && href
            == "/api/v1/ics/"@ + token && ics == feed.ics@ && etag == feed.etag@),
        ics_view(IcsReadKind::Get, token, None) is Err,
        ics_view(IcsReadKind::Head, token, None) is Err,
        ics_view(IcsReadKind::Caldav, token, None) matches Ok(missing) && missing.status == 404,
        ics_view(IcsReadKind::Options, token, None) matches Ok(missing) && missing.status == 404,
        ics_view(IcsReadKind::Options, token, Some(feed)) matches Ok(options) && options.status
            == 204 && options.body is Empty,
{
}

/// A method is known by its name alone, and two names stand for the same kind only where both ask
/// for a listing.
pub proof fn law_methods_are_told_apart(a: Seq<char>, b: Seq<char>)
    requires
        a != b,
        ics_kind(a) is Some,
    ensures
        ics_kind(a) == ics_kind(b) ==> ics_kind(a) == Some(IcsReadKind::Caldav),
{
}

/// What one address is told by this limit does not depend on the requests of another: `enforce_ics_limit`
/// answers `b` alike behind a request of `a` and without it.
pub proof fn law_enforce_ics_limit_is_one_for_each_address(
    first: &mut RateLimiter,
    second: &mut RateLimiter,
    alone: &mut RateLimiter,
    a: &str,
    b: &str,
    now: u64,
    later: u64,
    told_a: Result<(), AppError>,
    told_b: Result<(), AppError>,
    told_alone: Result<(), AppError>,
)
    requires
        first.wf(),
        second.wf(),
        alone.wf(),
        a@ != b@,
        old(first)@.dom().len() < rate_limit::MAX_KEYS,
        old(second)@ == final(first)@,
        old(alone)@ == old(first)@,
        call_ensures(enforce_ics_limit, (first, a, now), told_a),
        call_ensures(enforce_ics_limit, (second, b, later), told_b),
        call_ensures(enforce_ics_limit, (alone, b, later), told_alone),
    ensures
        told_b is Ok <==> told_alone is Ok,
        error::told(told_b) == error::told(told_alone),
{
    rate_limit::lemma_keys_apart("ics-ip:"@, a@, b@);
    rate_limit::lemma_other_keys_stay(
        old(first)@,
        final(first)@,
        "ics-ip:"@ + a@,
        ICS_RATE_LIMIT,
        ICS_RATE_WINDOW,
        now,
        "ics-ip:"@ + b@,
    );
}

} // verus!
