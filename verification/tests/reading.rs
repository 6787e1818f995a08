//! What is looked up, searched, shared and followed.

use fvoci_http::answer::Answer;
use fvoci_http::authz::{Access, ApiTokenScope, ParentKinds, RequestAuth, SessionUser};
use fvoci_http::error::{ApiError, AppError, DbFailure, Params, ProblemCode};
use fvoci_http::header::Header;
use fvoci_http::ids::Uuid;
use fvoci_http::json::Json;
use fvoci_http::rate_limit::RateLimiter;
use fvoci_http::routes::attachments::FileReply;
use fvoci_http::routes::document_tags::{
    map_tag_error, pool_query, tag_input, tag_patch, tag_to_assign, PoolQuery, PoolTag, TagDbError,
    TagPool, TagRow,
};
use fvoci_http::routes::groups::{
    map_group_error, GroupDbError, GroupGrant, GroupMember, GroupRow,
};
use fvoci_http::routes::ics::{
    enforce_ics_limit, holiday_param, ics_method, ics_read, map_holiday_error, map_ics_error,
    CalendarFeed, HolidayDbError, HolidayList, IcsBody, IcsDbError, IcsReadKind,
};
use fvoci_http::routes::lookup::{
    check_display_id, lookup_ip_limit, lookup_user_limit, LookupDbError, LookupItem,
};
use fvoci_http::routes::notifications::{
    check_flags, filter_name, flags_reply, notification_reply, parse_list_query,
    NotificationListQuery, NotificationPage, NotificationRow,
};
use fvoci_http::routes::project_views::{map_view_error, ProjectViewRow, ViewDbError};
use fvoci_http::routes::revisions::{
    capture_live, capture_source, captured, list_input, map_revision_error, restore_body,
    restore_reply, revision_created, revision_credential, revision_input, CaptureStep,
    CapturedRevision, RestoreOutcome, RevisionAccess, RevisionMeta, RevisionPage, RevisionTarget,
};
use fvoci_http::routes::search::{
    global_request, global_search_input, invalid_cursor, kind_name, search_answer, search_limits,
    search_unavailable, workspace_request, workspace_search_input, GlobalSearchQuery, Score, SearchPage, SearchQueryError,
    SearchResultItem, SearchSnippetPiece, WorkspaceSearchQuery,
};
use fvoci_http::routes::share::{
    document_body_response, enforce_share_limit, ensure_sharing_enabled, link_created,
    map_share_error, no_referrer, parse_format, pdf_document, pdf_reply, share_target,
    shared_body, shared_file, shell_head_meta, BodyFormat, CreatedShareLink, PdfFailure, PdfReply,
    ShareBodyQuery, ShareDbError, ShareLinkRecord, SharePdfQuery, SharePublicMeta, ShareTarget,
    SharedDocument,
};
use fvoci_http::routes::share_search::{
    distinct, found_ids, index_hits, index_query, plan_search, rank_hits, search_reply,
    search_text, search_unavailable as no_search, share_query, share_snippet, FoundHit, HitKind,
    HitPages, IndexOutcome, MeiliHit, SearchPlan, ShareScope, ShareSearchQuery, ShareSearchRow,
};
use fvoci_http::routes::stars::{
    map_star_error, parse_body_uuid, parse_star_target, RecentItem, StarDbError, StarItem,
    StarTarget,
};
use fvoci_http::routes::task_body::RevisionDbError;
use fvoci_http::routes::workspaces::{
    create_input, map_workspace_error, my_workspaces, open_reply, patch_input, WorkspaceDbError,
    WorkspaceListRow, WorkspaceMeta,
};
use fvoci_http::store::{
    api_stored, api_stored_reply, present, present_reply, stored, stored_reply,
};
use fvoci_http::time::{Date, Timestamp};

fn at(micros: i64) -> Timestamp {
    Timestamp::from_micros(micros).unwrap()
}

fn code<T: std::fmt::Debug>(r: Result<T, AppError>) -> ProblemCode {
    r.unwrap_err().code
}

fn place<T: std::fmt::Debug>(r: Result<T, AppError>) -> (ProblemCode, Option<String>) {
    let e = r.unwrap_err();
    (e.code, e.source)
}

fn invalid_at(at: &str) -> (ProblemCode, Option<String>) {
    (ProblemCode::InvalidInput, Some(at.to_string()))
}

fn name(e: ApiError) -> String {
    match e {
        ApiError::Coded { status, code, .. } => format!("{status} {code}"),
        ApiError::App(e) => format!("{:?}", e.code),
    }
}

fn api<T: std::fmt::Debug>(r: Result<T, ApiError>) -> String {
    name(r.unwrap_err())
}

fn value<'a>(headers: &'a [Header], name: &str) -> Option<&'a str> {
    headers.iter().find(|h| h.name == name).map(|h| h.value.as_str())
}

#[test]
fn the_store_is_answered() {
    assert_eq!(stored::<i32, StarDbError>(Ok(Ok(1))).unwrap(), 1);
    assert_eq!(
        code(stored::<i32, GroupDbError>(Ok(Err(GroupDbError::LastLead)))),
        ProblemCode::Conflict
    );
    assert_eq!(code(stored::<i32, StarDbError>(Err(DbFailure))), ProblemCode::Internal);
    let group = || GroupRow {
        id: Uuid(1),
        workspace_id: Uuid(7),
        name: "G".to_string(),
        created_at: at(0),
        updated_at: at(0),
    };
    let out = stored_reply::<GroupRow, GroupDbError>(Ok(Ok(group()))).unwrap();
    assert_eq!(out.workspace_id, Uuid(7).text());
    let all = stored_reply::<Vec<GroupRow>, GroupDbError>(Ok(Ok(vec![group(), group()]))).unwrap();
    assert_eq!(all.len(), 2);
    assert_eq!(api_stored::<i32, TagDbError>(Ok(Ok(1))).unwrap(), 1);
    assert_eq!(
        api(api_stored::<i32, ViewDbError>(Ok(Err(ViewDbError::VersionConflict)))),
        "409 document_version_mismatch"
    );
    let view = ProjectViewRow {
        id: Uuid(1),
        project_id: Uuid(4),
        name: "V".to_string(),
        kind: "board".to_string(),
        config: Json::Bool(true),
    };
    let view = api_stored_reply::<ProjectViewRow, ViewDbError>(Ok(Ok(view))).unwrap();
    assert!(matches!(view.config, Json::Bool(true)));
    assert_eq!(present(Ok(Some(1))).unwrap(), 1);
    assert_eq!(code(present::<i32>(Ok(None))), ProblemCode::NotFound);
    assert_eq!(present_reply(Ok(Some(group()))).unwrap().name, "G");
    assert_eq!(code(present_reply::<GroupRow>(Err(DbFailure))), ProblemCode::Internal);
    assert!(stored_reply::<(), StarDbError>(Ok(Ok(()))).unwrap().ok);
}

#[test]
fn groups_are_answered() {
    assert_eq!(map_group_error(GroupDbError::Forbidden).code, ProblemCode::NotFound);
    assert_eq!(map_group_error(GroupDbError::Conflict).code, ProblemCode::Conflict);
    assert_eq!(map_group_error(GroupDbError::InvalidInput).code, ProblemCode::InvalidInput);
    assert_eq!(GroupMember { user_id: Uuid(1) }.answer().user_id, Uuid(1).text());
    let grant = GroupGrant { group_id: Uuid(2), role: "lead".to_string() };
    assert_eq!(grant.answer().group_id, Uuid(2).text());
}

#[test]
fn tags_are_pooled() {
    let of = |e| name(map_tag_error(e));
    assert_eq!(of(TagDbError::NotFound), "NotFound");
    assert_eq!(of(TagDbError::Forbidden), "InsufficientPermissions");
    assert_eq!(of(TagDbError::Conflict), "Conflict");
    assert_eq!(of(TagDbError::ProjectArchived), "ProjectArchived");
    let ask = |q: Option<&str>, limit: Option<&str>| {
        pool_query(
            &PoolQuery { q: q.map(str::to_string), limit: limit.map(str::to_string) },
            5,
        )
    };
    assert_eq!(ask(Some(" abcde "), Some("7")).unwrap(), (Some("abcde".to_string()), 7));
    assert_eq!(ask(None, None).unwrap(), (None, 50));
    assert_eq!(api(ask(Some("abcdef"), None)), "InvalidInput");
    assert_eq!(api(ask(None, Some("101"))), "InvalidInput");
    let some = |s: &str| Some(s.to_string());
    assert_eq!(tag_input(some("a"), None, true).unwrap(), (String::from("a"), String::from("gray")));
    assert_eq!(tag_input(some("a"), some("red"), true).unwrap().1, "red");
    assert_eq!(api(tag_input(some("a"), some("x"), false)), "InvalidInput");
    assert_eq!(api(tag_input(None, None, true)), "InvalidInput");
    assert_eq!(api(tag_input(some("a"), None, false)), "InvalidInput");
    assert_eq!(tag_patch(true, some("a"), None, true).unwrap(), (some("a"), None));
    assert_eq!(api(tag_patch(false, None, None, true)), "InvalidInput");
    assert_eq!(api(tag_patch(true, None, some("red"), true)), "InvalidInput");
    assert_eq!(tag_to_assign(&Uuid(3).text()).unwrap(), Uuid(3));
    assert_eq!(api(tag_to_assign("x")), "InvalidInput");
    let pool = TagPool {
        can_create: true,
        can_manage: false,
        items: vec![PoolTag {
            tag: TagRow {
                id: Uuid(1),
                workspace_id: Uuid(7),
                name: "t".to_string(),
                color: "gray".to_string(),
                created_at: at(0),
                updated_at: at(0),
            },
            assignment_count: 4,
        }],
    };
    assert_eq!(pool.answer().items[0].assignment_count, 4);
}

#[test]
fn calendars_are_read() {
    assert_eq!(map_holiday_error(HolidayDbError::Forbidden).code, ProblemCode::NotFound);
    assert_eq!(map_ics_error(IcsDbError::NotFound).code, ProblemCode::NotFound);
    let list = HolidayList { can_edit: true, items: vec![Date::from_days(59).unwrap()] };
    assert_eq!(list.answer().items, vec!["1970-03-01".to_string()]);
    assert_eq!(code(holiday_param(None)), ProblemCode::NotFound);
    assert_eq!(ics_method("REPORT").unwrap(), IcsReadKind::Caldav);
    assert_eq!(ics_method("HEAD").unwrap(), IcsReadKind::Head);
    assert_eq!(code(ics_method("POST")), ProblemCode::NotFound);
    let feed = || Ok(Some(CalendarFeed { ics: "BEGIN".to_string(), etag: "\"e\"".to_string() }));
    let get = ics_read(IcsReadKind::Get, "t", feed()).unwrap();
    assert!(matches!(&get.body, IcsBody::Calendar(c) if c == "BEGIN"));
    let head = ics_read(IcsReadKind::Head, "t", feed()).unwrap();
    assert_eq!(head.status, get.status);
    assert_eq!(value(&head.headers, "etag"), value(&get.headers, "etag"));
    assert!(matches!(head.body, IcsBody::Empty));
    let options = ics_read(IcsReadKind::Options, "t", feed()).unwrap();
    assert_eq!(options.status, 204);
    assert_eq!(value(&options.headers, "allow"), Some("OPTIONS, GET, HEAD, PROPFIND, REPORT"));
    let dav = ics_read(IcsReadKind::Caldav, "t", feed()).unwrap();
    assert!(dav.status == 207
        && matches!(dav.body, IcsBody::Listing { href, .. } if href == "/api/v1/ics/t"));
    let gone = ics_read(IcsReadKind::Caldav, "t", Ok(None)).unwrap();
    assert!(gone.status == 404 && matches!(gone.body, IcsBody::Missing { .. }));
    assert_eq!(code(ics_read(IcsReadKind::Get, "t", Ok(None))), ProblemCode::NotFound);
    assert_eq!(code(ics_read(IcsReadKind::Get, "t", Err(DbFailure))), ProblemCode::Internal);
    let mut limiter = RateLimiter::new();
    for _ in 0..60 {
        assert!(enforce_ics_limit(&mut limiter, "1.2.3.4", 0).is_ok());
    }
    assert_eq!(enforce_ics_limit(&mut limiter, "1.2.3.4", 0).unwrap_err().retry_after, Some(60));
}

#[test]
fn display_ids_are_looked_up() {
    assert!(check_display_id(&"x".repeat(64)).is_ok());
    assert!(check_display_id(&"x".repeat(65)).is_err());
    assert!(check_display_id("  ").is_err());
    let item = LookupItem {
        kind: "task".to_string(),
        id: Uuid(1),
        display_id: "K-1".to_string(),
        title: "T".to_string(),
        project_id: None,
    };
    assert_eq!(item.answer().display_id, "K-1");
    assert_eq!(
        code(stored::<i32, LookupDbError>(Ok(Err(LookupDbError::Forbidden)))),
        ProblemCode::NotFound
    );
    let mut limiter = RateLimiter::new();
    for _ in 0..60 {
        assert!(lookup_user_limit(&mut limiter, Uuid(1), 0).is_ok());
    }
    assert!(lookup_user_limit(&mut limiter, Uuid(1), 0).is_err());
    for _ in 0..120 {
        assert!(lookup_ip_limit(&mut limiter, "1.2.3.4", 0).is_ok());
    }
    assert!(lookup_ip_limit(&mut limiter, "1.2.3.4", 0).is_err());
}

#[test]
fn notifications_are_listed() {
    let ask = |cursor: Option<String>, limit| NotificationListQuery {
        filter: None,
        cursor,
        limit,
    };
    assert_eq!(filter_name(&ask(None, None)), "all");
    let parse = |query, filter: Option<i32>| {
        parse_list_query(query, filter, AppError::from_code(ProblemCode::Conflict))
    };
    assert_eq!(parse(ask(None, None), Some(1)).unwrap(), (1, None, 50));
    assert_eq!(code(parse(ask(None, None), None)), ProblemCode::InvalidInput);
    assert_eq!(code(parse(ask(None, Some(0)), Some(1))), ProblemCode::InvalidInput);
    assert_eq!(code(parse(ask(None, Some(101)), Some(1))), ProblemCode::InvalidInput);
    assert_eq!(
        code(parse(ask(Some("c".repeat(1025)), None), Some(1))),
        ProblemCode::Conflict
    );
    assert!(check_flags(None, Some(true)).is_ok());
    assert_eq!(code(check_flags(None, None)), ProblemCode::InvalidInput);
    let page = NotificationPage {
        items: vec![NotificationRow {
            id: Uuid(1),
            workspace_id: Uuid(7),
            event_id: Uuid(2),
            verb: "v".to_string(),
            actor_user_id: None,
            actor_given_name: None,
            actor_family_name: None,
            target_type: None,
            target_id: None,
            display_id: None,
            payload: Json::Null,
            read_at: None,
            archived_at: None,
            created_at: at(0),
        }],
        next_cursor: Some("n".to_string()),
    };
    assert_eq!(notification_reply(Ok(Ok(page))).unwrap().items[0].event_id, Uuid(2));
    assert!(flags_reply(Ok(Ok(true))).unwrap().ok);
    assert_eq!(code(flags_reply(Ok(Ok(false)))), ProblemCode::NotFound);
    assert_eq!(
        code(flags_reply(Ok(Err(AppError::from_code(ProblemCode::Conflict))))),
        ProblemCode::Conflict
    );
}

#[test]
fn project_views_are_refused() {
    assert_eq!(name(map_view_error(ViewDbError::NotFound)), "NotFound");
    assert_eq!(name(map_view_error(ViewDbError::InvalidInput)), "InvalidInput");
    assert_eq!(
        name(map_view_error(ViewDbError::VersionConflict)),
        "409 document_version_mismatch"
    );
}

#[test]
fn revisions_are_captured_and_restored() {
    assert!(matches!(
        revision_credential(RevisionTarget::Document(Uuid(1)), true),
        RevisionAccess::Cookie
    ));
    assert!(matches!(
        revision_credential(RevisionTarget::Task(Uuid(1)), false),
        RevisionAccess::Route(Access::Scope(ApiTokenScope::TasksRead))
    ));
    assert!(matches!(
        revision_credential(RevisionTarget::Task(Uuid(1)), true),
        RevisionAccess::Route(Access::Scope(ApiTokenScope::TasksWrite))
    ));
    assert_eq!(name(map_revision_error(RevisionDbError::TaskArchived)), "TaskArchived");
    assert_eq!(list_input(None, false, Some(1)).unwrap(), (50, None));
    assert_eq!(list_input(Some(100), true, Some(1)).unwrap(), (100, Some(1)));
    assert_eq!(api(list_input(Some(101), false, Some(1))), "InvalidInput");
    assert_eq!(api(list_input::<i32>(None, true, None)), "InvalidInput");
    let shot = || CapturedRevision { y_snapshot: vec![1], content_json: Json::Null };
    assert!(matches!(capture_live(None), Ok(CaptureStep::Offline)));
    assert!(matches!(capture_live(Some(Some(shot()))), Ok(CaptureStep::Captured(_))));
    assert_eq!(api(capture_live(Some(None))), "503 collab_unavailable");
    assert_eq!(capture_source(Ok(Ok(1)), true).unwrap(), 1);
    assert_eq!(api(capture_source(Ok(Ok(1)), false)), "503 collab_unavailable");
    assert_eq!(
        api(capture_source::<i32>(Ok(Err(RevisionDbError::Forbidden)), true)),
        "NotFound"
    );
    assert_eq!(api(captured::<i32>(None)), "503 collab_unavailable");
    let stored = revision_input(shot(), Some("text".to_string())).unwrap();
    assert!(stored.y_snapshot == vec![1] && matches!(stored.content_json, Json::Null));
    assert_eq!((stored.text.as_str(), stored.reason.as_str()), ("text", "manual"));
    assert_eq!(api(revision_input(shot(), None)), "503 collab_unavailable");
    assert_eq!(revision_created(Ok(Ok(Uuid(3)))).unwrap(), Uuid(3).text());
    assert!(restore_body(b"", false).is_ok() && restore_body(b"{}", true).is_ok());
    assert_eq!(code(restore_body(b"x", false)), ProblemCode::InvalidInput);
    assert!(restore_reply(RestoreOutcome::Restored).unwrap().restored);
    assert_eq!(api(restore_reply(RestoreOutcome::Rejected)), "RestoreRejected");
    assert_eq!(api(restore_reply(RestoreOutcome::TimedOut)), "CollabTimeoutRetry");
    assert_eq!(api(restore_reply(RestoreOutcome::NoHub)), "503 collab_unavailable");
    let page = RevisionPage {
        items: vec![RevisionMeta {
            id: Uuid(1),
            target_kind: "task".to_string(),
            target_id: Uuid(2),
            reason: "manual".to_string(),
            created_by: None,
            created_at: at(0),
        }],
        next_cursor: None,
    };
    assert_eq!(page.answer().items[0].target_id, Uuid(2).text());
}

fn search(q: &str) -> WorkspaceSearchQuery {
    WorkspaceSearchQuery {
        q: q.to_string(),
        kind: None,
        tag: None,
        project_id: None,
        cursor: None,
        limit: None,
        mode: None,
    }
}

#[test]
fn a_search_is_handed_on() {
    let auth = |scopes| RequestAuth {
        user: SessionUser {
            user_id: Uuid(1).text(),
            session_id: Uuid(2).text(),
            email: "a@example.com".to_string(),
            has_password: true,
        },
        user_id: Uuid(1),
        credential_id: Uuid(2),
        token_scopes: scopes,
        token_workspace_id: Some(Uuid(7)),
    };
    let query = || WorkspaceSearchQuery { cursor: Some("c".to_string()), ..search(" a ") };
    let asked = workspace_search_input(&query(), Some("task")).unwrap();
    let token = auth(Some(vec![ApiTokenScope::TasksRead]));
    let request = workspace_request(&token, Uuid(7), query(), asked);
    assert_eq!((request.q.as_str(), request.cursor.as_deref()), (" a ", Some("c")));
    assert_eq!((request.workspace_id, request.actor_user_id), (Uuid(7), Uuid(1)));
    assert_eq!((request.session_id, request.kind, request.limit), (Uuid(2), "task", 20));
    assert_eq!(request.allowed_kinds, Some(ParentKinds { document: false, task: true }));
    let global = GlobalSearchQuery {
        q: "a".to_string(),
        kind: None,
        tag: None,
        cursor: None,
        limit: None,
        mode: None,
    };
    let request = global_request(&auth(None), global, (3, 20));
    assert_eq!((request.kind, request.limit, request.allowed_kinds), (3, 20, None));
    assert_eq!(request.token_workspace_id, Some(Uuid(7)));
    assert_eq!(api(search_answer(None)), "503 search_unavailable");
    assert_eq!(api(search_answer(Some(Err(DbFailure)))), "Internal");
    assert_eq!(
        api(search_answer(Some(Ok(Err(SearchQueryError::Forbidden))))),
        "AuthenticationRequired"
    );
    let page = SearchPage { items: vec![], next_cursor: Some("n".to_string()) };
    let page = search_answer(Some(Ok(Ok(page)))).unwrap();
    assert_eq!(page.next_cursor.as_deref(), Some("n"));
}

#[test]
fn a_search_is_read() {
    let found = workspace_search_input(&search("a"), Some(1)).unwrap();
    assert_eq!((found.kind, found.limit, found.hybrid), (1, 20, false));
    let with = |change: fn(&mut WorkspaceSearchQuery)| {
        let mut q = search("a");
        change(&mut q);
        workspace_search_input(&q, Some(1))
    };
    let found = with(|q| {
        q.mode = Some("hybrid".to_string());
        q.limit = Some("+50".to_string());
        q.project_id = Some(Uuid(4).text());
    })
    .unwrap();
    assert!(found.hybrid && found.limit == 50 && found.project_id == Some(Uuid(4)));
    assert_eq!(api(with(|q| q.q = "  ".to_string())), "InvalidInput");
    assert_eq!(api(with(|q| q.q = "a".repeat(201))), "InvalidInput");
    assert_eq!(api(with(|q| q.limit = Some("51".to_string()))), "InvalidInput");
    assert_eq!(api(with(|q| q.limit = Some("1.0".to_string()))), "InvalidInput");
    assert_eq!(api(with(|q| q.mode = Some("x".to_string()))), "InvalidInput");
    assert_eq!(api(with(|q| q.tag = Some("x".to_string()))), "InvalidInput");
    assert_eq!(api(with(|q| q.project_id = Some("x".to_string()))), "InvalidInput");
    assert!(matches!(
        with(|q| q.cursor = Some("c".repeat(1025))),
        Err(ApiError::App(AppError { params: Some(Params::Code(_)), .. }))
    ));
    assert_eq!(api(workspace_search_input::<i32>(&search("a"), None)), "InvalidInput");
    let global = GlobalSearchQuery {
        q: "a".to_string(),
        kind: Some("task".to_string()),
        tag: None,
        cursor: None,
        limit: Some("7".to_string()),
        mode: None,
    };
    assert_eq!(kind_name(&global.kind), "task");
    assert_eq!(kind_name(&None), "all");
    assert_eq!(global_search_input(&global, Some(2)).unwrap(), (2, 7));
    assert_eq!(name(search_unavailable()), "503 search_unavailable");
    assert_eq!(name(invalid_cursor()), "InvalidInput");
    let refused = |e| api(api_stored::<i32, SearchQueryError>(Ok(Err(e))));
    assert_eq!(refused(SearchQueryError::Forbidden), "AuthenticationRequired");
    assert_eq!(refused(SearchQueryError::NotFound), "NotFound");
    assert_eq!(refused(SearchQueryError::MeiliUnavailable), "503 search_unavailable");
    let mut limiter = RateLimiter::new();
    for _ in 0..60 {
        assert!(search_limits(&mut limiter, "1.2.3.4", Uuid(1), 0).is_ok());
    }
    assert!(search_limits(&mut limiter, "1.2.3.4", Uuid(1), 0).is_err());
    assert!(search_limits(&mut limiter, "1.2.3.4", Uuid(2), 0).is_ok());
}

fn piece(text: &str, matched: bool) -> SearchSnippetPiece {
    SearchSnippetPiece { text: text.to_string(), matched }
}

#[test]
fn hits_are_answered() {
    let page = SearchPage {
        items: vec![SearchResultItem {
            kind: "task".to_string(),
            id: Uuid(1),
            title: "T".to_string(),
            display_id: None,
            extract_status: None,
            chunk_no: Some(2),
            snippet: Some(vec![piece("a", true)]),
            project_id: None,
            document_id: None,
            task_id: Some(Uuid(1)),
            score: Score(5),
            updated_at: at(1_500_000),
            workspace_id: Uuid(7),
        }],
        next_cursor: None,
    };
    let out = page.answer();
    assert_eq!(out.items[0].updated_at, "1970-01-01T00:00:01.500+00:00");
    assert!(out.items[0].snippet.as_ref().unwrap()[0].matched);
    assert_eq!(out.items[0].score.0, 5);
}

#[test]
fn links_are_shared() {
    assert_eq!(map_share_error(ShareDbError::Forbidden).code, ProblemCode::NotFound);
    assert_eq!(map_share_error(ShareDbError::InvalidInput).code, ProblemCode::InvalidInput);
    assert!(ensure_sharing_enabled(Ok(true)).is_ok());
    assert_eq!(code(ensure_sharing_enabled(Ok(false))), ProblemCode::NotFound);
    let id = Uuid(3).text();
    assert!(matches!(
        share_target(Some(&id), None),
        Ok(ShareTarget::Document(Uuid(3)))
    ));
    assert!(matches!(share_target(None, Some(&id)), Ok(ShareTarget::Project(Uuid(3)))));
    assert_eq!(place(share_target(Some("x"), None)), invalid_at("/documentId"));
    assert_eq!(place(share_target(None, Some("x"))), invalid_at("/projectId"));
    assert_eq!(
        place(share_target(Some(&id), Some(&id))),
        (ProblemCode::InvalidInput, None)
    );
    let record = || ShareLinkRecord {
        id: Uuid(1),
        workspace_id: Uuid(7),
        document_id: Some(Uuid(3)),
        project_id: None,
        expires_at: at(86_400_000_000),
        created_at: at(0),
    };
    let made = link_created(
        Ok(Ok(CreatedShareLink { record: record(), token: "t".to_string() })),
        "https://x/",
    )
    .unwrap();
    assert_eq!(made.url, "https://x/s/t");
    assert_eq!(made.base.expires_at, "1970-01-02T00:00:00.000Z");
    assert_eq!(
        code(link_created(Ok(Err(ShareDbError::NotFound)), "https://x")),
        ProblemCode::NotFound
    );
    assert_eq!(shell_head_meta(true, true, Ok(true), Ok(Some(1))).unwrap(), Some(1));
    assert_eq!(shell_head_meta(false, true, Err(DbFailure), Ok(Some(1))).unwrap(), None);
    assert_eq!(shell_head_meta(true, true, Ok(false), Ok(Some(1))).unwrap(), None);
    assert_eq!(
        code(shell_head_meta(true, true, Ok(true), Err::<Option<i32>, _>(DbFailure))),
        ProblemCode::Internal
    );
    let meta = SharePublicMeta {
        title: "T".to_string(),
        document_id: None,
        project_id: Some(Uuid(4)),
        expires_at: at(0),
    };
    assert_eq!(meta.answer().project_id, Some(Uuid(4).text()));
    let mut headers: Vec<Header> = Vec::new();
    no_referrer(&mut headers);
    assert_eq!(value(&headers, "referrer-policy"), Some("no-referrer"));
    let mut headers = vec![
        Header { name: "referrer-policy".to_string(), value: "origin".to_string() },
        Header { name: "etag".to_string(), value: "x".to_string() },
    ];
    no_referrer(&mut headers);
    assert_eq!(headers.len(), 2);
    assert_eq!(value(&headers, "referrer-policy"), Some("no-referrer"));
    assert_eq!(value(&headers, "etag"), Some("x"));
    let mut limiter = RateLimiter::new();
    for _ in 0..60 {
        assert!(enforce_share_limit(&mut limiter, "1.2.3.4", 0).is_ok());
    }
    assert!(enforce_share_limit(&mut limiter, "1.2.3.4", 0).is_err());
}

#[test]
fn a_shared_document_is_shown() {
    let format = |f: Option<&str>| parse_format(&ShareBodyQuery { format: f.map(str::to_string) });
    assert_eq!(format(None).unwrap(), BodyFormat::Html);
    assert_eq!(format(Some("md")).unwrap(), BodyFormat::Markdown);
    assert_eq!(code(format(Some("pdf"))), ProblemCode::InvalidInput);
    let doc = || SharedDocument { title: "<T>".to_string(), updated_at: at(0) };
    let page = shared_body(&doc(), BodyFormat::Html, Some(b"*"), Some("<p>x</p>"), "n");
    assert_eq!(page.status, 200);
    assert!(page.body.contains("<title>&lt;T&gt;</title>"));
    assert!(page.body.contains("<style nonce=\"n\">"));
    assert!(value(&page.headers, "content-security-policy").unwrap().contains("'nonce-n'"));
    assert_eq!(value(&page.headers, "etag"), None);
    let md = shared_body(&doc(), BodyFormat::Markdown, None, Some("# x"), "n");
    assert_eq!((md.status, md.body.as_str()), (200, "# x"));
    let tag = value(&md.headers, "etag").unwrap().to_string();
    let again = shared_body(&doc(), BodyFormat::Markdown, Some(tag.as_bytes()), Some("# x"), "n");
    assert_eq!((again.status, again.body.as_str()), (304, ""));
    let other = shared_body(&doc(), BodyFormat::Fragment, Some(tag.as_bytes()), None, "n");
    assert_eq!((other.status, other.body.as_str()), (200, ""));
    let fresh = document_body_response(Ok(Some(doc())), BodyFormat::Html, None, Some("x")).unwrap();
    let second = document_body_response(Ok(Some(doc())), BodyFormat::Html, None, Some("x")).unwrap();
    assert!(fresh.body != second.body && fresh.body.len() == second.body.len());
    assert_eq!(
        code(document_body_response(Ok(None), BodyFormat::Html, None, None)),
        ProblemCode::NotFound
    );
    let pdf = |id: Option<&str>| pdf_document(&SharePdfQuery { document_id: id.map(str::to_string) });
    assert_eq!(pdf(Some(&Uuid(3).text())).unwrap(), Some(Uuid(3)));
    assert_eq!(pdf(None).unwrap(), None);
    assert_eq!(code(pdf(Some("x"))), ProblemCode::InvalidInput);
    assert!(matches!(pdf_reply(Ok(()), "inline"), Ok(PdfReply::File { .. })));
    assert_eq!(code(pdf_reply(Ok(()), "a\nb")), ProblemCode::Internal);
    assert!(matches!(
        pdf_reply(Err(PdfFailure::Busy), "inline"),
        Ok(PdfReply::Problem(r)) if r.status == 503 && value(&r.headers, "retry-after") == Some("5")
    ));
    assert!(matches!(
        pdf_reply(Err(PdfFailure::TooLarge), "inline"),
        Ok(PdfReply::Problem(r)) if r.status == 413 && value(&r.headers, "retry-after").is_none()
    ));
    assert_eq!(code(pdf_reply(Err(PdfFailure::InvalidInput), "i")), ProblemCode::InvalidInput);
    assert_eq!(code(pdf_reply(Err(PdfFailure::Missing), "i")), ProblemCode::Internal);
    match shared_file(Some(4), "attachment").unwrap() {
        FileReply::File { status, headers, bytes } => {
            assert_eq!((status, bytes), (200, Some((0, 3))));
            assert_eq!(value(&headers, "content-length"), Some("4"));
        }
        other => panic!("{other:?}"),
    }
    assert!(matches!(
        shared_file(Some(0), "attachment"),
        Ok(FileReply::File { bytes: None, .. })
    ));
    match shared_file(Some(-2), "attachment").unwrap() {
        FileReply::File { headers, bytes, .. } => {
            assert_eq!(bytes, Some((0, u64::MAX - 2)));
            assert_eq!(value(&headers, "content-length"), Some("-2"));
        }
        other => panic!("{other:?}"),
    }
    assert_eq!(code(shared_file(None, "attachment")), ProblemCode::Internal);
}

fn scope(visible: u128, document: bool) -> ShareScope {
    ShareScope {
        workspace_id: Uuid(7),
        document_id: if document { Some(Uuid(3)) } else { None },
        project_id: if document { None } else { Some(Uuid(4)) },
        visible: (0..visible).map(Uuid).collect(),
    }
}

#[test]
fn a_shared_search_is_planned() {
    let ask = |q: Option<String>| share_query(ShareSearchQuery { q });
    assert_eq!(ask(Some("a".to_string())).unwrap(), "a");
    assert_eq!(code(ask(Some(String::new()))), ProblemCode::InvalidInput);
    assert_eq!(code(ask(Some("a".repeat(201)))), ProblemCode::InvalidInput);
    assert_eq!(code(ask(None)), ProblemCode::InvalidInput);
    assert_eq!(search_text(" a "), "a");
    match plan_search("a", false, 2, &scope(450, true), true) {
        SearchPlan::Ask { scopes, document_share } => {
            let sizes: Vec<usize> = scopes.iter().map(|s| s.wiki_document_ids.len()).collect();
            assert_eq!((sizes, document_share), (vec![200, 200, 50], true));
        }
        other => panic!("{other:?}"),
    }
    match plan_search("a", false, 2, &scope(0, false), true) {
        SearchPlan::Ask { scopes, document_share } => {
            assert_eq!(scopes[0].project_ids, vec![Uuid(4).text()]);
            assert!(!document_share && scopes.len() == 1);
        }
        other => panic!("{other:?}"),
    }
    assert!(matches!(
        plan_search("a", false, 2, &scope(1, true), false),
        SearchPlan::Unavailable
    ));
    assert!(matches!(plan_search("", false, 2, &scope(1, true), true), SearchPlan::Empty));
    assert!(matches!(plan_search("a ", true, 2, &scope(1, true), true), SearchPlan::Empty));
    assert!(matches!(plan_search("a", false, 2, &scope(0, true), true), SearchPlan::Empty));
}

fn hit(kind: HitKind, workspace: u128, id: u128, score: i64) -> MeiliHit {
    MeiliHit {
        kind,
        workspace_id: Uuid(workspace).text(),
        resource_id: Uuid(id).text(),
        score: Score(score),
    }
}

#[test]
fn the_index_is_asked_for_what_a_link_shows() {
    let scopes = match plan_search("a", false, 2, &scope(3, true), true) {
        SearchPlan::Ask { scopes, .. } => scopes,
        other => panic!("{other:?}"),
    };
    let asked = index_query("a", "st", false, &scopes, true, false, 50);
    assert_eq!((asked.q.as_str(), asked.stem.as_str()), ("a", "st"));
    assert_eq!((asked.limit, asked.offset), (50, 50));
    assert_eq!(asked.scopes[0].wiki_document_ids.len(), 3);
    assert_eq!(asked.kind, HitKind::Document);
    assert_eq!(index_query("a", "st", true, &scopes, true, false, 0).stem, "");
    assert_eq!(index_query("a", "st", false, &scopes, false, true, 0).kind, HitKind::Task);
    let found = index_hits(IndexOutcome::Found(vec![hit(HitKind::Task, 7, 1, 1)]));
    assert_eq!(found.unwrap().len(), 1);
    for outcome in [IndexOutcome::Failed, IndexOutcome::TimedOut] {
        let reply = index_hits(outcome).unwrap_err();
        assert_eq!(reply.status, 503);
        assert_eq!(format!("{:?}", reply.body), format!("{:?}", no_search().body));
    }
}

#[test]
fn pages_of_hits_are_taken_until_there_are_enough() {
    let mut pages = HitPages::new();
    assert_eq!(pages.offset, 0);
    assert_eq!(pages.take_page(vec![hit(HitKind::Task, 7, 1, 1)], Some(50)), Some(50));
    assert_eq!(pages.offset, 50);
    assert_eq!(pages.take_page(vec![], Some(100)), None);
    let mut pages = HitPages::new();
    let full: Vec<MeiliHit> = (0..50).map(|i| hit(HitKind::Task, 7, i, 1)).collect();
    assert_eq!(pages.take_page(full, Some(50)), None);
    let mut pages = HitPages::new();
    for i in 1..8 {
        assert_eq!(pages.take_page(vec![hit(HitKind::Task, 7, i, 1)], Some(1)), Some(1));
    }
    assert_eq!(pages.take_page(vec![hit(HitKind::Task, 7, 9, 1)], Some(1)), None);
}

#[test]
fn hits_are_ranked_and_distinct() {
    let ranked = rank_hits(
        vec![hit(HitKind::Document, 7, 1, 5), hit(HitKind::Document, 7, 2, 9)],
        vec![hit(HitKind::Task, 7, 3, 9), hit(HitKind::Task, 7, 4, 7)],
    );
    let order: Vec<i64> = ranked.iter().map(|h| h.score.0).collect();
    assert_eq!(order, vec![9, 9, 7, 5]);
    assert_eq!(ranked[0].kind, HitKind::Document);
    let found = distinct(
        &[
            hit(HitKind::Document, 7, 1, 9),
            hit(HitKind::Task, 7, 1, 8),
            hit(HitKind::Document, 7, 1, 7),
            hit(HitKind::Document, 6, 2, 6),
            hit(HitKind::Other, 7, 3, 5),
        ],
        Uuid(7),
    );
    assert_eq!(found.len(), 2);
    assert!(!found[0].is_task && found[0].score.0 == 9 && found[1].is_task);
    assert_eq!(found_ids(&found, true), vec![Uuid(1)]);
}

fn seen(id: u128, title: &str, in_body: Option<Vec<SearchSnippetPiece>>) -> ShareSearchRow {
    ShareSearchRow {
        is_task: false,
        id: Uuid(id),
        title: title.to_string(),
        project_id: None,
        updated_at: at(0),
        in_body,
        in_title: None,
    }
}

#[test]
fn only_visible_hits_are_answered() {
    let snippet = |row: ShareSearchRow, initials| share_snippet(&row, initials).is_some();
    assert!(snippet(seen(1, "T", Some(vec![piece("a", true)])), false));
    assert!(!snippet(seen(1, "T", Some(vec![piece("a", true)])), true));
    assert!(!snippet(seen(1, "ab", Some(vec![piece("a", true), piece("b", false)])), false));
    assert!(!snippet(seen(1, "T", None), false));
    let titled = |in_body| ShareSearchRow {
        in_title: Some(vec![piece("title", true)]),
        ..seen(1, "T", in_body)
    };
    let shown = |row: ShareSearchRow| share_snippet(&row, false).unwrap()[0].text.clone();
    assert_eq!(shown(titled(Some(vec![piece("body", true)]))), "body");
    assert_eq!(shown(titled(None)), "title");
    let found: Vec<FoundHit> =
        (0..80).map(|i| FoundHit { is_task: false, id: Uuid(i), score: Score(3) }).collect();
    let rows: Vec<ShareSearchRow> =
        (0..80).filter(|i| i % 4 != 0).map(|i| seen(i, "T", None)).collect();
    let out = search_reply(&found, &rows, Uuid(7), false);
    assert_eq!(out.items.len(), 50);
    assert_eq!(out.items[0].id, Uuid(1).text());
    assert_eq!(out.items[0].document_id, Some(Uuid(1).text()));
    assert!(out.items.iter().all(|i| i.id != Uuid(4).text()));
    assert!(out.next_cursor.is_none());
}

#[test]
fn stars_point_at_things() {
    assert_eq!(map_star_error(StarDbError::Forbidden).code, ProblemCode::NotFound);
    let id = Uuid(3).text();
    assert_eq!(parse_body_uuid(&id), Some(Uuid(3)));
    assert_eq!(parse_body_uuid("00000000000000000000000000000003"), None);
    assert!(matches!(
        parse_star_target(&id, "document"),
        Ok(StarTarget::Document(Uuid(3)))
    ));
    assert!(matches!(parse_star_target(&id, "task"), Ok(StarTarget::Task(Uuid(3)))));
    assert_eq!(place(parse_star_target("x", "task")), invalid_at("/id"));
    assert_eq!(place(parse_star_target(&id, "x")), invalid_at("/type"));
    let star = StarItem {
        id: Uuid(1),
        kind: "task".to_string(),
        target_id: Uuid(2),
        title: "T".to_string(),
        project_id: None,
        number: Some(3),
        created_at: at(1_000),
    };
    assert_eq!(star.answer().created_at, "1970-01-01T00:00:00.001Z");
    let recent = RecentItem {
        kind: "task".to_string(),
        id: Uuid(1),
        title: "T".to_string(),
        project_id: Some(Uuid(4)),
        number: None,
        updated_at: at(0),
    };
    assert_eq!(recent.answer().project_id, Some(Uuid(4).text()));
}

#[test]
fn workspaces_are_refused_by_what_one_may_know() {
    let of = |e, known| map_workspace_error(e, known).code;
    assert_eq!(of(WorkspaceDbError::Forbidden, true), ProblemCode::InsufficientPermissions);
    assert_eq!(of(WorkspaceDbError::Forbidden, false), ProblemCode::NotFound);
    assert_eq!(of(WorkspaceDbError::LastOwner, false), ProblemCode::WorkspaceLastOwnerRequired);
    assert_eq!(
        of(WorkspaceDbError::SelfChange, false),
        ProblemCode::WorkspaceMemberSelfChangeForbidden
    );
    assert_eq!(of(WorkspaceDbError::RoleCap, false), ProblemCode::CannotManageRoleAboveOwn);
    assert_eq!(of(WorkspaceDbError::SlugTaken, false), ProblemCode::SlugTaken);
    assert_eq!(of(WorkspaceDbError::LastProjectLead, false), ProblemCode::Conflict);
    assert_eq!(
        of(WorkspaceDbError::PersonalImmutable, false),
        ProblemCode::PersonalWorkspaceImmutable
    );
    let listed = my_workspaces(Ok(vec![WorkspaceListRow {
        id: Uuid(7),
        name: "W".to_string(),
        slug: "w".to_string(),
        role: "owner".to_string(),
        kind: "team".to_string(),
        document_count: 1,
        assigned_count: 2,
    }]))
    .unwrap();
    assert_eq!((listed[0].id.clone(), listed[0].assigned_count), (Uuid(7).text(), 2));
    assert_eq!(patch_input(Some(" n ".to_string()), Ok(())).unwrap(), "n");
    assert_eq!(code(patch_input(None, Ok(()))), ProblemCode::InvalidInput);
    assert_eq!(
        create_input(" n ", Ok(()), Ok("s".to_string())).unwrap(),
        ("n".to_string(), "s".to_string())
    );
    let bad = Err(AppError::from_code(ProblemCode::SlugTaken));
    assert_eq!(code(create_input("n", Ok(()), bad)), ProblemCode::SlugTaken);
    let meta = WorkspaceMeta { id: Uuid(7), name: "W".to_string(), slug: "w".to_string() };
    assert_eq!(open_reply(Ok(Ok(meta))).unwrap().slug, "w");
    assert_eq!(
        code(open_reply::<WorkspaceMeta>(Ok(Err(WorkspaceDbError::Forbidden)))),
        ProblemCode::InsufficientPermissions
    );
}
