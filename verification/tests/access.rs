//! Who may do what, and how often.

use fvoci_http::authz::{
    allowed_content_kinds, allowed_parent_kinds, apply_token_access, bearer_token,
    canonicalize_bearer_path, grants_api_token_scope, parse_user_id, percent_decode,
    presented_credential,
    require_cookie, require_extra_scope, require_request_auth, require_session, Access, ApiTokenScope,
    ApiTokenSession, ContentKind, Credential, ParentKinds, RequestAuth, Resolved, SessionUser,
};
use fvoci_http::consent::{consent_decision, consent_entry, ConsentStep};
use fvoci_http::error::{DbFailure, ProblemCode};
use fvoci_http::guard::{activity_channel, check_origin, has_bearer, reject_bearer};
use fvoci_http::ids::Uuid;
use fvoci_http::policy::{
    before_credential, behind_credential, caller, enter, recorded_channel, route_changes, stages,
    success, Caller, Route, Stage,
};
use fvoci_http::rate_limit::{charge, charge_both, RateLimiter, SECOND, WINDOW};

const USER: &str = "00000000-0000-0000-0000-000000000001";
const SESSION: &str = "00000000-0000-0000-0000-000000000002";

fn user() -> SessionUser {
    SessionUser {
        user_id: USER.to_string(),
        session_id: SESSION.to_string(),
        email: "a@example.com".to_string(),
        has_password: true,
    }
}

fn token(workspace: u128, scopes: Vec<ApiTokenScope>) -> ApiTokenSession {
    ApiTokenSession {
        user: user(),
        token_id: Uuid(9),
        workspace_id: Uuid(workspace),
        scopes,
    }
}

#[test]
fn an_origin_has_to_be_the_public_one() {
    assert!(check_origin(None, "https://x.example").is_ok());
    assert!(check_origin(Some(b" https://x.example "), "https://x.example").is_ok());
    assert!(check_origin(Some(b"\xff"), "https://x.example").is_ok());
    assert_eq!(
        check_origin(Some(b"https://y.example"), "https://x.example").unwrap_err().code,
        ProblemCode::OriginMismatch
    );
}

#[test]
fn bearers_are_seen() {
    assert!(has_bearer(Some(b"  Bearer abc")));
    assert!(!has_bearer(Some(b"bearer abc")));
    assert!(!has_bearer(None));
    assert!(reject_bearer(Some(b"Basic abc")).is_ok());
    assert_eq!(
        reject_bearer(Some(b"Bearer abc")).unwrap_err().code,
        ProblemCode::NotFound
    );
    assert_eq!(activity_channel(Some(b"Bearer abc")), "api");
    assert_eq!(activity_channel(Some(b" Bearer abc")), "web");
    assert_eq!(activity_channel(None), "web");
    assert_eq!(bearer_token(Some(b"Bearer  abc ")).as_deref(), Some("abc"));
    assert_eq!(bearer_token(Some(b"Basic abc")), None);
}

#[test]
fn a_bearer_keeps_to_plain_paths() {
    assert!(canonicalize_bearer_path(None, "/api/v1/../x").is_ok());
    assert!(canonicalize_bearer_path(Some(b"Bearer t"), "/api/v1/x").is_ok());
    assert!(canonicalize_bearer_path(Some(b"Bearer t"), "/api/v1/%2E./x").is_err());
    assert!(canonicalize_bearer_path(Some(b"Bearer t"), "/api/v1/%zz").is_err());
    assert!(canonicalize_bearer_path(Some(b"Bearer t"), "/api/v1/%ff").is_err());
}

#[test]
fn credentials_are_presented() {
    assert!(matches!(
        presented_credential(Some("s"), None),
        Ok(Credential::Session(s)) if s == "s"
    ));
    assert!(matches!(
        presented_credential(None, Some(b"Bearer t")),
        Ok(Credential::Token(t)) if t == "t"
    ));
    assert_eq!(
        presented_credential(None, None).unwrap_err().code,
        ProblemCode::AuthenticationRequired
    );
}

#[test]
fn a_session_is_admitted_everywhere() {
    for access in [
        Access::Session,
        Access::Any,
        Access::Scope(ApiTokenScope::WorkspaceManage),
    ] {
        let auth = require_request_auth(Resolved::Session(Some(user())), access, None).unwrap();
        assert_eq!(auth.user_id, Uuid(1));
        assert_eq!(auth.credential_id, Uuid(2));
        assert!(auth.token_scopes.is_none());
    }
    assert_eq!(
        require_request_auth(Resolved::Session(None), Access::Any, None)
            .unwrap_err()
            .code,
        ProblemCode::AuthenticationRequired
    );
    assert_eq!(
        require_request_auth(Resolved::Failed, Access::Any, None)
            .unwrap_err()
            .code,
        ProblemCode::Internal
    );
    assert_eq!(parse_user_id("x").unwrap_err().code, ProblemCode::AuthenticationRequired);
}

#[test]
fn a_token_is_confined() {
    let scopes = vec![ApiTokenScope::DocumentsRead];
    let read = Access::Scope(ApiTokenScope::DocumentsRead);
    let write = Access::Scope(ApiTokenScope::DocumentsWrite);
    assert!(apply_token_access(Some(token(5, scopes.clone())), read, Some(Uuid(5))).is_ok());
    assert!(apply_token_access(Some(token(5, scopes.clone())), Access::Any, None).is_ok());
    assert!(apply_token_access(Some(token(5, scopes.clone())), read, Some(Uuid(6))).is_err());
    assert!(apply_token_access(Some(token(5, scopes.clone())), write, Some(Uuid(5))).is_err());
    assert!(apply_token_access(Some(token(5, scopes)), Access::Session, None).is_err());
    assert!(apply_token_access(Some(token(5, vec![])), Access::Any, None).is_err());
    assert!(apply_token_access(None, Access::Any, None).is_err());
    assert!(grants_api_token_scope(&[ApiTokenScope::TasksRead], ApiTokenScope::TasksRead));
    assert!(!grants_api_token_scope(&[], ApiTokenScope::TasksRead));
}

fn auth(scopes: Option<Vec<ApiTokenScope>>) -> RequestAuth {
    RequestAuth {
        user: user(),
        user_id: Uuid(1),
        credential_id: Uuid(2),
        token_workspace_id: scopes.as_ref().map(|_| Uuid(5)),
        token_scopes: scopes,
    }
}

#[test]
fn a_token_sees_what_its_scopes_read() {
    assert_eq!(allowed_content_kinds(&auth(None)), None);
    assert_eq!(
        allowed_content_kinds(&auth(Some(vec![ApiTokenScope::TasksRead]))),
        Some(vec![ContentKind::Task])
    );
    assert_eq!(allowed_parent_kinds(&auth(None)), None);
    assert_eq!(
        allowed_parent_kinds(&auth(Some(vec![ApiTokenScope::DocumentsRead]))),
        Some(ParentKinds {
            document: true,
            task: false
        })
    );
    assert!(require_extra_scope(&auth(None), ApiTokenScope::TasksWrite).is_ok());
    assert!(require_extra_scope(
        &auth(Some(vec![ApiTokenScope::TasksWrite])),
        ApiTokenScope::TasksWrite
    )
    .is_ok());
    assert!(require_extra_scope(&auth(Some(vec![])), ApiTokenScope::TasksWrite).is_err());
}

#[test]
fn a_cookie_alone_makes_a_session() {
    assert_eq!(require_session(Some(Ok(Some(user())))).unwrap().user_id, Uuid(1));
    for missing in [None, Some(Ok(None))] {
        assert_eq!(
            require_session(missing).unwrap_err().code,
            ProblemCode::AuthenticationRequired
        );
    }
    assert_eq!(
        require_session(Some(Err(DbFailure))).unwrap_err().code,
        ProblemCode::Internal
    );
}

#[test]
fn consent_holds_back_sessions_only() {
    assert!(matches!(consent_entry(false, "/api/v1/x"), ConsentStep::Pass));
    assert!(matches!(consent_entry(true, "/api/v1/legal"), ConsentStep::Pass));
    assert!(matches!(consent_entry(true, "/api/v1/x"), ConsentStep::Ask));
    assert!(matches!(consent_decision(Ok(false)), ConsentStep::Pass));
    assert!(matches!(
        consent_decision(Ok(true)),
        ConsentStep::Refuse(e) if e.code == ProblemCode::ConsentRequired
    ));
    assert!(matches!(
        consent_decision(Err(())),
        ConsentStep::Refuse(e) if e.code == ProblemCode::Internal
    ));
}

#[test]
fn routes_ask_what_they_ask() {
    assert_eq!(caller(Route::Login), Caller::Anyone);
    assert_eq!(caller(Route::ListProjects), Caller::Cookie);
    assert_eq!(caller(Route::PatchMe), Caller::Cookie);
    assert_eq!(caller(Route::Withdraw), Caller::Known(Access::Session));
    assert_eq!(
        caller(Route::CreateWebhook),
        Caller::Known(Access::Scope(ApiTokenScope::WorkspaceManage))
    );
    assert!(route_changes(Route::CreateWebhook));
    assert!(!route_changes(Route::CollectionQuery));
    let origin = "https://x.example";
    let foreign: Option<&[u8]> = Some(b"https://y.example");
    assert_eq!(
        enter(Route::CreateWebhook, None, foreign, origin).unwrap_err().code,
        ProblemCode::OriginMismatch
    );
    assert!(enter(Route::GithubWebhook, None, foreign, origin).is_ok());
    assert!(enter(Route::ListWebhooks, None, foreign, origin).is_ok());
    let bearer: Option<&[u8]> = Some(b"Bearer t");
    assert_eq!(
        enter(Route::CreateProject, bearer, foreign, origin).unwrap_err().code,
        ProblemCode::NotFound
    );
    assert_eq!(
        enter(Route::CreateRevision, bearer, foreign, origin).unwrap_err().code,
        ProblemCode::OriginMismatch
    );
    assert!(enter(Route::GetImportStatus, None, foreign, origin).is_err());
    assert_eq!(
        enter(Route::CreateTaskRevision, bearer, None, origin).unwrap(),
        Caller::Known(Access::Scope(ApiTokenScope::TasksWrite))
    );
}

#[test]
fn a_limit_grants_so_many_within_its_window() {
    let mut limiter = RateLimiter::new();
    for i in 0..3u64 {
        assert_eq!(limiter.allow("k", 3, i * SECOND), Ok(()));
    }
    let wait = limiter.allow("k", 3, 10 * SECOND).unwrap_err();
    assert_eq!(wait, 290);
    assert!(limiter.allow("other", 3, 10 * SECOND).is_ok());
    assert!(limiter.allow("k", 3, (10 + wait as u64) * SECOND).is_ok());
}

#[test]
fn a_limit_of_nothing_grants_nothing() {
    let mut limiter = RateLimiter::new();
    assert!(limiter.allow_window("k", 0, 60 * SECOND, 0).is_err());
}

#[test]
fn many_keys_are_kept_within_bounds() {
    let mut limiter = RateLimiter::new();
    for i in 0..10_050u64 {
        assert!(limiter.allow_window(&format!("k{i}"), 1, SECOND, i).is_ok());
    }
}

#[test]
fn requests_are_charged_to_their_keys() {
    let mut limiter = RateLimiter::new();
    assert!(charge(&mut limiter, "a", 1, WINDOW, 0).is_ok());
    let refused = charge(&mut limiter, "a", 1, WINDOW, 0).unwrap_err();
    assert_eq!(refused.code, ProblemCode::RateLimited);
    assert_eq!(refused.retry_after, Some(300));
    assert!(charge_both(&mut limiter, "x", 2, "y", 1, WINDOW, 0).is_ok());
    assert!(charge_both(&mut limiter, "x", 2, "y", 1, WINDOW, 0).is_err());
    assert!(charge_both(&mut limiter, "x", 2, "z", 9, WINDOW, 0).is_err());
}

#[test]
fn ones_own_profile_is_not_hidden_from_tokens() {
    let origin = "https://x.example";
    let bearer: Option<&[u8]> = Some(b"Bearer t");
    let own: Option<&[u8]> = Some(b"https://x.example");
    assert_eq!(enter(Route::PatchMe, bearer, own, origin).unwrap(), Caller::Cookie);
}

#[test]
fn versions_hide_from_tokens_where_they_look_who_calls() {
    let origin = "https://x.example";
    let own: Option<&[u8]> = Some(b"https://x.example");
    let bearer: Option<&[u8]> = Some(b"Bearer t");
    assert!(enter(Route::RestoreRevision, bearer, own, origin).is_ok());
    assert_eq!(
        before_credential(Route::RestoreRevision, bearer).unwrap_err().code,
        ProblemCode::NotFound
    );
    assert!(before_credential(Route::RestoreRevision, None).is_ok());
    assert!(before_credential(Route::RestoreTaskRevision, bearer).is_ok());
    assert!(enter(Route::ListRevisions, bearer, None, origin).is_ok());
    assert!(before_credential(Route::ListRevisions, bearer).is_err());
    assert!(enter(Route::GetRevision, bearer, None, origin).is_err());
}

#[test]
fn comments_of_project_documents_ask_only_for_a_session() {
    for route in [Route::ListProjectDocumentComments, Route::CreateProjectDocumentComment] {
        assert_eq!(caller(route), Caller::Signed);
        let refused = enter(route, Some(b"Bearer t"), None, "https://x.example").unwrap_err();
        assert_eq!(refused.code, ProblemCode::NotFound);
    }
    let odd = SessionUser { user_id: "x".to_string(), ..user() };
    let (found, id) = require_cookie(Some(Ok(Some(odd)))).unwrap();
    assert_eq!((found.user_id.as_str(), id), ("x", Uuid(2)));
    let odd = SessionUser { user_id: "x".to_string(), ..user() };
    assert_eq!(
        require_session(Some(Ok(Some(odd)))).unwrap_err().code,
        ProblemCode::AuthenticationRequired
    );
    let lost = SessionUser { session_id: "x".to_string(), ..user() };
    for found in [None, Some(Ok(None)), Some(Ok(Some(lost)))] {
        assert_eq!(require_cookie(found).unwrap_err().code, ProblemCode::AuthenticationRequired);
    }
    assert_eq!(
        require_cookie(Some(Err(DbFailure))).unwrap_err().code,
        ProblemCode::Internal
    );
}

#[test]
fn changes_of_tasks_are_recorded_under_their_channel() {
    assert_eq!(recorded_channel(Route::PatchTask, Some(b"Bearer t")), "api");
    assert_eq!(recorded_channel(Route::PatchTask, None), "web");
    assert_eq!(recorded_channel(Route::PatchFlatTask, Some(b"Bearer t")), "web");
}

#[test]
fn tasks_are_purged_in_a_session_alone() {
    assert_eq!(caller(Route::PurgeTask), Caller::Known(Access::Session));
    assert!(route_changes(Route::PurgeTask));
    assert_eq!(success(Route::PurgeTask), 200);
}

#[test]
fn routes_between_documents_and_tasks_ask_for_both_scopes() {
    let auth = |scopes| RequestAuth {
        user: user(),
        user_id: Uuid(1),
        credential_id: Uuid(2),
        token_scopes: scopes,
        token_workspace_id: None,
    };
    let documents = || Some(vec![ApiTokenScope::DocumentsWrite, ApiTokenScope::DocumentsRead]);
    let refused = behind_credential(Route::CreateTaskFromDocument, &auth(documents()));
    assert_eq!(refused.unwrap_err().code, ProblemCode::NotFound);
    assert!(behind_credential(Route::TaskOrigin, &auth(documents())).is_err());
    assert!(behind_credential(Route::GetDocument, &auth(documents())).is_ok());
    assert!(behind_credential(Route::TaskOrigin, &auth(None)).is_ok());
    let tasks = Some(vec![ApiTokenScope::TasksRead]);
    assert!(behind_credential(Route::TaskOrigin, &auth(tasks)).is_ok());
}

#[test]
fn percent_encoded_text_is_read() {
    assert_eq!(percent_decode("%61%2F%62").as_deref(), Some("a/b"));
    assert_eq!(percent_decode("%ed%95%9C").as_deref(), Some("한"));
    assert_eq!(percent_decode("/api/v1/한").as_deref(), Some("/api/v1/한"));
    assert_eq!(percent_decode("a%20b%25").as_deref(), Some("a b%"));
    assert_eq!(percent_decode("%2"), None);
    assert_eq!(percent_decode("%2g"), None);
    assert_eq!(percent_decode("%ff"), None);
}

#[test]
fn routes_answer_with_their_status() {
    assert_eq!(success(Route::Me), 200);
    assert_eq!(success(Route::StartImport), 201);
    assert_eq!(success(Route::RequestMagicLink), 202);
    assert_eq!(success(Route::Logout), 204);
    assert_eq!(success(Route::OidcCallback), 302);
    assert_eq!(success(Route::OidcLink), 303);
}

#[test]
fn routes_look_at_a_request_in_their_order() {
    let all = |route| {
        let seen: Vec<&str> = stages(route)
            .iter()
            .map(|s| match s {
                Stage::Path => "path",
                Stage::Input => "input",
                Stage::Entry => "entry",
                Stage::Values => "values",
                Stage::Credential => "credential",
            })
            .collect();
        seen.join(" ")
    };
    assert_eq!(all(Route::Login), "input entry credential path values");
    assert_eq!(all(Route::CreateProject), "input entry values credential path");
    assert_eq!(all(Route::CreateTask), "input entry values credential path");
    assert_eq!(all(Route::PatchTask), "input entry values credential path");
    assert_eq!(all(Route::ListRevisions), "input entry values credential path");
    assert_eq!(all(Route::ListMeNotifications), "input entry credential path values");
    assert_eq!(all(Route::PutBodyWiki), "entry input credential path values");
    assert_eq!(all(Route::RestoreRevision), "entry input credential path values");
    assert_eq!(all(Route::PatchBlockWiki), "entry input values credential path");
    assert_eq!(all(Route::CreateTaskFromDocument), "entry input values credential path");
    assert_eq!(all(Route::ListTaskComments), "entry input credential path values");
    assert_eq!(all(Route::LookupDisplayId), "entry path input credential values");
    assert_eq!(all(Route::Withdraw), "entry credential path input values");
    assert_eq!(all(Route::StartImport), "entry credential path input values");
    assert_eq!(all(Route::RemoveHoliday), "entry path credential input values");
    assert_eq!(all(Route::OidcPutWorkspaceOidc), "path entry credential input values");
    assert_eq!(all(Route::OidcLink), "entry credential path input values");
    assert_eq!(all(Route::DuplicateWiki), "credential path input values entry");
}
