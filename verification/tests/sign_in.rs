//! Signing in and out, the account, and providers of sign-ins.

use fvoci_http::authz::{RequestAuth, SessionUser};
use fvoci_http::cookie::SessionCookie;
use fvoci_http::error::{AppError, DbFailure, ProblemCode};
use fvoci_http::header::Header;
use fvoci_http::ids::Uuid;
use fvoci_http::json_input::{FamilyNamePatch, ProfilePatch};
use fvoci_http::query::strict_query;
use fvoci_http::rate_limit::{RateLimiter, WINDOW};
use fvoci_http::routes::account::{
    cancel_url, cancel_withdraw_limit, cancel_withdraw_reply, email_change_for, email_change_mails,
    last_visited, link_url, locate_input, located, magic_email_limit, magic_ip_limit,
    magic_login_mail, magic_result, mail_accepted, non_empty, parse_uuid_param,
    password_change_check, password_change_input, password_change_limits, password_change_verified,
    password_changed, with_cookie, withdraw_confirmed, withdraw_input, withdraw_limits,
    withdraw_reply, withdraw_stored_password, withdrawn, CancelWithdrawOutcome, LiveUser,
    LocateKind, MailKind, OkResponse, PasswordChangeBody, PasswordCheck, Scheduled, SessionGone,
    WithdrawAsk, WithdrawBody, WithdrawConfirm, WithdrawError,
};
use fvoci_http::routes::auth::{
    acting_user, check_password, check_profile, issue_session, login_email_limit, login_ip_limit,
    login_reply, logout_reply, profile_patched, reset_completed, reset_for, reset_url,
    ProfileChecks, ResetUser, LOGIN_PER_EMAIL, LOGIN_PER_IP,
};
use fvoci_http::routes::dashboard::{
    me_dashboard, Dashboard, DashboardProject, DashboardWorkspace, RecentItem,
};
use fvoci_http::routes::oidc::{
    begin_error, callback_query, callback_ready, callback_reply, check_provider, identities_reply,
    keep_first, limit_ip, link_input, manage_error, managed, parse_consents, provider_param, providers_reply,
    sealed_secret, slug_query, sso_input, sso_workspace, start_input, state_redirect, unlink_reply,
    uuid_query, validate_input, workspace_oidc_reply, workspace_path, BeginError, CallbackReply,
    ManageError, Mode, OidcResult, ProviderOutput, Started, StateCookie, UnlinkOutcome,
    WorkspaceOidcBody, WorkspaceOidcOutput,
};
use fvoci_http::time::Timestamp;

fn auth() -> RequestAuth {
    RequestAuth {
        user: SessionUser {
            user_id: Uuid(1).text(),
            session_id: Uuid(2).text(),
            email: "a@example.com".to_string(),
            has_password: true,
        },
        user_id: Uuid(1),
        credential_id: Uuid(2),
        token_scopes: None,
        token_workspace_id: None,
    }
}

fn cookies() -> SessionCookie {
    SessionCookie { name: "sid".to_string(), ttl_secs: 60 }
}

fn values(headers: &[Header]) -> Vec<(&str, &str)> {
    headers
        .iter()
        .map(|h| (h.name.as_str(), h.value.as_str()))
        .collect()
}

fn code<T: std::fmt::Debug>(r: Result<T, AppError>) -> ProblemCode {
    r.unwrap_err().code
}

fn place<T: std::fmt::Debug>(r: Result<T, AppError>) -> (ProblemCode, Option<String>) {
    let e = r.unwrap_err();
    (e.code, e.source)
}

fn invalid_at(at: &str) -> (ProblemCode, Option<String>) {
    (ProblemCode::InvalidInput, Some(at.to_string()))
}

#[test]
fn sign_ins_are_counted_by_address_and_by_email() {
    let mut limiter = RateLimiter::new();
    for _ in 0..LOGIN_PER_IP {
        assert!(login_ip_limit(&mut limiter, "1.2.3.4", 5).is_ok());
    }
    assert_eq!(login_ip_limit(&mut limiter, "1.2.3.4", 5).unwrap_err().retry_after, Some(300));
    assert!(login_ip_limit(&mut limiter, "1.2.3.5", 5).is_ok());
    assert!(login_ip_limit(&mut limiter, "1.2.3.4", 5 + WINDOW).is_ok());
    for _ in 0..LOGIN_PER_EMAIL {
        assert!(login_email_limit(&mut limiter, "1.2.3.4", "a@b", 5).is_ok());
    }
    assert_eq!(
        code(login_email_limit(&mut limiter, "1.2.3.4", "a@b", 5)),
        ProblemCode::RateLimited
    );
    assert!(login_email_limit(&mut limiter, "1.2.3.4", "c@b", 5).is_ok());
}

#[test]
fn a_sign_in_is_answered_with_a_cookie() {
    assert!(check_password("x").is_ok());
    assert_eq!(code(check_password("")), ProblemCode::InvalidInput);
    let (id, headers) =
        login_reply(Ok(Some((Uuid(1), "tok".to_string()))), &cookies(), true).unwrap();
    assert_eq!(id, Uuid(1).text());
    assert_eq!(
        values(&headers),
        vec![("set-cookie", "sid=tok; HttpOnly; Path=/; SameSite=Lax; Max-Age=60; Secure")]
    );
    assert_eq!(
        code(login_reply(Ok(None), &cookies(), true)),
        ProblemCode::InvalidEmailOrPassword
    );
    assert_eq!(code(login_reply(Err(DbFailure), &cookies(), true)), ProblemCode::Internal);
    assert_eq!(values(&issue_session(&cookies(), false, "t")).len(), 1);
    let (status, headers) = logout_reply(&cookies(), false);
    assert_eq!(status, 204);
    assert_eq!(
        values(&headers),
        vec![("set-cookie", "sid=; HttpOnly; Path=/; SameSite=Lax; Max-Age=0")]
    );
    assert_eq!(acting_user(Some(&Uuid(1).text())), Some(Uuid(1)));
    assert_eq!(acting_user(Some("x")), None);
    assert_eq!(acting_user(None), None);
}

fn patch(family_name: FamilyNamePatch) -> ProfilePatch {
    ProfilePatch {
        given_name: " Kim ".to_string(),
        family_name,
        locale: None,
        timezone: None,
        week_starts_on: None,
        text_scale: None,
    }
}

fn fine() -> ProfileChecks {
    ProfileChecks {
        given_name: Ok(()),
        locale: Ok(()),
        text_scale: Ok(()),
        week_starts_on: Ok(()),
        family_name: Ok(()),
    }
}

#[test]
fn a_profile_is_checked_in_order() {
    let settled = check_profile(patch(FamilyNamePatch::Replace(" Lee ".to_string())), fine());
    let settled = settled.unwrap();
    assert_eq!(settled.given_name, "Kim");
    assert!(matches!(settled.family_name, FamilyNamePatch::Replace(n) if n == "Lee"));
    let bad = |at: &str| Err(AppError::with_source(ProblemCode::InvalidInput, at));
    let mut checks = fine();
    checks.locale = bad("/locale");
    checks.family_name = bad("/familyName");
    assert!(check_profile(patch(FamilyNamePatch::Preserve), checks).is_ok());
    let mut checks = fine();
    checks.locale = bad("/locale");
    checks.given_name = bad("/givenName");
    assert_eq!(
        place(check_profile(patch(FamilyNamePatch::Clear), checks)),
        invalid_at("/givenName")
    );
    let mut p = patch(FamilyNamePatch::Preserve);
    p.timezone = Some("  ".to_string());
    assert_eq!(
        place(check_profile(p, fine())),
        (ProblemCode::InvalidInput, None)
    );
    assert_eq!(profile_patched(Ok(Ok(3))).unwrap(), 3);
    assert_eq!(code(profile_patched::<i32>(Ok(Err(())))), ProblemCode::AuthenticationRequired);
    assert_eq!(code(profile_patched::<i32>(Err(DbFailure))), ProblemCode::Internal);
}

#[test]
fn a_password_is_reset() {
    let user = |suspended| ResetUser { user_id: Uuid(1), generation: 2, suspended };
    assert!(reset_for(Ok(Some(user(true)))).unwrap().is_none());
    assert_eq!(reset_for(Ok(Some(user(false)))).unwrap().unwrap().generation, 2);
    assert!(reset_for(Ok(None)).unwrap().is_none());
    assert_eq!(code(reset_for(Err(DbFailure))), ProblemCode::Internal);
    assert_eq!(reset_url("https://x//", "t"), "https://x/reset-password?token=t");
    assert!(reset_completed(Ok(true)).unwrap().ok);
    assert_eq!(code(reset_completed(Ok(false))), ProblemCode::MagicInvalid);
}

#[test]
fn a_withdrawal_is_confirmed() {
    let ask = |password: Option<&str>, local: Option<&str>| {
        withdraw_input(WithdrawBody {
            current_password: password.map(str::to_string),
            email_local_part: local.map(str::to_string),
        })
    };
    assert!(matches!(ask(Some("p"), Some("l")), Ok(WithdrawAsk::Password(p)) if p == "p"));
    assert!(matches!(ask(None, Some("l")), Ok(WithdrawAsk::EmailLocalPart(l)) if l == "l"));
    assert_eq!(place(ask(Some(""), Some("l"))), invalid_at("/"));
    assert_eq!(place(ask(None, Some(""))), invalid_at("/"));
    assert_eq!(code(ask(None, None)), ProblemCode::ConfirmInvalid);
    assert_eq!(withdraw_stored_password(Ok(Some("h".to_string()))).unwrap(), "h");
    assert_eq!(code(withdraw_stored_password(Ok(None))), ProblemCode::ConfirmInvalid);
    assert!(matches!(
        withdraw_confirmed("h".to_string(), true),
        Ok(WithdrawConfirm::Password { verified_hash }) if verified_hash == "h"
    ));
    assert_eq!(code(withdraw_confirmed("h".to_string(), false)), ProblemCode::ConfirmInvalid);
}

#[test]
fn a_withdrawal_is_answered() {
    let scheduled = || Scheduled {
        email: "a@example.com".to_string(),
        cancel_token: "c".to_string(),
        erase_at: "2030-01-01T00:00:00.000Z".to_string(),
    };
    assert_eq!(withdrawn(Ok(Ok(scheduled()))).unwrap().cancel_token, "c");
    let refused = |e| code(withdrawn(Ok(Err(e))));
    assert_eq!(refused(WithdrawError::ConfirmInvalid), ProblemCode::ConfirmInvalid);
    assert_eq!(refused(WithdrawError::OwnerTransferRequired), ProblemCode::OwnerTransferRequired);
    assert_eq!(refused(WithdrawError::LastInstanceAdmin), ProblemCode::LastInstanceAdmin);
    assert_eq!(refused(WithdrawError::SessionGone), ProblemCode::AuthenticationRequired);
    assert_eq!(cancel_url("https://x/", "c"), "https://x/cancel-withdraw#token=c");
    let (out, headers) = withdraw_reply(scheduled(), Some(true), &cookies(), false);
    assert!(out.ok && out.mail_sent && out.erase_at.starts_with("2030"));
    assert_eq!(
        values(&headers),
        vec![("set-cookie", "sid=; HttpOnly; Path=/; SameSite=Lax; Max-Age=0")]
    );
    assert!(!withdraw_reply(scheduled(), Some(false), &cookies(), false).0.mail_sent);
    assert!(!withdraw_reply(scheduled(), None, &cookies(), false).0.mail_sent);
    assert!(with_cookie("a\nb").is_empty());
    assert!(cancel_withdraw_reply(Ok(CancelWithdrawOutcome::Cancelled)).unwrap().ok);
    assert_eq!(
        code(cancel_withdraw_reply(Ok(CancelWithdrawOutcome::DeadlinePassed))),
        ProblemCode::NotFound
    );
    assert_eq!(
        code(cancel_withdraw_reply(Ok(CancelWithdrawOutcome::NotFound))),
        ProblemCode::NotFound
    );
}

#[test]
fn the_account_is_counted() {
    let mut limiter = RateLimiter::new();
    for _ in 0..10 {
        assert!(withdraw_limits(&mut limiter, "1.2.3.4", &auth(), 0).is_ok());
        assert!(password_change_limits(&mut limiter, "1.2.3.4", &auth(), 0).is_ok());
    }
    assert!(withdraw_limits(&mut limiter, "1.2.3.4", &auth(), 0).is_err());
    assert!(password_change_limits(&mut limiter, "1.2.3.4", &auth(), 0).is_err());
    for _ in 0..30 {
        assert!(cancel_withdraw_limit(&mut limiter, "1.2.3.4", 0).is_ok());
    }
    assert!(cancel_withdraw_limit(&mut limiter, "1.2.3.4", 0).is_err());
    assert!(magic_ip_limit(&mut limiter, "1.2.3.4", 1, 0).is_ok());
    assert!(magic_ip_limit(&mut limiter, "1.2.3.4", 1, 0).is_err());
    assert!(magic_email_limit(&mut limiter, "1.2.3.4", "a@b", 1, 0).is_ok());
    assert!(magic_email_limit(&mut limiter, "1.2.3.4", "a@b", 1, 0).is_err());
}

#[test]
fn mails_carry_links() {
    let user = || LiveUser { email: "old@b".to_string(), generation: 1 };
    assert!(email_change_for(Ok(Some(user())), Ok(true)).unwrap().is_none());
    assert!(email_change_for(Ok(Some(user())), Ok(false)).unwrap().is_some());
    assert!(email_change_for(Ok(None), Err(DbFailure)).unwrap().is_none());
    assert_eq!(
        code(email_change_for(Ok(Some(user())), Err(DbFailure))),
        ProblemCode::Internal
    );
    let (to_new, to_old) = email_change_mails("https://x/", "new@b".to_string(), user(), "t");
    assert_eq!(to_new.kind, MailKind::EmailChange);
    assert_eq!(to_new.url.as_deref(), Some("https://x/confirm-email?token=t"));
    assert_eq!((to_old.to.as_str(), to_old.url), ("old@b", None));
    let mail = magic_login_mail("https://x", "a@b".to_string(), "t");
    assert_eq!(mail.url.as_deref(), Some("https://x/magic-link?token=t"));
    assert_eq!(link_url("https://x/", "/p", "t"), "https://x/p?token=t");
    assert_eq!(mail_accepted().0, 202);
    assert_eq!(magic_result(Ok(Some(1))).unwrap(), 1);
    assert_eq!(code(magic_result::<i32>(Ok(None))), ProblemCode::MagicInvalid);
    assert_eq!(non_empty("a".to_string()).unwrap(), "a");
    assert_eq!(place(non_empty(String::new())), invalid_at("/"));
}

#[test]
fn a_password_is_changed() {
    let input = |current: Option<&str>| {
        password_change_input(PasswordChangeBody {
            current_password: current.map(str::to_string),
            new_password: "new".to_string(),
        })
    };
    assert_eq!(input(Some("p")).unwrap(), (Some("p".to_string()), "new".to_string()));
    assert_eq!(place(input(Some(""))), invalid_at("/"));
    assert!(matches!(
        password_change_check(Ok(None), None),
        Ok(PasswordCheck::Nothing)
    ));
    assert!(matches!(
        password_change_check(Ok(Some("h".to_string())), Some("p".to_string())),
        Ok(PasswordCheck::Verify { stored, current }) if stored == "h" && current == "p"
    ));
    assert_eq!(
        code(password_change_check(Ok(Some("h".to_string())), None)),
        ProblemCode::PasswordInvalid
    );
    assert!(password_change_verified(true).is_ok());
    assert_eq!(code(password_change_verified(false)), ProblemCode::PasswordInvalid);
    assert!(password_changed(Ok(true)).unwrap().ok);
    assert_eq!(code(password_changed(Ok(false))), ProblemCode::PasswordInvalid);
    assert!(OkResponse { ok: true }.ok);
}

#[test]
fn a_thing_is_located() {
    let ask = |raw: &str| locate_input(&strict_query(Some(raw), &["type", "id"]).unwrap());
    let id = Uuid(77).text();
    assert_eq!(ask(&format!("type=task&id={id}")).unwrap(), (LocateKind::Task, Uuid(77)));
    assert_eq!(ask(&format!("id={id}&type=document")).unwrap().0, LocateKind::Document);
    assert_eq!(place(ask("type=file&id=x")), invalid_at("/type"));
    assert_eq!(place(ask("type=task")), invalid_at("/id"));
    assert_eq!(place(ask("type=task&id=x")), invalid_at("/"));
    assert_eq!(place(parse_uuid_param("x")), invalid_at("/"));
    assert_eq!(located(Ok(Ok(Some(Uuid(7))))).unwrap(), Uuid(7).text());
    assert_eq!(code(located(Ok(Ok(None)))), ProblemCode::NotFound);
    assert_eq!(code(located(Ok(Err(SessionGone)))), ProblemCode::AuthenticationRequired);
    let visited = |raw: &str| last_visited(&strict_query(Some(raw), &["lastVisited"]).unwrap());
    assert_eq!(visited(&format!("lastVisited={id}")).unwrap(), Some(Uuid(77)));
    assert_eq!(visited("").unwrap(), None);
}

#[test]
fn the_dashboard_is_answered() {
    let board = Dashboard {
        assigned: vec![],
        recent: vec![RecentItem {
            kind: "task".to_string(),
            id: Uuid(3),
            title: "T".to_string(),
            project_id: Some(Uuid(4)),
            number: Some(12),
            updated_at: Timestamp::from_micros(0).unwrap(),
            workspace_id: Uuid(7),
        }],
        labels: vec![],
        statuses: vec![],
        projects: vec![DashboardProject {
            id: Uuid(4),
            workspace_id: Uuid(7),
            key: "K".to_string(),
            name: "P".to_string(),
        }],
        members: vec![],
        workspaces: vec![DashboardWorkspace {
            id: Uuid(7),
            name: "W".to_string(),
            slug: "w".to_string(),
            role: "owner".to_string(),
            kind: "team".to_string(),
            document_count: 1,
            assigned_count: 2,
            unread_count: 3,
        }],
        unread_count: 5,
    };
    let out = me_dashboard(Ok(Ok(board))).unwrap();
    assert_eq!(out.unread_count, 5);
    assert_eq!(out.recent[0].project_id, Some(Uuid(4).text()));
    assert_eq!(out.projects[0].workspace_id, Uuid(7).text());
    assert_eq!((out.workspaces[0].assigned_count, out.workspaces[0].unread_count), (2, 3));
    assert_eq!(code(me_dashboard(Ok(Err(SessionGone)))), ProblemCode::AuthenticationRequired);
    assert_eq!(code(me_dashboard(Err(DbFailure))), ProblemCode::Internal);
}

fn states() -> StateCookie {
    StateCookie { name: "st".to_string(), ttl_secs: 600 }
}

#[test]
fn a_sign_in_at_a_provider_starts() {
    let started = Started {
        authorization_url: "https://idp/auth".to_string(),
        signed_state: "s".to_string(),
    };
    let headers = state_redirect(Ok(started), &states(), true).unwrap();
    assert_eq!(
        values(&headers),
        vec![
            ("location", "https://idp/auth"),
            ("set-cookie", "st=s; HttpOnly; Path=/; SameSite=Lax; Max-Age=600; Secure"),
        ]
    );
    let codes: Vec<ProblemCode> = vec![
        begin_error(BeginError::NotConfigured).code,
        begin_error(BeginError::Unavailable).code,
        begin_error(BeginError::Db).code,
    ];
    assert_eq!(codes[0], ProblemCode::ProviderNotConfigured);
    assert_eq!(codes[2], ProblemCode::Internal);
    assert_eq!(
        code(state_redirect(Err(BeginError::NotConfigured), &states(), true)),
        ProblemCode::ProviderNotConfigured
    );
    let pairs = |raw: &str| {
        strict_query(Some(raw), &["invitation", "consents", "workspaceId", "slug"]).unwrap()
    };
    let input = start_input(&pairs("invitation=i"), None).unwrap();
    assert_eq!((input.mode, input.invitation_token.as_deref()), (Mode::Invite, Some("i")));
    assert_eq!(place(start_input(&pairs("invitation="), None)), invalid_at("/invitation"));
    assert_eq!(
        code(start_input(&pairs("consents=x"), None)),
        ProblemCode::InvalidConsentsQuery
    );
    assert_eq!(place(start_input(&pairs("workspaceId=x"), None)), invalid_at("/"));
    let input = start_input(&pairs("consents=x"), Some(vec![("terms".to_string(), 2)])).unwrap();
    assert_eq!((input.mode, input.consents.len()), (Mode::Login, 1));
    assert!(parse_consents(false, None).unwrap().is_empty());
    let input = link_input(&pairs("workspaceId=00000000-0000-0000-0000-000000000007"), Uuid(3));
    let input = input.unwrap();
    assert_eq!((input.mode, input.user_id), (Mode::Link, Some(Uuid(3))));
    assert_eq!(input.workspace_id, Some(Uuid(7)));
    assert_eq!(place(link_input(&pairs("workspaceId=x"), Uuid(3))), invalid_at("/"));
    let input = sso_input(Uuid(7));
    assert_eq!((input.mode, input.user_id, input.workspace_id), (Mode::Login, None, Some(Uuid(7))));
    assert_eq!(slug_query(&pairs("slug=%20a%20")).unwrap(), "a");
    assert_eq!(place(slug_query(&pairs(""))), invalid_at("/slug"));
    assert_eq!(code(sso_workspace(Ok(None))), ProblemCode::ProviderNotConfigured);
    assert_eq!(sso_workspace(Ok(Some(Uuid(7)))).unwrap(), Uuid(7));
    assert_eq!(provider_param(Some(3)).unwrap(), 3);
    assert_eq!(place(provider_param::<i32>(None)), invalid_at("/provider"));
    assert_eq!(uuid_query(&pairs(""), "workspaceId").unwrap(), None);
    let mut limiter = RateLimiter::new();
    for _ in 0..30 {
        assert!(limit_ip(&mut limiter, "1.2.3.4", 0).is_ok());
    }
    assert!(limit_ip(&mut limiter, "1.2.3.4", 0).is_err());
}

#[test]
fn the_first_value_counts() {
    assert_eq!(
        callback_query(Some("code=a%2Bb&state=s&code=c")),
        vec![
            ("code".to_string(), "a+b".to_string()),
            ("state".to_string(), "s".to_string()),
        ]
    );
    assert!(callback_query(None).is_empty());
    assert_eq!(
        keep_first(vec![
            ("a".to_string(), "1".to_string()),
            ("a".to_string(), "2".to_string()),
        ]),
        vec![("a".to_string(), "1".to_string())]
    );
}

#[test]
fn a_sign_in_at_a_provider_ends() {
    let clear = "st=; HttpOnly; Path=/; SameSite=Lax; Max-Age=0";
    let place_of = |result| {
        match callback_reply("https://x/", result, &states(), &cookies(), false) {
            CallbackReply::Redirect { headers } => {
                assert_eq!(values(&headers)[1], ("set-cookie", clear));
                (headers[0].value.clone(), headers.len())
            }
            other => panic!("{other:?}"),
        }
    };
    assert_eq!(
        place_of(Ok(OidcResult::Session { token: "t".to_string() })),
        ("https://x/".to_string(), 3)
    );
    assert_eq!(
        place_of(Ok(OidcResult::Mfa { mfa_token: "m".to_string() })),
        ("https://x/login#mfa=m".to_string(), 2)
    );
    assert_eq!(
        place_of(Ok(OidcResult::Linked)),
        ("https://x/settings/account?linked=1".to_string(), 2)
    );
    let error = |mode| OidcResult::Error { code: "e".to_string(), mode };
    assert_eq!(
        place_of(Ok(error(Some(Mode::Link)))),
        ("https://x/settings/account?error=e".to_string(), 2)
    );
    assert_eq!(
        place_of(Ok(error(Some(Mode::Login)))),
        ("https://x/login?error=e".to_string(), 2)
    );
    assert_eq!(place_of(Ok(error(None))), ("https://x/login?error=e".to_string(), 2));
    assert_eq!(
        place_of(Err(DbFailure)),
        ("https://x/login?error=oidc_provider_error".to_string(), 2)
    );
    match callback_reply("https://x", Ok(OidcResult::SeatLimit), &states(), &cookies(), false) {
        CallbackReply::Refused { problem, headers } => {
            assert_eq!(problem.code, ProblemCode::LimitSeats);
            assert_eq!(values(&headers), vec![("set-cookie", clear)]);
        }
        other => panic!("{other:?}"),
    }
}

#[test]
fn a_sign_in_at_a_provider_knows_who_came_back() {
    let user = |id: &str| SessionUser {
        user_id: id.to_string(),
        session_id: Uuid(2).text(),
        email: "a@example.com".to_string(),
        has_password: true,
    };
    let known = Some(Ok(Some(user(&Uuid(7).text()))));
    assert_eq!(callback_ready(known, Ok(1u8)).unwrap(), (Some(Uuid(7)), 1));
    assert_eq!(callback_ready(Some(Ok(Some(user("x")))), Ok(1u8)).unwrap(), (None, 1));
    assert_eq!(callback_ready(Some(Ok(None)), Ok(1u8)).unwrap(), (None, 1));
    assert_eq!(callback_ready(None, Ok(1u8)).unwrap(), (None, 1));
    assert!(callback_ready(Some(Err(DbFailure)), Ok(1u8)).is_err());
    assert!(callback_ready::<u8>(None, Err(DbFailure)).is_err());
}

fn provider(client_id: &str, secret: &str, label: Option<&str>) -> WorkspaceOidcBody {
    WorkspaceOidcBody {
        client_id: client_id.to_string(),
        client_secret: secret.to_string(),
        label: label.map(str::to_string),
    }
}

#[test]
fn a_provider_is_checked() {
    let kept = validate_input("https://idp.example/a", &provider(" c ", "s", None)).unwrap();
    assert_eq!(kept.client_id, "c");
    assert_eq!(kept.label, "SSO");
    assert_eq!(kept.issuer, "https://idp.example/a");
    let kept = validate_input("http://idp", &provider("c", "s", Some(" L "))).unwrap();
    assert_eq!(kept.label, "L");
    let at = |issuer: &str, body: WorkspaceOidcBody| place(validate_input(issuer, &body));
    assert_eq!(at("", provider("c", "s", None)), invalid_at("/issuer"));
    assert_eq!(at("idp.example", provider("c", "s", None)), invalid_at("/issuer"));
    assert_eq!(at("ftp://idp.example", provider("c", "s", None)), invalid_at("/issuer"));
    assert_eq!(at("https://idp", provider("  ", "s", None)), invalid_at("/clientId"));
    assert_eq!(at("https://idp", provider("c", "", None)), invalid_at("/clientSecret"));
    assert_eq!(
        at("https://idp", provider("c", "s", Some(&"l".repeat(101)))),
        invalid_at("/label")
    );
    assert_eq!(
        place(check_provider("https:x", Some(("https".to_string(), false)), &provider("c", "s", None))),
        invalid_at("/issuer")
    );
}

#[test]
fn providers_are_managed() {
    let out = providers_reply(
        vec![ProviderOutput { provider: "google".to_string(), label: "G".to_string() }],
        true,
        false,
        Err(DbFailure),
    )
    .unwrap();
    assert!(out.magic_link && !out.workspace_sso && out.providers.len() == 1);
    assert!(providers_reply(vec![], false, true, Ok(true)).unwrap().workspace_sso);
    assert_eq!(code(providers_reply(vec![], true, true, Err(DbFailure))), ProblemCode::Internal);
    assert!(identities_reply(Ok(vec![])).unwrap().is_empty());
    assert_eq!(code(identities_reply(Err(DbFailure))), ProblemCode::Internal);
    assert!(unlink_reply(Ok(UnlinkOutcome::Unlinked)).unwrap().ok);
    assert_eq!(
        code(unlink_reply(Ok(UnlinkOutcome::NotFound))),
        ProblemCode::IdentityLinkNotFound
    );
    assert_eq!(code(unlink_reply(Ok(UnlinkOutcome::LastMethod))), ProblemCode::OidcLastMethod);
    assert_eq!(
        code(unlink_reply(Ok(UnlinkOutcome::SessionGone))),
        ProblemCode::AuthenticationRequired
    );
    assert_eq!(
        manage_error(ManageError::Forbidden).code,
        ProblemCode::InsufficientPermissions
    );
    assert_eq!(code(managed::<i32>(Ok(Err(ManageError::NotFound)))), ProblemCode::NotFound);
    assert_eq!(
        code(managed::<i32>(Ok(Err(ManageError::SessionGone)))),
        ProblemCode::AuthenticationRequired
    );
    assert_eq!(managed(Ok(Ok(3))).unwrap(), 3);
    assert_eq!(workspace_path(&Uuid(7).text()).unwrap(), Uuid(7));
    assert_eq!(place(workspace_path("x")), invalid_at("/workspaceId"));
    let row = WorkspaceOidcOutput {
        issuer: "i".to_string(),
        client_id: "c".to_string(),
        label: "l".to_string(),
    };
    assert_eq!(workspace_oidc_reply(Some(row)).label.as_deref(), Some("l"));
    assert!(workspace_oidc_reply(None).issuer.is_none());
    assert_eq!(code(sealed_secret(false, None)), ProblemCode::EncryptionUnavailable);
    assert_eq!(code(sealed_secret(true, None)), ProblemCode::Internal);
    assert_eq!(sealed_secret(true, Some("s".to_string())).unwrap(), "s");
}
