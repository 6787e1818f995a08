//! The instance and who may come to it.

use fvoci_http::answer::Answer;
use fvoci_http::authz::ApiTokenScope;
use fvoci_http::cookie::SessionCookie;
use fvoci_http::digest::sha256_hex;
use fvoci_http::error::{AppError, DbFailure, Params, ProblemCode};
use fvoci_http::header::Header;
use fvoci_http::ids::Uuid;
use fvoci_http::json::Json;
use fvoci_http::rate_limit::RateLimiter;
use fvoci_http::routes::admin::{
    admin_appointed, admin_settings_output, audit_cursor, branding_cleanup, branding_head,
    branding_record, branding_stored, check_legal, check_user_patch, is_apng, legal_output,
    legal_published, legal_rendered, map_patch_outcome, map_settings_write, parse_asset_kind,
    parse_settings_patch, require_admin_read, settings_written, user_output, user_patched, users_output, AdminUserRow,
    AuditPage, AuditRow, BrandingAsset, BrandingCleanup, LegalDocument, PatchUserOutcome,
    SettingCheck, SettingsSnapshot, SettingsWriteError,
};
use fvoci_http::routes::api_tokens::{
    created_output, map_token_error, me_token_input, parse_scopes, token_limit,
    workspace_token_input, ApiTokenDbError, ApiTokenRecord,
    CreatedApiToken,
};
use fvoci_http::routes::integrations::{
    ai_admit, ai_limit, ai_markdown, callback_ids, callback_state, github_said, inbound_body,
    inbound_reply, install_admitted, install_completed, issue_number, map_db_error,
    new_webhook_secret, suggested, webhook_created, webhook_input, CallbackQuery, InboundError,
    IntegrationDbError, WebhookRow,
};
use fvoci_http::routes::invitations::{
    accept_input, accept_limit, accepted, invitation_input, invitation_made, invitation_reply,
    invite_limit, map_accept_error, map_create_error, map_preview_error, preview_limit,
    preview_reply, AcceptBody, AcceptChecks, InvitationDbError, InvitationPreview, RequiredLegal,
};
use fvoci_http::routes::legal::{
    asset_range, asset_reply, asset_step, consents_input, consents_recorded, instance_reply,
    kind_param, version_param, AssetStep, ConsentItem, PublicReply,
};
use fvoci_http::routes::mfa::{
    attempt_allowed, awaiting, challenge, check_code, confirm_password, disable_confirmed,
    disable_input, disable_reply, enable_limit, enable_reply, enabled_row, keys, matched_step,
    mfa_code, open_secret, optional_password, reauth_limit, secret_text, session_created_recently,
    setup_admitted, setup_confirmed, setup_stored, status, verified_factor, verify_input,
    verify_limit, verify_reply, CodeReading, MfaRow, PasswordCheck, SecondFactor, SetupOutcome,
    SwitchOutcome,
};
use fvoci_http::routes::setup::{
    setup_input, setup_limit, setup_reply, setup_status, SetupBody, SetupDone, SetupError,
};
use fvoci_http::time::Timestamp;

fn at(micros: i64) -> Timestamp {
    Timestamp::from_micros(micros).unwrap()
}

fn code<T: std::fmt::Debug>(r: Result<T, AppError>) -> ProblemCode {
    r.unwrap_err().code
}

fn place<T: std::fmt::Debug>(r: Result<T, AppError>) -> (ProblemCode, Option<String>) {
    let e = r.unwrap_err();
    (e.code, e.source)
}

fn invalid_at(at: &str) -> (ProblemCode, Option<String>) {
    (ProblemCode::InvalidInput, Some(at.to_string()))
}

fn value<'a>(headers: &'a [Header], name: &str) -> Option<&'a str> {
    headers.iter().find(|h| h.name == name).map(|h| h.value.as_str())
}

fn cookies() -> SessionCookie {
    SessionCookie { name: "sid".to_string(), ttl_secs: 60 }
}

#[test]
fn the_audit_log_is_read_by_admins() {
    assert!(require_admin_read(Ok(true)).is_ok());
    assert_eq!(code(require_admin_read(Ok(false))), ProblemCode::NotFound);
    assert_eq!(code(require_admin_read(Err(DbFailure))), ProblemCode::Internal);
    assert_eq!(audit_cursor(Some("c"), Some(3)).unwrap(), Some(3));
    assert_eq!(audit_cursor::<i32>(None, None).unwrap(), None);
    assert_eq!(audit_cursor(Some(&"c".repeat(1025)), Some(3)).unwrap_err().params.is_none(), true);
    let bad = audit_cursor::<i32>(Some("c"), None).unwrap_err();
    assert!(matches!(bad.params, Some(Params::Code(c)) if c == "invalid_cursor"));
    let row = |payload| AuditRow {
        id: Uuid(1),
        actor_user_id: Some(Uuid(2)),
        workspace_id: None,
        verb: "v".to_string(),
        target_type: None,
        target_id: None,
        payload,
        ip: None,
        created_at: at(0),
    };
    let page = AuditPage {
        items: vec![
            row(Json::Null),
            row(Json::Object(vec![("a".to_string(), Json::Null)])),
        ],
        next_cursor: None,
    };
    let page = page.answer();
    assert!(matches!(&page.items[0].payload, Json::Object(m) if m.is_empty()));
    assert!(matches!(&page.items[1].payload, Json::Object(m) if m.len() == 1));
    assert_eq!(page.items[0].actor_user_id, Some(Uuid(2).text()));
}

fn admin_user(deleted: Option<i64>) -> AdminUserRow {
    AdminUserRow {
        id: Uuid(1),
        email: "a@b".to_string(),
        given_name: "A".to_string(),
        family_name: None,
        instance_admin: true,
        suspended_at: None,
        deleted_at: deleted.map(at),
        created_at: at(0),
    }
}

#[test]
fn users_are_erased_after_two_weeks() {
    let out = user_output(&admin_user(Some(5)));
    assert_eq!(out.erase_at.unwrap().micros(), 5 + 14 * 86_400 * 1_000_000);
    assert!(users_output(&[admin_user(None)])[0].erase_at.is_none());
    assert!(check_user_patch(Some(true), None).is_ok());
    assert_eq!(place(check_user_patch(None, None)), invalid_at("/"));
    let refused = |o| code(user_patched(Ok(Some(o))));
    assert_eq!(refused(PatchUserOutcome::NotFound), ProblemCode::NotFound);
    assert_eq!(refused(PatchUserOutcome::LastInstanceAdmin), ProblemCode::LastInstanceAdmin);
    assert_eq!(refused(PatchUserOutcome::SelfSuspension), ProblemCode::SelfSuspension);
    assert_eq!(refused(PatchUserOutcome::SeatLimit), ProblemCode::LimitSeats);
    assert_eq!(code(user_patched(Ok(None))), ProblemCode::NotFound);
    let done = map_patch_outcome(PatchUserOutcome::Patched { suspended_at: Some(at(3)) });
    assert_eq!(done.unwrap().suspended_at.unwrap().micros(), 3);
    assert!(
        admin_appointed(Ok(Some(PatchUserOutcome::Patched { suspended_at: None })))
            .unwrap()
            .ok
    );
    assert_eq!(code(admin_appointed(Err(DbFailure))), ProblemCode::Internal);
}

#[test]
fn legal_documents_are_published() {
    let (title, from) = check_legal(true, " T ", "b", Some(at(4))).unwrap();
    assert_eq!((title.as_str(), from.micros()), ("T", 4));
    assert_eq!(place(check_legal(false, "T", "b", Some(at(4)))), invalid_at("/"));
    assert_eq!(place(check_legal(true, " ", "b", Some(at(4)))), invalid_at("/"));
    assert_eq!(place(check_legal(true, &"t".repeat(301), "b", Some(at(4)))), invalid_at("/"));
    assert_eq!(place(check_legal(true, "T", "", Some(at(4)))), invalid_at("/"));
    assert_eq!(place(check_legal(true, "T", "b", None)), invalid_at("/"));
    let doc = || LegalDocument {
        kind: "terms".to_string(),
        version: 3,
        title: "T".to_string(),
        body_html: "<p>".to_string(),
        effective_at: at(0),
        required: true,
        published_at: at(1),
    };
    let out = legal_output(doc());
    assert_eq!((out.version, out.required), (3, true));
    assert_eq!(legal_published(Ok(Some(doc()))).unwrap().kind, "terms");
    assert_eq!(legal_published(Ok(None)).unwrap_err().code, ProblemCode::NotFound);
    assert_eq!(legal_published(Err(DbFailure)).unwrap_err().code, ProblemCode::Internal);
    assert_eq!(legal_rendered(Some("<p>".to_string())).unwrap(), "<p>");
    assert_eq!(legal_rendered(None).unwrap_err().code, ProblemCode::Internal);
}

#[test]
fn settings_are_patched() {
    let body = Json::Object(vec![
        ("a".to_string(), Json::Bool(true)),
        ("b".to_string(), Json::Null),
    ]);
    let check = |key: &str, value| SettingCheck { key: Some(key.to_string()), value };
    let items =
        parse_settings_patch(&body, &[check("a", Some(Json::Bool(true))), check("b", None)])
            .unwrap();
    assert_eq!(items[0].0, "a");
    assert!(matches!(items[0].1, Some(Json::Bool(true))) && items[1].1.is_none());
    let bad = parse_settings_patch(&body, &[check("a", None), check("b", None)]);
    assert_eq!(place(bad), invalid_at("/a"));
    let unknown = SettingCheck { key: None, value: None };
    let bad = parse_settings_patch(&body, &[check("a", Some(Json::Bool(true))), unknown]);
    assert_eq!(place(bad), invalid_at("/b"));
    assert_eq!(place(parse_settings_patch(&Json::Object(vec![]), &[])), invalid_at("/"));
    assert_eq!(place(parse_settings_patch(&Json::Null, &[])), invalid_at("/"));
    assert_eq!(map_settings_write(SettingsWriteError::NotAdmin).code, ProblemCode::NotFound);
    assert_eq!(settings_written(Ok(Ok(1))).unwrap(), 1);
    assert_eq!(
        code(settings_written::<i32>(Ok(Err(SettingsWriteError::AssetMissing)))),
        ProblemCode::NotFound
    );
    let out = admin_settings_output(
        SettingsSnapshot {
            revision: 7,
            values: Json::Null,
            overridden: vec![],
            env_applied: vec!["X".to_string()],
        },
        vec!["r".to_string()],
        vec![],
    );
    assert_eq!((out.version, out.restart_required.len()), (7, 1));
}

#[test]
fn branding_is_a_picture() {
    let octets: Option<&[u8]> = Some(b"application/octet-stream");
    assert!(branding_head(octets, Some(b"524288")).is_ok());
    assert!(branding_head(octets, Some(b"x")).is_ok());
    assert_eq!(branding_head(octets, Some(b"524289")).unwrap_err().status, Some(413));
    assert_eq!(
        code(branding_head(Some(b"image/png"), None)),
        ProblemCode::UnsupportedMediaType
    );
    let accepted = ["image/png"];
    let asset = branding_record(Some(b"abc"), Uuid(5), "image/png", &accepted).unwrap();
    assert_eq!(
        asset.sha256,
        "ba7816bf8f01cfea414140de5dae2223b00361a396177a9cb410ff61f20015ad"
    );
    assert_eq!((asset.key, asset.mime.as_str()), (Uuid(5), "image/png"));
    assert_eq!(
        code(branding_record(Some(b""), Uuid(5), "image/png", &accepted)),
        ProblemCode::RawApplicationOctetStreamBodyRequired
    );
    assert_eq!(
        code(branding_record(Some(b"a"), Uuid(5), "image/gif", &accepted)),
        ProblemCode::UnsupportedBrandingAssetType
    );
    assert_eq!(
        branding_record(None, Uuid(5), "image/png", &accepted).unwrap_err().status,
        Some(413)
    );
    assert!(!is_apng(b""));
    assert!(matches!(
        branding_cleanup(&Ok(Ok(Some(Uuid(4))))),
        BrandingCleanup::Previous(Uuid(4))
    ));
    assert!(matches!(branding_cleanup(&Ok(Ok(None))), BrandingCleanup::Nothing));
    assert!(matches!(branding_cleanup(&Err(DbFailure)), BrandingCleanup::New));
    assert!(matches!(
        branding_cleanup(&Ok(Err(SettingsWriteError::NotAdmin))),
        BrandingCleanup::New
    ));
    assert!(branding_stored(Ok(())).is_ok());
    assert_eq!(code(branding_stored(Err(DbFailure))), ProblemCode::Internal);
    assert_eq!(parse_asset_kind(Some(1)).unwrap(), 1);
    assert_eq!(place(parse_asset_kind::<i32>(None)), invalid_at("/asset"));
}

#[test]
fn branding_is_served_as_it_was_stored() {
    let asset = BrandingAsset {
        key: Uuid(5),
        sha256: sha256_hex(b"abc"),
        mime: "image/png".to_string(),
    };
    let headers = asset_reply(&asset, Ok(b"abc")).unwrap();
    assert_eq!(value(&headers, "content-type"), Some("image/png"));
    assert_eq!(value(&headers, "cache-control"), Some("public, max-age=60"));
    let tag = value(&headers, "etag").unwrap().to_string();
    assert_eq!(code(asset_reply(&asset, Ok(b"abd"))), ProblemCode::NotFound);
    assert_eq!(code(asset_reply(&asset, Err(DbFailure))), ProblemCode::NotFound);
    assert!(matches!(asset_step(Some(&asset), None), Ok(AssetStep::Fetch)));
    assert!(matches!(
        asset_step(Some(&asset), Some(tag.as_bytes())),
        Ok(AssetStep::NotModified { .. })
    ));
    assert_eq!(code(asset_step(None, None)), ProblemCode::NotFound);
    assert_eq!(asset_range(Ok(Some(524_288))).unwrap(), 524_287);
    assert_eq!(code(asset_range(Ok(Some(524_289)))), ProblemCode::NotFound);
    assert_eq!(code(asset_range(Ok(Some(0)))), ProblemCode::NotFound);
    assert_eq!(code(asset_range(Ok(None))), ProblemCode::NotFound);
    let found = match instance_reply(None, b"{}") {
        PublicReply::Found { headers } => headers,
        other => panic!("{other:?}"),
    };
    assert_eq!(value(&found, "content-type"), Some("application/json"));
    let tag = value(&found, "etag").unwrap();
    assert_eq!(tag, &format!("\"{}\"", &sha256_hex(b"{}")[..16]));
    assert!(matches!(
        instance_reply(Some(tag.as_bytes()), b"{}"),
        PublicReply::NotModified { .. }
    ));
}

#[test]
fn consents_are_recorded() {
    assert!(kind_param(true).is_ok());
    assert_eq!(place(kind_param(false)), invalid_at("/kind"));
    assert_eq!(version_param(" 3 ").unwrap(), 3);
    assert_eq!(code(version_param("0")), ProblemCode::InvalidInput);
    let item = |version| ConsentItem { kind: "terms".to_string(), version };
    assert_eq!(
        consents_input(&[item(2), item(1 << 40)]).unwrap(),
        vec![("terms".to_string(), 2)]
    );
    assert_eq!(place(consents_input(&[])), invalid_at("/items"));
    assert!(consents_recorded(Ok(true)).unwrap().ok);
    assert_eq!(code(consents_recorded(Ok(false))), ProblemCode::AuthenticationRequired);
}

fn setup(password: &str, name: &str) -> SetupBody {
    SetupBody {
        email: "a@b".to_string(),
        password: password.to_string(),
        given_name: " A ".to_string(),
        family_name: Some(" B ".to_string()),
        workspace_slug: "w".to_string(),
        workspace_name: name.to_string(),
    }
}

#[test]
fn an_instance_is_set_up() {
    let fine = |s: &str| Ok(s.to_string());
    let input = setup_input(setup("0123456789", "W"), fine("a@b"), fine("w"), Ok(())).unwrap();
    assert_eq!((input.given_name.as_str(), input.family_name.as_deref()), ("A", Some("B")));
    let short = setup_input(setup("012345678", "W"), fine("a@b"), fine("w"), Ok(())).unwrap_err();
    assert_eq!((short.status, short.code), (Some(400), ProblemCode::PasswordInvalid));
    let blank = setup_input(setup("0123456789", " "), fine("a@b"), fine("w"), Ok(())).unwrap_err();
    assert_eq!((blank.status, blank.code), (Some(400), ProblemCode::InvalidInput));
    let bad = Err(AppError::with_source(ProblemCode::InvalidInput, "/email"));
    assert_eq!(
        place(setup_input(setup("0123456789", "W"), bad, fine("w"), Ok(()))),
        invalid_at("/email")
    );
    let done = SetupDone { user_id: Uuid(1), workspace_id: Uuid(7), token: "t".to_string() };
    let (out, headers) = setup_reply(Ok(Ok(done)), &cookies(), false).unwrap();
    assert_eq!(out.workspace_id, Uuid(7).text());
    assert!(value(&headers, "set-cookie").unwrap().starts_with("sid=t;"));
    assert_eq!(
        code(setup_reply(Ok(Err(SetupError::Closed)), &cookies(), false)),
        ProblemCode::InstanceSetupAlreadyCompleted
    );
    assert_eq!(
        code(setup_reply(Ok(Err(SetupError::SlugTaken)), &cookies(), false)),
        ProblemCode::SlugTaken
    );
    assert_eq!(setup_reply(Err(DbFailure), &cookies(), false).unwrap_err().status, Some(500));
    assert!(setup_status(Ok(true), "F").unwrap().needed);
    assert_eq!(setup_status(Err(DbFailure), "F").unwrap_err().status, Some(500));
    let mut limiter = RateLimiter::new();
    for _ in 0..10 {
        assert!(setup_limit(&mut limiter, "1.2.3.4", 0).is_ok());
    }
    assert_eq!(code(setup_limit(&mut limiter, "1.2.3.4", 0)), ProblemCode::RateLimited);
}

#[test]
fn tokens_are_issued() {
    let read = ApiTokenScope::TasksRead;
    assert_eq!(parse_scopes(&[Some(read)]).unwrap(), vec![read]);
    assert_eq!(code(parse_scopes(&[])), ProblemCode::InvalidInput);
    assert_eq!(code(parse_scopes(&[Some(read), None])), ProblemCode::InvalidInput);
    assert_eq!(map_token_error(ApiTokenDbError::Forbidden).code, ProblemCode::NotFound);
    let name = || "n".to_string();
    let input = workspace_token_input(name(), &[Some(read)], Some(true), None).unwrap();
    assert_eq!((input.name.as_str(), input.scopes.len()), ("n", 1));
    assert!(input.unlimited && !input.service);
    let input = me_token_input(name(), &[Some(read)]).unwrap();
    assert!(!input.unlimited && !input.service);
    assert_eq!(code(me_token_input(name(), &[None])), ProblemCode::InvalidInput);
    let made = CreatedApiToken {
        record: ApiTokenRecord {
            id: Uuid(1),
            workspace_id: Uuid(7),
            user_id: None,
            name: "n".to_string(),
            scopes: vec!["tasks:read".to_string()],
            expires_at: None,
            created_at: at(0),
        },
        token: "secret".to_string(),
    };
    let made = created_output(Ok(Ok(made))).unwrap();
    assert_eq!((made.token.as_str(), made.base.scopes.len()), ("secret", 1));
    assert_eq!(
        code(created_output(Ok(Err(ApiTokenDbError::InvalidInput)))),
        ProblemCode::InvalidInput
    );
    let mut limiter = RateLimiter::new();
    assert!(token_limit(&mut limiter, Uuid(1), 1, 0).is_ok());
    assert!(token_limit(&mut limiter, Uuid(1), 1, 0).is_err());
}

#[test]
fn webhooks_are_made() {
    assert_eq!(map_db_error(IntegrationDbError::Conflict).code, ProblemCode::InvalidInput);
    assert_eq!(map_db_error(IntegrationDbError::NotFound).code, ProblemCode::NotFound);
    let (a, b) = (new_webhook_secret(), new_webhook_secret());
    assert!(a.len() == 43 && a != b);
    assert!(a.chars().all(|c| c.is_ascii_alphanumeric() || c == '-' || c == '_'));
    let names = vec!["task.created".to_string()];
    let ask = |url: Option<&str>, events: Option<Vec<String>>, has_keys| {
        webhook_input(url.map(str::to_string), &names, events, has_keys)
    };
    assert_eq!(ask(Some("https://x"), Some(names.clone()), true).unwrap().url, "https://x");
    assert_eq!(place(ask(None, Some(names.clone()), true)), invalid_at("/url"));
    assert_eq!(place(ask(Some("u"), None, true)), invalid_at("/events"));
    assert_eq!(
        code(ask(Some("u"), Some(names.clone()), false)),
        ProblemCode::IntegrationUnavailable
    );
    let long = vec!["e".repeat(101)];
    assert_eq!(
        place(webhook_input(Some("u".to_string()), &long, Some(vec![]), true)),
        invalid_at("/events")
    );
    let row = WebhookRow {
        id: Uuid(1),
        workspace_id: Uuid(7),
        url: "u".to_string(),
        events: names.clone(),
        created_at: at(0),
        updated_at: at(0),
    };
    let made = webhook_created(Ok(Ok(row)), "s".to_string()).unwrap();
    assert_eq!((made.secret.as_str(), made.base.events.len()), ("s", 1));
}

#[test]
fn other_services_are_talked_to() {
    assert!(install_admitted(true, Ok(true)).is_ok());
    assert_eq!(code(install_admitted(false, Ok(true))), ProblemCode::InvalidInput);
    assert_eq!(code(install_admitted(true, Ok(false))), ProblemCode::NotFound);
    assert_eq!(github_said(Some(1)).unwrap(), 1);
    assert_eq!(code(github_said::<i32>(None)), ProblemCode::InvalidInput);
    assert_eq!(issue_number(7).unwrap(), 7);
    assert_eq!(place(issue_number(1 << 31)), invalid_at("/issueNumber"));
    let query = |state: Option<&str>, id: Option<&str>| {
        Some(CallbackQuery {
            state: state.map(str::to_string),
            installation_id: id.map(str::to_string),
        })
    };
    assert_eq!(
        callback_ids(query(Some("s"), Some(" 5 ")), true).unwrap(),
        ("s".to_string(), "5".to_string())
    );
    assert_eq!(code(callback_ids(query(Some("s"), Some("5")), false)), ProblemCode::InvalidInput);
    assert_eq!(code(callback_ids(query(Some("s"), None), true)), ProblemCode::InvalidInput);
    assert!(callback_state(true, Some((Uuid(7), "n".to_string()))).is_ok());
    assert_eq!(
        code(callback_state(false, Some((Uuid(7), "n".to_string())))),
        ProblemCode::InvalidInput
    );
    assert_eq!(install_completed(Some(true), Ok(Ok(())), "https://x//").unwrap(), "https://x/");
    assert_eq!(code(install_completed(None, Ok(Ok(())), "https://x")), ProblemCode::InvalidInput);
    assert_eq!(inbound_body(true, Some(1), false).unwrap(), 1);
    assert_eq!(inbound_body::<i32>(true, None, true).unwrap_err().status, Some(413));
    assert_eq!(inbound_body::<i32>(true, None, false).unwrap_err().status, Some(400));
    assert_eq!(code(inbound_body(false, Some(1), false)), ProblemCode::InvalidInput);
    assert!(inbound_reply(Ok(())).unwrap().ok);
    assert_eq!(
        code(inbound_reply(Err(InboundError::Signature))),
        ProblemCode::AuthenticationRequired
    );
    assert_eq!(code(inbound_reply(Err(InboundError::Invalid))), ProblemCode::InvalidInput);
    assert_eq!(code(inbound_reply(Err(InboundError::Db))), ProblemCode::Internal);
    assert!(ai_admit(Ok(true), true).is_ok());
    assert_eq!(code(ai_admit(Ok(true), false)), ProblemCode::AiUnavailable);
    assert_eq!(code(ai_admit(Ok(false), true)), ProblemCode::NotFound);
    assert_eq!(ai_markdown(true, Some("é".as_bytes().to_vec())).unwrap(), "é");
    assert_eq!(code(ai_markdown(true, Some(vec![0xff]))), ProblemCode::Internal);
    assert_eq!(code(ai_markdown(false, None)), ProblemCode::AiUnavailable);
    assert_eq!(suggested(Ok(vec![Uuid(3)])).unwrap(), vec![Uuid(3).text()]);
    let mut limiter = RateLimiter::new();
    for _ in 0..10 {
        assert!(ai_limit(&mut limiter, Uuid(1), 0).is_ok());
    }
    assert!(ai_limit(&mut limiter, Uuid(1), 0).is_err());
}

#[test]
fn invitations_are_made() {
    let accept = |e| map_accept_error(e).code;
    let create = |e| map_create_error(e).code;
    assert_eq!(accept(InvitationDbError::Expired), ProblemCode::Expired);
    assert_eq!(accept(InvitationDbError::AlreadyAccepted), ProblemCode::AlreadyAccepted);
    assert_eq!(accept(InvitationDbError::Forbidden), ProblemCode::CannotAcceptInvitation);
    assert_eq!(accept(InvitationDbError::Unauthorized), ProblemCode::CannotAcceptInvitation);
    assert_eq!(accept(InvitationDbError::AlreadyLinked), ProblemCode::CannotAcceptInvitation);
    assert_eq!(accept(InvitationDbError::ConsentRequired), ProblemCode::ConsentRequired);
    assert_eq!(accept(InvitationDbError::RoleCap), ProblemCode::NotFound);
    assert_eq!(create(InvitationDbError::Forbidden), ProblemCode::InsufficientPermissions);
    assert_eq!(
        create(InvitationDbError::PersonalImmutable),
        ProblemCode::PersonalWorkspaceImmutable
    );
    assert_eq!(create(InvitationDbError::RoleCap), ProblemCode::CannotInviteARoleAboveYourOwn);
    assert_eq!(create(InvitationDbError::SeatLimit), ProblemCode::LimitSeats);
    assert_eq!(create(InvitationDbError::GuestLimit), ProblemCode::LimitGuests);
    assert_eq!(
        map_preview_error(InvitationDbError::Expired).code,
        ProblemCode::InvitationNotFoundOrExpired
    );
    assert_eq!(
        invitation_input(Ok("a@b".to_string()), Some(2)).unwrap(),
        ("a@b".to_string(), 2)
    );
    assert_eq!(
        code(invitation_input::<i32>(Ok("a@b".to_string()), None)),
        ProblemCode::InvalidInput
    );
    assert_eq!(
        invitation_made(Ok(Ok("t".to_string())), "https://x/").unwrap(),
        "https://x/invite/t"
    );
    assert_eq!(invitation_reply("u".to_string(), true).mail_delayed, None);
    assert_eq!(invitation_reply("u".to_string(), false).mail_delayed, Some(true));
    let preview = InvitationPreview {
        workspace_name: "W".to_string(),
        email_masked: "a***".to_string(),
        role: "member".to_string(),
        required_legal: vec![RequiredLegal {
            kind: "terms".to_string(),
            version: 2,
            title: "T".to_string(),
        }],
    };
    assert_eq!(preview_reply(Ok(Ok(preview))).unwrap().required_legal[0].version, 2);
    let mut limiter = RateLimiter::new();
    assert_eq!(
        code(preview_limit(&mut limiter, "", "1.2.3.4", 0)),
        ProblemCode::InvitationNotFoundOrExpired
    );
    for _ in 0..60 {
        assert!(preview_limit(&mut limiter, "t", "1.2.3.4", 0).is_ok());
    }
    assert!(preview_limit(&mut limiter, "t", "1.2.3.4", 0).is_err());
    assert_eq!(code(accept_limit(&mut limiter, "", "d", "1.2.3.4", 0)), ProblemCode::NotFound);
    for _ in 0..30 {
        assert!(accept_limit(&mut limiter, "t", "0123456789", "1.2.3.4", 0).is_ok());
    }
    assert!(accept_limit(&mut limiter, "t", "01234567zz", "1.2.3.4", 0).is_err());
    assert!(accept_limit(&mut limiter, "t", "1123456789", "1.2.3.4", 0).is_ok());
    for _ in 0..30 {
        assert!(invite_limit(&mut limiter, Uuid(1), 0).is_ok());
    }
    assert!(invite_limit(&mut limiter, Uuid(1), 0).is_err());
}

#[test]
fn an_invitation_is_accepted() {
    let body = || AcceptBody {
        email: Some("A@B".to_string()),
        given_name: Some(" G ".to_string()),
        family_name: None,
        password: None,
        consents: None,
    };
    let checks = || AcceptChecks {
        password: Err(AppError::from_code(ProblemCode::PasswordInvalid)),
        settings: Ok(()),
        email: Ok("a@b".to_string()),
        given_name: Ok(()),
        family_name: Ok(()),
    };
    let input = accept_input(body(), checks()).unwrap();
    assert_eq!(input.email.as_deref(), Some("a@b"));
    assert_eq!(input.given_name.as_deref(), Some("G"));
    assert!(input.consents.is_empty());
    let mut with_password = body();
    with_password.password = Some("p".to_string());
    assert_eq!(code(accept_input(with_password, checks())), ProblemCode::PasswordInvalid);
    let mut unset = checks();
    unset.settings = Err(DbFailure);
    unset.email = Err(AppError::from_code(ProblemCode::InvalidInput));
    assert_eq!(code(accept_input(body(), unset)), ProblemCode::Internal);
    assert_eq!(accepted(Ok(Ok(3))).unwrap(), 3);
    assert_eq!(
        code(accepted::<i32>(Ok(Err(InvitationDbError::NotFound)))),
        ProblemCode::NotFound
    );
}

fn factor(enabled: bool) -> MfaRow {
    MfaRow {
        user_id: Uuid(1),
        totp_secret: "s".to_string(),
        enabled_at: if enabled { Some(at(0)) } else { None },
        recovery_hashes: vec!["a".to_string(), "b".to_string()],
    }
}

#[test]
fn a_second_factor_is_kept() {
    assert_eq!(mfa_code(" 123456 ").unwrap(), "123456");
    assert_eq!(place(mfa_code("12345")), invalid_at("/code"));
    assert_eq!(place(mfa_code(&"1".repeat(17))), invalid_at("/code"));
    assert_eq!(optional_password(None).unwrap(), None);
    assert_eq!(
        place(optional_password(Some(String::new()))),
        invalid_at("/currentPassword")
    );
    assert!(keys(true).is_ok());
    assert_eq!(code(keys(false)), ProblemCode::EncryptionUnavailable);
    let secret = vec![0u8, 10, 255];
    assert_eq!(secret_text(&secret), "000aff");
    assert_eq!(open_secret(true, Some("000AfF")).unwrap(), secret);
    assert_eq!(open_secret(true, Some(&secret_text(&secret))).unwrap(), secret);
    assert_eq!(code(open_secret(true, Some("0"))), ProblemCode::Internal);
    assert_eq!(code(open_secret(true, None)), ProblemCode::Internal);
    assert_eq!(code(open_secret(false, Some("00"))), ProblemCode::EncryptionUnavailable);
    let out = status(Ok(Some(factor(true)))).unwrap();
    assert!(out.enabled && out.recovery_codes_left == 2);
    let out = status(Ok(Some(factor(false)))).unwrap();
    assert!(!out.enabled && out.recovery_codes_left == 0);
    assert!(!status(Ok(None)).unwrap().enabled);
    let now = at(2_000_000_000);
    assert!(session_created_recently(Ok(Some(at(1_399_000_001))), now).unwrap());
    assert!(!session_created_recently(Ok(Some(at(1_399_000_000))), now).unwrap());
    assert!(!session_created_recently(Ok(None), now).unwrap());
    assert!(setup_admitted(true, Ok(false)).is_ok());
    assert_eq!(code(setup_admitted(false, Ok(false))), ProblemCode::MfaReauthRequired);
    assert_eq!(
        code(setup_confirmed(Ok(PasswordCheck::Invalid), true)),
        ProblemCode::MfaPasswordInvalid
    );
    assert_eq!(
        code(setup_confirmed(Ok(PasswordCheck::Valid), false)),
        ProblemCode::EncryptionUnavailable
    );
    assert!(setup_confirmed(Ok(PasswordCheck::Absent), true).is_ok());
    assert!(setup_stored(Ok(SetupOutcome::Stored)).is_ok());
    assert_eq!(
        code(setup_stored(Ok(SetupOutcome::AlreadyEnabled))),
        ProblemCode::MfaAlreadyEnabled
    );
    assert_eq!(
        code(setup_stored(Ok(SetupOutcome::SessionGone))),
        ProblemCode::AuthenticationRequired
    );
    assert!(awaiting(Ok(Some(factor(false)))).is_ok());
    assert_eq!(code(awaiting(Ok(Some(factor(true))))), ProblemCode::MfaNotSetup);
    assert!(enabled_row(Ok(Some(factor(true))), ProblemCode::MfaInvalid).is_ok());
    assert_eq!(code(enabled_row(Ok(None), ProblemCode::MfaInvalid)), ProblemCode::MfaInvalid);
    assert_eq!(matched_step(Some(4)).unwrap(), 4);
    assert_eq!(code(matched_step(None)), ProblemCode::MfaCodeInvalid);
    assert!(enable_reply(Ok(SwitchOutcome::Done)).unwrap().ok);
    assert_eq!(code(enable_reply(Ok(SwitchOutcome::Nothing))), ProblemCode::MfaNotSetup);
    assert_eq!(code(disable_reply(Ok(SwitchOutcome::Nothing))), ProblemCode::MfaNotEnabled);
    assert_eq!(
        code(disable_reply(Ok(SwitchOutcome::SessionGone))),
        ProblemCode::AuthenticationRequired
    );
}

#[test]
fn a_second_factor_is_checked() {
    assert!(matches!(
        check_code(CodeReading::Authenticator(Ok(Some(7))), 4),
        Ok(Some(SecondFactor::Totp(7)))
    ));
    assert!(matches!(check_code(CodeReading::Authenticator(Ok(None)), 4), Ok(None)));
    let other = |n: &str| CodeReading::Other { normalized: n.to_string(), digest: "d".to_string() };
    assert!(matches!(
        check_code(other("abcd"), 4),
        Ok(Some(SecondFactor::Recovery(d))) if d == "d"
    ));
    assert!(matches!(check_code(other("abc"), 4), Ok(None)));
    assert_eq!(confirm_password(Ok(false), true, false).unwrap(), PasswordCheck::Absent);
    assert_eq!(confirm_password(Ok(true), true, true).unwrap(), PasswordCheck::Valid);
    assert_eq!(confirm_password(Ok(true), false, true).unwrap(), PasswordCheck::Invalid);
    let disable = |p: Option<&str>, c: Option<&str>| {
        disable_input(p.map(str::to_string), c.map(str::to_string))
    };
    assert_eq!(disable(None, Some(" 123456 ")).unwrap().code.as_deref(), Some("123456"));
    assert_eq!(place(disable(Some(""), None)), invalid_at("/currentPassword"));
    assert_eq!(place(disable(None, Some("1"))), invalid_at("/code"));
    assert_eq!(place(disable(None, None)), invalid_at("/"));
    assert!(disable_confirmed(Ok(PasswordCheck::Valid), Ok(false)).is_ok());
    assert!(disable_confirmed(Ok(PasswordCheck::Absent), Ok(true)).is_ok());
    assert_eq!(
        code(disable_confirmed(Ok(PasswordCheck::Invalid), Ok(true))),
        ProblemCode::MfaConfirmInvalid
    );
    assert_eq!(
        code(disable_confirmed(Ok(PasswordCheck::Absent), Ok(false))),
        ProblemCode::MfaConfirmInvalid
    );
    assert_eq!(
        verify_input("t".to_string(), " 123456").unwrap(),
        ("t".to_string(), "123456".to_string())
    );
    assert_eq!(place(verify_input(String::new(), "123456")), invalid_at("/mfaToken"));
    assert_eq!(challenge(Ok(Some(3))).unwrap(), 3);
    assert_eq!(code(challenge::<i32>(Ok(None))), ProblemCode::MfaInvalid);
    assert!(attempt_allowed(Ok(None)).is_ok());
    assert_eq!(attempt_allowed(Ok(Some(9))).unwrap_err().retry_after, Some(9));
    assert_eq!(code(verified_factor(Ok(None))), ProblemCode::MfaInvalid);
    assert!(verified_factor(Ok(Some(SecondFactor::Totp(1)))).is_ok());
    let (id, headers) =
        verify_reply(Ok(Some((Uuid(1), "t".to_string()))), &cookies(), true).unwrap();
    assert_eq!(id, Uuid(1).text());
    assert!(value(&headers, "set-cookie").unwrap().ends_with("; Secure"));
    assert_eq!(code(verify_reply(Ok(None), &cookies(), true)), ProblemCode::MfaInvalid);
    let mut limiter = RateLimiter::new();
    for _ in 0..5 {
        assert!(reauth_limit(&mut limiter, Uuid(1), 0).is_ok());
        assert!(enable_limit(&mut limiter, Uuid(1), 0).is_ok());
    }
    assert!(reauth_limit(&mut limiter, Uuid(1), 0).is_err());
    assert!(enable_limit(&mut limiter, Uuid(1), 0).is_err());
    for _ in 0..30 {
        assert!(verify_limit(&mut limiter, "1.2.3.4", 0).is_ok());
    }
    assert!(verify_limit(&mut limiter, "1.2.3.4", 0).is_err());
}
