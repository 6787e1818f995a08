//! Files, documents and comments.

use fvoci_http::authz::{Access, ApiTokenScope, RequestAuth, SessionUser};
use fvoci_http::error::{ApiError, AppError, DbFailure, Params, ProblemCode};
use fvoci_http::header::Header;
use fvoci_http::ids::Uuid;
use fvoci_http::json::Json;
use fvoci_http::policy::Route;
use fvoci_http::rate_limit::RateLimiter;
use fvoci_http::routes::attachments::{
    access_for_upload, attachment_list, attachment_reply, attachment_result, complete_entry,
    declared_body_length, edit_context_reply, is_office_attachment, map_attachment_error, map_storage_error, new_parts,
    part_committed, part_entry, part_staged, part_url, plan_part, preview_html,
    preview_html_admitted, preview_html_allowed, preview_html_limit, read_length,
    remaining_parts, require_target_scope, serve_download, serve_original, serve_preview,
    target_scope_asked, upload_created, upload_entry, upload_limit, upload_resumed,
    validate_complete_parts, validate_create_upload, wants_preview, AttachmentCompletePartBody,
    AttachmentDbError, AttachmentParent, AttachmentRow, AttachmentUploadedPartResponse,
    CreateAttachmentUploadBody, DownloadAsk, DownloadFile, EditContext, FileReply, ParsedRange, PartGrant,
    PreviewVariant, Resumed, Staged, StorageError, UploadMeta, UploadReservation,
};
use fvoci_http::routes::comments::{
    comment_done, comment_limit, comment_result, comment_to_output, map_comment_error, page_limit,
    patched_body, project_document_comments, validate_create_body, CommentDbError,
    CommentReactionSummary, CommentRow, CreateCommentBody, Reactions,
};
use fvoci_http::routes::document_body::{
    backlinks_response, body_input, check_markdown_size, children_response, copy_prepared,
    duplicate_input, invalid_body, live_result, located_document, map_body_write, map_convert,
    map_derived, markdown_reply, parse_block_input, parse_body_format, patch_block_entry,
    put_body_entry, resolve_body_json, revision_write_limit, Backlink, BlockNext, BlockPatch,
    BodyInput, BodyWriteError, ConvertError, CopySource, DerivedBodyError, DocumentScope,
    DuplicateDocumentInput, Live, PatchBlockInput,
};
use fvoci_http::routes::documents::{
    ancestors_response, body_reply, check_absent, create_document_input, db_result,
    doc_export_limit, document_done, document_reply, export_reply, map_document_error,
    meta_response, parse_trash_children, patch_document_input, shows_display_id, trash_response, tree_response,
    AncestorNode, CreateDocumentBody, DocumentDbError, DocumentMeta, ExportRenderError,
    PatchDocumentBody, Rendered, RequiredNullable, TrashChildrenMode, TrashItem, TreeNode,
};
use fvoci_http::time::Timestamp;

fn auth(scopes: Option<Vec<ApiTokenScope>>) -> RequestAuth {
    RequestAuth {
        user: SessionUser {
            user_id: Uuid(1).text(),
            session_id: Uuid(2).text(),
            email: "a@example.com".to_string(),
            has_password: true,
        },
        user_id: Uuid(1),
        credential_id: Uuid(2),
        token_workspace_id: scopes.as_ref().map(|_| Uuid(7)),
        token_scopes: scopes,
    }
}

fn now() -> Timestamp {
    Timestamp::from_micros(1_000_000).unwrap()
}

fn code<T: std::fmt::Debug>(r: Result<T, AppError>) -> ProblemCode {
    r.unwrap_err().code
}

fn api<T: std::fmt::Debug>(r: Result<T, ApiError>) -> ProblemCode {
    match r.unwrap_err() {
        ApiError::App(e) => e.code,
        other => panic!("{other:?}"),
    }
}

fn coded<T: std::fmt::Debug>(r: Result<T, ApiError>) -> (u16, String) {
    match r.unwrap_err() {
        ApiError::Coded { status, code, .. } => (status, code),
        other => panic!("{other:?}"),
    }
}

fn value<'a>(headers: &'a [Header], name: &str) -> Option<&'a str> {
    headers.iter().find(|h| h.name == name).map(|h| h.value.as_str())
}

#[test]
fn attachment_problems_have_codes() {
    let pairs = [
        (AttachmentDbError::NotFound, ProblemCode::NotFound),
        (AttachmentDbError::Forbidden, ProblemCode::NotFound),
        (
            AttachmentDbError::UploadForbidden,
            ProblemCode::OnlyTheUploaderMayContinueThisUpload,
        ),
        (AttachmentDbError::UploadState, ProblemCode::UploadIsNotInTheRequiredState),
        (AttachmentDbError::TooLarge, ProblemCode::FileExceedsUploadMaxFileSizeMb),
        (AttachmentDbError::PartTooLarge, ProblemCode::PartExceedsUploadPartSizeMb),
        (AttachmentDbError::InvalidInput, ProblemCode::InvalidInput),
        (AttachmentDbError::NotHwp, ProblemCode::InvalidInput),
        (AttachmentDbError::EtagMismatch, ProblemCode::SubmittedPartsDoNotMatchUploadedParts),
        (AttachmentDbError::Infected, ProblemCode::AttachmentFailedVirusScan),
        (AttachmentDbError::ProjectArchived, ProblemCode::ProjectArchived),
        (AttachmentDbError::TaskArchived, ProblemCode::TaskArchived),
        (AttachmentDbError::StorageLimit, ProblemCode::LimitStorage),
        (AttachmentDbError::UploadLimit, ProblemCode::LimitUpload),
    ];
    for (err, wanted) in pairs {
        assert_eq!(map_attachment_error(err).code, wanted);
    }
    let pairs = [
        (StorageError::PartTooLarge, ProblemCode::PartExceedsUploadPartSizeMb),
        (StorageError::UploadGone, ProblemCode::UploadIsNotInTheRequiredState),
        (StorageError::InvalidKey, ProblemCode::UploadIsNotInTheRequiredState),
        (StorageError::EtagMismatch, ProblemCode::SubmittedPartsDoNotMatchUploadedParts),
        (StorageError::PartTooSmall, ProblemCode::SubmittedPartsDoNotMatchUploadedParts),
        (StorageError::LengthRequired, ProblemCode::InvalidInput),
        (StorageError::LengthMismatch, ProblemCode::InvalidInput),
        (StorageError::ClientBody, ProblemCode::InvalidInput),
        (StorageError::Other, ProblemCode::Internal),
    ];
    for (err, wanted) in pairs {
        assert_eq!(map_storage_error(err).code, wanted);
    }
    assert_eq!(attachment_result(Ok(Ok(4))).unwrap(), 4);
    assert_eq!(code(attachment_result::<i32>(Err(DbFailure))), ProblemCode::Internal);
}

fn row(name: &str, mime: &str) -> AttachmentRow {
    AttachmentRow {
        id: Uuid(9),
        name: name.to_string(),
        mime: mime.to_string(),
        size_bytes: Some(3),
        image: false,
        scan_status: "clean".to_string(),
        storage_key: "k".to_string(),
        created_at: now(),
        completed_at: None,
        preview: Some(PreviewVariant { key: "p".to_string(), bytes: 10, width: 4, height: 5 }),
    }
}

#[test]
fn attachments_are_answered() {
    let list = attachment_list(&[row("a", "b")]);
    assert_eq!(list[0].id, Uuid(9).text());
    let preview = list[0].preview.as_ref().unwrap();
    assert_eq!((preview.width, preview.height), (4, 5));
    assert_eq!(attachment_reply(Ok(Ok(row("a", "b")))).unwrap().name, "a");
    assert_eq!(
        code(attachment_reply(Ok(Err(AttachmentDbError::Infected)))),
        ProblemCode::AttachmentFailedVirusScan
    );
    let ctx = EditContext {
        source_attachment_id: Uuid(9),
        name: "a.hwp".to_string(),
        mime: "m".to_string(),
        editable: true,
    };
    let out = edit_context_reply(Ok(Ok(ctx))).unwrap();
    assert_eq!(out.source_attachment_id, Uuid(9).text());
    assert_eq!((out.name.as_str(), out.mime.as_str(), out.editable), ("a.hwp", "m", true));
    assert_eq!(
        code(edit_context_reply(Ok(Err(AttachmentDbError::NotHwp)))),
        map_attachment_error(AttachmentDbError::NotHwp).code
    );
    assert_eq!(code(edit_context_reply(Err(DbFailure))), ProblemCode::Internal);
}

fn upload(name: &str, size_bytes: i64, mime: Option<&str>) -> CreateAttachmentUploadBody {
    CreateAttachmentUploadBody {
        name: name.to_string(),
        size_bytes,
        declared_mime: mime.map(str::to_string),
    }
}

#[test]
fn an_upload_is_checked() {
    assert!(validate_create_upload(&upload(&"a".repeat(255), 1, Some("x/y"))).is_ok());
    for bad in [
        upload("", 1, None),
        upload(&"a".repeat(256), 1, None),
        upload(&"\u{1f600}".repeat(128), 1, None),
        upload("a", 0, None),
        upload("a", 1, Some(&"m".repeat(256))),
    ] {
        assert_eq!(code(validate_create_upload(&bad)), ProblemCode::InvalidInput);
    }
    assert_eq!(
        code(upload_entry(Some(b"https://y"), "https://x", &upload("", 0, None))),
        ProblemCode::OriginMismatch
    );
    assert_eq!(
        code(upload_entry(None, "https://x", &upload("", 0, None))),
        ProblemCode::InvalidInput
    );
    let part = |n, tag: &str| AttachmentCompletePartBody { part_number: n, etag: tag.to_string() };
    assert!(validate_complete_parts(&[part(1, "e"), part(10_000, &"e".repeat(128))]).is_ok());
    assert!(validate_complete_parts(&[]).is_err());
    assert!(validate_complete_parts(&[part(0, "e")]).is_err());
    assert!(validate_complete_parts(&[part(10_001, "e")]).is_err());
    assert!(validate_complete_parts(&[part(1, "")]).is_err());
    assert!(validate_complete_parts(&[part(1, &"e".repeat(129))]).is_err());
    assert!(complete_entry(None, "https://x", &[part(1, "e")]).is_ok());
    assert_eq!(
        code(complete_entry(Some(b"https://y"), "https://x", &[])),
        ProblemCode::OriginMismatch
    );
    assert_eq!(
        access_for_upload(UploadReservation::Task(Uuid(1))),
        Access::Scope(ApiTokenScope::TasksWrite)
    );
    assert_eq!(
        access_for_upload(UploadReservation::DerivedCopy { source_attachment_id: Uuid(1) }),
        Access::Any
    );
    let mut limiter = RateLimiter::new();
    assert!(upload_limit(&mut limiter, &auth(None), 1, 0).is_ok());
    assert_eq!(upload_limit(&mut limiter, &auth(None), 1, 0).unwrap_err().retry_after, Some(300));
}

#[test]
fn parts_have_addresses() {
    let url = part_url(Uuid(7), Uuid(9), 3);
    assert_eq!(
        url,
        "/api/v1/workspaces/00000000-0000-0000-0000-000000000007/attachments/\
         00000000-0000-0000-0000-000000000009/parts/3"
    );
    let parts = new_parts(Uuid(7), Uuid(9), 3);
    assert_eq!(parts.iter().map(|p| p.part_number).collect::<Vec<_>>(), vec![1, 2, 3]);
    assert_eq!(parts[2].url, url);
    assert!(new_parts(Uuid(7), Uuid(9), -1).is_empty());
    assert_eq!(remaining_parts(Uuid(7), Uuid(9), &[3])[0].url, url);
    let made = upload_created(
        Uuid(7),
        Ok(Ok((Uuid(9), UploadMeta { part_size_bytes: 5, part_count: 2 }))),
    )
    .unwrap();
    assert_eq!((made.attachment_id, made.parts.len()), (Uuid(9).text(), 2));
    assert_eq!(
        code(upload_created(Uuid(7), Ok(Err(AttachmentDbError::StorageLimit)))),
        ProblemCode::LimitStorage
    );
    let resumed = upload_resumed(
        Uuid(7),
        Ok(Ok(Resumed {
            attachment_id: Uuid(9),
            part_size_bytes: 5,
            uploaded: vec![AttachmentUploadedPartResponse {
                part_number: 1,
                etag: "e".to_string(),
            }],
            remaining: vec![3],
        })),
    )
    .unwrap();
    assert_eq!(resumed.parts[0].url, url);
    assert_eq!(resumed.uploaded_parts[0].etag, "e");
}

#[test]
fn a_token_needs_the_scope_of_the_parent() {
    let token = auth(Some(vec![ApiTokenScope::DocumentsRead]));
    assert!(target_scope_asked(&token) && !target_scope_asked(&auth(None)));
    let doc = || Ok(Some(AttachmentParent::Document(Uuid(3))));
    assert!(require_target_scope(&token, doc(), false).is_ok());
    assert_eq!(code(require_target_scope(&token, doc(), true)), ProblemCode::NotFound);
    assert_eq!(
        code(require_target_scope(&token, Ok(Some(AttachmentParent::Task(Uuid(3)))), false)),
        ProblemCode::NotFound
    );
    assert_eq!(code(require_target_scope(&token, Ok(None), false)), ProblemCode::NotFound);
    assert_eq!(code(require_target_scope(&token, Err(DbFailure), false)), ProblemCode::Internal);
    assert!(require_target_scope(&auth(None), Err(DbFailure), true).is_ok());
}

#[test]
fn a_part_is_planned() {
    assert!(part_entry(None, "https://x", 10_000).is_ok());
    assert_eq!(code(part_entry(None, "https://x", 0)), ProblemCode::InvalidInput);
    assert_eq!(
        code(part_entry(Some(b"https://y"), "https://x", 0)),
        ProblemCode::OriginMismatch
    );
    assert_eq!(read_length("+18446744073709551615"), Some(u64::MAX));
    assert_eq!(read_length("18446744073709551616"), None);
    assert_eq!(read_length("-1"), None);
    assert_eq!(read_length(""), None);
    assert_eq!(declared_body_length(None, Some(4)).unwrap(), Some(4));
    assert_eq!(declared_body_length(Some(b" 12 "), Some(4)).unwrap(), Some(12));
    assert_eq!(code(declared_body_length(Some(b"x"), Some(4))), ProblemCode::InvalidInput);
    let grant = || PartGrant {
        storage_key: "k".to_string(),
        max_bytes: 100,
        upload_ref: None,
    };
    let plan = plan_part(Ok(Ok(grant())), true, None, None).unwrap();
    assert_eq!((plan.declared, plan.paced_by), (None, 100));
    let plan = plan_part(Ok(Ok(grant())), true, Some(b"7"), Some(9)).unwrap();
    assert_eq!((plan.declared, plan.paced_by), (Some(7), 7));
    let full = plan_part(Ok(Ok(grant())), false, Some(b"x"), None).unwrap_err();
    assert_eq!((full.code, full.retry_after), (ProblemCode::UploadCapacityExceeded, Some(2)));
    assert_eq!(
        code(plan_part(Ok(Err(AttachmentDbError::UploadState)), false, None, None)),
        ProblemCode::UploadIsNotInTheRequiredState
    );
    assert!(part_staged(Staged::Done).is_ok());
    assert_eq!(code(part_staged(Staged::TimedOut)), ProblemCode::InvalidInput);
    assert_eq!(
        code(part_staged(Staged::Failed(StorageError::UploadGone))),
        ProblemCode::UploadIsNotInTheRequiredState
    );
    let (headers, etag) = part_committed(Ok(Ok("e".to_string()))).unwrap();
    assert_eq!((value(&headers, "etag"), etag.as_str()), (Some("e"), "e"));
}

#[test]
fn a_file_is_downloaded() {
    assert!(!wants_preview(None).unwrap() && wants_preview(Some("preview")).unwrap());
    assert_eq!(code(wants_preview(Some("x"))), ProblemCode::InvalidInput);
    let whole = |size, head| serve_original(Some(size), "attachment", ParsedRange::Full, head);
    match whole(10, false).unwrap() {
        FileReply::File { status, headers, bytes } => {
            assert_eq!((status, bytes), (200, Some((0, 9))));
            assert_eq!(value(&headers, "content-length"), Some("10"));
            assert_eq!(value(&headers, "content-type"), Some("application/octet-stream"));
            assert_eq!(value(&headers, "cache-control"), Some("private, no-store"));
        }
        other => panic!("{other:?}"),
    }
    assert!(matches!(
        whole(10, true).unwrap(),
        FileReply::File { status: 200, bytes: None, .. }
    ));
    match serve_original(Some(10), "attachment", ParsedRange::Bytes { start: 2, end: 4 }, false) {
        Ok(FileReply::File { status, headers, bytes }) => {
            assert_eq!((status, bytes), (206, Some((2, 4))));
            assert_eq!(value(&headers, "content-range"), Some("bytes 2-4/10"));
            assert_eq!(value(&headers, "content-length"), Some("3"));
        }
        other => panic!("{other:?}"),
    }
    match serve_original(Some(10), "attachment", ParsedRange::Invalid, false) {
        Ok(FileReply::Unsatisfiable { problem, headers }) => {
            assert_eq!(problem.code, ProblemCode::RangeNotSatisfiable);
            assert_eq!(value(&headers, "content-range"), Some("bytes */10"));
            assert_eq!(value(&headers, "content-type"), None);
            assert_eq!(value(&headers, "accept-ranges"), Some("bytes"));
        }
        other => panic!("{other:?}"),
    }
    assert_eq!(
        code(serve_original(None, "attachment", ParsedRange::Full, false)),
        ProblemCode::Internal
    );
    match whole(-1, false).unwrap() {
        FileReply::File { status, headers, bytes } => {
            assert_eq!((status, bytes), (200, Some((0, u64::MAX - 1))));
            assert_eq!(value(&headers, "content-length"), Some("-1"));
        }
        other => panic!("{other:?}"),
    }
    assert_eq!(
        code(serve_original(Some(1), "a\nb", ParsedRange::Full, false)),
        ProblemCode::Internal
    );
}

#[test]
fn a_preview_is_downloaded() {
    let preview = |if_none_match, range, head, ranges| {
        serve_preview("\"t\"", 10, if_none_match, range, head, ranges).unwrap()
    };
    match preview(None, ParsedRange::Full, false, true) {
        FileReply::File { status, headers, bytes } => {
            assert_eq!((status, bytes), (200, Some((0, 9))));
            assert_eq!(value(&headers, "content-type"), Some("image/webp"));
            assert_eq!(value(&headers, "etag"), Some("\"t\""));
            assert_eq!(value(&headers, "accept-ranges"), Some("bytes"));
        }
        other => panic!("{other:?}"),
    }
    match preview(None, ParsedRange::Bytes { start: 1, end: 1 }, false, false) {
        FileReply::File { status, headers, bytes } => {
            assert_eq!((status, bytes), (200, Some((0, 9))));
            assert_eq!(value(&headers, "accept-ranges"), None);
        }
        other => panic!("{other:?}"),
    }
    match preview(Some(b"W/\"t\""), ParsedRange::Full, false, true) {
        FileReply::NotModified { headers } => {
            assert_eq!(value(&headers, "cache-control"), Some("private, max-age=3600"));
        }
        other => panic!("{other:?}"),
    }
    assert!(matches!(
        preview(None, ParsedRange::Invalid, false, true),
        FileReply::Unsatisfiable { .. }
    ));
    assert_eq!(
        code(serve_preview("a\nb", 10, None, ParsedRange::Full, false, true)),
        ProblemCode::Internal
    );
    let file = |preview| DownloadFile {
        preview,
        disposition: "attachment",
        size: Some(3),
        range: ParsedRange::Full,
    };
    let ask = |variant| DownloadAsk { variant, if_none_match: None, head_only: true };
    assert!(matches!(
        serve_download(ask(Some("preview")), file(Some(("\"t\"", 5, ParsedRange::Full)))),
        Ok(FileReply::File { status: 200, bytes: None, .. })
    ));
    assert_eq!(code(serve_download(ask(Some("preview")), file(None))), ProblemCode::NotFound);
    assert_eq!(code(serve_download(ask(Some("x")), file(None))), ProblemCode::InvalidInput);
    assert!(matches!(
        serve_download(ask(None), file(None)),
        Ok(FileReply::File { status: 200, bytes: None, .. })
    ));
}

#[test]
fn office_files_have_a_readable_preview() {
    assert!(is_office_attachment("A.DOCX", ""));
    assert!(is_office_attachment(
        "a",
        "application/vnd.openxmlformats-officedocument.spreadsheetml.sheet"
    ));
    assert!(!is_office_attachment("a.pdf", "application/pdf"));
    assert!(preview_html_allowed("a.odt", "", "server", false));
    assert!(!preview_html_allowed("a.odt", "", "client", true));
    assert!(preview_html_allowed("a.hwp", "", "server", true));
    assert!(!preview_html_allowed("a.hwp", "", "hybrid", true));
    let admitted = |name: &str, mode: &str| {
        preview_html_admitted(Ok(Ok(row(name, ""))), Ok(mode.to_string()), false)
    };
    assert!(admitted("a.pptx", "hybrid").is_ok());
    assert_eq!(code(admitted("a.txt", "server")), ProblemCode::NotFound);
    assert_eq!(
        code(preview_html_admitted(Ok(Ok(row("a", ""))), Err(DbFailure), true)),
        ProblemCode::Internal
    );
    assert_eq!(
        preview_html(Ok(Some("a<b".to_string()))).unwrap(),
        "<pre>a&lt;b</pre>"
    );
    let long = preview_html(Ok(Some("x".repeat(70_000)))).unwrap();
    assert_eq!(long.len(), 64_000 + 11);
    let none = preview_html(Ok(None)).unwrap_err();
    assert_eq!((none.status, none.code), (Some(413), ProblemCode::PreviewNotAvailable));
    assert!(preview_html(Ok(Some(String::new()))).is_err());
    assert_eq!(code(preview_html(Err(DbFailure))), ProblemCode::Internal);
    let mut limiter = RateLimiter::new();
    for _ in 0..60 {
        assert!(preview_html_limit(&mut limiter, &auth(None), 0).is_ok());
    }
    assert_eq!(
        preview_html_limit(&mut limiter, &auth(None), 0).unwrap_err().retry_after,
        Some(60)
    );
}

#[test]
fn document_problems_have_codes() {
    let name = |e| match map_document_error(e, 12) {
        ApiError::Coded { status, code, .. } => (status, code),
        ApiError::App(e) => (0, format!("{:?}", e.code)),
    };
    let pair = |s, c: &str| (s, c.to_string());
    assert_eq!(name(DocumentDbError::NotFound), pair(0, "NotFound"));
    assert_eq!(name(DocumentDbError::Forbidden), pair(0, "NotFound"));
    assert_eq!(
        name(DocumentDbError::AffiliationMismatch),
        pair(400, "document_affiliation_mismatch")
    );
    assert_eq!(name(DocumentDbError::Cycle), pair(400, "document_cycle"));
    assert_eq!(name(DocumentDbError::TrashedParent), pair(409, "restore_rejected"));
    assert_eq!(name(DocumentDbError::RootDocumentTrash), pair(400, "root_document_trash"));
    assert_eq!(name(DocumentDbError::RootDocumentMove), pair(400, "root_document_move"));
    assert_eq!(name(DocumentDbError::InvalidSortKey), pair(0, "Internal"));
    match map_document_error(DocumentDbError::DepthLimit, 12) {
        ApiError::Coded { status, code, title, params } => {
            assert_eq!((status, code.as_str()), (400, "tree_depth_limit"));
            assert_eq!(title, "tree depth would exceed limit (12)");
            assert!(matches!(params, Some(Params::Limit(12))));
        }
        other => panic!("{other:?}"),
    }
    assert_eq!(db_result(Ok(Ok(3)), 12).unwrap(), 3);
    assert_eq!(api(db_result::<i32>(Err(DbFailure), 12)), ProblemCode::Internal);
    assert!(document_done(Ok(Ok(())), 12).unwrap().ok);
    assert_eq!(
        coded(document_done(Ok(Err(DocumentDbError::Cycle)), 12)),
        (400, "document_cycle".to_string())
    );
}

#[test]
fn a_document_is_made_and_changed() {
    let body = |parent_id| CreateDocumentBody {
        title: " T ".to_string(),
        icon: Some(Some("i".to_string())),
        parent_id,
    };
    let made = create_document_input(body(RequiredNullable::Null), true, true, false).unwrap();
    assert_eq!((made.title.as_str(), made.parent_id), ("T", None));
    let made =
        create_document_input(body(RequiredNullable::Value(Uuid(3))), true, true, true).unwrap();
    assert_eq!(made.parent_id, Some(Uuid(3)));
    let refused = |parent, title, icon, project| {
        api(create_document_input(body(parent), title, icon, project))
    };
    assert_eq!(
        refused(RequiredNullable::Missing, true, true, false),
        ProblemCode::InvalidInput
    );
    assert_eq!(refused(RequiredNullable::Null, true, true, true), ProblemCode::InvalidInput);
    assert_eq!(refused(RequiredNullable::Null, false, true, false), ProblemCode::InvalidInput);
    assert_eq!(refused(RequiredNullable::Null, true, false, false), ProblemCode::InvalidInput);
    let patch = || PatchDocumentBody {
        title: Some(" U ".to_string()),
        icon: Some(None),
        status: None,
    };
    let patched = patch_document_input(patch(), true, false, false).unwrap();
    assert_eq!((patched.title.as_deref(), patched.icon), (Some("U"), Some(None)));
    assert_eq!(
        api(patch_document_input(patch(), false, true, true)),
        ProblemCode::InvalidInput
    );
    assert!(check_absent(None).is_ok());
    assert_eq!(api(check_absent(Some(""))), ProblemCode::InvalidInput);
    assert_eq!(parse_trash_children(None).unwrap(), TrashChildrenMode::Trash);
    assert_eq!(parse_trash_children(Some("reparent")).unwrap(), TrashChildrenMode::Reparent);
    assert_eq!(api(parse_trash_children(Some("keep"))), ProblemCode::InvalidInput);
}

fn meta() -> DocumentMeta {
    DocumentMeta {
        id: Uuid(3),
        workspace_id: Uuid(7),
        title: "T".to_string(),
        number: Some(4),
        icon: None,
        path: "p".to_string(),
        parent_id: Some(Uuid(5)),
        sort_key: "a0".to_string(),
        project_id: None,
        status: "draft".to_string(),
        schema_version: 1,
        version: 8,
        created_by: Uuid(1),
        created_at: now(),
        updated_at: now(),
        display_id: Some("D-4".to_string()),
        content_json: Json::Bool(true),
    }
}

fn node(id: u128, parent: Option<u128>) -> TreeNode {
    TreeNode {
        id: Uuid(id),
        workspace_id: Uuid(7),
        parent_id: parent.map(Uuid),
        project_id: None,
        title: format!("t{id}"),
        icon: None,
        path: "p".to_string(),
        sort_key: "a".to_string(),
        number: None,
        status: "draft".to_string(),
    }
}

#[test]
fn documents_are_answered() {
    let out = meta_response(meta(), true);
    assert_eq!((out.parent_id, out.display_id.as_deref()), (Some(Uuid(5).text()), Some("D-4")));
    assert_eq!(meta_response(meta(), false).display_id, None);
    assert_eq!(document_reply(Ok(Ok(meta())), true, 12).unwrap().version, 8);
    assert!(shows_display_id(Route::CreateDocument) && !shows_display_id(Route::GetDocument));
    assert!(shows_display_id(Route::ProjectDocumentGetDocument));
    assert!(!shows_display_id(Route::PutBodyProject));
    let body = body_reply(Ok(Ok(meta())), 12).unwrap();
    assert!(matches!(body.content_json, Json::Bool(true)) && body.version == 8);
    assert_eq!(
        api(body_reply(Ok(Err(DocumentDbError::Forbidden)), 12)),
        ProblemCode::NotFound
    );
    let nodes = [node(1, None), node(2, Some(1)), node(3, Some(2)), node(4, Some(1))];
    let tree = tree_response(&nodes);
    assert_eq!((tree.len(), tree[1].parent_id.clone()), (4, Some(Uuid(1).text())));
    let children = children_response(&nodes, Uuid(1));
    assert_eq!(
        children.iter().map(|n| n.title.as_str()).collect::<Vec<_>>(),
        vec!["t2", "t4"]
    );
    let up = ancestors_response(&[AncestorNode {
        id: Uuid(1),
        title: "t".to_string(),
        icon: Some("i".to_string()),
        path: "p".to_string(),
        project_id: Some(Uuid(6)),
        number: None,
    }]);
    assert_eq!(up[0].project_id, Some(Uuid(6).text()));
    let trash = trash_response(&[TrashItem {
        id: Uuid(1),
        title: "t".to_string(),
        deleted_at: now(),
        project_id: None,
    }]);
    assert_eq!(trash[0].deleted_at.micros(), 1_000_000);
    let back = backlinks_response(&[Backlink {
        id: Uuid(1),
        kind: "task".to_string(),
        title: "t".to_string(),
        display_id: None,
    }]);
    assert_eq!((back[0].id.as_str(), back[0].from.kind.as_str()), (&*Uuid(1).text(), "task"));
}

#[test]
fn a_document_is_exported() {
    let file = |kind: &str| {
        Ok(Rendered { content_type: kind.to_string(), bytes: vec![1, 2] })
    };
    let (headers, bytes) = export_reply(file("text/markdown"), "a.md").unwrap();
    assert_eq!(value(&headers, "content-disposition"), Some("attachment; filename=\"a.md\""));
    assert_eq!(bytes, vec![1, 2]);
    assert_eq!(api(export_reply(file("a\nb"), "a.md")), ProblemCode::Internal);
    assert_eq!(
        api(export_reply(Err(ExportRenderError::InvalidInput), "a")),
        ProblemCode::InvalidInput
    );
    assert_eq!(
        coded(export_reply(Err(ExportRenderError::TooLarge), "a")),
        (413, "document_body_exceeds_document_max_body_bytes".to_string())
    );
    assert_eq!(
        api(export_reply(Err(ExportRenderError::Unavailable), "a")),
        ProblemCode::Internal
    );
    let mut limiter = RateLimiter::new();
    for _ in 0..10 {
        assert!(doc_export_limit(&mut limiter, &auth(None), 0).is_ok());
    }
    assert!(doc_export_limit(&mut limiter, &auth(None), 0).is_err());
    for _ in 0..30 {
        assert!(revision_write_limit(&mut limiter, Uuid(1), 0).is_ok());
    }
    assert!(revision_write_limit(&mut limiter, Uuid(1), 0).is_err());
}

#[test]
fn body_problems_have_codes() {
    let name = |e: ApiError| match e {
        ApiError::Coded { status, code, .. } => format!("{status} {code}"),
        ApiError::App(e) => format!("{:?}", e.code),
    };
    assert_eq!(name(invalid_body()), "400 invalid_document_body");
    assert_eq!(name(map_convert(ConvertError::InvalidInput)), "400 invalid_document_body");
    assert!(name(map_convert(ConvertError::TooLarge)).starts_with("413"));
    assert_eq!(name(map_convert(ConvertError::Missing)), "Internal");
    assert!(name(map_derived(DerivedBodyError::TooLarge)).starts_with("413"));
    assert_eq!(name(map_body_write(BodyWriteError::Rejected)), "NotFound");
    assert_eq!(name(map_body_write(BodyWriteError::Unavailable)), "503 collab_unavailable");
    assert_eq!(name(map_body_write(BodyWriteError::Conflict)), "409 document_version_mismatch");
    assert_eq!(name(map_body_write(BodyWriteError::DeriveFailed)), "Internal");
    assert_eq!(name(live_result::<()>(Live::NoHub).unwrap_err()), "503 collab_unavailable");
    assert_eq!(name(live_result::<()>(Live::TimedOut).unwrap_err()), "CollabTimeoutRetry");
    assert_eq!(live_result(Live::Done(3)).unwrap(), 3);
    assert_eq!(resolve_body_json(Ok(1), Ok(())).unwrap(), 1);
    assert!(resolve_body_json::<i32>(Err(ConvertError::Other), Ok(())).is_err());
    assert!(resolve_body_json(Ok(1), Err(DerivedBodyError::InvalidDocumentBody)).is_err());
}

#[test]
fn a_body_is_read() {
    assert!(parse_body_format(Some("md")).unwrap() && !parse_body_format(None).unwrap());
    assert_eq!(api(parse_body_format(Some("html"))), ProblemCode::InvalidInput);
    assert_eq!(markdown_reply(Ok("# a".to_string()), 3).unwrap().content_md, "# a");
    assert!(check_markdown_size("é", 2).is_ok());
    assert!(coded(check_markdown_size("é", 1)).0 == 413);
    assert!(matches!(
        body_input(Some(Json::Object(vec![(
            "contentMd".to_string(),
            Json::Text("m".to_string())
        )]))),
        Ok(BodyInput::Markdown(m)) if m == "m"
    ));
    assert_eq!(api(body_input(None)), ProblemCode::InvalidInput);
    assert_eq!(
        api(put_body_entry(Some(b"https://y"), "https://x", b"{}")),
        ProblemCode::OriginMismatch
    );
    assert!(put_body_entry(None, "https://x", br#"{"contentMd":"a"}"#).is_ok());
}

#[test]
fn a_block_is_patched() {
    let attr = |id: &str| ("id".to_string(), Json::Text(id.to_string()));
    let input = |kind: &str, attrs: Vec<(String, Json)>| {
        Some(PatchBlockInput {
            kind: kind.to_string(),
            attrs: Some(attrs),
            content: Some(vec![Json::Object(vec![])]),
            marks: None,
            text: Some("t".to_string()),
        })
    };
    let block =
        parse_block_input(input("p", vec![attr("b"), ("x".to_string(), Json::Null)]), "b").unwrap();
    assert_eq!((block.kind.as_str(), block.text.as_deref()), ("p", Some("t")));
    assert_eq!(block.attrs.unwrap().len(), 2);
    assert!(block.content.unwrap().len() == 1 && block.marks.is_none());
    assert_eq!(
        coded(parse_block_input(input("p", vec![attr("x")]), "b")),
        (400, "invalid_document_body".to_string())
    );
    assert_eq!(api(parse_block_input(input("", vec![]), "b")), ProblemCode::InvalidInput);
    assert_eq!(api(parse_block_input(None, "b")), ProblemCode::InvalidInput);
    assert_eq!(
        api(patch_block_entry(Some(b"https://y"), "https://x", None, "b")),
        ProblemCode::OriginMismatch
    );
    assert!(patch_block_entry(None, "https://x", input("p", vec![]), "b").is_ok());
}

#[test]
fn a_block_patch_gives_up() {
    let conflict = || Live::Failed(BodyWriteError::Conflict);
    let mut patch = BlockPatch::start();
    assert!(patch.read(Live::Done(5)).is_ok());
    assert_eq!(patch.tail, Some(5));
    assert_eq!(patch.patched(true, Ok(()), Ok(())).unwrap(), 5);
    assert_eq!(api(patch.patched(false, Ok(()), Ok(()))), ProblemCode::NotFound);
    assert!(matches!(patch.wrote(conflict()), Ok(BlockNext::Again)));
    assert_eq!((patch.attempt, patch.tail), (2, None));
    patch.read(Live::Done(6)).unwrap();
    assert_eq!(patch.patched(true, Ok(()), Ok(())).unwrap(), 6);
    assert!(matches!(patch.wrote(conflict()), Ok(BlockNext::Again)));
    patch.read(Live::Done(7)).unwrap();
    assert_eq!(
        coded(patch.wrote(conflict())),
        (409, "document_version_mismatch".to_string())
    );
    let mut patch = BlockPatch::start();
    patch.read(Live::Done(5)).unwrap();
    assert!(matches!(patch.wrote(Live::Done(())), Ok(BlockNext::Written)));
    assert_eq!(api(patch.wrote(Live::TimedOut)), ProblemCode::CollabTimeoutRetry);
}

#[test]
fn a_document_is_copied() {
    let input = |title: Option<&str>, children| {
        Some(DuplicateDocumentInput {
            title: title.map(str::to_string),
            include_children: children,
        })
    };
    assert_eq!(
        duplicate_input(input(Some(" a "), Some(true)), true).unwrap(),
        (Some("a".to_string()), true)
    );
    assert_eq!(duplicate_input(input(None, None), false).unwrap(), (None, false));
    assert_eq!(api(duplicate_input(input(Some("a"), None), false)), ProblemCode::InvalidInput);
    assert_eq!(api(duplicate_input(None, true)), ProblemCode::InvalidInput);
    assert!(copy_prepared(CopySource::Stored, Ok(()), Ok(())).is_ok());
    assert_eq!(coded(copy_prepared(CopySource::NoEngine, Ok(()), Ok(()))).0, 503);
    assert_eq!(coded(copy_prepared(CopySource::Projected(false), Ok(()), Ok(()))).0, 503);
    assert_eq!(
        coded(copy_prepared(
            CopySource::Projected(true),
            Err(DerivedBodyError::TooLarge),
            Ok(())
        ))
        .0,
        413
    );
    assert!(matches!(
        located_document(Ok(Some((Uuid(7), Some(Uuid(6)))))),
        Ok((Uuid(7), DocumentScope::Project(Uuid(6))))
    ));
    assert!(matches!(
        located_document(Ok(Some((Uuid(7), None)))),
        Ok((Uuid(7), DocumentScope::Wiki))
    ));
    assert_eq!(api(located_document(Ok(None))), ProblemCode::NotFound);
}

#[test]
fn comments_are_written_and_answered() {
    assert_eq!((page_limit(None), page_limit(Some(7))), (50, 7));
    let name = |e| match map_comment_error(e) {
        ApiError::Coded { status, code, .. } => format!("{status} {code}"),
        ApiError::App(e) => format!("{:?}", e.code),
    };
    assert_eq!(name(CommentDbError::NotFound), "404 not_found");
    assert_eq!(name(CommentDbError::InvalidInput), "InvalidInput");
    assert_eq!(name(CommentDbError::Conflict), "409 conflict");
    assert_eq!(name(CommentDbError::ProjectArchived), "ProjectArchived");
    assert_eq!(name(CommentDbError::TaskArchived), "409 task_archived");
    assert!(matches!(
        map_comment_error(CommentDbError::InvalidCursor),
        ApiError::Coded { params: Some(Params::Code(c)), .. } if c == "invalid_cursor"
    ));
    assert_eq!(comment_result(Ok(Ok(3))).unwrap(), 3);
    assert!(comment_done(Ok(Ok(()))).unwrap().ok);
    assert_eq!(coded(project_document_comments::<i32>()), (404, "not_found".to_string()));
    let body = |users: Option<Vec<Uuid>>, groups: Option<Vec<Uuid>>| CreateCommentBody {
        body: "b".to_string(),
        parent_id: None,
        mentioned_user_ids: users,
        mentioned_group_ids: groups,
    };
    assert_eq!(
        validate_create_body(body(Some(vec![Uuid(1)]), Some(vec![]))).unwrap(),
        vec![Uuid(1)]
    );
    assert!(validate_create_body(body(None, None)).unwrap().is_empty());
    assert_eq!(
        api(validate_create_body(body(None, Some(vec![Uuid(1)])))),
        ProblemCode::InvalidInput
    );
    assert_eq!(patched_body(Some("x".to_string())).unwrap(), "x");
    assert_eq!(api(patched_body(None)), ProblemCode::InvalidInput);
    let out = comment_to_output(
        CommentRow {
            id: Uuid(1),
            workspace_id: Uuid(7),
            document_id: None,
            task_id: Some(Uuid(2)),
            parent_id: None,
            created_by: None,
            body: "b".to_string(),
            resolved_at: None,
            created_at: now(),
            updated_at: now(),
        },
        Reactions {
            shown: vec![(
                "+1".to_string(),
                CommentReactionSummary { count: 2, reacted_by_me: true },
            )],
            other_count: 4,
        },
    );
    assert_eq!((out.reactions.len(), out.other_reaction_count), (1, 4));
    let mut limiter = RateLimiter::new();
    for _ in 0..60 {
        assert!(comment_limit(&mut limiter, Uuid(1), 0).is_ok());
    }
    assert!(comment_limit(&mut limiter, Uuid(1), 0).is_err());
}
