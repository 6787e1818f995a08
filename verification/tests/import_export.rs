//! Imports, and the archive of what a user has written.

use fvoci_http::authz::{RequestAuth, Resolved, SessionUser};
use fvoci_http::error::{AppError, DbFailure, ProblemCode};
use fvoci_http::ids::Uuid;
use fvoci_http::rate_limit::RateLimiter;
use fvoci_http::routes::export::{
    attachment_json, attachment_listing, breaks_off, check_export_size, comment_json,
    export_headers, export_limit, export_rows, file_step, next_file, open_failed, pretty_element,
    profile_file, profile_json, sent, write_chunk, write_closing, CommentExport, ExportAttachment,
    ExportComment, ExportFailure, ExportProfile, FileStep,
};
use fvoci_http::routes::export_run::{ExportAction, ExportEvent, ExportRun};
use fvoci_http::routes::import::{
    import_completed, import_queued, import_status, job_created, map_import_error, plan_import,
    BodyRead, ImportDbError, ImportJob, ImportKind, ImportPlan, ImportRequest, ImportSession,
    ImportSource, ImportTools, StartImportBody, SyncImportError, IMPORT_LIMIT, IMPORT_WINDOW,
};
use fvoci_http::time::Timestamp;

const ALL: ImportTools = ImportTools { seed: true, markdown: true, runner: true };

fn user() -> SessionUser {
    SessionUser {
        user_id: Uuid(1).text(),
        session_id: Uuid(2).text(),
        email: "a@example.com".to_string(),
        has_password: true,
    }
}

fn auth() -> RequestAuth {
    RequestAuth {
        user: user(),
        user_id: Uuid(1),
        credential_id: Uuid(2),
        token_scopes: None,
        token_workspace_id: None,
    }
}

fn session() -> ImportSession {
    ImportRequest::enter(None, None, "https://x.example")
        .unwrap()
        .authenticate(Resolved::Session(Some(user())))
        .unwrap()
}

fn body(zip: Option<&str>) -> StartImportBody {
    StartImportBody {
        workspace_id: Uuid(7),
        source: "notion".to_string(),
        zip_base64: zip.map(str::to_string),
        file_name: Some("a.docx".to_string()),
        project_id: Some(Uuid(8)),
    }
}

fn source(kind: ImportKind) -> Option<ImportSource> {
    Some(ImportSource { kind, name: "src".to_string() })
}

fn fault(e: AppError) -> (Option<u16>, ProblemCode, Option<String>) {
    (e.status, e.code, e.source)
}

#[test]
fn an_import_is_entered_by_a_session_of_the_public_origin() {
    let refused = ImportRequest::enter(Some(b"Bearer t"), Some(b"https://y"), "https://x");
    assert_eq!(refused.unwrap_err().code, ProblemCode::NotFound);
    let refused = ImportRequest::enter(None, Some(b"https://y"), "https://x");
    assert_eq!(refused.unwrap_err().code, ProblemCode::OriginMismatch);
    let entered = ImportRequest::enter(None, Some(b"https://x"), "https://x").unwrap();
    assert_eq!(
        entered.authenticate(Resolved::Session(None)).unwrap_err().code,
        ProblemCode::AuthenticationRequired
    );
}

#[test]
fn an_import_is_json() {
    let s = session();
    assert!(s.check_content_type(Some(b"application/json; charset=utf-8")).is_ok());
    assert_eq!(
        s.check_content_type(Some(b"text/plain")).unwrap_err().code,
        ProblemCode::UnsupportedMediaType
    );
    assert_eq!(s.check_content_type(None).unwrap_err().code, ProblemCode::UnsupportedMediaType);
    assert_eq!(
        fault(s.read_import_body(BodyRead::TooLarge).unwrap_err()),
        (Some(413), ProblemCode::InvalidInput, None)
    );
    assert_eq!(
        fault(s.read_import_body(BodyRead::Malformed).unwrap_err()),
        (None, ProblemCode::InvalidInput, None)
    );
    let mut b = body(None);
    b.file_name = Some(String::new());
    assert_eq!(
        fault(s.read_import_body(BodyRead::Read(b)).unwrap_err()),
        (None, ProblemCode::InvalidInput, Some("/fileName".to_string()))
    );
    assert_eq!(
        fault(s.read_import_body(BodyRead::Read(body(Some("")))).unwrap_err()),
        (None, ProblemCode::InvalidInput, Some("/zipBase64".to_string()))
    );
    assert_eq!(s.read_import_body(BodyRead::Read(body(Some("aGk=")))).unwrap().source, "notion");
}

#[test]
fn imports_are_counted() {
    let s = session();
    let mut limiter = RateLimiter::new();
    for _ in 0..IMPORT_LIMIT {
        assert!(s.charge_import(&mut limiter, 0).is_ok());
    }
    let refused = s.charge_import(&mut limiter, 0).unwrap_err();
    assert_eq!(refused.code, ProblemCode::RateLimited);
    assert_eq!(refused.retry_after, Some(900));
    assert!(s.charge_import(&mut limiter, IMPORT_WINDOW).is_ok());
}

#[test]
fn an_import_is_planned_by_its_source() {
    match plan_import(body(Some("aGk=")), source(ImportKind::MarkdownZip), ALL, false) {
        Ok(ImportPlan::Now { source, file }) => {
            assert_eq!(source, "src");
            assert_eq!(file, b"hi".to_vec());
        }
        other => panic!("{other:?}"),
    }
    match plan_import(body(Some("aGk=")), source(ImportKind::OfficeFile), ALL, true) {
        Ok(ImportPlan::Later { source, file, file_name, project_id }) => {
            assert_eq!(source, "src");
            assert_eq!(file, b"hi".to_vec());
            assert_eq!(file_name.as_deref(), Some("a.docx"));
            assert_eq!(project_id, Some(Uuid(8)));
        }
        other => panic!("{other:?}"),
    }
    assert!(matches!(
        plan_import(body(None), source(ImportKind::MarkdownZip), ALL, false),
        Ok(ImportPlan::Now { file, .. }) if file.is_empty()
    ));
}

#[test]
fn an_import_without_what_it_needs_fails() {
    let plan = |zip, kind, tools, office| {
        fault(plan_import(body(zip), kind, tools, office).unwrap_err())
    };
    let failed = (None, ProblemCode::ImportFailed, None);
    assert_eq!(
        plan(Some("aGk="), None, ALL, true),
        (None, ProblemCode::InvalidInput, Some("/source".to_string()))
    );
    assert_eq!(
        plan(Some("aGk"), source(ImportKind::Other), ALL, true),
        (None, ProblemCode::InvalidInput, Some("/zipBase64".to_string()))
    );
    let lame = ImportTools { seed: true, markdown: false, runner: true };
    assert_eq!(plan(Some("aGk="), source(ImportKind::MarkdownZip), lame, true), failed);
    let idle = ImportTools { seed: true, markdown: true, runner: false };
    assert_eq!(plan(Some("aGk="), source(ImportKind::Other), idle, true), failed);
    assert_eq!(plan(None, source(ImportKind::Other), ALL, true), failed);
    assert_eq!(plan(Some("aGk="), source(ImportKind::OfficeFile), ALL, false), failed);
}

#[test]
fn an_import_that_is_too_large_is_refused() {
    // 67_108_865 bytes, of which none is written out.
    let text = format!("{}AAA=", "A".repeat(89_478_484));
    assert_eq!(
        fault(
            plan_import(body(Some(&text)), source(ImportKind::Other), ALL, true).unwrap_err()
        ),
        (Some(413), ProblemCode::InvalidInput, None)
    );
}

#[test]
fn the_job_of_an_import_is_answered() {
    assert_eq!(map_import_error(ImportDbError::Forbidden).code, ProblemCode::NotFound);
    assert_eq!(job_created(Ok(Ok(Uuid(5)))).unwrap(), Uuid(5));
    assert_eq!(
        job_created(Ok(Err(ImportDbError::NotFound))).unwrap_err().code,
        ProblemCode::NotFound
    );
    assert_eq!(job_created(Err(DbFailure)).unwrap_err().code, ProblemCode::Internal);
    let done = import_completed(Uuid(5), Uuid(7), "src", Ok(vec![Uuid(6)])).unwrap();
    assert_eq!(done.status, "completed");
    assert_eq!(done.created_document_ids, vec![Uuid(6).text()]);
    let code = |e| import_completed(Uuid(5), Uuid(7), "src", Err(e)).unwrap_err().code;
    assert_eq!(code(SyncImportError::Failed), ProblemCode::ImportFailed);
    assert_eq!(code(SyncImportError::NotFound), ProblemCode::NotFound);
    assert_eq!(code(SyncImportError::Db), ProblemCode::Internal);
    let queued = import_queued(Uuid(5), Uuid(7), "src");
    assert!(queued.created_document_ids.is_empty() && queued.status == "running");
    assert_eq!(queued.workspace_id, Uuid(7).text());
    let status = import_status(Ok(Ok(ImportJob {
        id: Uuid(5),
        workspace_id: Uuid(7),
        source: "src".to_string(),
        status: "running".to_string(),
        document_ids: vec![],
    })))
    .unwrap();
    assert_eq!((status.id, status.status), (Uuid(5).text(), "running".to_string()));
    assert_eq!(
        import_status(Ok(Err(ImportDbError::NotFound))).unwrap_err().code,
        ProblemCode::NotFound
    );
}

fn profile() -> ExportProfile {
    ExportProfile {
        id: Uuid(1),
        email: "a@example.com".to_string(),
        given_name: "A".to_string(),
        family_name: None,
        locale: "en".to_string(),
        timezone: "UTC".to_string(),
        week_starts_on: 1,
    }
}

fn comment(id: u128) -> ExportComment {
    ExportComment {
        id: Uuid(id),
        workspace_id: Uuid(7),
        document_id: None,
        task_id: Some(Uuid(3)),
        body: "hi".to_string(),
        created_at: Timestamp::from_micros(1_500_000).unwrap(),
    }
}

fn file(id: u128, size: Option<i64>, scan: &str) -> ExportAttachment {
    ExportAttachment {
        id: Uuid(id),
        workspace_id: Uuid(7),
        name: "a/b.txt".to_string(),
        mime: "text/plain".to_string(),
        size_bytes: size,
        scan_status: scan.to_string(),
        storage_key: format!("k{id}"),
    }
}

#[test]
fn an_export_lists_what_it_holds() {
    let p = profile_json(profile());
    assert_eq!((p.id, p.week_starts_on), (Uuid(1).text(), 1));
    let c = comment_json(&comment(4));
    assert_eq!(c.created_at, "1970-01-01T00:00:01.500Z");
    assert_eq!((c.document_id, c.task_id), (None, Some(Uuid(3).text())));
    let a = attachment_json(&file(9, Some(3), "clean"));
    assert_eq!((a.id, a.name.as_str(), a.size_bytes), (Uuid(9).text(), "a/b.txt", Some(3)));
    assert_eq!(pretty_element("{\n  \"a\": 1\n}"), "  {\n    \"a\": 1\n  }");
    assert_eq!(profile_file("{}"), "{}\n");
    let elements = vec!["  1".to_string(), "  2".to_string()];
    assert_eq!(write_chunk(true, &elements), "[\n  1,\n  2");
    assert_eq!(write_chunk(false, &elements), ",\n  1,\n  2");
    assert_eq!(write_closing(true), "[]\n");
    assert_eq!(attachment_listing(&elements), "[\n  1,\n  2\n]\n");
    assert_eq!(attachment_listing(&[]), "[]\n");
}

#[test]
fn pages_make_one_listing() {
    let mut export = CommentExport::new(vec![Uuid(7), Uuid(8)], 1);
    assert!(matches!(export.request(), Some((Uuid(7), None))));
    let mut text = export.take_page(&[comment(4)], &["  a".to_string()]).unwrap();
    let at = Timestamp::from_micros(1_500_000).unwrap();
    let (workspace, after) = export.request().unwrap();
    assert_eq!(workspace, Uuid(7));
    assert_eq!(after.map(|(t, id)| (t.micros(), id)), Some((at.micros(), Uuid(4))));
    assert!(export.take_page(&[], &[]).is_none());
    assert!(matches!(export.request(), Some((Uuid(8), None))));
    text.push_str(&export.take_page(&[comment(5)], &["  b".to_string()]).unwrap());
    assert!(export.take_page(&[], &[]).is_none());
    assert!(export.request().is_none());
    text.push_str(write_closing(export.first));
    assert_eq!(text, attachment_listing(&["  a".to_string(), "  b".to_string()]));
}

#[test]
fn an_export_has_to_fit_an_archive() {
    let most = 4_227_858_431;
    assert!(check_export_size(&[file(9, Some(most), "clean")]).is_ok());
    assert!(check_export_size(&[file(9, Some(most), "clean"), file(8, Some(1), "infected")]).is_ok());
    assert!(check_export_size(&[file(9, Some(most), "clean"), file(8, Some(-5), "clean")]).is_ok());
    assert_eq!(
        check_export_size(&[file(9, Some(most + 1), "clean")]).unwrap_err().code,
        ProblemCode::Internal
    );
    let many: Vec<ExportAttachment> = (0..60_001).map(|i| file(i, None, "clean")).collect();
    assert!(check_export_size(&many[..60_000]).is_ok());
    assert!(check_export_size(&many).is_err());
}

#[test]
fn an_export_is_put_together_from_the_store() {
    assert_eq!(
        export_rows(Ok(None), Ok(vec![]), Ok(vec![])).unwrap_err().code,
        ProblemCode::NotFound
    );
    assert_eq!(
        export_rows(Err(DbFailure), Ok(vec![]), Ok(vec![])).unwrap_err().code,
        ProblemCode::Internal
    );
    assert_eq!(
        export_rows(Ok(Some(profile())), Err(DbFailure), Ok(vec![])).unwrap_err().code,
        ProblemCode::Internal
    );
    let rows = export_rows(Ok(Some(profile())), Ok(vec![Uuid(7)]), Ok(vec![])).unwrap();
    assert_eq!(rows.workspaces, vec![Uuid(7)]);
    let headers = export_headers();
    assert_eq!(headers[1].value, "attachment; filename=\"fvoci-export.zip\"");
    let mut limiter = RateLimiter::new();
    for _ in 0..5 {
        assert!(export_limit(&mut limiter, &auth(), 0).is_ok());
    }
    assert_eq!(export_limit(&mut limiter, &auth(), 0).unwrap_err().retry_after, Some(900));
}

#[test]
fn infected_files_stay_out() {
    let rows = [file(1, None, "infected"), file(2, None, "clean"), file(3, None, "infected")];
    assert_eq!(next_file(&rows, 0), Some(1));
    assert_eq!(next_file(&rows, 2), None);
}

#[test]
fn a_file_is_packed_by_what_the_storage_says() {
    let row = file(9, Some(3), "clean");
    assert!(matches!(file_step(&row, Ok(None), "b"), Ok(FileStep::Skip)));
    assert_eq!(file_step(&row, Err(DbFailure), "b").unwrap_err(), ExportFailure::Storage);
    let name = format!("attachments/{}-b", Uuid(9).text());
    assert!(matches!(
        file_step(&row, Ok(Some(0)), "b"),
        Ok(FileStep::Empty { name: n }) if n == name
    ));
    assert!(matches!(
        file_step(&row, Ok(Some(3)), "b"),
        Ok(FileStep::Stream { name: n, last: 2 }) if n == name
    ));
    assert_eq!(open_failed(Ok(Some(3))), Err(ExportFailure::Storage));
    assert_eq!(open_failed(Ok(None)), Ok(()));
    assert_eq!(open_failed(Err(DbFailure)), Ok(()));
    assert_eq!(sent(0, false), Ok(()));
    assert_eq!(sent(1, false), Err(ExportFailure::Closed));
    assert!(!breaks_off(Ok(())) && !breaks_off(Err(ExportFailure::Closed)));
    assert!(breaks_off(Err(ExportFailure::Db)) && breaks_off(Err(ExportFailure::Encode)));
}

fn run() -> (ExportRun, ExportAction) {
    ExportRun::start(
        "{}",
        CommentExport::new(vec![Uuid(7)], 100),
        vec![
            file(1, None, "clean"),
            file(2, None, "infected"),
            file(3, None, "clean"),
            file(4, None, "clean"),
            file(5, None, "clean"),
        ],
        (1..6).map(|i| format!("n{i}")).collect(),
    )
}

#[test]
fn an_export_runs_to_its_end() {
    let written = || ExportEvent::Written(Ok(()));
    let (mut run, first) = run();
    let mut entries: Vec<String> = Vec::new();
    let mut texts = String::new();
    let mut action = first;
    let mut copied = 0;
    loop {
        let event = match action {
            ExportAction::File { name, text } => {
                entries.push(name);
                texts.push_str(&text);
                written()
            }
            ExportAction::Begin { name } => {
                entries.push(name);
                written()
            }
            ExportAction::Data { text } => {
                texts.push_str(&text);
                written()
            }
            ExportAction::End | ExportAction::Finish => written(),
            ExportAction::Fetch { workspace, after } => {
                assert_eq!((workspace, after.is_none()), (Uuid(7), true));
                ExportEvent::Page(Ok((vec![comment(4)], vec!["  c".to_string()])))
            }
            ExportAction::Encode => {
                ExportEvent::Encoded(Ok((1..6).map(|i| format!("  {i}")).collect()))
            }
            ExportAction::AskSize { file } => ExportEvent::Size(Ok(match file {
                0 => Some(5),
                2 => None,
                3 => Some(0),
                _ => Some(9),
            })),
            ExportAction::Open { file, last } => {
                assert!((file, last) == (0, 4) || (file, last) == (4, 8));
                ExportEvent::Opened(true)
            }
            ExportAction::Copy => {
                copied += 1;
                ExportEvent::Copied(Ok(copied % 2 == 1))
            }
            ExportAction::Stop => break,
        };
        action = run.step(event).unwrap();
    }
    let named = |id: u128, n: &str| format!("attachments/{}-{}", Uuid(id).text(), n);
    assert_eq!(
        entries,
        vec![
            "profile.json".to_string(),
            "comments.json".to_string(),
            "attachments.json".to_string(),
            named(1, "n1"),
            named(4, "n4"),
            named(5, "n5"),
        ]
    );
    assert_eq!(texts, "{}\n[\n  c\n]\n[\n  1,\n  2,\n  3,\n  4,\n  5\n]\n");
    assert_eq!(copied, 4);
}

#[test]
fn an_export_ends_at_the_first_failure() {
    let (mut r, _) = run();
    assert_eq!(
        r.step(ExportEvent::Written(Err(ExportFailure::Closed))).unwrap_err(),
        ExportFailure::Closed
    );
    r.step(ExportEvent::Written(Ok(()))).unwrap();
    r.step(ExportEvent::Written(Ok(()))).unwrap();
    assert_eq!(
        r.step(ExportEvent::Page(Err(ExportFailure::Db))).unwrap_err(),
        ExportFailure::Db
    );
    assert!(matches!(
        r.step(ExportEvent::Page(Ok((vec![], vec![])))).unwrap(),
        ExportAction::Data { text } if text == "[]\n"
    ));
    r.step(ExportEvent::Written(Ok(()))).unwrap();
    assert!(matches!(r.step(ExportEvent::Written(Ok(()))).unwrap(), ExportAction::Encode));
    assert_eq!(
        r.step(ExportEvent::Encoded(Err(ExportFailure::Encode))).unwrap_err(),
        ExportFailure::Encode
    );
    let listing = (1..6).map(|i| format!("  {i}")).collect();
    assert!(matches!(
        r.step(ExportEvent::Encoded(Ok(listing))).unwrap(),
        ExportAction::File { name, .. } if name == "attachments.json"
    ));
    assert!(matches!(
        r.step(ExportEvent::Written(Ok(()))).unwrap(),
        ExportAction::AskSize { file: 0 }
    ));
    assert_eq!(
        r.step(ExportEvent::Size(Err(DbFailure))).unwrap_err(),
        ExportFailure::Storage
    );
    assert!(matches!(
        r.step(ExportEvent::Size(Ok(Some(1)))).unwrap(),
        ExportAction::Open { file: 0, last: 0 }
    ));
    assert!(matches!(
        r.step(ExportEvent::Opened(false)).unwrap(),
        ExportAction::AskSize { file: 0 }
    ));
    assert_eq!(
        r.step(ExportEvent::Size(Ok(Some(1)))).unwrap_err(),
        ExportFailure::Storage
    );
    assert!(matches!(
        r.step(ExportEvent::Size(Ok(None))).unwrap(),
        ExportAction::AskSize { file: 2 }
    ));
}
