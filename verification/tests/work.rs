//! Projects, tasks and collections.

use fvoci_http::answer::Answer;
use fvoci_http::authz::{RequestAuth, SessionUser};
use fvoci_http::error::{ApiError, AppError, DbFailure, Params, ProblemCode};
use fvoci_http::ids::Uuid;
use fvoci_http::json::Json;
use fvoci_http::routes::collections::{
    actor, invalid, map_error, parsed_body, values_object, version_conflict, CollectionDbError,
    CollectionRow, ItemLookup, ItemRow, PreviewRow, QueryDay, QueryGroup, QueryResult, QueryRow,
};
use fvoci_http::routes::comments::{CommentRow, Reactions};
use fvoci_http::routes::projects::{
    check_new_project, check_project_patch, map_key_error, map_project_error, project_done,
    project_list_reply, project_reply, project_result, role_param, status_output, MemberRow,
    ProjectDbError, ProjectKeyError, ProjectListItem, ProjectRow, StatusRow, WorkflowRow,
};
use fvoci_http::routes::task_body::{
    check_document_task, document_task_created, map_origin_error, map_seed, normalized_task_input,
    origin_limit, origin_result, revision_access, CreateTaskBody, RevisionDbError, SeedError,
    TaskOriginDbError, TaskOriginItem, TaskOriginPage,
};
use fvoci_http::routes::task_ops::{
    create_status_input, located_task, parse_parent_query, parse_status_name, parse_wip_limit,
    rollup, rollup_reply, time_entry_input, to_millis, update_status_input, StatusAnchor,
    StatusPatchBody, TaskParentQueryParams, TimeEntries, TimeEntryRow,
};
use fvoci_http::routes::tasks::{
    activity_continues, activity_item_output, activity_limit, activity_page_output, change_output, changes_output, check_move, check_new_task,
    dependency_input, keep_activity, map_activity_error, map_task_db_error,
    map_task_list_query_error, parse_patch_body, recurrence_preset_is_valid, task_done,
    task_list_reply, task_reply, task_result, ActivityActor, ActivityChange, ActivityComment,
    ActivityCommentParent, ActivityItemOutput, ChildProgress, FieldUpdate, LabelRow, MilestoneRow,
    PatchTaskBody, StatusCount, TaskActivityDbError, TaskActivityItem, TaskChecks, TaskChild, TaskDbError,
    TaskDependencyEdge, TaskListItem, TaskListQueryError, TaskMetaRow, TaskPage, TaskParent,
    TaskRow, ACTIVITY_ENVELOPE_BYTES, ACTIVITY_RESPONSE_BUDGET_BYTES,
};
use fvoci_http::time::{Date, Timestamp};

fn at(micros: i64) -> Timestamp {
    Timestamp::from_micros(micros).unwrap()
}

fn code<T: std::fmt::Debug>(r: Result<T, AppError>) -> ProblemCode {
    r.unwrap_err().code
}

fn name(e: ApiError) -> String {
    match e {
        ApiError::Coded { status, code, .. } => format!("{status} {code}"),
        ApiError::App(e) => format!("{:?}", e.code),
    }
}

fn api<T: std::fmt::Debug>(r: Result<T, ApiError>) -> String {
    name(r.unwrap_err())
}

#[test]
fn project_problems_have_codes() {
    let pairs = [
        (ProjectDbError::NotFound, None, ProblemCode::NotFound, None),
        (ProjectDbError::Forbidden, None, ProblemCode::NotFound, None),
        (ProjectDbError::Conflict, None, ProblemCode::Conflict, None),
        (ProjectDbError::LastLead, None, ProblemCode::Conflict, None),
        (ProjectDbError::GuestLead, None, ProblemCode::Conflict, None),
        (ProjectDbError::LeadNotMember, None, ProblemCode::Conflict, None),
        (ProjectDbError::Archived, None, ProblemCode::ProjectArchived, None),
        (
            ProjectDbError::VersionConflict,
            Some(409),
            ProblemCode::Conflict,
            Some("document_version_mismatch"),
        ),
        (ProjectDbError::TaskArchived, None, ProblemCode::Conflict, None),
        (ProjectDbError::InvalidAnchor, None, ProblemCode::Conflict, None),
        (
            ProjectDbError::StatusNotInWorkflow,
            Some(400),
            ProblemCode::InvalidInput,
            Some("status_not_in_project_workflow"),
        ),
        (
            ProjectDbError::WipLimitExceeded,
            Some(409),
            ProblemCode::Conflict,
            Some("wip_limit_exceeded"),
        ),
        (ProjectDbError::InvalidMoveAnchors, None, ProblemCode::InvalidInput, None),
        (
            ProjectDbError::InvalidCursor,
            Some(400),
            ProblemCode::InvalidInput,
            Some("invalid_cursor"),
        ),
    ];
    for (err, status, wanted, detail) in pairs {
        let e = map_project_error(err);
        assert_eq!((e.status, e.code), (status, wanted));
        let found = match e.params {
            Some(Params::Code(c)) => Some(c),
            _ => None,
        };
        assert_eq!(found.as_deref(), detail);
    }
    assert_eq!(project_result(Ok(Ok(1))).unwrap(), 1);
    assert_eq!(code(project_result::<i32>(Err(DbFailure))), ProblemCode::Internal);
    assert!(project_done(Ok(Ok(()))).unwrap().ok);
    assert!(map_key_error(ProjectKeyError::Reserved).params.is_some());
    assert!(map_key_error(ProjectKeyError::InvalidPattern).params.is_none());
}

#[test]
fn a_project_is_checked() {
    let made = |visibility: &str, ok: bool| {
        check_new_project(Ok("KEY".to_string()), ok, visibility, true, true)
    };
    assert_eq!(made("private", true).unwrap(), "KEY");
    assert_eq!(made("workspace", true).unwrap(), "KEY");
    assert_eq!(code(made("public", true)), ProblemCode::InvalidInput);
    assert_eq!(code(made("private", false)), ProblemCode::InvalidInput);
    assert!(check_new_project(Err(ProjectKeyError::Reserved), true, "private", true, true)
        .unwrap_err()
        .params
        .is_some());
    assert!(check_project_patch(true, None, true, true).is_ok());
    assert!(check_project_patch(true, Some("x"), true, true).is_err());
    assert!(check_project_patch(true, None, false, true).is_err());
    assert_eq!(role_param(Some(2)).unwrap(), 2);
    assert_eq!(code(role_param::<i32>(None)), ProblemCode::InvalidInput);
}

fn project() -> ProjectRow {
    ProjectRow {
        id: Uuid(4),
        workspace_id: Uuid(7),
        key: "K".to_string(),
        name: "N".to_string(),
        description: None,
        icon: None,
        visibility: "private".to_string(),
        root_document_id: Some(Uuid(8)),
        status: "active".to_string(),
        created_by: Uuid(1),
        created_at: at(0),
        updated_at: at(1),
    }
}

fn status() -> StatusRow {
    StatusRow {
        id: Uuid(11),
        name: "Todo".to_string(),
        category: "todo".to_string(),
        sort_key: "a".to_string(),
        wip_limit: Some(3),
    }
}

#[test]
fn projects_are_answered() {
    let out = project_reply(Ok(Ok(project()))).unwrap();
    assert_eq!(out.root_document_id, Some(Uuid(8).text()));
    assert_eq!(
        code(project_reply(Ok(Err(ProjectDbError::Forbidden)))),
        ProblemCode::NotFound
    );
    let list = project_list_reply(Ok(Ok(vec![ProjectListItem {
        project: project(),
        task_count: 5,
        open_task_count: 2,
    }])))
    .unwrap();
    assert_eq!((list[0].task_count, list[0].open_task_count), (5, 2));
    let member = MemberRow {
        user_id: Uuid(1),
        email: "a@b".to_string(),
        given_name: "A".to_string(),
        family_name: None,
        role: "lead".to_string(),
    };
    assert_eq!(member.answer().user_id, Uuid(1).text());
    assert_eq!(status_output(&status(), Uuid(12)).workflow_id, Uuid(12).text());
    let flow = WorkflowRow { id: Uuid(12), project_id: Uuid(4), statuses: vec![status()] };
    let flow = flow.answer();
    assert_eq!(flow.statuses[0].workflow_id, Uuid(12).text());
    assert_eq!(flow.statuses[0].wip_limit, Some(3));
}

#[test]
fn task_problems_have_codes() {
    let of = |e| name(map_task_db_error(e));
    let project = |e| of(TaskDbError::Project(e));
    assert_eq!(project(ProjectDbError::Conflict), "409 task_hierarchy_violation");
    assert_eq!(project(ProjectDbError::VersionConflict), "409 document_version_mismatch");
    assert_eq!(project(ProjectDbError::TaskArchived), "409 task_archived");
    assert_eq!(project(ProjectDbError::InvalidAnchor), "400 anchor_not_in_target_list");
    assert_eq!(
        project(ProjectDbError::StatusNotInWorkflow),
        "400 status_not_in_project_workflow"
    );
    assert_eq!(project(ProjectDbError::WipLimitExceeded), "409 wip_limit_exceeded");
    assert_eq!(project(ProjectDbError::Archived), "ProjectArchived");
    assert_eq!(of(TaskDbError::WorkflowHasNoStatuses), "400 workflow_has_no_statuses");
    assert_eq!(of(TaskDbError::DependencyCycle), "400 dependency_cycle");
    assert_eq!(of(TaskDbError::DependencyContradiction), "400 dependency_contradiction");
    assert_eq!(of(TaskDbError::TaskCannotBlockItself), "400 task_cannot_block_itself");
    assert_eq!(task_result(Ok(Ok(1))).unwrap(), 1);
    assert!(task_done(Ok(Ok(()))).unwrap().ok);
    assert_eq!(api(task_done(Err(DbFailure))), "Internal");
    assert_eq!(
        name(map_task_list_query_error(TaskListQueryError::InvalidInput)),
        "InvalidInput"
    );
    assert!(matches!(
        map_task_list_query_error(TaskListQueryError::InvalidCursor),
        ApiError::App(AppError { status: Some(400), .. })
    ));
    let activity = |e| name(map_activity_error(e));
    assert_eq!(activity(TaskActivityDbError::InvalidInput), "InvalidInput");
    assert_eq!(activity(TaskActivityDbError::InvalidCursor), "400 invalid_cursor");
    assert_eq!(activity(TaskActivityDbError::NotFound), "NotFound");
}

fn patch() -> PatchTaskBody {
    PatchTaskBody {
        expected_dates: None,
        task_type: None,
        title: None,
        priority: None,
        status_id: None,
        start_date: None,
        due_date: None,
        due_at: None,
        estimate: None,
        parent_id: None,
        recurrence: None,
        archived: None,
        assignee_ids: None,
        label_ids: None,
        milestone_id: None,
    }
}

const FINE: TaskChecks =
    TaskChecks { title: true, task_type: true, priority: true, estimate: true };

fn recurrence(kind: &str) -> Json {
    Json::Object(vec![("kind".to_string(), Json::Text(kind.to_string()))])
}

#[test]
fn a_task_is_checked() {
    assert!(check_new_task(true, true, true).is_ok());
    assert_eq!(api(check_new_task(true, false, true)), "InvalidInput");
    assert!(check_move(Some(Uuid(1)), None).is_ok());
    assert_eq!(api(check_move(Some(Uuid(1)), Some(Uuid(2)))), "InvalidInput");
    assert_eq!(dependency_input(Some(0), true, Some(3)).unwrap(), Some(3));
    assert_eq!(dependency_input::<i32>(None, false, None).unwrap(), None);
    assert_eq!(api(dependency_input::<i32>(Some(-1), false, None)), "InvalidInput");
    assert_eq!(api(dependency_input::<i32>(None, true, None)), "InvalidInput");
    assert!(recurrence_preset_is_valid(&recurrence("weekly")));
    assert!(!recurrence_preset_is_valid(&recurrence("yearly")));
    assert!(!recurrence_preset_is_valid(&Json::Object(vec![])));
}

#[test]
fn a_task_patch_says_what_it_leaves_clears_and_sets() {
    assert_eq!(api(parse_patch_body(patch(), FINE)), "InvalidInput");
    let mut p = patch();
    p.parent_id = Some(None);
    p.milestone_id = Some(Some(Uuid(6)));
    let input = parse_patch_body(p, FINE).unwrap();
    assert!(matches!(input.parent_id, FieldUpdate::Clear));
    assert!(matches!(input.milestone_id, FieldUpdate::Replace(Uuid(6))));
    assert!(matches!(input.due_at, FieldUpdate::Unchanged));
    let mut p = patch();
    p.assignee_ids = Some((0..50).map(Uuid).collect());
    assert!(parse_patch_body(p, FINE).is_ok());
    let mut p = patch();
    p.label_ids = Some((0..51).map(Uuid).collect());
    assert_eq!(api(parse_patch_body(p, FINE)), "InvalidInput");
    let mut p = patch();
    p.title = Some("t".to_string());
    let checks = TaskChecks { title: false, task_type: true, priority: true, estimate: true };
    assert_eq!(api(parse_patch_body(p, checks)), "InvalidInput");
    let mut p = patch();
    p.recurrence = Some(Some(recurrence("never")));
    assert_eq!(api(parse_patch_body(p, FINE)), "400 invalid_recurrence_preset");
    assert!(matches!(FieldUpdate::from_optional(Some(Some(3))), FieldUpdate::Replace(3)));
}

fn task() -> TaskMetaRow {
    TaskMetaRow {
        id: Uuid(20),
        workspace_id: Uuid(7),
        project_id: Uuid(4),
        number: 3,
        title: "T".to_string(),
        task_type: "task".to_string(),
        priority: "none".to_string(),
        status_id: Uuid(11),
        start_date: None,
        due_date: Date::from_days(1),
        due_at: None,
        estimate: None,
        parent_id: Some(Uuid(19)),
        milestone_id: None,
        recurrence: None,
        sort_key: "a".to_string(),
        schema_version: 1,
        version: 2,
        archived_at: None,
        created_by: Uuid(1),
        created_at: at(0),
        updated_at: at(0),
    }
}

#[test]
fn tasks_are_answered() {
    let item = || TaskListItem {
        meta: task(),
        assignee_ids: vec![Uuid(1)],
        label_ids: vec![Uuid(2), Uuid(3)],
    };
    let page = TaskPage {
        items: vec![item()],
        next_cursor: Some("c".to_string()),
        status_counts: vec![StatusCount { status_id: Uuid(11), count: 9 }],
    };
    let page = task_reply(Ok(Ok(page))).unwrap();
    assert_eq!(page.items[0].label_ids, vec![Uuid(2).text(), Uuid(3).text()]);
    assert_eq!(page.items[0].meta.parent_id, Some(Uuid(19).text()));
    assert_eq!(page.status_counts[0].count, 9);
    let full = TaskRow {
        meta: task(),
        content_json: Json::Null,
        can_edit: true,
        assignee_ids: vec![],
        label_ids: vec![],
        dependencies: vec![TaskDependencyEdge {
            blocker_id: Uuid(21),
            blocked_id: Uuid(20),
            dependency_type: "fs".to_string(),
            lag_days: 2,
        }],
        child_progress: Some(ChildProgress { done: 1, total: 2 }),
        parent: Some(TaskParent {
            id: Uuid(19),
            title: "P".to_string(),
            task_type: "epic".to_string(),
            number: 1,
        }),
        children: vec![TaskChild {
            id: Uuid(22),
            number: 4,
            title: "C".to_string(),
            task_type: "task".to_string(),
            status_id: Uuid(11),
        }],
    };
    let full = task_reply(Ok(Ok(full))).unwrap();
    assert_eq!(full.dependencies[0].blocker_id, Uuid(21).text());
    assert_eq!(full.parent.unwrap().id, Uuid(19).text());
    assert_eq!(full.children[0].status_id, Uuid(11).text());
    assert_eq!(full.child_progress.unwrap().total, 2);
    let label = LabelRow {
        id: Uuid(2),
        project_id: Uuid(4),
        name: "L".to_string(),
        color: "red".to_string(),
    };
    assert_eq!(task_list_reply(Ok(Ok(vec![label]))).unwrap()[0].color, "red");
    let milestone = MilestoneRow {
        id: Uuid(2),
        project_id: Uuid(4),
        name: "M".to_string(),
        due_date: Date::from_days(0),
        sort_key: "a".to_string(),
    };
    assert_eq!(milestone.answer().due_date.unwrap().text(), "1970-01-01");
}

#[test]
fn an_activity_page_keeps_within_its_budget() {
    assert_eq!(activity_limit(None), 50);
    assert_eq!(keep_activity(&[]), 0);
    assert_eq!(keep_activity(&[u64::MAX, 1]), 1);
    let room = (ACTIVITY_RESPONSE_BUDGET_BYTES - ACTIVITY_ENVELOPE_BYTES) as u64;
    assert_eq!(keep_activity(&[room - 12, 10, 1]), 2);
    assert_eq!(keep_activity(&[room - 11, 10, 1]), 1);
    assert_eq!(activity_continues(3, 2, false), Some(1));
    assert_eq!(activity_continues(3, 3, false), None);
    assert_eq!(activity_continues(3, 3, true), Some(2));
    assert_eq!(activity_continues(3, 0, true), None);
}

fn remark() -> TaskActivityItem {
    TaskActivityItem::Comment(ActivityComment {
        comment: CommentRow {
            id: Uuid(5),
            workspace_id: Uuid(7),
            document_id: None,
            task_id: Some(Uuid(2)),
            parent_id: Some(Uuid(6)),
            created_by: Some(Uuid(1)),
            body: "b".to_string(),
            resolved_at: None,
            created_at: at(3),
            updated_at: at(4),
        },
        reactions: Reactions { shown: vec![], other_count: 2 },
        actor: Some(ActivityActor { id: Uuid(1), name: "A".to_string() }),
        parent: Some(ActivityCommentParent {
            id: Uuid(6),
            body: "p".to_string(),
            actor: None,
        }),
    })
}

#[test]
fn what_happened_to_a_task_is_shown() {
    match activity_item_output(remark()) {
        ActivityItemOutput::Comment { id, created_at, actor, comment, parent } => {
            assert_eq!((id, created_at.micros()), (Uuid(5), 3));
            assert_eq!(actor.map(|a| (a.id, a.name)), Some((Uuid(1), "A".to_string())));
            assert_eq!((comment.body.as_str(), comment.other_reaction_count), ("b", 2));
            let parent = parent.unwrap();
            assert_eq!((parent.id, parent.body.as_str()), (Uuid(6), "p"));
            assert!(parent.actor.is_none());
        }
        other => panic!("{other:?}"),
    }
    let change = TaskActivityItem::Change(ActivityChange {
        id: Uuid(8),
        created_at: at(9),
        actor: None,
        channel: "web".to_string(),
        kind: "task.updated".to_string(),
        changes: vec![
            Json::Null,
            Json::Object(vec![("field".to_string(), Json::Text("title".to_string()))]),
        ],
    });
    match activity_item_output(change) {
        ActivityItemOutput::Change { id, actor, channel, kind, changes, .. } => {
            assert_eq!(id, Uuid(8));
            assert!(actor.is_none());
            assert_eq!((channel.as_str(), kind.as_str()), ("web", "task.updated"));
            assert_eq!((changes.len(), changes[0].field.as_str()), (1, "title"));
        }
        other => panic!("{other:?}"),
    }
}

#[test]
fn an_activity_page_is_cut_at_its_budget() {
    let items = |n| (0..n).map(|_| activity_item_output(remark())).collect::<Vec<_>>();
    let room = (ACTIVITY_RESPONSE_BUDGET_BYTES - ACTIVITY_ENVELOPE_BYTES) as u64;
    let (kept, last) = activity_page_output(items(2), &[Some(5), Some(5)], false).unwrap();
    assert_eq!((kept.len(), last), (2, None));
    let (kept, last) = activity_page_output(items(2), &[Some(5), Some(room)], false).unwrap();
    assert_eq!((kept.len(), last), (1, Some(0)));
    let (kept, last) = activity_page_output(items(2), &[Some(5), Some(5)], true).unwrap();
    assert_eq!((kept.len(), last), (2, Some(1)));
    assert_eq!(api(activity_page_output(items(2), &[Some(5), None], false)), "Internal");
    let (kept, _) =
        activity_page_output(items(3), &[Some(5), Some(room), None], false).unwrap();
    assert_eq!(kept.len(), 1);
}

#[test]
fn changes_without_a_field_are_left_out() {
    let change = Json::Object(vec![
        ("field".to_string(), Json::Text("title".to_string())),
        ("to".to_string(), Json::Bool(true)),
    ]);
    let out = change_output(&change).unwrap();
    assert_eq!(out.field, "title");
    assert!(matches!(out.from, Json::Null) && matches!(out.to, Json::Bool(true)));
    assert!(change_output(&Json::Null).is_none());
    assert_eq!(changes_output(&[Json::Null, change]).len(), 1);
}

fn entry(seconds: Option<i32>, ended: bool) -> TimeEntryRow {
    TimeEntryRow {
        id: Uuid(30),
        workspace_id: Uuid(7),
        task_id: Uuid(20),
        user_id: Uuid(1),
        started_at: at(0),
        ended_at: if ended { Some(at(5)) } else { None },
        duration_seconds: seconds,
        note: None,
    }
}

#[test]
fn time_is_kept() {
    let sum = rollup(&[entry(Some(i32::MAX), true), entry(Some(3), true), entry(None, false)]);
    assert_eq!((sum.total_seconds, sum.open), (2_147_483_650, true));
    assert!(!rollup(&[]).open);
    let list = TimeEntries { can_create: true, items: vec![entry(Some(2), true)] };
    assert_eq!(rollup_reply(Ok(Ok(list))).unwrap().total_seconds, 2);
    assert_eq!(to_millis(at(1_234_567)).micros(), 1_234_000);
    assert_eq!(to_millis(at(-1)).micros(), -1000);
    let input = |start, has_end, end: Option<i64>, note: Option<String>| {
        time_entry_input(Some(at(start)), has_end, end.map(at), note)
    };
    let made = input(1_500, true, Some(2_999), None).unwrap();
    assert_eq!(made.started_at.micros(), 1000);
    assert_eq!(made.ended_at.unwrap().micros(), 2000);
    assert_eq!(api(input(1_500, true, Some(1_999), None)), "InvalidInput");
    assert_eq!(api(input(1_500, true, None, None)), "InvalidInput");
    assert!(input(0, false, None, Some("n".repeat(2000))).is_ok());
    assert_eq!(api(input(0, false, None, Some("n".repeat(2001)))), "InvalidInput");
    assert_eq!(api(time_entry_input(None, false, None, None)), "InvalidInput");
}

#[test]
fn a_parent_is_searched() {
    let ask = |q: Option<String>, kind: Option<&str>, exclude: Option<&str>, limit: Option<&str>| {
        parse_parent_query(
            TaskParentQueryParams {
                q,
                child_type: kind.map(str::to_string),
                exclude_task_id: exclude.map(str::to_string),
                cursor: None,
                limit: limit.map(str::to_string),
            },
            true,
            50,
        )
    };
    let query = ask(Some(" a ".to_string()), Some("task"), Some(&Uuid(5).text()), Some(" 1e1 "));
    let query = query.unwrap();
    assert_eq!((query.q.as_str(), query.limit), ("a", 10));
    assert_eq!(query.exclude_task_id, Some(Uuid(5)));
    assert_eq!(ask(None, Some("task"), None, None).unwrap().limit, 50);
    assert_eq!(api(ask(None, None, None, None)), "InvalidInput");
    assert_eq!(api(ask(None, Some("task"), Some("x"), None)), "InvalidInput");
    assert_eq!(api(ask(None, Some("task"), None, Some("51"))), "InvalidInput");
    assert_eq!(api(ask(None, Some("task"), None, Some("0"))), "InvalidInput");
    assert_eq!(api(ask(Some("q".repeat(201)), Some("task"), None, None)), "InvalidInput");
    assert_eq!(located_task(Ok(Some(Uuid(4)))).unwrap(), Uuid(4));
    assert_eq!(api(located_task(Ok(None))), "NotFound");
}

#[test]
fn a_status_is_made_and_changed() {
    assert_eq!(parse_wip_limit(None).unwrap(), None);
    assert_eq!(parse_wip_limit(Some("2147483647")).unwrap(), Some(i32::MAX));
    assert_eq!(api(parse_wip_limit(Some("0"))), "InvalidInput");
    assert_eq!(api(parse_wip_limit(Some("2147483648"))), "InvalidInput");
    assert_eq!(parse_status_name(" a ", true).unwrap(), "a");
    let made = create_status_input(" a ", true, "todo".to_string(), true, Some("3")).unwrap();
    assert_eq!((made.name.as_str(), made.wip_limit), ("a", Some(3)));
    assert_eq!(
        api(create_status_input("a", true, "x".to_string(), false, None)),
        "InvalidInput"
    );
    let body = || StatusPatchBody {
        name: None,
        category: None,
        wip_limit: Some(None),
        before_id: None,
        after_id: Some(Uuid(3)),
    };
    let update = update_status_input(body(), true, true).unwrap();
    assert!(matches!(update.anchor, Some(StatusAnchor::After(Uuid(3)))));
    assert_eq!(update.wip_limit, Some(None));
    let mut both = body();
    both.before_id = Some(Uuid(4));
    assert_eq!(api(update_status_input(both, true, true)), "InvalidInput");
    let mut none = body();
    none.wip_limit = None;
    none.after_id = None;
    assert_eq!(api(update_status_input(none, true, true)), "InvalidInput");
    let mut bad = body();
    bad.wip_limit = Some(Some("-1".to_string()));
    assert_eq!(api(update_status_input(bad, true, true)), "InvalidInput");
}

fn new_task() -> CreateTaskBody {
    CreateTaskBody {
        title: "T".to_string(),
        task_type: "task".to_string(),
        priority: "none".to_string(),
        status_id: Some(Uuid(11)),
        start_date: None,
        due_date: Some("2024-01-02".to_string()),
        parent_id: None,
        milestone_id: None,
        recurrence: None,
    }
}

#[test]
fn a_task_comes_from_a_document() {
    assert_eq!(name(map_seed(SeedError::InvalidInput)), "400 invalid_document_body");
    assert!(name(map_seed(SeedError::TooLarge)).starts_with("413"));
    assert_eq!(name(map_seed(SeedError::Unavailable)), "503 collab_unavailable");
    assert_eq!(name(map_seed(SeedError::Failed)), "Internal");
    assert_eq!(revision_access(Ok(Ok(1))).unwrap(), 1);
    let refused = |e| api(revision_access::<i32>(Ok(Err(e))));
    assert_eq!(refused(RevisionDbError::NotFound), "NotFound");
    assert_eq!(refused(RevisionDbError::Forbidden), "NotFound");
    assert_eq!(refused(RevisionDbError::TaskArchived), "TaskArchived");
    assert_eq!(refused(RevisionDbError::ProjectArchived), "ProjectArchived");
    assert_eq!(name(map_origin_error(TaskOriginDbError::Forbidden)), "NotFound");
    assert_eq!(
        name(map_origin_error(TaskOriginDbError::RequestMismatch)),
        "409 document_version_mismatch"
    );
    assert_eq!(
        api(origin_result::<i32>(Ok(Err(TaskOriginDbError::Task(
            TaskDbError::DependencyCycle
        ))))),
        "400 dependency_cycle"
    );
    match normalized_task_input(&new_task()) {
        Json::Object(m) => {
            let names: Vec<&str> = m.iter().map(|(k, _)| k.as_str()).collect();
            assert_eq!(
                names,
                vec![
                    "title", "type", "priority", "statusId", "startDate", "dueDate", "parentId",
                    "milestoneId", "recurrence"
                ]
            );
            assert!(matches!(&m[3].1, Json::Text(t) if *t == Uuid(11).text()));
            assert!(matches!(m[4].1, Json::Null));
        }
        other => panic!("{other:?}"),
    }
    assert!(check_document_task(true, Some("abc"), 3, true, true).is_ok());
    assert_eq!(api(check_document_task(true, Some("abcd"), 3, true, true)), "InvalidInput");
    assert_eq!(api(check_document_task(false, None, 3, true, true)), "InvalidInput");
    assert_eq!(document_task_created(Ok(Ok(Uuid(9)))).unwrap(), (201, Uuid(9).text()));
    assert_eq!(origin_limit(None).unwrap(), 50);
    assert_eq!(origin_limit(Some(100)).unwrap(), 100);
    assert_eq!(api(origin_limit(Some(0))), "InvalidInput");
    assert_eq!(api(origin_limit(Some(101))), "InvalidInput");
    let page = TaskOriginPage {
        items: vec![TaskOriginItem {
            task_id: Uuid(20),
            document_id: Uuid(3),
            task_display_id: None,
            document_display_id: None,
            task_title: "T".to_string(),
            document_title: "D".to_string(),
            anchor: Some("x".to_string()),
        }],
        next_cursor: Some(Uuid(5)),
    };
    let page = page.answer();
    assert_eq!((page.count, page.next_cursor), (1, Some(Uuid(5).text())));
}

#[test]
fn collection_problems_have_codes() {
    assert_eq!(name(invalid()), "InvalidInput");
    assert_eq!(name(version_conflict()), "409 document_version_mismatch");
    let of = |e| name(map_error(e));
    assert_eq!(of(CollectionDbError::NotFound), "NotFound");
    assert_eq!(of(CollectionDbError::Forbidden), "InsufficientPermissions");
    assert_eq!(of(CollectionDbError::InvalidInput), "InvalidInput");
    assert_eq!(of(CollectionDbError::VersionConflict), "409 document_version_mismatch");
    assert_eq!(of(CollectionDbError::ProjectArchived), "ProjectArchived");
    assert_eq!(of(CollectionDbError::TaskArchived), "409 task_archived");
    assert!(matches!(
        map_error(CollectionDbError::InvalidCursor),
        ApiError::App(AppError { status: Some(400), .. })
    ));
    assert_eq!(parsed_body(Ok(()), Some(1)).unwrap(), 1);
    assert_eq!(api(parsed_body::<i32>(Ok(()), None)), "InvalidInput");
    assert_eq!(
        api(parsed_body(Err(AppError::from_code(ProblemCode::UnsupportedMediaType)), Some(1))),
        "UnsupportedMediaType"
    );
    let auth = RequestAuth {
        user: SessionUser {
            user_id: Uuid(1).text(),
            session_id: Uuid(2).text(),
            email: "a@b".to_string(),
            has_password: false,
        },
        user_id: Uuid(1),
        credential_id: Uuid(2),
        token_scopes: None,
        token_workspace_id: None,
    };
    assert_eq!(actor(&auth, Some("1.2.3.4".to_string())).credential_id, Uuid(2));
}

fn query_row(id: u128) -> QueryRow {
    QueryRow {
        id: Uuid(id),
        can_edit: true,
        document_id: Some(Uuid(3)),
        task_id: None,
        display_id: None,
        title: "t".to_string(),
        task_type: None,
        status_id: None,
        start_date: None,
        due_date: Date::from_days(365),
        due_at: None,
        version: 1,
        group: None,
        date: None,
        values: vec![(Uuid(40), Json::Bool(true))],
    }
}

#[test]
fn collections_are_answered() {
    let row = CollectionRow {
        id: Uuid(1),
        workspace_id: Uuid(7),
        project_id: None,
        kind: "tasks".to_string(),
        name: "C".to_string(),
        version: 3,
        deleted_at: None,
    };
    assert_eq!(row.answer().workspace_id, Uuid(7).text());
    match values_object(&[
        (Uuid(40), Json::Bool(true)),
        (Uuid(41), Json::Null),
        (Uuid(40), Json::Bool(false)),
    ]) {
        Json::Object(m) => {
            assert_eq!(m.len(), 2);
            let found = m.iter().find(|(k, _)| *k == Uuid(40).text());
            assert!(matches!(found, Some((_, Json::Bool(false)))));
        }
        other => panic!("{other:?}"),
    }
    let lookup = ItemLookup {
        item: Some(ItemRow {
            id: Uuid(1),
            collection_id: Uuid(2),
            document_id: None,
            task_id: Some(Uuid(20)),
            version: 1,
        }),
        values: vec![],
        can_edit: false,
    };
    assert_eq!(lookup.answer().item.unwrap().task_id, Some(Uuid(20).text()));
    let result = QueryResult {
        can_edit: true,
        days: vec![QueryDay { date: Date::from_days(0), count: 2 }],
        items: vec![query_row(1)],
        groups: vec![QueryGroup {
            id: None,
            name: None,
            item_ids: vec![Uuid(1)],
            count: 1,
            deleted: false,
        }],
        count: 1,
        next_cursor: None,
        previews: vec![PreviewRow(query_row(2))],
    };
    let out = result.answer();
    assert_eq!(out.days[0].date.as_deref(), Some("1970-01-01"));
    assert_eq!(out.items[0].due_date.as_deref(), Some("1971-01-01"));
    assert_eq!(out.groups[0].item_ids, vec![Uuid(1).text()]);
    assert_eq!(out.previews[0].id, Uuid(2).text());
}
