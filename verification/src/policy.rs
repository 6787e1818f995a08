//! What each route asks of a request before it does its work, and in which order.

use vstd::prelude::*;
use crate::authz;
use crate::authz::{Access, ApiTokenScope, RequestAuth, require_extra_scope};
use crate::error;
use crate::error::{AppError, ProblemCode};
use crate::guard;
use crate::guard::{activity_channel, check_origin, reject_bearer};

verus! {

/// The routes.
#[derive(Clone, Copy, Debug, PartialEq, Eq, Structural)]
pub enum Route {
    /// `POST /api/v1/auth/withdraw`
    Withdraw,
    /// `POST /api/v1/auth/cancel-withdraw`
    CancelWithdraw,
    /// `PATCH /api/v1/auth/email`
    RequestEmailChange,
    /// `POST /api/v1/auth/email/confirm`
    ConfirmEmailChange,
    /// `PATCH /api/v1/auth/password`
    ChangePassword,
    /// `POST /api/v1/auth/magic-link`
    RequestMagicLink,
    /// `POST /api/v1/auth/magic-link/consume`
    ConsumeMagicLink,
    /// `GET /api/v1/me/export`
    Export,
    /// `GET /api/v1/me/dashboard`
    MeDashboard,
    /// `GET /api/v1/me/locate`
    MeLocate,
    /// `GET /api/v1/admin/audit`
    AdminGetAudit,
    /// `GET /api/v1/admin/system`
    AdminGetSystem,
    /// `GET /api/v1/admin/users`
    AdminGetUsers,
    /// `PATCH /api/v1/admin/users`
    AdminPatchUsers,
    /// `GET /api/v1/admin/workspaces`
    AdminGetWorkspaces,
    /// `GET /api/v1/admin/instance-settings`
    AdminGetInstanceSettings,
    /// `PATCH /api/v1/admin/instance-settings`
    AdminPatchInstanceSettings,
    /// `PATCH /api/v1/admin/instance-admins`
    AdminPatchInstanceAdmins,
    /// `POST /api/v1/admin/legal`
    AdminPostLegal,
    /// `POST /api/v1/admin/branding/assets/{asset}`
    AdminUploadBrandingAsset,
    /// `DELETE /api/v1/admin/branding/assets/{asset}`
    AdminRemoveBrandingAsset,
    /// `GET /api/v1/workspaces/{workspace_id}/api-tokens`
    ListWorkspaceTokens,
    /// `POST /api/v1/workspaces/{workspace_id}/api-tokens`
    CreateWorkspaceToken,
    /// `DELETE /api/v1/workspaces/{workspace_id}/api-tokens/{id}`
    RevokeWorkspaceToken,
    /// `GET /api/v1/me/api-tokens`
    ListMeTokens,
    /// `POST /api/v1/me/api-tokens`
    CreateMeToken,
    /// `DELETE /api/v1/me/api-tokens/{id}`
    RevokeMeToken,
    /// `POST /api/v1/workspaces/{workspace_id}/documents/{document_id}/uploads`
    CreateWikiUpload,
    /// `POST /api/v1/workspaces/{workspace_id}/projects/{project_id}/documents/{document_id}/uploads`
    CreateProjectDocumentUpload,
    /// `POST /api/v1/workspaces/{workspace_id}/tasks/{task_id}/uploads`
    CreateTaskUpload,
    /// `GET /api/v1/workspaces/{workspace_id}/tasks/{task_id}/attachments`
    ListTaskAttachments,
    /// `GET /api/v1/workspaces/{workspace_id}/attachments/{attachment_id}/edit-context`
    GetEditContext,
    /// `GET /api/v1/workspaces/{workspace_id}/attachments/{attachment_id}/preview-html`
    GetPreviewHtml,
    /// `POST /api/v1/workspaces/{workspace_id}/attachments/{attachment_id}/edit-copy`
    CreateEditCopy,
    /// `PUT /api/v1/workspaces/{workspace_id}/attachments/{attachment_id}/parts/{part_number}`
    PutUploadPart,
    /// `GET /api/v1/workspaces/{workspace_id}/attachments/{attachment_id}/upload`
    ResumeUploadSession,
    /// `POST /api/v1/workspaces/{workspace_id}/attachments/{attachment_id}/complete`
    CompleteUploadSession,
    /// `GET /api/v1/workspaces/{workspace_id}/attachments/{attachment_id}`
    GetAttachment,
    /// `GET /api/v1/workspaces/{workspace_id}/attachments/{attachment_id}/download`
    DownloadAttachment,
    /// `HEAD /api/v1/workspaces/{workspace_id}/attachments/{attachment_id}/download`
    HeadDownload,
    /// `DELETE /api/v1/workspaces/{workspace_id}/attachments/{attachment_id}`
    DeleteAttachment,
    /// `POST /api/v1/auth/login`
    Login,
    /// `POST /api/v1/auth/logout`
    Logout,
    /// `GET /api/v1/auth/me`
    Me,
    /// `PATCH /api/v1/auth/me`
    PatchMe,
    /// `POST /api/v1/auth/password-reset`
    RequestPasswordReset,
    /// `POST /api/v1/auth/password-reset/confirm`
    ConfirmPasswordReset,
    /// `GET /api/v1/workspaces/{workspace_id}/collections`
    CollectionList,
    /// `POST /api/v1/workspaces/{workspace_id}/collections`
    CollectionCreate,
    /// `GET /api/v1/workspaces/{workspace_id}/collections/{collection_id}/fields`
    CollectionFields,
    /// `POST /api/v1/workspaces/{workspace_id}/collections/{collection_id}/fields`
    CollectionCreateField,
    /// `PATCH /api/v1/workspaces/{workspace_id}/collections/{collection_id}/fields/{field_id}`
    CollectionPatchField,
    /// `POST /api/v1/workspaces/{workspace_id}/collections/{collection_id}/items`
    CollectionAttach,
    /// `PUT /api/v1/workspaces/{workspace_id}/collections/{collection_id}/items/{item_id}/values`
    CollectionPutValue,
    /// `POST /api/v1/workspaces/{workspace_id}/collections/{collection_id}/query`
    CollectionQuery,
    /// `GET /api/v1/workspaces/{workspace_id}/collections/{collection_id}/views`
    CollectionViews,
    /// `POST /api/v1/workspaces/{workspace_id}/collections/{collection_id}/views`
    CollectionCreateView,
    /// `PATCH /api/v1/workspaces/{workspace_id}/collections/{collection_id}/views/{view_id}`
    CollectionUpdateView,
    /// `DELETE /api/v1/workspaces/{workspace_id}/collections/{collection_id}/views/{view_id}`
    CollectionRemoveView,
    /// `GET /api/v1/workspaces/{workspace_id}/documents/{document_id}/collection-item`
    CollectionDocumentItem,
    /// `GET /api/v1/workspaces/{workspace_id}/tasks/{task_id}/collection-item`
    CollectionTaskItem,
    /// `GET /api/v1/workspaces/{workspace_id}/projects/{project_id}/collection`
    CollectionProjectCollection,
    /// `GET /api/v1/workspaces/{workspace_id}/documents/{document_id}/comments`
    ListDocumentComments,
    /// `POST /api/v1/workspaces/{workspace_id}/documents/{document_id}/comments`
    CreateDocumentComment,
    /// `GET /api/v1/workspaces/{workspace_id}/projects/{project_id}/documents/{document_id}/comments`
    ListProjectDocumentComments,
    /// `POST /api/v1/workspaces/{workspace_id}/projects/{project_id}/documents/{document_id}/comments`
    CreateProjectDocumentComment,
    /// `GET /api/v1/workspaces/{workspace_id}/tasks/{task_id}/comments`
    ListTaskComments,
    /// `POST /api/v1/workspaces/{workspace_id}/tasks/{task_id}/comments`
    CreateTaskComment,
    /// `PATCH /api/v1/workspaces/{workspace_id}/comments/{comment_id}`
    PatchComment,
    /// `DELETE /api/v1/workspaces/{workspace_id}/comments/{comment_id}`
    DeleteComment,
    /// `POST /api/v1/workspaces/{workspace_id}/comments/{comment_id}/resolve`
    ResolveComment,
    /// `POST /api/v1/workspaces/{workspace_id}/comments/{comment_id}/unresolve`
    UnresolveComment,
    /// `POST /api/v1/workspaces/{workspace_id}/comments/{comment_id}/reactions`
    ReactComment,
    /// `GET /api/v1/documents/{document_id}`
    GetById,
    /// `PATCH /api/v1/documents/{document_id}`
    UpdateById,
    /// `DELETE /api/v1/documents/{document_id}`
    RemoveById,
    /// `POST /api/v1/documents/{document_id}/duplicate`
    DuplicateById,
    /// `PUT /api/v1/workspaces/{workspace_id}/documents/{document_id}/body`
    PutBodyWiki,
    /// `PATCH /api/v1/workspaces/{workspace_id}/documents/{document_id}/blocks/{block_id}`
    PatchBlockWiki,
    /// `GET /api/v1/workspaces/{workspace_id}/documents/{document_id}/children`
    ChildrenWiki,
    /// `GET /api/v1/workspaces/{workspace_id}/documents/{document_id}/backlinks`
    BacklinksWiki,
    /// `POST /api/v1/workspaces/{workspace_id}/documents/{document_id}/duplicate`
    DuplicateWiki,
    /// `PUT /api/v1/workspaces/{workspace_id}/projects/{project_id}/documents/{document_id}/body`
    PutBodyProject,
    /// `PATCH /api/v1/workspaces/{workspace_id}/projects/{project_id}/documents/{document_id}/blocks/{block_id}`
    PatchBlockProject,
    /// `GET /api/v1/workspaces/{workspace_id}/projects/{project_id}/documents/{document_id}/children`
    ChildrenProject,
    /// `GET /api/v1/workspaces/{workspace_id}/projects/{project_id}/documents/{document_id}/backlinks`
    BacklinksProject,
    /// `POST /api/v1/workspaces/{workspace_id}/projects/{project_id}/documents/{document_id}/duplicate`
    DuplicateProject,
    /// `GET /api/v1/workspaces/{workspace_id}/projects/{project_id}/documents/{document_id}/ancestors`
    AncestorsProject,
    /// `GET /api/v1/workspaces/{workspace_id}/document-tags`
    TagListPool,
    /// `POST /api/v1/workspaces/{workspace_id}/document-tags`
    TagCreate,
    /// `PATCH /api/v1/workspaces/{workspace_id}/document-tags/{tag_id}`
    TagUpdate,
    /// `DELETE /api/v1/workspaces/{workspace_id}/document-tags/{tag_id}`
    TagDelete,
    /// `GET /api/v1/workspaces/{workspace_id}/documents/{document_id}/tags`
    TagWikiList,
    /// `POST /api/v1/workspaces/{workspace_id}/documents/{document_id}/tags`
    TagWikiAssign,
    /// `DELETE /api/v1/workspaces/{workspace_id}/documents/{document_id}/tags/{tag_id}`
    TagWikiUnassign,
    /// `GET /api/v1/workspaces/{workspace_id}/projects/{project_id}/documents/{document_id}/tags`
    TagProjectList,
    /// `POST /api/v1/workspaces/{workspace_id}/projects/{project_id}/documents/{document_id}/tags`
    TagProjectAssign,
    /// `DELETE /api/v1/workspaces/{workspace_id}/projects/{project_id}/documents/{document_id}/tags/{tag_id}`
    TagProjectUnassign,
    /// `POST /api/v1/workspaces/{workspace_id}/documents`
    CreateDocument,
    /// `GET /api/v1/workspaces/{workspace_id}/tree`
    ListTree,
    /// `GET /api/v1/workspaces/{workspace_id}/documents/{document_id}`
    GetDocument,
    /// `PATCH /api/v1/workspaces/{workspace_id}/documents/{document_id}`
    PatchDocument,
    /// `DELETE /api/v1/workspaces/{workspace_id}/documents/{document_id}`
    DocumentDeleteDocument,
    /// `GET /api/v1/workspaces/{workspace_id}/documents/{document_id}/ancestors`
    GetAncestors,
    /// `POST /api/v1/workspaces/{workspace_id}/documents/{document_id}/move`
    MoveDocument,
    /// `POST /api/v1/workspaces/{workspace_id}/documents/{document_id}/sort`
    SortDocument,
    /// `POST /api/v1/workspaces/{workspace_id}/documents/{document_id}/trash`
    DocumentTrashDocument,
    /// `POST /api/v1/workspaces/{workspace_id}/documents/{document_id}/restore`
    RestoreDocument,
    /// `GET /api/v1/workspaces/{workspace_id}/trash`
    ListTrash,
    /// `GET /api/v1/workspaces/{workspace_id}/documents/{document_id}/body`
    GetBody,
    /// `GET /api/v1/workspaces/{workspace_id}/documents/{document_id}/md`
    ExportMarkdown,
    /// `GET /api/v1/workspaces/{workspace_id}/documents/{document_id}/pdf`
    ExportPdf,
    /// `GET /api/v1/workspaces/{workspace_id}/documents/{document_id}/docx`
    ExportDocx,
    /// `GET /api/v1/workspaces/{workspace_id}/documents/{document_id}/pptx`
    ExportPptx,
    /// `GET /api/v1/workspaces/{workspace_id}/groups`
    ListGroups,
    /// `POST /api/v1/workspaces/{workspace_id}/groups`
    CreateGroup,
    /// `DELETE /api/v1/workspaces/{workspace_id}/groups/{group_id}`
    PurgeGroup,
    /// `GET /api/v1/workspaces/{workspace_id}/groups/{group_id}/members`
    ListGroupMembers,
    /// `POST /api/v1/workspaces/{workspace_id}/groups/{group_id}/members`
    AddGroupMember,
    /// `DELETE /api/v1/workspaces/{workspace_id}/groups/{group_id}/members`
    RemoveGroupMember,
    /// `GET /api/v1/workspaces/{workspace_id}/projects/{project_id}/groups`
    ListProjectGroups,
    /// `POST /api/v1/workspaces/{workspace_id}/projects/{project_id}/groups`
    AddProjectGroup,
    /// `DELETE /api/v1/workspaces/{workspace_id}/projects/{project_id}/groups`
    RemoveProjectGroup,
    /// `GET /api/v1/workspaces/{workspace_id}/documents/{document_id}/groups`
    ListDocumentGroups,
    /// `POST /api/v1/workspaces/{workspace_id}/documents/{document_id}/groups`
    AddDocumentGroup,
    /// `DELETE /api/v1/workspaces/{workspace_id}/documents/{document_id}/groups`
    RemoveDocumentGroup,
    /// `GET /api/v1/workspaces/{workspace_id}/holidays`
    ListHolidays,
    /// `POST /api/v1/workspaces/{workspace_id}/holidays`
    CreateHoliday,
    /// `DELETE /api/v1/workspaces/{workspace_id}/holidays/{date}`
    RemoveHoliday,
    /// `POST /api/v1/workspaces/{workspace_id}/ics-token`
    CreateIcsToken,
    /// `ANY /api/v1/ics/{token}`
    IcsPublic,
    /// `POST /api/v1/import`
    StartImport,
    /// `GET /api/v1/import/{import_job_id}`
    GetImportStatus,
    /// `GET /api/v1/workspaces/{workspace_id}/webhooks`
    ListWebhooks,
    /// `POST /api/v1/workspaces/{workspace_id}/webhooks`
    CreateWebhook,
    /// `DELETE /api/v1/workspaces/{workspace_id}/webhooks/{webhook_id}`
    RemoveWebhook,
    /// `GET /api/v1/workspaces/{workspace_id}/github`
    GetGithub,
    /// `DELETE /api/v1/workspaces/{workspace_id}/github`
    RemoveGithub,
    /// `POST /api/v1/workspaces/{workspace_id}/github/install`
    InstallGithub,
    /// `POST /api/v1/workspaces/{workspace_id}/github/issue-links`
    LinkIssue,
    /// `GET /api/v1/github/callback`
    GithubCallback,
    /// `POST /api/v1/github/webhook`
    GithubWebhook,
    /// `POST /api/v1/workspaces/{workspace_id}/ai/summarize`
    AiSummarize,
    /// `POST /api/v1/workspaces/{workspace_id}/ai/generate-tasks`
    AiGenerateTasks,
    /// `POST /api/v1/workspaces/{workspace_id}/ai/suggest-links`
    AiSuggestLinks,
    /// `POST /api/v1/workspaces/{workspace_id}/invitations`
    CreateInvitation,
    /// `GET /api/v1/invitations/{token}`
    GetInvitation,
    /// `POST /api/v1/invitations/{token}/accept`
    AcceptInvitation,
    /// `GET /api/v1/legal/{kind}`
    GetLegal,
    /// `GET /api/v1/legal/{kind}/versions`
    GetLegalVersions,
    /// `POST /api/v1/auth/consents`
    PostConsents,
    /// `GET /api/v1/auth/consents/pending`
    GetPendingConsents,
    /// `GET /api/v1/workspaces/{workspace_id}/consents`
    GetWorkspaceConsents,
    /// `GET /api/v1/instance`
    GetInstance,
    /// `GET /api/v1/branding/{asset}`
    GetBrandingAsset,
    /// `GET /api/v1/workspaces/{workspace_id}/lookup/{display_id}`
    LookupDisplayId,
    /// `GET /api/v1/auth/mfa`
    MfaStatus,
    /// `POST /api/v1/auth/mfa/setup`
    MfaSetup,
    /// `POST /api/v1/auth/mfa/enable`
    MfaEnable,
    /// `POST /api/v1/auth/mfa/disable`
    MfaDisable,
    /// `POST /api/v1/auth/mfa/verify`
    MfaVerify,
    /// `GET /api/v1/me/notifications`
    ListMeNotifications,
    /// `GET /api/v1/workspaces/{workspace_id}/notifications`
    ListWorkspaceNotifications,
    /// `GET /api/v1/workspaces/{workspace_id}/notifications/unread-count`
    UnreadCount,
    /// `POST /api/v1/workspaces/{workspace_id}/notifications/read-all`
    ReadAll,
    /// `PATCH /api/v1/workspaces/{workspace_id}/notifications/{id}`
    PatchNotification,
    /// `GET /api/v1/workspaces/{workspace_id}/notification-prefs`
    GetPrefs,
    /// `PUT /api/v1/workspaces/{workspace_id}/notification-prefs`
    PutPrefs,
    /// `GET /api/v1/auth/providers`
    OidcProviders,
    /// `GET /api/v1/auth/identities`
    OidcIdentities,
    /// `GET /api/v1/auth/sso`
    OidcSso,
    /// `GET /api/v1/auth/oidc/{provider}/start`
    OidcStart,
    /// `GET /api/v1/auth/oidc/{provider}/callback`
    OidcCallback,
    /// `POST /api/v1/auth/oidc/{provider}/link`
    OidcLink,
    /// `POST /api/v1/auth/oidc/{provider}/unlink`
    OidcUnlink,
    /// `GET /api/v1/workspaces/{workspace_id}/oidc`
    OidcGetWorkspaceOidc,
    /// `PUT /api/v1/workspaces/{workspace_id}/oidc`
    OidcPutWorkspaceOidc,
    /// `DELETE /api/v1/workspaces/{workspace_id}/oidc`
    OidcDeleteWorkspaceOidc,
    /// `GET /api/v1/workspaces/{workspace_id}/projects/{project_id}/documents`
    ProjectDocumentListTree,
    /// `POST /api/v1/workspaces/{workspace_id}/projects/{project_id}/documents`
    ProjectDocumentCreateDocument,
    /// `GET /api/v1/workspaces/{workspace_id}/projects/{project_id}/documents/{document_id}`
    ProjectDocumentGetDocument,
    /// `PATCH /api/v1/workspaces/{workspace_id}/projects/{project_id}/documents/{document_id}`
    ProjectDocumentPatchDocument,
    /// `POST /api/v1/workspaces/{workspace_id}/projects/{project_id}/documents/{document_id}/move`
    ProjectDocumentMoveDocument,
    /// `GET /api/v1/workspaces/{workspace_id}/projects/{project_id}/documents/{document_id}/md`
    ProjectDocumentExportMarkdown,
    /// `GET /api/v1/workspaces/{workspace_id}/projects/{project_id}/documents/{document_id}/pdf`
    ProjectDocumentExportPdf,
    /// `GET /api/v1/workspaces/{workspace_id}/projects/{project_id}/documents/{document_id}/docx`
    ProjectDocumentExportDocx,
    /// `GET /api/v1/workspaces/{workspace_id}/projects/{project_id}/documents/{document_id}/pptx`
    ProjectDocumentExportPptx,
    /// `GET /api/v1/workspaces/{workspace_id}/projects/{project_id}/views`
    ProjectViewList,
    /// `POST /api/v1/workspaces/{workspace_id}/projects/{project_id}/views`
    ProjectViewCreate,
    /// `PATCH /api/v1/workspaces/{workspace_id}/views/{view_id}`
    ProjectViewUpdate,
    /// `DELETE /api/v1/workspaces/{workspace_id}/views/{view_id}`
    ProjectViewDelete,
    /// `GET /api/v1/workspaces/{workspace_id}/projects`
    ListProjects,
    /// `POST /api/v1/workspaces/{workspace_id}/projects`
    CreateProject,
    /// `GET /api/v1/workspaces/{workspace_id}/projects/{project_id}`
    GetProject,
    /// `PATCH /api/v1/workspaces/{workspace_id}/projects/{project_id}`
    PatchProject,
    /// `GET /api/v1/workspaces/{workspace_id}/projects/{project_id}/members`
    ProjectListMembers,
    /// `POST /api/v1/workspaces/{workspace_id}/projects/{project_id}/members`
    AddMember,
    /// `PATCH /api/v1/workspaces/{workspace_id}/projects/{project_id}/members/{user_id}`
    ProjectPatchMember,
    /// `DELETE /api/v1/workspaces/{workspace_id}/projects/{project_id}/members/{user_id}`
    DeleteMember,
    /// `GET /api/v1/workspaces/{workspace_id}/projects/{project_id}/workflow`
    GetWorkflow,
    /// `GET /api/v1/workspaces/{workspace_id}/documents/{document_id}/revisions`
    ListRevisions,
    /// `POST /api/v1/workspaces/{workspace_id}/documents/{document_id}/revisions`
    CreateRevision,
    /// `GET /api/v1/workspaces/{workspace_id}/documents/{document_id}/revisions/{revision_id}`
    GetRevision,
    /// `POST /api/v1/workspaces/{workspace_id}/documents/{document_id}/revisions/{revision_id}/restore`
    RestoreRevision,
    /// `GET /api/v1/workspaces/{workspace_id}/tasks/{task_id}/revisions`
    ListTaskRevisions,
    /// `POST /api/v1/workspaces/{workspace_id}/tasks/{task_id}/revisions`
    CreateTaskRevision,
    /// `GET /api/v1/workspaces/{workspace_id}/tasks/{task_id}/revisions/{revision_id}`
    GetTaskRevision,
    /// `POST /api/v1/workspaces/{workspace_id}/tasks/{task_id}/revisions/{revision_id}/restore`
    RestoreTaskRevision,
    /// `GET /api/v1/search`
    GlobalSearch,
    /// `GET /api/v1/workspaces/{workspace_id}/search`
    WorkspaceSearch,
    /// `GET /api/v1/setup`
    SetupStatus,
    /// `POST /api/v1/setup`
    SetupRun,
    /// `GET /api/v1/workspaces/{workspace_id}/share-links`
    ShareListLinks,
    /// `POST /api/v1/workspaces/{workspace_id}/share-links`
    ShareCreateLink,
    /// `DELETE /api/v1/workspaces/{workspace_id}/share-links/{id}`
    ShareRevokeLink,
    /// `GET /api/v1/workspaces/{workspace_id}/documents/{id}/share-links`
    ShareListWikiDocumentLinks,
    /// `POST /api/v1/workspaces/{workspace_id}/documents/{id}/share-links`
    ShareCreateWikiDocumentLink,
    /// `GET /api/v1/workspaces/{workspace_id}/projects/{project_id}/documents/{id}/share-links`
    ShareListProjectDocumentLinks,
    /// `POST /api/v1/workspaces/{workspace_id}/projects/{project_id}/documents/{id}/share-links`
    ShareCreateProjectDocumentLink,
    /// `GET /api/v1/share/{token}`
    SharePublicMeta,
    /// `GET /api/v1/share/{token}/body`
    SharePublicBody,
    /// `GET /api/v1/share/{token}/tree`
    SharePublicTree,
    /// `GET /api/v1/share/{token}/pdf`
    SharePublicPdf,
    /// `GET /api/v1/share/{token}/search`
    SharePublicSearch,
    /// `GET /api/v1/share/{token}/documents/{document_id}`
    SharePublicDocument,
    /// `GET /api/v1/share/{token}/attachments/{attachment_id}`
    SharePublicAttachment,
    /// `GET /api/v1/share/{token}/attachments/{attachment_id}/download`
    SharePublicDownload,
    /// `GET /api/v1/workspaces/{workspace_id}/stars`
    ListStars,
    /// `POST /api/v1/workspaces/{workspace_id}/stars`
    CreateStar,
    /// `DELETE /api/v1/workspaces/{workspace_id}/stars/{id}`
    RemoveStar,
    /// `GET /api/v1/workspaces/{workspace_id}/recent`
    ListRecent,
    /// `PATCH /api/v1/workspaces/{workspace_id}/tasks/{task_id}/blocks/{block_id}`
    PatchTaskBlock,
    /// `GET /api/v1/workspaces/{workspace_id}/tasks/{task_id}/origin`
    TaskOrigin,
    /// `POST /api/v1/workspaces/{workspace_id}/documents/{document_id}/tasks`
    CreateTaskFromDocument,
    /// `GET /api/v1/workspaces/{workspace_id}/tasks`
    ListWorkspaceTasks,
    /// `GET /api/v1/workspaces/{workspace_id}/statuses`
    ListWorkspaceStatuses,
    /// `GET /api/v1/workspaces/{workspace_id}/projects/{project_id}/tasks/parents`
    ListTaskParents,
    /// `GET /api/v1/workspaces/{workspace_id}/tasks/{task_id}/time-entries`
    ListTimeEntries,
    /// `POST /api/v1/workspaces/{workspace_id}/tasks/{task_id}/time-entries`
    CreateTimeEntry,
    /// `GET /api/v1/workspaces/{workspace_id}/tasks/{task_id}/time-entries/rollup`
    TimeEntriesRollup,
    /// `POST /api/v1/workspaces/{workspace_id}/tasks/{task_id}/clone`
    CloneTask,
    /// `GET /api/v1/workspaces/{workspace_id}/tasks/{task_id}/backlinks`
    ListTaskBacklinks,
    /// `DELETE /api/v1/workspaces/{workspace_id}/tasks/{task_id}`
    PurgeTask,
    /// `GET /api/v1/tasks/{task_id}`
    GetFlatTask,
    /// `PATCH /api/v1/tasks/{task_id}`
    PatchFlatTask,
    /// `DELETE /api/v1/tasks/{task_id}`
    DeleteFlatTask,
    /// `POST /api/v1/workspaces/{workspace_id}/workflows/{workflow_id}/statuses`
    CreateStatus,
    /// `PATCH /api/v1/workspaces/{workspace_id}/workflows/{workflow_id}/statuses/{status_id}`
    UpdateStatus,
    /// `DELETE /api/v1/workspaces/{workspace_id}/workflows/{workflow_id}/statuses/{status_id}`
    DeleteStatus,
    /// `GET /api/v1/workspaces/{workspace_id}/projects/{project_id}/tasks`
    ListTasks,
    /// `POST /api/v1/workspaces/{workspace_id}/projects/{project_id}/tasks`
    CreateTask,
    /// `GET /api/v1/workspaces/{workspace_id}/tasks/{task_id}`
    GetTask,
    /// `PATCH /api/v1/workspaces/{workspace_id}/tasks/{task_id}`
    PatchTask,
    /// `GET /api/v1/workspaces/{workspace_id}/tasks/{task_id}/activity`
    ListTaskActivity,
    /// `POST /api/v1/workspaces/{workspace_id}/tasks/{task_id}/move`
    MoveTask,
    /// `POST /api/v1/workspaces/{workspace_id}/tasks/{task_id}/trash`
    TrashTask,
    /// `POST /api/v1/workspaces/{workspace_id}/tasks/{task_id}/restore`
    RestoreTask,
    /// `GET /api/v1/workspaces/{workspace_id}/labels`
    ListWorkspaceLabels,
    /// `GET /api/v1/workspaces/{workspace_id}/projects/{project_id}/labels`
    ListProjectLabels,
    /// `POST /api/v1/workspaces/{workspace_id}/projects/{project_id}/labels`
    CreateLabel,
    /// `DELETE /api/v1/workspaces/{workspace_id}/projects/{project_id}/labels/{label_id}`
    DeleteLabel,
    /// `GET /api/v1/workspaces/{workspace_id}/projects/{project_id}/milestones`
    ListProjectMilestones,
    /// `POST /api/v1/workspaces/{workspace_id}/projects/{project_id}/milestones`
    CreateMilestone,
    /// `DELETE /api/v1/workspaces/{workspace_id}/projects/{project_id}/milestones/{milestone_id}`
    DeleteMilestone,
    /// `GET /api/v1/workspaces/{workspace_id}/projects/{project_id}/dependencies`
    ListProjectDependencies,
    /// `POST /api/v1/workspaces/{workspace_id}/tasks/{task_id}/dependencies`
    AddDependency,
    /// `DELETE /api/v1/workspaces/{workspace_id}/tasks/{task_id}/dependencies/{blocked_id}`
    RemoveDependency,
    /// `PATCH /api/v1/workspaces/{workspace_id}/projects/{project_id}/labels/{label_id}`
    UpdateLabel,
    /// `PATCH /api/v1/workspaces/{workspace_id}/projects/{project_id}/milestones/{milestone_id}`
    UpdateMilestone,
    /// `GET /api/v1/me/workspaces`
    ListMyWorkspaces,
    /// `POST /api/v1/me/personal-workspace`
    PersonalWorkspace,
    /// `POST /api/v1/workspaces`
    CreateWorkspace,
    /// `GET /api/v1/workspaces/{workspace_id}`
    GetWorkspace,
    /// `PATCH /api/v1/workspaces/{workspace_id}`
    PatchWorkspace,
    /// `DELETE /api/v1/workspaces/{workspace_id}`
    DeleteWorkspace,
    /// `GET /api/v1/workspaces/{workspace_id}/members`
    WorkspaceListMembers,
    /// `PATCH /api/v1/workspaces/{workspace_id}/members/{user_id}`
    WorkspacePatchMember,
    /// `DELETE /api/v1/workspaces/{workspace_id}/members/{user_id}`
    RemoveMember,
}

/// Who may call a route.
#[derive(Clone, Copy, Debug, PartialEq, Eq, Structural)]
pub enum Caller {
    /// Anyone: the route itself says what it asks of whom.
    Anyone,
    /// One with a session in a cookie.
    Cookie,
    /// One with a session in a cookie, whatever its user.
    Signed,
    /// One with a credential of this kind.
    Known(Access),
}

/// Who may call a route.
pub open spec fn caller_of(route: Route) -> Caller {
    match route {
        Route::GetEditContext | Route::GetPreviewHtml | Route::CreateEditCopy
        | Route::PutUploadPart | Route::ResumeUploadSession | Route::CompleteUploadSession
        | Route::GetAttachment | Route::DeleteAttachment | Route::ListWorkspaceNotifications
        | Route::UnreadCount | Route::ReadAll | Route::PatchNotification | Route::GetPrefs
        | Route::PutPrefs | Route::GlobalSearch | Route::WorkspaceSearch | Route::ListStars
        | Route::CreateStar | Route::RemoveStar | Route::ListRecent | Route::GetWorkspace => Caller::Known(Access::Any),
        Route::CancelWithdraw | Route::ConfirmEmailChange | Route::RequestMagicLink
        | Route::ConsumeMagicLink | Route::Login | Route::Logout | Route::RequestPasswordReset
        | Route::ConfirmPasswordReset | Route::IcsPublic | Route::GithubWebhook
        | Route::GetInvitation | Route::AcceptInvitation | Route::GetLegal
        | Route::GetLegalVersions | Route::GetInstance | Route::GetBrandingAsset | Route::MfaVerify
        | Route::OidcProviders | Route::OidcSso | Route::OidcStart | Route::OidcCallback
        | Route::SetupStatus | Route::SetupRun | Route::SharePublicMeta | Route::SharePublicBody
        | Route::SharePublicTree | Route::SharePublicPdf | Route::SharePublicSearch
        | Route::SharePublicDocument | Route::SharePublicAttachment | Route::SharePublicDownload => Caller::Anyone,
        Route::ListDocumentComments | Route::CreateDocumentComment
        | Route::ListTaskComments | Route::CreateTaskComment | Route::PatchComment
        | Route::DeleteComment | Route::ResolveComment | Route::UnresolveComment
        | Route::ReactComment | Route::LookupDisplayId | Route::ListProjects | Route::CreateProject
        | Route::GetProject | Route::PatchProject | Route::ProjectListMembers | Route::AddMember
        | Route::ProjectPatchMember | Route::DeleteMember | Route::GetWorkflow
        | Route::ListRevisions | Route::CreateRevision | Route::GetRevision
        | Route::RestoreRevision | Route::PatchMe => Caller::Cookie,
        Route::ListProjectDocumentComments | Route::CreateProjectDocumentComment => Caller::Signed,
        Route::CollectionList | Route::CollectionFields | Route::CollectionQuery
        | Route::CollectionViews | Route::CollectionDocumentItem | Route::CollectionTaskItem
        | Route::CollectionProjectCollection | Route::ChildrenWiki | Route::BacklinksWiki
        | Route::ChildrenProject | Route::BacklinksProject | Route::AncestorsProject
        | Route::TagListPool | Route::TagWikiList | Route::TagProjectList | Route::ListTree
        | Route::GetDocument | Route::GetAncestors | Route::ListTrash | Route::GetBody
        | Route::ExportMarkdown | Route::ExportPdf | Route::ExportDocx | Route::ExportPptx
        | Route::ListDocumentGroups | Route::AiSummarize | Route::AiGenerateTasks
        | Route::AiSuggestLinks | Route::ProjectDocumentListTree
        | Route::ProjectDocumentGetDocument | Route::ProjectDocumentExportMarkdown
        | Route::ProjectDocumentExportPdf | Route::ProjectDocumentExportDocx
        | Route::ProjectDocumentExportPptx | Route::TaskOrigin => Caller::Known(Access::Scope(ApiTokenScope::DocumentsRead)),
        Route::CreateWikiUpload | Route::CreateProjectDocumentUpload | Route::CollectionCreate
        | Route::CollectionCreateField | Route::CollectionPatchField | Route::CollectionAttach
        | Route::CollectionPutValue | Route::CollectionCreateView | Route::CollectionUpdateView
        | Route::CollectionRemoveView | Route::PutBodyWiki | Route::PatchBlockWiki
        | Route::DuplicateWiki | Route::PutBodyProject | Route::PatchBlockProject
        | Route::DuplicateProject | Route::TagCreate | Route::TagUpdate | Route::TagDelete
        | Route::TagWikiAssign | Route::TagWikiUnassign | Route::TagProjectAssign
        | Route::TagProjectUnassign | Route::CreateDocument | Route::PatchDocument
        | Route::DocumentDeleteDocument | Route::MoveDocument | Route::SortDocument
        | Route::DocumentTrashDocument | Route::RestoreDocument
        | Route::ProjectDocumentCreateDocument | Route::ProjectDocumentPatchDocument
        | Route::ProjectDocumentMoveDocument | Route::CreateTaskFromDocument => Caller::Known(Access::Scope(ApiTokenScope::DocumentsWrite)),
        Route::AddProjectGroup | Route::RemoveProjectGroup => Caller::Known(Access::Scope(ApiTokenScope::ProjectsManage)),
        Route::ListProjectGroups => Caller::Known(Access::Scope(ApiTokenScope::ProjectsRead)),
        Route::ShareListLinks | Route::ShareCreateLink | Route::ShareRevokeLink
        | Route::ShareListWikiDocumentLinks | Route::ShareCreateWikiDocumentLink
        | Route::ShareListProjectDocumentLinks | Route::ShareCreateProjectDocumentLink => Caller::Known(Access::Scope(ApiTokenScope::ShareManage)),
        Route::ListTaskAttachments | Route::ProjectViewList | Route::ListTaskRevisions
        | Route::GetTaskRevision | Route::ListWorkspaceTasks | Route::ListWorkspaceStatuses
        | Route::ListTaskParents | Route::ListTimeEntries | Route::TimeEntriesRollup
        | Route::ListTaskBacklinks | Route::ListTasks | Route::GetTask | Route::ListTaskActivity
        | Route::ListWorkspaceLabels | Route::ListProjectLabels | Route::ListProjectMilestones
        | Route::ListProjectDependencies => Caller::Known(Access::Scope(ApiTokenScope::TasksRead)),
        Route::CreateTaskUpload | Route::CreateIcsToken | Route::ProjectViewCreate
        | Route::ProjectViewUpdate | Route::ProjectViewDelete | Route::CreateTaskRevision
        | Route::RestoreTaskRevision | Route::PatchTaskBlock | Route::CreateTimeEntry
        | Route::CloneTask | Route::CreateStatus | Route::UpdateStatus | Route::DeleteStatus
        | Route::CreateTask | Route::PatchTask | Route::MoveTask | Route::TrashTask
        | Route::RestoreTask | Route::CreateLabel | Route::DeleteLabel | Route::CreateMilestone
        | Route::DeleteMilestone | Route::AddDependency | Route::RemoveDependency
        | Route::UpdateLabel | Route::UpdateMilestone => Caller::Known(Access::Scope(ApiTokenScope::TasksWrite)),
        Route::ListWorkspaceTokens | Route::CreateWorkspaceToken | Route::RevokeWorkspaceToken
        | Route::ListGroups | Route::CreateGroup | Route::PurgeGroup | Route::ListGroupMembers
        | Route::AddGroupMember | Route::RemoveGroupMember | Route::ListHolidays
        | Route::CreateHoliday | Route::RemoveHoliday | Route::ListWebhooks | Route::CreateWebhook
        | Route::RemoveWebhook | Route::GetGithub | Route::RemoveGithub | Route::InstallGithub
        | Route::LinkIssue | Route::CreateInvitation | Route::OidcGetWorkspaceOidc
        | Route::OidcPutWorkspaceOidc | Route::OidcDeleteWorkspaceOidc | Route::PatchWorkspace
        | Route::DeleteWorkspace | Route::WorkspaceListMembers => Caller::Known(Access::Scope(ApiTokenScope::WorkspaceManage)),
        Route::Withdraw | Route::RequestEmailChange | Route::ChangePassword | Route::Export
        | Route::MeDashboard | Route::MeLocate | Route::AdminGetAudit | Route::AdminGetSystem
        | Route::AdminGetUsers | Route::AdminPatchUsers | Route::AdminGetWorkspaces
        | Route::AdminGetInstanceSettings | Route::AdminPatchInstanceSettings
        | Route::AdminPatchInstanceAdmins | Route::AdminPostLegal | Route::AdminUploadBrandingAsset
        | Route::AdminRemoveBrandingAsset | Route::ListMeTokens | Route::CreateMeToken
        | Route::RevokeMeToken | Route::DownloadAttachment | Route::HeadDownload | Route::Me
        | Route::GetById | Route::UpdateById | Route::RemoveById
        | Route::DuplicateById | Route::AddDocumentGroup | Route::RemoveDocumentGroup
        | Route::StartImport | Route::GetImportStatus | Route::GithubCallback | Route::PostConsents
        | Route::GetPendingConsents | Route::GetWorkspaceConsents | Route::MfaStatus
        | Route::MfaSetup | Route::MfaEnable | Route::MfaDisable | Route::ListMeNotifications
        | Route::OidcIdentities | Route::OidcLink | Route::OidcUnlink | Route::PurgeTask
        | Route::GetFlatTask | Route::PatchFlatTask | Route::DeleteFlatTask | Route::ListMyWorkspaces
        | Route::PersonalWorkspace | Route::CreateWorkspace | Route::WorkspacePatchMember
        | Route::RemoveMember => Caller::Known(Access::Session),
    }
}

/// A route changes something.
pub open spec fn changes(route: Route) -> bool {
    match route {
        Route::Withdraw | Route::CancelWithdraw | Route::RequestEmailChange
        | Route::ConfirmEmailChange | Route::ChangePassword | Route::RequestMagicLink
        | Route::ConsumeMagicLink | Route::AdminPatchUsers | Route::AdminPatchInstanceSettings
        | Route::AdminPatchInstanceAdmins | Route::AdminPostLegal | Route::AdminUploadBrandingAsset
        | Route::AdminRemoveBrandingAsset | Route::CreateWorkspaceToken
        | Route::RevokeWorkspaceToken | Route::CreateMeToken | Route::RevokeMeToken
        | Route::CreateWikiUpload | Route::CreateProjectDocumentUpload | Route::CreateTaskUpload
        | Route::CreateEditCopy | Route::PutUploadPart | Route::CompleteUploadSession
        | Route::DeleteAttachment | Route::Login | Route::Logout | Route::PatchMe
        | Route::RequestPasswordReset | Route::ConfirmPasswordReset | Route::CollectionCreate
        | Route::CollectionCreateField | Route::CollectionPatchField | Route::CollectionAttach
        | Route::CollectionPutValue | Route::CollectionCreateView | Route::CollectionUpdateView
        | Route::CollectionRemoveView | Route::CreateDocumentComment
        | Route::CreateProjectDocumentComment | Route::CreateTaskComment | Route::PatchComment
        | Route::DeleteComment | Route::ResolveComment | Route::UnresolveComment
        | Route::ReactComment | Route::UpdateById | Route::RemoveById | Route::DuplicateById
        | Route::PutBodyWiki | Route::PatchBlockWiki | Route::DuplicateWiki | Route::PutBodyProject
        | Route::PatchBlockProject | Route::DuplicateProject | Route::TagCreate | Route::TagUpdate
        | Route::TagDelete | Route::TagWikiAssign | Route::TagWikiUnassign
        | Route::TagProjectAssign | Route::TagProjectUnassign | Route::CreateDocument
        | Route::PatchDocument | Route::DocumentDeleteDocument | Route::MoveDocument
        | Route::SortDocument | Route::DocumentTrashDocument | Route::RestoreDocument
        | Route::CreateGroup | Route::PurgeGroup | Route::AddGroupMember | Route::RemoveGroupMember
        | Route::AddProjectGroup | Route::RemoveProjectGroup | Route::AddDocumentGroup
        | Route::RemoveDocumentGroup | Route::CreateHoliday | Route::RemoveHoliday
        | Route::CreateIcsToken | Route::StartImport | Route::CreateWebhook | Route::RemoveWebhook
        | Route::RemoveGithub | Route::InstallGithub | Route::LinkIssue | Route::GithubWebhook
        | Route::AiSummarize | Route::AiGenerateTasks | Route::AiSuggestLinks
        | Route::CreateInvitation | Route::AcceptInvitation | Route::PostConsents | Route::MfaSetup
        | Route::MfaEnable | Route::MfaDisable | Route::MfaVerify | Route::ReadAll
        | Route::PatchNotification | Route::PutPrefs | Route::OidcLink | Route::OidcUnlink
        | Route::OidcPutWorkspaceOidc | Route::OidcDeleteWorkspaceOidc
        | Route::ProjectDocumentCreateDocument | Route::ProjectDocumentPatchDocument
        | Route::ProjectDocumentMoveDocument | Route::ProjectViewCreate | Route::ProjectViewUpdate
        | Route::ProjectViewDelete | Route::CreateProject | Route::PatchProject | Route::AddMember
        | Route::ProjectPatchMember | Route::DeleteMember | Route::CreateRevision
        | Route::RestoreRevision | Route::CreateTaskRevision | Route::RestoreTaskRevision
        | Route::SetupRun | Route::ShareCreateLink | Route::ShareRevokeLink
        | Route::ShareCreateWikiDocumentLink | Route::ShareCreateProjectDocumentLink
        | Route::CreateStar | Route::RemoveStar | Route::PatchTaskBlock
        | Route::CreateTaskFromDocument | Route::CreateTimeEntry | Route::CloneTask
        | Route::PurgeTask | Route::PatchFlatTask | Route::DeleteFlatTask | Route::CreateStatus
        | Route::UpdateStatus
        | Route::DeleteStatus | Route::CreateTask | Route::PatchTask | Route::MoveTask
        | Route::TrashTask | Route::RestoreTask | Route::CreateLabel | Route::DeleteLabel
        | Route::CreateMilestone | Route::DeleteMilestone | Route::AddDependency
        | Route::RemoveDependency | Route::UpdateLabel | Route::UpdateMilestone
        | Route::PersonalWorkspace | Route::CreateWorkspace | Route::PatchWorkspace
        | Route::DeleteWorkspace | Route::WorkspacePatchMember | Route::RemoveMember => true,
        _ => false,
    }
}

/// A route is open only to requests from the public origin: those that change something, but for
/// what GitHub sends, which is signed, and the question how an import goes.
pub open spec fn checks_origin(route: Route) -> bool {
    (changes(route) && route != Route::GithubWebhook) || route == Route::GetImportStatus
}

/// A route hides itself from a request with a bearer token. One's own profile does not: without
/// a cookie it asks for a sign-in, whatever token is shown.
pub open spec fn refuses_bearer(route: Route) -> bool {
    (caller_of(route) == Caller::Cookie && route != Route::PatchMe) || caller_of(route)
        == Caller::Signed || route == Route::StartImport || route == Route::GetImportStatus
}

/// Who may call a route.
pub fn caller(route: Route) -> (r: Caller)
    ensures
        r == caller_of(route),
{
    match route {
        Route::GetEditContext | Route::GetPreviewHtml | Route::CreateEditCopy
        | Route::PutUploadPart | Route::ResumeUploadSession | Route::CompleteUploadSession
        | Route::GetAttachment | Route::DeleteAttachment | Route::ListWorkspaceNotifications
        | Route::UnreadCount | Route::ReadAll | Route::PatchNotification | Route::GetPrefs
        | Route::PutPrefs | Route::GlobalSearch | Route::WorkspaceSearch | Route::ListStars
        | Route::CreateStar | Route::RemoveStar | Route::ListRecent | Route::GetWorkspace => Caller::Known(Access::Any),
        Route::CancelWithdraw | Route::ConfirmEmailChange | Route::RequestMagicLink
        | Route::ConsumeMagicLink | Route::Login | Route::Logout | Route::RequestPasswordReset
        | Route::ConfirmPasswordReset | Route::IcsPublic | Route::GithubWebhook
        | Route::GetInvitation | Route::AcceptInvitation | Route::GetLegal
        | Route::GetLegalVersions | Route::GetInstance | Route::GetBrandingAsset | Route::MfaVerify
        | Route::OidcProviders | Route::OidcSso | Route::OidcStart | Route::OidcCallback
        | Route::SetupStatus | Route::SetupRun | Route::SharePublicMeta | Route::SharePublicBody
        | Route::SharePublicTree | Route::SharePublicPdf | Route::SharePublicSearch
        | Route::SharePublicDocument | Route::SharePublicAttachment | Route::SharePublicDownload => Caller::Anyone,
        Route::ListDocumentComments | Route::CreateDocumentComment
        | Route::ListTaskComments | Route::CreateTaskComment | Route::PatchComment
        | Route::DeleteComment | Route::ResolveComment | Route::UnresolveComment
        | Route::ReactComment | Route::LookupDisplayId | Route::ListProjects | Route::CreateProject
        | Route::GetProject | Route::PatchProject | Route::ProjectListMembers | Route::AddMember
        | Route::ProjectPatchMember | Route::DeleteMember | Route::GetWorkflow
        | Route::ListRevisions | Route::CreateRevision | Route::GetRevision
        | Route::RestoreRevision | Route::PatchMe => Caller::Cookie,
        Route::ListProjectDocumentComments | Route::CreateProjectDocumentComment => Caller::Signed,
        Route::CollectionList | Route::CollectionFields | Route::CollectionQuery
        | Route::CollectionViews | Route::CollectionDocumentItem | Route::CollectionTaskItem
        | Route::CollectionProjectCollection | Route::ChildrenWiki | Route::BacklinksWiki
        | Route::ChildrenProject | Route::BacklinksProject | Route::AncestorsProject
        | Route::TagListPool | Route::TagWikiList | Route::TagProjectList | Route::ListTree
        | Route::GetDocument | Route::GetAncestors | Route::ListTrash | Route::GetBody
        | Route::ExportMarkdown | Route::ExportPdf | Route::ExportDocx | Route::ExportPptx
        | Route::ListDocumentGroups | Route::AiSummarize | Route::AiGenerateTasks
        | Route::AiSuggestLinks | Route::ProjectDocumentListTree
        | Route::ProjectDocumentGetDocument | Route::ProjectDocumentExportMarkdown
        | Route::ProjectDocumentExportPdf | Route::ProjectDocumentExportDocx
        | Route::ProjectDocumentExportPptx | Route::TaskOrigin => Caller::Known(Access::Scope(ApiTokenScope::DocumentsRead)),
        Route::CreateWikiUpload | Route::CreateProjectDocumentUpload | Route::CollectionCreate
        | Route::CollectionCreateField | Route::CollectionPatchField | Route::CollectionAttach
        | Route::CollectionPutValue | Route::CollectionCreateView | Route::CollectionUpdateView
        | Route::CollectionRemoveView | Route::PutBodyWiki | Route::PatchBlockWiki
        | Route::DuplicateWiki | Route::PutBodyProject | Route::PatchBlockProject
        | Route::DuplicateProject | Route::TagCreate | Route::TagUpdate | Route::TagDelete
        | Route::TagWikiAssign | Route::TagWikiUnassign | Route::TagProjectAssign
        | Route::TagProjectUnassign | Route::CreateDocument | Route::PatchDocument
        | Route::DocumentDeleteDocument | Route::MoveDocument | Route::SortDocument
        | Route::DocumentTrashDocument | Route::RestoreDocument
        | Route::ProjectDocumentCreateDocument | Route::ProjectDocumentPatchDocument
        | Route::ProjectDocumentMoveDocument | Route::CreateTaskFromDocument => Caller::Known(Access::Scope(ApiTokenScope::DocumentsWrite)),
        Route::AddProjectGroup | Route::RemoveProjectGroup => Caller::Known(Access::Scope(ApiTokenScope::ProjectsManage)),
        Route::ListProjectGroups => Caller::Known(Access::Scope(ApiTokenScope::ProjectsRead)),
        Route::ShareListLinks | Route::ShareCreateLink | Route::ShareRevokeLink
        | Route::ShareListWikiDocumentLinks | Route::ShareCreateWikiDocumentLink
        | Route::ShareListProjectDocumentLinks | Route::ShareCreateProjectDocumentLink => Caller::Known(Access::Scope(ApiTokenScope::ShareManage)),
        Route::ListTaskAttachments | Route::ProjectViewList | Route::ListTaskRevisions
        | Route::GetTaskRevision | Route::ListWorkspaceTasks | Route::ListWorkspaceStatuses
        | Route::ListTaskParents | Route::ListTimeEntries | Route::TimeEntriesRollup
        | Route::ListTaskBacklinks | Route::ListTasks | Route::GetTask | Route::ListTaskActivity
        | Route::ListWorkspaceLabels | Route::ListProjectLabels | Route::ListProjectMilestones
        | Route::ListProjectDependencies => Caller::Known(Access::Scope(ApiTokenScope::TasksRead)),
        Route::CreateTaskUpload | Route::CreateIcsToken | Route::ProjectViewCreate
        | Route::ProjectViewUpdate | Route::ProjectViewDelete | Route::CreateTaskRevision
        | Route::RestoreTaskRevision | Route::PatchTaskBlock | Route::CreateTimeEntry
        | Route::CloneTask | Route::CreateStatus | Route::UpdateStatus | Route::DeleteStatus
        | Route::CreateTask | Route::PatchTask | Route::MoveTask | Route::TrashTask
        | Route::RestoreTask | Route::CreateLabel | Route::DeleteLabel | Route::CreateMilestone
        | Route::DeleteMilestone | Route::AddDependency | Route::RemoveDependency
        | Route::UpdateLabel | Route::UpdateMilestone => Caller::Known(Access::Scope(ApiTokenScope::TasksWrite)),
        Route::ListWorkspaceTokens | Route::CreateWorkspaceToken | Route::RevokeWorkspaceToken
        | Route::ListGroups | Route::CreateGroup | Route::PurgeGroup | Route::ListGroupMembers
        | Route::AddGroupMember | Route::RemoveGroupMember | Route::ListHolidays
        | Route::CreateHoliday | Route::RemoveHoliday | Route::ListWebhooks | Route::CreateWebhook
        | Route::RemoveWebhook | Route::GetGithub | Route::RemoveGithub | Route::InstallGithub
        | Route::LinkIssue | Route::CreateInvitation | Route::OidcGetWorkspaceOidc
        | Route::OidcPutWorkspaceOidc | Route::OidcDeleteWorkspaceOidc | Route::PatchWorkspace
        | Route::DeleteWorkspace | Route::WorkspaceListMembers => Caller::Known(Access::Scope(ApiTokenScope::WorkspaceManage)),
        Route::Withdraw | Route::RequestEmailChange | Route::ChangePassword | Route::Export
        | Route::MeDashboard | Route::MeLocate | Route::AdminGetAudit | Route::AdminGetSystem
        | Route::AdminGetUsers | Route::AdminPatchUsers | Route::AdminGetWorkspaces
        | Route::AdminGetInstanceSettings | Route::AdminPatchInstanceSettings
        | Route::AdminPatchInstanceAdmins | Route::AdminPostLegal | Route::AdminUploadBrandingAsset
        | Route::AdminRemoveBrandingAsset | Route::ListMeTokens | Route::CreateMeToken
        | Route::RevokeMeToken | Route::DownloadAttachment | Route::HeadDownload | Route::Me
        | Route::GetById | Route::UpdateById | Route::RemoveById
        | Route::DuplicateById | Route::AddDocumentGroup | Route::RemoveDocumentGroup
        | Route::StartImport | Route::GetImportStatus | Route::GithubCallback | Route::PostConsents
        | Route::GetPendingConsents | Route::GetWorkspaceConsents | Route::MfaStatus
        | Route::MfaSetup | Route::MfaEnable | Route::MfaDisable | Route::ListMeNotifications
        | Route::OidcIdentities | Route::OidcLink | Route::OidcUnlink | Route::PurgeTask
        | Route::GetFlatTask | Route::PatchFlatTask | Route::DeleteFlatTask | Route::ListMyWorkspaces
        | Route::PersonalWorkspace | Route::CreateWorkspace | Route::WorkspacePatchMember
        | Route::RemoveMember => Caller::Known(Access::Session),
    }
}

/// Whether a route changes something.
pub fn route_changes(route: Route) -> (r: bool)
    ensures
        r == changes(route),
{
    match route {
        Route::Withdraw | Route::CancelWithdraw | Route::RequestEmailChange
        | Route::ConfirmEmailChange | Route::ChangePassword | Route::RequestMagicLink
        | Route::ConsumeMagicLink | Route::AdminPatchUsers | Route::AdminPatchInstanceSettings
        | Route::AdminPatchInstanceAdmins | Route::AdminPostLegal | Route::AdminUploadBrandingAsset
        | Route::AdminRemoveBrandingAsset | Route::CreateWorkspaceToken
        | Route::RevokeWorkspaceToken | Route::CreateMeToken | Route::RevokeMeToken
        | Route::CreateWikiUpload | Route::CreateProjectDocumentUpload | Route::CreateTaskUpload
        | Route::CreateEditCopy | Route::PutUploadPart | Route::CompleteUploadSession
        | Route::DeleteAttachment | Route::Login | Route::Logout | Route::PatchMe
        | Route::RequestPasswordReset | Route::ConfirmPasswordReset | Route::CollectionCreate
        | Route::CollectionCreateField | Route::CollectionPatchField | Route::CollectionAttach
        | Route::CollectionPutValue | Route::CollectionCreateView | Route::CollectionUpdateView
        | Route::CollectionRemoveView | Route::CreateDocumentComment
        | Route::CreateProjectDocumentComment | Route::CreateTaskComment | Route::PatchComment
        | Route::DeleteComment | Route::ResolveComment | Route::UnresolveComment
        | Route::ReactComment | Route::UpdateById | Route::RemoveById | Route::DuplicateById
        | Route::PutBodyWiki | Route::PatchBlockWiki | Route::DuplicateWiki | Route::PutBodyProject
        | Route::PatchBlockProject | Route::DuplicateProject | Route::TagCreate | Route::TagUpdate
        | Route::TagDelete | Route::TagWikiAssign | Route::TagWikiUnassign
        | Route::TagProjectAssign | Route::TagProjectUnassign | Route::CreateDocument
        | Route::PatchDocument | Route::DocumentDeleteDocument | Route::MoveDocument
        | Route::SortDocument | Route::DocumentTrashDocument | Route::RestoreDocument
        | Route::CreateGroup | Route::PurgeGroup | Route::AddGroupMember | Route::RemoveGroupMember
        | Route::AddProjectGroup | Route::RemoveProjectGroup | Route::AddDocumentGroup
        | Route::RemoveDocumentGroup | Route::CreateHoliday | Route::RemoveHoliday
        | Route::CreateIcsToken | Route::StartImport | Route::CreateWebhook | Route::RemoveWebhook
        | Route::RemoveGithub | Route::InstallGithub | Route::LinkIssue | Route::GithubWebhook
        | Route::AiSummarize | Route::AiGenerateTasks | Route::AiSuggestLinks
        | Route::CreateInvitation | Route::AcceptInvitation | Route::PostConsents | Route::MfaSetup
        | Route::MfaEnable | Route::MfaDisable | Route::MfaVerify | Route::ReadAll
        | Route::PatchNotification | Route::PutPrefs | Route::OidcLink | Route::OidcUnlink
        | Route::OidcPutWorkspaceOidc | Route::OidcDeleteWorkspaceOidc
        | Route::ProjectDocumentCreateDocument | Route::ProjectDocumentPatchDocument
        | Route::ProjectDocumentMoveDocument | Route::ProjectViewCreate | Route::ProjectViewUpdate
        | Route::ProjectViewDelete | Route::CreateProject | Route::PatchProject | Route::AddMember
        | Route::ProjectPatchMember | Route::DeleteMember | Route::CreateRevision
        | Route::RestoreRevision | Route::CreateTaskRevision | Route::RestoreTaskRevision
        | Route::SetupRun | Route::ShareCreateLink | Route::ShareRevokeLink
        | Route::ShareCreateWikiDocumentLink | Route::ShareCreateProjectDocumentLink
        | Route::CreateStar | Route::RemoveStar | Route::PatchTaskBlock
        | Route::CreateTaskFromDocument | Route::CreateTimeEntry | Route::CloneTask
        | Route::PurgeTask | Route::PatchFlatTask | Route::DeleteFlatTask | Route::CreateStatus
        | Route::UpdateStatus
        | Route::DeleteStatus | Route::CreateTask | Route::PatchTask | Route::MoveTask
        | Route::TrashTask | Route::RestoreTask | Route::CreateLabel | Route::DeleteLabel
        | Route::CreateMilestone | Route::DeleteMilestone | Route::AddDependency
        | Route::RemoveDependency | Route::UpdateLabel | Route::UpdateMilestone
        | Route::PersonalWorkspace | Route::CreateWorkspace | Route::PatchWorkspace
        | Route::DeleteWorkspace | Route::WorkspacePatchMember | Route::RemoveMember => true,
        _ => false,
    }
}

/// A route looks for a bearer token only where it looks who calls.
pub open spec fn refuses_late(route: Route) -> bool {
    route == Route::ListRevisions || route == Route::CreateRevision || route
        == Route::RestoreRevision
}

/// What a request is told before a route is entered, if anything.
pub open spec fn entry_problem(
    route: Route,
    authorization: Option<&[u8]>,
    origin: Option<&[u8]>,
    public_origin: Seq<char>,
) -> Option<error::ErrorView> {
    if refuses_bearer(route) && !refuses_late(route) && guard::carries_bearer(authorization) {
        Some(error::problem(ProblemCode::NotFound))
    } else if checks_origin(route) && !guard::origin_allowed(origin, public_origin) {
        Some(error::problem(ProblemCode::OriginMismatch))
    } else {
        None
    }
}

/// Lets a request into a route, and says who may call it.
pub fn enter(
    route: Route,
    authorization: Option<&[u8]>,
    origin: Option<&[u8]>,
    public_origin: &str,
) -> (r: Result<Caller, AppError>)
    ensures
        match r {
            Err(e) => entry_problem(route, authorization, origin, public_origin@) == Some(e@),
            Ok(c) => entry_problem(route, authorization, origin, public_origin@) is None && c
                == caller_of(route),
        },
{
    let who = caller(route);
    let late = route == Route::ListRevisions || route == Route::CreateRevision || route
        == Route::RestoreRevision;
    if (who == Caller::Cookie && route != Route::PatchMe && !late) || who == Caller::Signed
        || route == Route::StartImport || route == Route::GetImportStatus {
        if let Err(e) = reject_bearer(authorization) {
            return Err(e);
        }
    }
    if (route_changes(route) && route != Route::GithubWebhook) || route
        == Route::GetImportStatus {
        if let Err(e) = check_origin(origin, public_origin) {
            return Err(e);
        }
    }
    Ok(who)
}

/// Lets a request on to where a route looks who calls.
pub fn before_credential(route: Route, authorization: Option<&[u8]>) -> (r: Result<(), AppError>)
    ensures
        match r {
            Err(e) => refuses_late(route) && guard::carries_bearer(authorization) && e@
                == error::problem(ProblemCode::NotFound),
            Ok(_) => !(refuses_late(route) && guard::carries_bearer(authorization)),
        },
{
    if route == Route::ListRevisions || route == Route::CreateRevision || route
        == Route::RestoreRevision {
        reject_bearer(authorization)
    } else {
        Ok(())
    }
}

/// The second scope that a token needs on a route, if any: one that crosses from documents to tasks
/// asks for both.
pub open spec fn second_scope_of(route: Route) -> Option<ApiTokenScope> {
    match route {
        Route::CreateTaskFromDocument => Some(ApiTokenScope::TasksWrite),
        Route::TaskOrigin => Some(ApiTokenScope::TasksRead),
        _ => None,
    }
}

/// Lets a request that was recognised on into a route: a token needs the second scope, too.
pub fn behind_credential(route: Route, auth: &RequestAuth) -> (r: Result<(), AppError>)
    ensures
        r is Err <==> (second_scope_of(route) matches Some(scope) && auth.token_scopes matches Some(
            scopes,
        ) && !authz::granted(scopes@, scope)),
        r matches Err(e) ==> e@ == error::problem(ProblemCode::NotFound),
{
    match route {
        Route::CreateTaskFromDocument => require_extra_scope(auth, ApiTokenScope::TasksWrite),
        Route::TaskOrigin => require_extra_scope(auth, ApiTokenScope::TasksRead),
        _ => Ok(()),
    }
}

/// The channel that a change of a task is recorded under. A task that is named without its
/// workspace is changed in a session, and so on the web, whatever else the request carries.
pub fn recorded_channel(route: Route, authorization: Option<&[u8]>) -> (r: &'static str)
    ensures
        r@ == if route == Route::PatchFlatTask {
            "web"@
        } else {
            guard::channel_of(authorization)
        },
{
    match route {
        Route::PatchFlatTask => "web",
        _ => activity_channel(authorization),
    }
}

/// What is looked at before a route does its work.
#[derive(Clone, Copy, Debug, PartialEq, Eq, Structural)]
pub enum Stage {
    /// Whether the parts of the path that are no ids say what the route takes.
    Path,
    /// Whether the body or the query has the shape that the route reads.
    Input,
    /// What `enter` asks of the headers.
    Entry,
    /// Whether the values that the body or the query holds are ones that the route takes.
    Values,
    /// Who calls, behind what `before_credential` asks and before what `behind_credential` asks.
    Credential,
}

/// When a route looks at what.
#[derive(Clone, Copy, Debug, PartialEq, Eq, Structural)]
pub enum Order {
    InputFirst,
    InputBehindEntry,
    InputLast,
    EntryLast,
}

/// When a route looks at what.
pub open spec fn order_of(route: Route) -> Order {
    match route {
        Route::DownloadAttachment | Route::HeadDownload | Route::ListTree | Route::GetBody
        | Route::GithubCallback | Route::ListMeNotifications | Route::ListWorkspaceNotifications
        | Route::GlobalSearch | Route::WorkspaceSearch | Route::TaskOrigin
        | Route::ListWorkspaceTasks | Route::ListTaskParents | Route::ListTasks
        | Route::ListTaskActivity | Route::ListRevisions | Route::ListTaskRevisions
        | Route::GetImportStatus | Route::CreateDocumentComment
        | Route::CreateProjectDocumentComment | Route::CreateTaskComment | Route::PatchComment
        | Route::ReactComment | Route::CreateProject | Route::PatchProject | Route::AddMember
        | Route::ProjectPatchMember | Route::Login | Route::RequestPasswordReset
        | Route::ConfirmPasswordReset | Route::AcceptInvitation | Route::SetupRun
        | Route::CreateWorkspaceToken | Route::CreateMeToken | Route::CreateWikiUpload
        | Route::CreateProjectDocumentUpload | Route::CreateTaskUpload | Route::CreateEditCopy
        | Route::CompleteUploadSession | Route::PatchMe | Route::UpdateById
        | Route::CreateDocument | Route::PatchDocument | Route::MoveDocument
        | Route::SortDocument | Route::CreateGroup | Route::AddGroupMember
        | Route::RemoveGroupMember | Route::AddProjectGroup | Route::RemoveProjectGroup
        | Route::AddDocumentGroup | Route::RemoveDocumentGroup | Route::CreateHoliday
        | Route::CreateWebhook | Route::LinkIssue | Route::AiSummarize | Route::AiGenerateTasks
        | Route::AiSuggestLinks | Route::CreateInvitation | Route::PatchNotification
        | Route::PutPrefs | Route::ProjectDocumentCreateDocument
        | Route::ProjectDocumentPatchDocument | Route::ProjectDocumentMoveDocument
        | Route::CreateTimeEntry | Route::PatchFlatTask | Route::CreateStatus
        | Route::UpdateStatus | Route::CreateTask | Route::PatchTask | Route::MoveTask
        | Route::CreateLabel | Route::CreateMilestone | Route::AddDependency
        | Route::UpdateLabel | Route::UpdateMilestone | Route::CreateWorkspace
        | Route::PatchWorkspace | Route::DeleteWorkspace | Route::WorkspacePatchMember
        | Route::RemoveById | Route::DocumentDeleteDocument | Route::DocumentTrashDocument => Order::InputFirst,
        Route::ListDocumentComments | Route::ListProjectDocumentComments
        | Route::ListTaskComments | Route::LookupDisplayId | Route::PutBodyWiki
        | Route::PatchBlockWiki | Route::PutBodyProject | Route::PatchBlockProject
        | Route::PatchTaskBlock | Route::CreateTaskFromDocument | Route::RestoreRevision
        | Route::RestoreTaskRevision => Order::InputBehindEntry,
        Route::DuplicateById | Route::DuplicateWiki | Route::DuplicateProject => Order::EntryLast,
        _ => Order::InputLast,
    }
}

/// When a route looks at the parts of its path that are no ids.
#[derive(Clone, Copy, Debug, PartialEq, Eq, Structural)]
pub enum PathAt {
    First,
    BehindEntry,
    BehindCredential,
}

/// When a route looks at the parts of its path that are no ids. One that has none looks at
/// nothing there.
pub open spec fn path_at_of(route: Route) -> PathAt {
    match route {
        Route::OidcGetWorkspaceOidc | Route::OidcPutWorkspaceOidc | Route::OidcDeleteWorkspaceOidc
        | Route::OidcStart | Route::OidcCallback | Route::GetInvitation | Route::GetLegal
        | Route::GetLegalVersions | Route::GetBrandingAsset => PathAt::First,
        Route::PutUploadPart | Route::RemoveHoliday | Route::LookupDisplayId
        | Route::AcceptInvitation => PathAt::BehindEntry,
        _ => PathAt::BehindCredential,
    }
}

/// A route looks at the values it is sent before it looks who calls; the others do so last.
pub open spec fn values_come_early(route: Route) -> bool {
    match route {
        Route::CreateWikiUpload | Route::CreateProjectDocumentUpload | Route::CreateTaskUpload
        | Route::CreateEditCopy | Route::CompleteUploadSession | Route::DownloadAttachment
        | Route::HeadDownload | Route::CreateDocumentComment | Route::CreateTaskComment
        | Route::CreateProjectDocumentComment | Route::PatchComment | Route::ListTree
        | Route::GetBody | Route::UpdateById | Route::RemoveById | Route::CreateDocument
        | Route::PatchDocument | Route::DocumentDeleteDocument | Route::DocumentTrashDocument
        | Route::ProjectDocumentCreateDocument | Route::ProjectDocumentPatchDocument
        | Route::PatchBlockWiki | Route::PatchBlockProject | Route::AddProjectGroup
        | Route::AddDocumentGroup | Route::CreateInvitation | Route::GithubCallback
        | Route::PatchNotification | Route::CreateProject | Route::PatchProject | Route::AddMember
        | Route::ProjectPatchMember | Route::ListRevisions | Route::ListTaskRevisions
        | Route::GlobalSearch | Route::WorkspaceSearch | Route::PatchTaskBlock | Route::TaskOrigin
        | Route::CreateTaskFromDocument | Route::ListWorkspaceTasks | Route::ListTaskParents
        | Route::CreateTimeEntry | Route::PatchFlatTask | Route::CreateStatus | Route::UpdateStatus
        | Route::ListTasks | Route::CreateTask | Route::PatchTask | Route::ListTaskActivity
        | Route::MoveTask | Route::AddDependency | Route::CreateWorkspace | Route::PatchWorkspace
        | Route::DeleteWorkspace | Route::WorkspacePatchMember => true,
        _ => false,
    }
}

/// Some stages, with one more behind them where a route looks at it there.
pub open spec fn with_stage(all: Seq<Stage>, there: bool, stage: Stage) -> Seq<Stage> {
    if there {
        all.push(stage)
    } else {
        all
    }
}

/// What is looked at up to the caller, in its order.
pub open spec fn stages_to_credential(order: Order, path: PathAt, early: bool) -> Seq<Stage> {
    let all = with_stage(Seq::empty(), path == PathAt::First, Stage::Path);
    let all = with_stage(all, order == Order::InputFirst, Stage::Input);
    let all = with_stage(all, order != Order::EntryLast, Stage::Entry);
    let all = with_stage(all, path == PathAt::BehindEntry, Stage::Path);
    let all = with_stage(all, order == Order::InputBehindEntry, Stage::Input);
    let all = with_stage(all, early, Stage::Values);
    all.push(Stage::Credential)
}

/// What is looked at, in its order.
pub open spec fn stages_in(order: Order, path: PathAt, early: bool) -> Seq<Stage> {
    let all = stages_to_credential(order, path, early);
    let all = with_stage(all, path == PathAt::BehindCredential, Stage::Path);
    let all = with_stage(all, order == Order::InputLast || order == Order::EntryLast, Stage::Input);
    let all = with_stage(all, !early, Stage::Values);
    with_stage(all, order == Order::EntryLast, Stage::Entry)
}

/// What a route looks at, in its order: the first problem is the one that is told.
pub open spec fn stages_of(route: Route) -> Seq<Stage> {
    stages_in(order_of(route), path_at_of(route), values_come_early(route))
}

/// When a route looks at what.
pub fn order(route: Route) -> (r: Order)
    ensures
        r == order_of(route),
{
    match route {
        Route::DownloadAttachment | Route::HeadDownload | Route::ListTree | Route::GetBody
        | Route::GithubCallback | Route::ListMeNotifications | Route::ListWorkspaceNotifications
        | Route::GlobalSearch | Route::WorkspaceSearch | Route::TaskOrigin
        | Route::ListWorkspaceTasks | Route::ListTaskParents | Route::ListTasks
        | Route::ListTaskActivity | Route::ListRevisions | Route::ListTaskRevisions
        | Route::GetImportStatus | Route::CreateDocumentComment
        | Route::CreateProjectDocumentComment | Route::CreateTaskComment | Route::PatchComment
        | Route::ReactComment | Route::CreateProject | Route::PatchProject | Route::AddMember
        | Route::ProjectPatchMember | Route::Login | Route::RequestPasswordReset
        | Route::ConfirmPasswordReset | Route::AcceptInvitation | Route::SetupRun
        | Route::CreateWorkspaceToken | Route::CreateMeToken | Route::CreateWikiUpload
        | Route::CreateProjectDocumentUpload | Route::CreateTaskUpload | Route::CreateEditCopy
        | Route::CompleteUploadSession | Route::PatchMe | Route::UpdateById
        | Route::CreateDocument | Route::PatchDocument | Route::MoveDocument
        | Route::SortDocument | Route::CreateGroup | Route::AddGroupMember
        | Route::RemoveGroupMember | Route::AddProjectGroup | Route::RemoveProjectGroup
        | Route::AddDocumentGroup | Route::RemoveDocumentGroup | Route::CreateHoliday
        | Route::CreateWebhook | Route::LinkIssue | Route::AiSummarize | Route::AiGenerateTasks
        | Route::AiSuggestLinks | Route::CreateInvitation | Route::PatchNotification
        | Route::PutPrefs | Route::ProjectDocumentCreateDocument
        | Route::ProjectDocumentPatchDocument | Route::ProjectDocumentMoveDocument
        | Route::CreateTimeEntry | Route::PatchFlatTask | Route::CreateStatus
        | Route::UpdateStatus | Route::CreateTask | Route::PatchTask | Route::MoveTask
        | Route::CreateLabel | Route::CreateMilestone | Route::AddDependency
        | Route::UpdateLabel | Route::UpdateMilestone | Route::CreateWorkspace
        | Route::PatchWorkspace | Route::DeleteWorkspace | Route::WorkspacePatchMember
        | Route::RemoveById | Route::DocumentDeleteDocument | Route::DocumentTrashDocument => Order::InputFirst,
        Route::ListDocumentComments | Route::ListProjectDocumentComments
        | Route::ListTaskComments | Route::LookupDisplayId | Route::PutBodyWiki
        | Route::PatchBlockWiki | Route::PutBodyProject | Route::PatchBlockProject
        | Route::PatchTaskBlock | Route::CreateTaskFromDocument | Route::RestoreRevision
        | Route::RestoreTaskRevision => Order::InputBehindEntry,
        Route::DuplicateById | Route::DuplicateWiki | Route::DuplicateProject => Order::EntryLast,
        _ => Order::InputLast,
    }
}

/// When a route looks at the parts of its path that are no ids.
pub fn path_at(route: Route) -> (r: PathAt)
    ensures
        r == path_at_of(route),
{
    match route {
        Route::OidcGetWorkspaceOidc | Route::OidcPutWorkspaceOidc | Route::OidcDeleteWorkspaceOidc
        | Route::OidcStart | Route::OidcCallback | Route::GetInvitation | Route::GetLegal
        | Route::GetLegalVersions | Route::GetBrandingAsset => PathAt::First,
        Route::PutUploadPart | Route::RemoveHoliday | Route::LookupDisplayId
        | Route::AcceptInvitation => PathAt::BehindEntry,
        _ => PathAt::BehindCredential,
    }
}

/// Whether a route looks at the values it is sent before it looks who calls.
pub fn values_early(route: Route) -> (r: bool)
    ensures
        r == values_come_early(route),
{
    match route {
        Route::CreateWikiUpload | Route::CreateProjectDocumentUpload | Route::CreateTaskUpload
        | Route::CreateEditCopy | Route::CompleteUploadSession | Route::DownloadAttachment
        | Route::HeadDownload | Route::CreateDocumentComment | Route::CreateTaskComment
        | Route::CreateProjectDocumentComment | Route::PatchComment | Route::ListTree
        | Route::GetBody | Route::UpdateById | Route::RemoveById | Route::CreateDocument
        | Route::PatchDocument | Route::DocumentDeleteDocument | Route::DocumentTrashDocument
        | Route::ProjectDocumentCreateDocument | Route::ProjectDocumentPatchDocument
        | Route::PatchBlockWiki | Route::PatchBlockProject | Route::AddProjectGroup
        | Route::AddDocumentGroup | Route::CreateInvitation | Route::GithubCallback
        | Route::PatchNotification | Route::CreateProject | Route::PatchProject | Route::AddMember
        | Route::ProjectPatchMember | Route::ListRevisions | Route::ListTaskRevisions
        | Route::GlobalSearch | Route::WorkspaceSearch | Route::PatchTaskBlock | Route::TaskOrigin
        | Route::CreateTaskFromDocument | Route::ListWorkspaceTasks | Route::ListTaskParents
        | Route::CreateTimeEntry | Route::PatchFlatTask | Route::CreateStatus | Route::UpdateStatus
        | Route::ListTasks | Route::CreateTask | Route::PatchTask | Route::ListTaskActivity
        | Route::MoveTask | Route::AddDependency | Route::CreateWorkspace | Route::PatchWorkspace
        | Route::DeleteWorkspace | Route::WorkspacePatchMember => true,
        _ => false,
    }
}

/// What a route looks at, in its order.
pub fn stages(route: Route) -> (r: Vec<Stage>)
    ensures
        r@ == stages_of(route),
{
    let order = order(route);
    let path = path_at(route);
    let early = values_early(route);
    let mut all: Vec<Stage> = Vec::new();
    if path == PathAt::First {
        all.push(Stage::Path);
    }
    if order == Order::InputFirst {
        all.push(Stage::Input);
    }
    if order != Order::EntryLast {
        all.push(Stage::Entry);
    }
    if path == PathAt::BehindEntry {
        all.push(Stage::Path);
    }
    if order == Order::InputBehindEntry {
        all.push(Stage::Input);
    }
    if early {
        all.push(Stage::Values);
    }
    all.push(Stage::Credential);
    if path == PathAt::BehindCredential {
        all.push(Stage::Path);
    }
    if order == Order::InputLast || order == Order::EntryLast {
        all.push(Stage::Input);
    }
    if !early {
        all.push(Stage::Values);
    }
    if order == Order::EntryLast {
        all.push(Stage::Entry);
    }
    all
}

/// The status with which a route answers when all went well, where the answer has no status of its
/// own.
pub open spec fn success_of(route: Route) -> u16 {
    match route {
        Route::AdminPostLegal | Route::CreateWorkspaceToken | Route::CreateMeToken
        | Route::CreateWikiUpload | Route::CreateProjectDocumentUpload
        | Route::CreateTaskUpload | Route::CreateEditCopy | Route::CollectionCreate
        | Route::CollectionCreateField | Route::CollectionAttach
        | Route::CollectionCreateView | Route::CreateDocumentComment
        | Route::CreateTaskComment | Route::DuplicateWiki | Route::DuplicateProject
        | Route::DuplicateById | Route::TagCreate | Route::CreateDocument
        | Route::CreateGroup | Route::AddGroupMember | Route::AddProjectGroup
        | Route::AddDocumentGroup | Route::CreateHoliday | Route::CreateIcsToken
        | Route::StartImport | Route::CreateWebhook | Route::LinkIssue
        | Route::CreateInvitation | Route::ProjectDocumentCreateDocument
        | Route::ProjectViewCreate | Route::CreateProject | Route::AddMember
        | Route::CreateRevision | Route::CreateTaskRevision | Route::SetupRun
        | Route::ShareCreateLink | Route::ShareCreateWikiDocumentLink
        | Route::ShareCreateProjectDocumentLink | Route::CreateStar
        | Route::CreateTaskFromDocument | Route::CreateTimeEntry | Route::CreateStatus
        | Route::CreateTask | Route::CreateLabel | Route::CreateMilestone
        | Route::CreateWorkspace => 201,
        Route::RequestEmailChange | Route::RequestMagicLink | Route::RequestPasswordReset => 202,
        Route::Logout => 204,
        Route::GithubCallback | Route::OidcSso | Route::OidcStart | Route::OidcCallback => 302,
        Route::OidcLink => 303,
        _ => 200,
    }
}

/// The status with which a route answers when all went well, where the answer has no status of its
/// own.
pub fn success(route: Route) -> (r: u16)
    ensures
        r == success_of(route),
{
    match route {
        Route::AdminPostLegal | Route::CreateWorkspaceToken | Route::CreateMeToken
        | Route::CreateWikiUpload | Route::CreateProjectDocumentUpload
        | Route::CreateTaskUpload | Route::CreateEditCopy | Route::CollectionCreate
        | Route::CollectionCreateField | Route::CollectionAttach
        | Route::CollectionCreateView | Route::CreateDocumentComment
        | Route::CreateTaskComment | Route::DuplicateWiki | Route::DuplicateProject
        | Route::DuplicateById | Route::TagCreate | Route::CreateDocument
        | Route::CreateGroup | Route::AddGroupMember | Route::AddProjectGroup
        | Route::AddDocumentGroup | Route::CreateHoliday | Route::CreateIcsToken
        | Route::StartImport | Route::CreateWebhook | Route::LinkIssue
        | Route::CreateInvitation | Route::ProjectDocumentCreateDocument
        | Route::ProjectViewCreate | Route::CreateProject | Route::AddMember
        | Route::CreateRevision | Route::CreateTaskRevision | Route::SetupRun
        | Route::ShareCreateLink | Route::ShareCreateWikiDocumentLink
        | Route::ShareCreateProjectDocumentLink | Route::CreateStar
        | Route::CreateTaskFromDocument | Route::CreateTimeEntry | Route::CreateStatus
        | Route::CreateTask | Route::CreateLabel | Route::CreateMilestone
        | Route::CreateWorkspace => 201,
        Route::RequestEmailChange | Route::RequestMagicLink | Route::RequestPasswordReset => 202,
        Route::Logout => 204,
        Route::GithubCallback | Route::OidcSso | Route::OidcStart | Route::OidcCallback => 302,
        Route::OidcLink => 303,
        _ => 200,
    }
}

/// No route that changes something, but for what GitHub sends, is open to requests from another
/// origin.
pub proof fn law_changes_are_from_the_public_origin(
    route: Route,
    authorization: Option<&[u8]>,
    origin: Option<&[u8]>,
    public_origin: Seq<char>,
)
    requires
        changes(route),
        route != Route::GithubWebhook,
        !guard::origin_allowed(origin, public_origin),
    ensures
        entry_problem(route, authorization, origin, public_origin) is Some,
{
}

/// A route that hides itself from tokens never asks for a scope of one.
pub proof fn law_hidden_routes_ask_no_scope(route: Route)
    requires
        refuses_bearer(route),
    ensures
        caller_of(route) == Caller::Cookie || caller_of(route) == Caller::Signed || caller_of(route)
            == Caller::Known(Access::Session),
{
}

/// Only a route that changes something asks for a scope that lets documents, tasks or projects be
/// changed.
pub proof fn law_reads_ask_no_write_scope(route: Route)
    requires
        !changes(route),
    ensures
        caller_of(route) != Caller::Known(Access::Scope(ApiTokenScope::DocumentsWrite)),
        caller_of(route) != Caller::Known(Access::Scope(ApiTokenScope::TasksWrite)),
        caller_of(route) != Caller::Known(Access::Scope(ApiTokenScope::ProjectsManage)),
{
}

/// Only a route that asks for a scope asks for a second one.
pub proof fn law_a_second_scope_comes_with_a_first(route: Route)
    requires
        second_scope_of(route) is Some,
    ensures
        caller_of(route) matches Caller::Known(Access::Scope(first)) && second_scope_of(route)
            != Some(first),
{
}

/// One stage is looked at before another.
pub open spec fn comes_before(all: Seq<Stage>, first: Stage, second: Stage) -> bool {
    exists|i: int, j: int|
        0 <= i < j < all.len() && #[trigger] all[i] == first && #[trigger] all[j] == second
}

spec fn one_if(there: bool) -> int {
    if there {
        1
    } else {
        0
    }
}

spec fn entry_place(order: Order, path: PathAt) -> int {
    if order == Order::EntryLast {
        4
    } else {
        one_if(path == PathAt::First) + one_if(order == Order::InputFirst)
    }
}

spec fn credential_place(order: Order, path: PathAt, early: bool) -> int {
    one_if(path != PathAt::BehindCredential) + one_if(
        order == Order::InputFirst || order == Order::InputBehindEntry,
    ) + one_if(order != Order::EntryLast) + one_if(early)
}

spec fn values_place(order: Order, path: PathAt, early: bool) -> int {
    if early {
        credential_place(order, path, early) - 1
    } else if order == Order::EntryLast {
        3
    } else {
        4
    }
}

spec fn path_place(order: Order, path: PathAt, early: bool) -> int {
    match path {
        PathAt::First => 0,
        PathAt::BehindEntry => if order == Order::EntryLast {
            0
        } else {
            entry_place(order, path) + 1
        },
        PathAt::BehindCredential => credential_place(order, path, early) + 1,
    }
}

spec fn input_place(order: Order, path: PathAt, early: bool) -> int {
    match order {
        Order::InputFirst => one_if(path == PathAt::First),
        Order::InputBehindEntry => credential_place(order, path, early) - 1 - one_if(early),
        _ => credential_place(order, path, early) + 1 + one_if(path == PathAt::BehindCredential),
    }
}

proof fn lemma_places(order: Order, path: PathAt, early: bool)
    ensures
        ({
            let all = stages_in(order, path, early);
            let e = entry_place(order, path);
            let c = credential_place(order, path, early);
            let v = values_place(order, path, early);
            let p = path_place(order, path, early);
            let i = input_place(order, path, early);
            &&& all.len() == 5
            &&& 0 <= e < 5 && all[e] == Stage::Entry
            &&& 0 <= c < 5 && all[c] == Stage::Credential
            &&& 0 <= v < 5 && all[v] == Stage::Values
            &&& 0 <= p < 5 && all[p] == Stage::Path
            &&& 0 <= i < 5 && all[i] == Stage::Input
        }),
{
}

/// Values come early only where the input is looked at before the caller.
proof fn lemma_early(route: Route)
    ensures
        values_come_early(route) ==> order_of(route) == Order::InputFirst || order_of(route)
            == Order::InputBehindEntry,
{
}

/// Nothing is told of who may call before the headers were looked at, but where a document is
/// copied.
pub proof fn law_headers_come_before_the_credential(route: Route)
    requires
        route != Route::DuplicateWiki,
        route != Route::DuplicateProject,
        route != Route::DuplicateById,
    ensures
        comes_before(stages_of(route), Stage::Entry, Stage::Credential),
{
    let (order, path, early) = (order_of(route), path_at_of(route), values_come_early(route));
    lemma_places(order, path, early);
    lemma_early(route);
    assert(stages_of(route)[entry_place(order, path)] == Stage::Entry);
    assert(stages_of(route)[credential_place(order, path, early)] == Stage::Credential);
}

/// Nothing is told of what an input says before its shape was looked at.
pub proof fn law_the_shape_comes_before_the_values(route: Route)
    ensures
        comes_before(stages_of(route), Stage::Input, Stage::Values),
{
    let (order, path, early) = (order_of(route), path_at_of(route), values_come_early(route));
    lemma_places(order, path, early);
    lemma_early(route);
    assert(stages_of(route)[input_place(order, path, early)] == Stage::Input);
    assert(stages_of(route)[values_place(order, path, early)] == Stage::Values);
}

/// Values that come early are looked at behind the headers and before the caller; the others
/// behind the caller.
pub proof fn law_values_come_before_the_credential_or_behind_it(route: Route)
    ensures
        values_come_early(route) ==> comes_before(stages_of(route), Stage::Entry, Stage::Values)
            && comes_before(stages_of(route), Stage::Values, Stage::Credential),
        !values_come_early(route) ==> comes_before(
            stages_of(route),
            Stage::Credential,
            Stage::Values,
        ),
{
    let (order, path, early) = (order_of(route), path_at_of(route), values_come_early(route));
    lemma_places(order, path, early);
    lemma_early(route);
    assert(stages_of(route)[entry_place(order, path)] == Stage::Entry);
    assert(stages_of(route)[values_place(order, path, early)] == Stage::Values);
    assert(stages_of(route)[credential_place(order, path, early)] == Stage::Credential);
}

/// A route looks at each thing, and at none twice.
pub proof fn law_every_stage_comes_once(route: Route, stage: Stage)
    ensures
        stages_of(route).contains(stage),
        stages_of(route).no_duplicates(),
{
    let (order, path, early) = (order_of(route), path_at_of(route), values_come_early(route));
    lemma_places(order, path, early);
    lemma_early(route);
    let all = stages_of(route);
    assert(all.contains(stage)) by {
        match stage {
            Stage::Path => {
                assert(all[path_place(order, path, early)] == stage);
            },
            Stage::Input => {
                assert(all[input_place(order, path, early)] == stage);
            },
            Stage::Entry => {
                assert(all[entry_place(order, path)] == stage);
            },
            Stage::Values => {
                assert(all[values_place(order, path, early)] == stage);
            },
            Stage::Credential => {
                assert(all[credential_place(order, path, early)] == stage);
            },
        }
    }
}

/// Only a route that changes something, or one that starts or ends a sign-in elsewhere or an
/// installation, answers with another status than 200.
pub proof fn law_reads_succeed_alike(route: Route)
    requires
        !changes(route),
        route != Route::GithubCallback,
        route != Route::OidcSso,
        route != Route::OidcStart,
        route != Route::OidcCallback,
    ensures
        success_of(route) == 200,
{
}

/// A token that may only read changes nothing: no route that changes something asks for a scope to
/// read, but for those that have a document read and change nothing in it.
pub proof fn law_changes_ask_for_more_than_reading(route: Route)
    requires
        changes(route),
        route != Route::AiSummarize,
        route != Route::AiGenerateTasks,
        route != Route::AiSuggestLinks,
    ensures
        caller_of(route) != Caller::Known(Access::Scope(ApiTokenScope::DocumentsRead)),
        caller_of(route) != Caller::Known(Access::Scope(ApiTokenScope::TasksRead)),
        caller_of(route) != Caller::Known(Access::Scope(ApiTokenScope::ProjectsRead)),
{
}

/// Only a request that brings its own proof, or that sets up, ends or recovers a sign-in, changes
/// something without a credential.
pub proof fn law_open_changes_are_few(route: Route)
    requires
        changes(route),
        caller_of(route) == Caller::Anyone,
    ensures
        route == Route::CancelWithdraw || route == Route::ConfirmEmailChange || route
            == Route::RequestMagicLink || route == Route::ConsumeMagicLink || route == Route::Login
            || route == Route::Logout || route == Route::RequestPasswordReset || route
            == Route::ConfirmPasswordReset || route == Route::GithubWebhook || route
            == Route::AcceptInvitation || route == Route::MfaVerify || route == Route::SetupRun,
{
}

/// A request with a token is told that a hidden route is not there, whatever its origin; a request
/// without one is told of its origin exactly where that is another than the public one.
pub proof fn law_hidden_routes_say_nothing_else(
    route: Route,
    authorization: Option<&[u8]>,
    origin: Option<&[u8]>,
    public_origin: Seq<char>,
)
    requires
        !refuses_late(route),
        checks_origin(route),
    ensures
        refuses_bearer(route) && guard::carries_bearer(authorization) ==> entry_problem(
            route,
            authorization,
            origin,
            public_origin,
        ) == Some(error::problem(ProblemCode::NotFound)),
        !guard::carries_bearer(authorization) ==> (entry_problem(
            route,
            authorization,
            origin,
            public_origin,
        ) == Some(error::problem(ProblemCode::OriginMismatch)) <==> !guard::origin_allowed(
            origin,
            public_origin,
        )),
        entry_problem(route, authorization, origin, public_origin) is None ==> guard::origin_allowed(
            origin,
            public_origin,
        ),
{
}

} // verus!
