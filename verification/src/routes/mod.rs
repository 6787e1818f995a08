//! The routes, by subject.

pub mod account;
pub mod admin;
pub mod api_tokens;
pub mod attachments;
pub mod auth;
pub mod collections;
pub mod comments;
pub mod dashboard;
pub mod document_body;
pub mod document_tags;
pub mod documents;
pub mod export;
pub mod export_run;
pub mod groups;
pub mod ics;
pub mod import;
pub mod integrations;
pub mod invitations;
pub mod legal;
pub mod lookup;
pub mod mfa;
pub mod notifications;
pub mod oidc;
pub mod project_views;
pub mod projects;
pub mod revisions;
pub mod search;
pub mod setup;
pub mod share;
pub mod share_search;
pub mod stars;
pub mod task_body;
pub mod task_ops;
pub mod tasks;
pub mod workspaces;
