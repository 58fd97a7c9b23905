//! Verified core of a self-hosted git forge: the rules, text formats and
//! decisions that the web handlers apply, separated from storage and HTTP.

pub mod text;
pub mod blob;
pub mod repo;
pub mod error;
pub mod names;
pub mod urls;
pub mod issues;
pub mod merge_requests;
pub mod labels;
pub mod members;
pub mod milestones;
pub mod wiki;
pub mod groups;
pub mod auth;
pub mod users;
pub mod activity;
pub mod projects;
pub mod git_http;
pub mod browse;
pub mod commit;
pub mod diff;
pub mod tree;
pub mod markdown;
pub mod email;
pub mod captcha;
