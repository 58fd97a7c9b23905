use gitrust::activity::{FeedQuery, FEED_PER_PAGE};
use gitrust::browse::{CommitsQuery, RepoParams, SettingsForm, TreeQuery, COMMITS_PER_PAGE};
use gitrust::error::{bad_request, conflict, forbidden, not_found, ServiceError};
use gitrust::git_http::{
    advertisement_body, advertisement_content_type, check_fetch_access, check_push_access, service_announcement,
    GitService, ServiceQuery,
};
use gitrust::issues::{close_outcome, issue_not_found, IssueListQuery, IssueRepoParams};
use gitrust::labels::LabelRepoParams;
use gitrust::members::MemRepoParams;
use gitrust::merge_requests::{check_branches, check_mergeable, merge_request_not_found, CreateMRForm, MRListQuery, MRRepoParams};
use gitrust::milestones::{CreateMilestoneForm, MRepoParams};
use gitrust::names::{only_name_chars, utf8_length};
use gitrust::projects::{
    check_read_permission, check_repo_name, is_ticked, owner_source, repo_exists, repo_not_found, resolve_next,
    resolve_outcome, NewRepoForm, OwnerSource, RepoInfo, RepoOwner, Repository, ResolveEvent, ResolveStep,
};
use gitrust::urls::{item_url, prefixed, repo_url, section_url};
use gitrust::users::{profile_url, ssh_key_delete_outcome};
use gitrust::wiki::{slugify, WRepoParams};

#[test]
fn error_messages() {
    assert_eq!(bad_request("x").message(), "x");
    assert_eq!(not_found("y").message(), "y");
    assert_eq!(conflict("z").message(), "z");
    assert_eq!(forbidden("w").message(), "w");
    assert_eq!(ServiceError::Unauthorized.message(), "Unauthorized");
    assert_eq!(ServiceError::Internal("boom".into()).message(), "boom");
}

#[test]
fn addresses() {
    assert_eq!(repo_url("alice", "proj"), "/alice/proj");
    assert_eq!(section_url("alice", "proj", "/-/labels"), "/alice/proj/-/labels");
    assert_eq!(item_url("alice", "proj", "/-/issues", 7), "/alice/proj/-/issues/7");
    assert_eq!(item_url("alice", "proj", "/-/issues", -3), "/alice/proj/-/issues/-3");
    assert_eq!(prefixed("/groups/", "g"), "/groups/g");
    assert_eq!(profile_url("bob"), "/bob");
    let p = IssueRepoParams { owner: "o".into(), repo: "r".into() };
    assert_eq!(p.issues_url(), "/o/r/-/issues");
    assert_eq!(p.issue_url(12), "/o/r/-/issues/12");
    let m = MRRepoParams { owner: "o".into(), repo: "r".into() };
    assert_eq!(m.merge_request_url(3), "/o/r/-/merge_requests/3");
    assert_eq!(LabelRepoParams { owner: "o".into(), repo: "r".into() }.labels_url(), "/o/r/-/labels");
    assert_eq!(MemRepoParams { owner: "o".into(), repo: "r".into() }.members_url(), "/o/r/-/members");
    assert_eq!(MRepoParams { owner: "o".into(), repo: "r".into() }.milestones_url(), "/o/r/-/milestones");
    assert_eq!(WRepoParams { owner: "o".into(), repo: "r".into() }.page_url("home"), "/o/r/-/wiki/home");
    assert_eq!(RepoParams { owner: "o".into(), repo: "r".into() }.repo_url(), "/o/r");
}

#[test]
fn query_defaults() {
    assert_eq!(IssueListQuery { state: None, page: None }.state_filter(), "open");
    assert_eq!(IssueListQuery { state: Some("closed".into()), page: Some(3) }.state_filter(), "closed");
    assert_eq!(IssueListQuery { state: None, page: Some(3) }.page(), 3);
    assert_eq!(IssueListQuery { state: None, page: None }.page(), 1);
    assert_eq!(MRListQuery { state: None, page: None }.state_filter(), "open");
    assert_eq!(MRListQuery { state: Some("merged".into()), page: None }.state_filter(), "merged");
    assert_eq!(MRListQuery { state: None, page: Some(2) }.page(), 2);
    assert_eq!(FeedQuery { page: None }.page(), 1);
    assert_eq!(FeedQuery { page: Some(4) }.page(), 4);
    assert_eq!(FEED_PER_PAGE, 20);
    assert_eq!(COMMITS_PER_PAGE, 20);
    assert_eq!(TreeQuery { ref_name: None }.ref_or("main".into()), "main");
    assert_eq!(TreeQuery { ref_name: Some("dev".into()) }.ref_or("main".into()), "dev");
    let c = CommitsQuery { ref_name: None, page: None };
    assert_eq!(c.ref_or("trunk".into()), "trunk");
    assert_eq!(c.page(), 1);
}

#[test]
fn checkboxes() {
    assert!(is_ticked(&Some("on".into())));
    assert!(!is_ticked(&Some("off".into())));
    assert!(!is_ticked(&None));
    assert!(SettingsForm { description: String::new(), is_private: Some("on".into()) }.is_private_checked());
    assert!(!SettingsForm { description: String::new(), is_private: None }.is_private_checked());
}

#[test]
fn issue_and_merge_request_outcomes() {
    assert!(close_outcome(1).is_ok());
    assert_eq!(close_outcome(0).unwrap_err(), ServiceError::NotFound("Issue not found or already closed.".into()));
    assert_eq!(issue_not_found(), ServiceError::NotFound("Issue not found.".into()));
    assert!(check_branches("feature", "main").is_ok());
    assert_eq!(check_branches("main", "main").unwrap_err(),
        ServiceError::BadRequest("Source and target branches must be different.".into()));
    let form = CreateMRForm { title: "t".into(), description: String::new(), source_branch: "a".into(), target_branch: "a".into() };
    assert!(form.check_branches().is_err());
    assert!(check_mergeable("open").is_ok());
    assert_eq!(check_mergeable("merged").unwrap_err(), ServiceError::BadRequest("Merge request is not open.".into()));
    assert_eq!(merge_request_not_found(), ServiceError::NotFound("Merge request not found.".into()));
    assert!(ssh_key_delete_outcome(1).is_ok());
    assert_eq!(ssh_key_delete_outcome(0).unwrap_err(), ServiceError::NotFound("SSH key not found.".into()));
}

#[test]
fn milestone_due_dates() {
    let f = |d: Option<&str>| CreateMilestoneForm { title: "v1".into(), description: None, due_date: d.map(|s| s.to_string()) };
    assert_eq!(f(Some("2024-03-15")).due_date_parsed(), Some((2024, 3, 15)));
    assert_eq!(f(Some("2024-02-30")).due_date_parsed(), None);
    assert_eq!(f(Some("15/03/2024")).due_date_parsed(), None);
    assert_eq!(f(Some("")).due_date_parsed(), None);
    assert_eq!(f(None).due_date_parsed(), None);
}

#[test]
fn names_and_lengths() {
    assert_eq!(utf8_length("abc"), 3);
    assert_eq!(utf8_length("é"), 2);
    assert_eq!(utf8_length("日本"), 6);
    assert_eq!(utf8_length("🦀"), 4);
    assert!(only_name_chars("aZ7", false));
    assert!(only_name_chars("é日本", false));
    assert!(!only_name_chars("a b", false));
    assert!(!only_name_chars("a/b", true));
    assert!(only_name_chars("a-b_c9", false));
    assert!(!only_name_chars("a.b", false));
    assert!(only_name_chars("a.b", true));
    assert!(only_name_chars("", false));
}

#[test]
fn repository_name_rules() {
    assert!(check_repo_name("my.repo-1_x").is_ok());
    assert!(check_repo_name("a").is_ok());
    assert_eq!(check_repo_name("").unwrap_err(), ServiceError::BadRequest("Repository name must be 1-128 characters.".into()));
    assert_eq!(check_repo_name(&"r".repeat(129)).unwrap_err(),
        ServiceError::BadRequest("Repository name must be 1-128 characters.".into()));
    assert!(check_repo_name(&"r".repeat(128)).is_ok());
    assert_eq!(check_repo_name("a/b").unwrap_err(), ServiceError::BadRequest("Repository name contains invalid characters.".into()));
    assert_eq!(repo_exists(), ServiceError::Conflict("Repository already exists.".into()));
    assert_eq!(repo_not_found(), ServiceError::NotFound("Repository not found.".into()));
}

fn sample_repo(private: bool) -> Repository {
    Repository {
        id: 1, owner_type: "user".into(), owner_id: 2, name: "proj".into(), description: Some("d".into()),
        default_branch: "main".into(), is_private: private, is_archived: false, is_template: false,
        created_at: 10, updated_at: 20,
    }
}

#[test]
fn repository_owners() {
    let form = |t: &str| NewRepoForm {
        name: "p".into(), description: String::new(), owner_type: t.into(), owner_name: "team".into(), is_private: None,
    };
    assert!(form("group").wants_group_owner());
    assert!(!form("user").wants_group_owner());
    assert_eq!(form("group").choose_owner(Some(5), 9), RepoOwner::Group(5));
    assert_eq!(form("group").choose_owner(None, 9), RepoOwner::User(9));
    assert_eq!(form("user").choose_owner(Some(5), 9), RepoOwner::User(9));
    assert_eq!(RepoOwner::Group(5).owner_type(), "group");
    assert_eq!(RepoOwner::User(9).owner_type(), "user");
    assert_eq!(RepoOwner::Group(5).id(), 5);
    assert_eq!(form("group").owner_display(&RepoOwner::Group(5), "alice"), "team");
    assert_eq!(form("group").owner_display(&RepoOwner::User(9), "alice"), "alice");
    assert!(!form("user").is_private_checked());
    assert_eq!(owner_source("user"), OwnerSource::Users);
    assert_eq!(owner_source("group"), OwnerSource::Groups);
    assert_eq!(owner_source("org"), OwnerSource::Nowhere);
    assert!(check_read_permission(&sample_repo(true), None));
    assert!(check_read_permission(&sample_repo(false), Some(3)));
}

#[test]
fn repository_summary() {
    let r = sample_repo(true);
    let info = RepoInfo::from_repository(&r, Some("alice".into()));
    assert_eq!(info.owner_name, "alice");
    assert_eq!(info.name, "proj");
    assert!(info.is_private);
    assert_eq!(RepoInfo::from_repository(&r, None).owner_name, "");
}

#[test]
fn resolving_prefers_users_then_groups() {
    let repo = sample_repo(false);
    let s = resolve_next(ResolveStep::FindUser, ResolveEvent::Owner(Some((2, "alice".into()))));
    let s = resolve_next(s, ResolveEvent::Repo(Some(repo.clone())));
    assert_eq!(resolve_outcome(s).unwrap(), (repo.clone(), "alice".to_string()));

    let s = resolve_next(ResolveStep::FindUser, ResolveEvent::Owner(Some((2, "alice".into()))));
    let s = resolve_next(s, ResolveEvent::Repo(None));
    assert_eq!(s, ResolveStep::FindGroup);
    let s = resolve_next(s, ResolveEvent::Owner(Some((8, "team".into()))));
    let s = resolve_next(s, ResolveEvent::Repo(Some(repo.clone())));
    assert_eq!(resolve_outcome(s).unwrap(), (repo.clone(), "team".to_string()));

    let s = resolve_next(ResolveStep::FindUser, ResolveEvent::Owner(None));
    let s = resolve_next(s, ResolveEvent::Owner(None));
    assert_eq!(s, ResolveStep::Missing);
    assert_eq!(resolve_outcome(s).unwrap_err(), ServiceError::NotFound("Repository not found.".into()));
    // an answer that does not fit leaves the step as it is
    assert_eq!(resolve_next(ResolveStep::FindUser, ResolveEvent::Repo(None)), ResolveStep::FindUser);
}

#[test]
fn git_services() {
    let q = |s: &str| ServiceQuery { service: s.into() };
    assert_eq!(q("git-upload-pack").git_service().unwrap(), GitService::UploadPack);
    assert_eq!(q("git-receive-pack").git_service().unwrap(), GitService::ReceivePack);
    assert_eq!(q("git-archive").git_service().unwrap_err(), ServiceError::BadRequest("Invalid service.".into()));
    assert_eq!(GitService::UploadPack.program(), "upload-pack");
    assert_eq!(GitService::ReceivePack.program(), "receive-pack");
    assert_eq!(GitService::UploadPack.result_content_type(), "application/x-git-upload-pack-result");
    assert_eq!(GitService::ReceivePack.result_content_type(), "application/x-git-receive-pack-result");
    assert_eq!(advertisement_content_type("git-upload-pack"), "application/x-git-upload-pack-advertisement");
}

#[test]
fn git_access() {
    assert!(check_fetch_access(false, false).is_ok());
    assert!(check_fetch_access(true, true).is_ok());
    assert_eq!(check_fetch_access(true, false).unwrap_err(), ServiceError::Unauthorized);
    assert!(check_push_access(true).is_ok());
    assert_eq!(check_push_access(false).unwrap_err(), ServiceError::Unauthorized);
}

#[test]
fn pkt_line_announcement() {
    let a = service_announcement("git-upload-pack");
    assert_eq!(a, "001e# service=git-upload-pack\n");
    let payload = "# service=git-receive-pack\n";
    assert_eq!(service_announcement("git-receive-pack"), format!("{:04x}{}", payload.len() + 4, payload));
    assert_eq!(advertisement_body("git-upload-pack", "0000"), "001e# service=git-upload-pack\n0000");
    // the prefix counts bytes, not characters
    assert_eq!(service_announcement("é"), format!("{:04x}# service=é\n", "# service=é\n".len() + 4));
}

#[test]
fn wiki_slugs() {
    assert_eq!(slugify("Home"), "home");
    assert_eq!(slugify("Getting Started!"), "getting-started");
    assert_eq!(slugify("  a  b  "), "a-b");
    assert_eq!(slugify("C++ & Rust"), "c-rust");
    assert_eq!(slugify("v1.2"), "v1-2");
    assert_eq!(slugify("Ünïcode Title"), "n-code-title");
    assert_eq!(slugify(""), "");
    assert_eq!(slugify("---"), "");
    assert_eq!(slugify("ABC_def"), "abc-def");
}

#[test]
fn name_rules_nest() {
    for n in ["alice", "a-b_c", "äöü", "x99"] {
        assert!(gitrust::auth::AuthService::check_registration(n, "password1").is_ok());
        assert!(gitrust::groups::check_group_name(n).is_ok());
        assert!(check_repo_name(n).is_ok());
    }
    // a repository name may hold a dot, a username may not
    assert!(check_repo_name("a.b").is_ok());
    assert!(gitrust::groups::check_group_name("a.b").is_err());
}

#[test]
fn repository_locations_are_distinct() {
    let p1 = gitrust::repo::repo_path("data", "owner1", "proj");
    let p2 = gitrust::repo::repo_path("data", "owner2", "proj");
    let p3 = gitrust::repo::repo_path("data", "owner1", "proj2");
    assert_ne!(p1, p2);
    assert_ne!(p1, p3);
    assert_eq!(p1, "data/repositories/owner1/proj.git");
}
