//! Repositories as records: the naming rule, who owns a new repository,
//! how an `/<owner>/<repo>` address is resolved, and the summary shown.
use vstd::prelude::*;
use vstd::string::*;
use crate::error::{ServiceError, bad_request, conflict, not_found};
use crate::names::{byte_len, valid_repo_name, utf8_length, only_name_chars};
use crate::text::{owned, str_equal};

verus! {

/// A repository record; instants in nanoseconds since the Unix epoch.
#[derive(Debug, Clone, PartialEq, Eq)]
pub struct Repository {
    pub id: u128,
    pub owner_type: String,
    pub owner_id: u128,
    pub name: String,
    pub description: Option<String>,
    pub default_branch: String,
    pub is_private: bool,
    pub is_archived: bool,
    pub is_template: bool,
    pub created_at: i128,
    pub updated_at: i128,
}

/// What repository pages show about a repository and its owner.
#[derive(Debug, Clone, PartialEq, Eq)]
pub struct RepoInfo {
    pub id: u128,
    pub name: String,
    pub description: Option<String>,
    pub owner_name: String,
    pub owner_type: String,
    pub default_branch: String,
    pub is_private: bool,
    pub is_archived: bool,
    pub created_at: i128,
}

/// The fields of the new-repository form.
pub struct NewRepoForm {
    pub name: String,
    pub description: String,
    pub owner_type: String,
    pub owner_name: String,
    pub is_private: Option<String>,
}

/// Who owns a repository.
#[derive(Debug, Clone, PartialEq, Eq)]
pub enum RepoOwner {
    User(u128),
    Group(u128),
}

/// Where the name of a repository's owner is looked up.
#[derive(Debug, Clone, PartialEq, Eq)]
pub enum OwnerSource {
    Users,
    Groups,
    Nowhere,
}

/// An HTML checkbox's value: ticked when it was sent as `on`.
pub open spec fn checkbox_ticked(value: Option<String>) -> bool {
    value matches Some(v) && v@ == "on"@
}

/// Whether a checkbox value says ticked.
pub fn is_ticked(value: &Option<String>) -> (b: bool)
    ensures
        b == checkbox_ticked(*value),
{
    match value {
        Some(v) => str_equal(v.as_str(), "on"),
        None => false,
    }
}

impl RepoOwner {
    /// The owner type as stored: `user` or `group`.
    pub fn owner_type(&self) -> (t: String)
        ensures
            t@ == (match self { RepoOwner::User(_) => "user"@, RepoOwner::Group(_) => "group"@ }),
    {
        match self {
            RepoOwner::User(_) => owned("user"),
            RepoOwner::Group(_) => owned("group"),
        }
    }

    /// The owner's id.
    pub fn id(&self) -> (i: u128)
        ensures
            i == (match self { RepoOwner::User(u) => *u, RepoOwner::Group(g) => *g }),
    {
        match self {
            RepoOwner::User(u) => *u,
            RepoOwner::Group(g) => *g,
        }
    }
}

impl NewRepoForm {
    /// Whether the form asks for a group to own the repository, which
    /// means looking the group up by `owner_name`.
    pub fn wants_group_owner(&self) -> (b: bool)
        ensures
            b == (self.owner_type@ == "group"@),
    {
        str_equal(self.owner_type.as_str(), "group")
    }

    /// The owner of the new repository: the named group when the form asks
    /// for one and it exists, the signed-in user otherwise.
    pub fn choose_owner(&self, group_id: Option<u128>, user_id: u128) -> (o: RepoOwner)
        ensures
            o == (if self.owner_type@ == "group"@ && group_id is Some {
                RepoOwner::Group(group_id->0)
            } else {
                RepoOwner::User(user_id)
            }),
    {
        if self.wants_group_owner() {
            match group_id {
                Some(g) => RepoOwner::Group(g),
                None => RepoOwner::User(user_id),
            }
        } else {
            RepoOwner::User(user_id)
        }
    }

    /// Whether the private checkbox is ticked.
    pub fn is_private_checked(&self) -> (b: bool)
        ensures
            b == checkbox_ticked(self.is_private),
    {
        is_ticked(&self.is_private)
    }

    /// The owner name in the address of the new repository: the user's
    /// name for a personal repository, the form's owner name for a group's.
    pub fn owner_display(&self, owner: &RepoOwner, username: &str) -> (n: String)
        ensures
            n@ == (match owner { RepoOwner::User(_) => username@, RepoOwner::Group(_) => self.owner_name@ }),
    {
        match owner {
            RepoOwner::User(_) => owned(username),
            RepoOwner::Group(_) => self.owner_name.clone(),
        }
    }
}

/// The repository naming rule: 1 to 128 bytes of letters, digits, `-`, `_`
/// and `.`, length checked first.
pub fn check_repo_name(name: &str) -> (r: Result<(), ServiceError>)
    ensures
        r is Ok <==> valid_repo_name(name@),
        r matches Err(e) ==> (if 1 <= byte_len(name@) <= 128 {
            e.is_bad_request("Repository name contains invalid characters."@)
        } else {
            e.is_bad_request("Repository name must be 1-128 characters."@)
        }),
{
    let len = utf8_length(name);
    if len < 1 || len > 128 {
        return Err(bad_request("Repository name must be 1-128 characters."));
    }
    if !only_name_chars(name, true) {
        return Err(bad_request("Repository name contains invalid characters."));
    }
    Ok(())
}

/// The error for a repository name the owner already uses.
pub fn repo_exists() -> (e: ServiceError)
    ensures
        e.is_conflict("Repository already exists."@),
{
    conflict("Repository already exists.")
}

/// The error for an address that names no repository.
pub fn repo_not_found() -> (e: ServiceError)
    ensures
        e.is_not_found("Repository not found."@),
{
    not_found("Repository not found.")
}

/// Whether a viewer may read a repository. Every repository is readable,
/// private ones included.
pub fn check_read_permission(repo: &Repository, user_id: Option<u128>) -> (b: bool)
    ensures
        b,
{
    if !repo.is_private {
        return true;
    }
    true
}

/// Where the owner's name of a repository with this owner type is found.
pub fn owner_source(owner_type: &str) -> (s: OwnerSource)
    ensures
        s == (if owner_type@ == "user"@ {
            OwnerSource::Users
        } else if owner_type@ == "group"@ {
            OwnerSource::Groups
        } else {
            OwnerSource::Nowhere
        }),
{
    if str_equal(owner_type, "user") {
        OwnerSource::Users
    } else if str_equal(owner_type, "group") {
        OwnerSource::Groups
    } else {
        OwnerSource::Nowhere
    }
}

impl RepoInfo {
    /// The summary of a repository, given its owner's name if the lookup
    /// found one (empty otherwise).
    pub fn from_repository(repo: &Repository, owner_name: Option<String>) -> (info: RepoInfo)
        ensures
            info.id == repo.id,
            info.name == repo.name,
            info.description == repo.description,
            info.owner_name@ == (match owner_name { Some(n) => n@, None => Seq::<char>::empty() }),
            info.owner_type == repo.owner_type,
            info.default_branch == repo.default_branch,
            info.is_private == repo.is_private,
            info.is_archived == repo.is_archived,
            info.created_at == repo.created_at,
    {
        RepoInfo {
            id: repo.id,
            name: repo.name.clone(),
            description: repo.description.clone(),
            owner_name: match owner_name {
                Some(n) => n,
                None => String::new(),
            },
            owner_type: repo.owner_type.clone(),
            default_branch: repo.default_branch.clone(),
            is_private: repo.is_private,
            is_archived: repo.is_archived,
            created_at: repo.created_at,
        }
    }
}

/// Where resolving an `/<owner>/<repo>` address stands: the next lookup to
/// make, or the outcome.
#[derive(Debug, Clone, PartialEq, Eq)]
pub enum ResolveStep {
    /// Look up a user with the owner name.
    FindUser,
    /// Look up the repository among that user's.
    FindUserRepo { user_id: u128, username: String },
    /// Look up a group with the owner name.
    FindGroup,
    /// Look up the repository among that group's.
    FindGroupRepo { group_id: u128, group_name: String },
    /// The repository and its owner's name.
    Resolved { repo: Repository, owner_name: String },
    /// No user's or group's repository has that address.
    Missing,
}

/// The answer to the lookup a step asked for.
#[derive(Debug, Clone, PartialEq, Eq)]
pub enum ResolveEvent {
    /// An owner lookup found this id and name, or nothing.
    Owner(Option<(u128, String)>),
    /// A repository lookup found this repository, or nothing.
    Repo(Option<Repository>),
}

/// The next step of resolution after an answer: users are tried before
/// groups; an answer that does not fit the step leaves it unchanged.
pub open spec fn resolve_transition(step: ResolveStep, event: ResolveEvent) -> ResolveStep {
    match step {
        ResolveStep::FindUser => match event {
            ResolveEvent::Owner(Some((id, name))) => ResolveStep::FindUserRepo { user_id: id, username: name },
            ResolveEvent::Owner(None) => ResolveStep::FindGroup,
            _ => step,
        },
        ResolveStep::FindUserRepo { user_id, username } => match event {
            ResolveEvent::Repo(Some(r)) => ResolveStep::Resolved { repo: r, owner_name: username },
            ResolveEvent::Repo(None) => ResolveStep::FindGroup,
            _ => step,
        },
        ResolveStep::FindGroup => match event {
            ResolveEvent::Owner(Some((id, name))) => ResolveStep::FindGroupRepo { group_id: id, group_name: name },
            ResolveEvent::Owner(None) => ResolveStep::Missing,
            _ => step,
        },
        ResolveStep::FindGroupRepo { group_id, group_name } => match event {
            ResolveEvent::Repo(Some(r)) => ResolveStep::Resolved { repo: r, owner_name: group_name },
            ResolveEvent::Repo(None) => ResolveStep::Missing,
            _ => step,
        },
        _ => step,
    }
}

/// Advances the resolution of a repository address by one answer.
pub fn resolve_next(step: ResolveStep, event: ResolveEvent) -> (next: ResolveStep)
    ensures
        next == resolve_transition(step, event),
{
    match step {
        ResolveStep::FindUser => match event {
            ResolveEvent::Owner(Some((id, name))) => ResolveStep::FindUserRepo { user_id: id, username: name },
            ResolveEvent::Owner(None) => ResolveStep::FindGroup,
            _ => ResolveStep::FindUser,
        },
        ResolveStep::FindUserRepo { user_id, username } => match event {
            ResolveEvent::Repo(Some(r)) => ResolveStep::Resolved { repo: r, owner_name: username },
            ResolveEvent::Repo(None) => ResolveStep::FindGroup,
            _ => ResolveStep::FindUserRepo { user_id, username },
        },
        ResolveStep::FindGroup => match event {
            ResolveEvent::Owner(Some((id, name))) => ResolveStep::FindGroupRepo { group_id: id, group_name: name },
            ResolveEvent::Owner(None) => ResolveStep::Missing,
            _ => ResolveStep::FindGroup,
        },
        ResolveStep::FindGroupRepo { group_id, group_name } => match event {
            ResolveEvent::Repo(Some(r)) => ResolveStep::Resolved { repo: r, owner_name: group_name },
            ResolveEvent::Repo(None) => ResolveStep::Missing,
            _ => ResolveStep::FindGroupRepo { group_id, group_name },
        },
        other => other,
    }
}

/// The outcome of a finished resolution: the repository with its owner's
/// name, or "Repository not found.". An unfinished one is reported as not
/// found as well.
pub fn resolve_outcome(step: ResolveStep) -> (r: Result<(Repository, String), ServiceError>)
    ensures
        match step {
            ResolveStep::Resolved { repo, owner_name } => r == Ok::<(Repository, String), ServiceError>((repo, owner_name)),
            _ => r matches Err(e) && e.is_not_found("Repository not found."@),
        },
{
    match step {
        ResolveStep::Resolved { repo, owner_name } => Ok((repo, owner_name)),
        _ => Err(repo_not_found()),
    }
}

/// A user's repository takes precedence: when a user with the owner name
/// exists and has the repository, resolution ends there, whatever groups
/// there are.
pub proof fn lemma_user_namespace_first(user: (u128, String), repo: Repository)
    ensures
        resolve_transition(
            resolve_transition(ResolveStep::FindUser, ResolveEvent::Owner(Some(user))),
            ResolveEvent::Repo(Some(repo)),
        ) == (ResolveStep::Resolved { repo: repo, owner_name: user.1 }),
{
}

/// Resolution ends after at most four answers: the user lookup, the user's
/// repository, the group lookup and the group's repository.
pub proof fn lemma_resolution_terminates(
    e1: Option<(u128, String)>,
    e2: Option<Repository>,
    e3: Option<(u128, String)>,
    e4: Option<Repository>,
)
    ensures
        ({
            let s1 = resolve_transition(ResolveStep::FindUser, ResolveEvent::Owner(e1));
            let s2 = if s1 is FindUserRepo { resolve_transition(s1, ResolveEvent::Repo(e2)) } else { s1 };
            let s3 = if s2 is FindGroup { resolve_transition(s2, ResolveEvent::Owner(e3)) } else { s2 };
            let s4 = if s3 is FindGroupRepo { resolve_transition(s3, ResolveEvent::Repo(e4)) } else { s3 };
            s4 is Resolved || s4 is Missing
        }),
{
}

/// Each answer moves resolution on with what it found: a user found by the
/// owner name is the one whose repositories are searched, and likewise a
/// group; a repository found among them is the outcome, with that owner's
/// name; a user lookup or a user's repository lookup that finds nothing
/// turns to the groups, and a group lookup or group repository lookup that
/// finds nothing ends resolution as missing.
pub proof fn lemma_resolution_carries_finds(id: u128, name: String, repo: Repository)
    ensures
        resolve_transition(ResolveStep::FindUser, ResolveEvent::Owner(Some((id, name))))
            == (ResolveStep::FindUserRepo { user_id: id, username: name }),
        resolve_transition(ResolveStep::FindGroup, ResolveEvent::Owner(Some((id, name))))
            == (ResolveStep::FindGroupRepo { group_id: id, group_name: name }),
        resolve_transition(ResolveStep::FindUserRepo { user_id: id, username: name }, ResolveEvent::Repo(Some(repo)))
            == (ResolveStep::Resolved { repo: repo, owner_name: name }),
        resolve_transition(ResolveStep::FindGroupRepo { group_id: id, group_name: name }, ResolveEvent::Repo(Some(repo)))
            == (ResolveStep::Resolved { repo: repo, owner_name: name }),
        resolve_transition(ResolveStep::FindUser, ResolveEvent::Owner(None)) == ResolveStep::FindGroup,
        resolve_transition(ResolveStep::FindUserRepo { user_id: id, username: name }, ResolveEvent::Repo(None))
            == ResolveStep::FindGroup,
        resolve_transition(ResolveStep::FindGroup, ResolveEvent::Owner(None)) == ResolveStep::Missing,
        resolve_transition(ResolveStep::FindGroupRepo { group_id: id, group_name: name }, ResolveEvent::Repo(None))
            == ResolveStep::Missing,
{
}

} // verus!
