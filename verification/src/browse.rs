//! Browsing a repository: the addresses and query parameters of the
//! file, commit and settings pages.
use vstd::prelude::*;
use crate::projects::{checkbox_ticked, is_ticked};
use crate::urls::{repo_url, repo_url_text};

verus! {

/// The repository a browsing route addresses.
pub struct RepoParams {
    pub owner: String,
    pub repo: String,
}

/// The revision whose file tree is shown.
pub struct TreeQuery {
    pub ref_name: Option<String>,
}

/// The revision whose history is shown, and the page.
pub struct CommitsQuery {
    pub ref_name: Option<String>,
    pub page: Option<u32>,
}

/// A commit of a repository.
pub struct CommitParams {
    pub owner: String,
    pub repo: String,
    pub sha: String,
}

/// The repository settings form.
pub struct SettingsForm {
    pub description: String,
    pub is_private: Option<String>,
}

/// Commits shown per page of the history.
pub const COMMITS_PER_PAGE: u32 = 20;

impl RepoParams {
    /// The page of the repository.
    pub fn repo_url(&self) -> (u: String)
        ensures
            u@ == repo_url_text(self.owner@, self.repo@),
    {
        repo_url(self.owner.as_str(), self.repo.as_str())
    }
}

impl TreeQuery {
    /// The revision asked for, or the repository's default branch.
    pub fn ref_or(&self, default_branch: String) -> (r: String)
        ensures
            r@ == (match self.ref_name { Some(n) => n@, None => default_branch@ }),
    {
        match &self.ref_name {
            Some(n) => n.clone(),
            None => default_branch,
        }
    }
}

impl CommitsQuery {
    /// The revision asked for, or the repository's default branch.
    pub fn ref_or(&self, default_branch: String) -> (r: String)
        ensures
            r@ == (match self.ref_name { Some(n) => n@, None => default_branch@ }),
    {
        match &self.ref_name {
            Some(n) => n.clone(),
            None => default_branch,
        }
    }

    /// The page asked for, or the first.
    pub fn page(&self) -> (p: u32)
        ensures
            p == match self.page { Some(n) => n, None => 1u32 },
    {
        match self.page {
            Some(n) => n,
            None => 1,
        }
    }
}

impl SettingsForm {
    /// Whether the private checkbox is ticked.
    pub fn is_private_checked(&self) -> (b: bool)
        ensures
            b == checkbox_ticked(self.is_private),
    {
        is_ticked(&self.is_private)
    }
}

} // verus!
