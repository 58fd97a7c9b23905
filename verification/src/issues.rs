//! Issue lists, issue pages and closing issues.
use vstd::prelude::*;
use vstd::string::*;
use crate::error::{ServiceError, not_found};
use crate::text::owned;
use crate::urls::{item_url, item_url_text, section_url, section_url_text};

verus! {

/// The repository an issue route addresses.
pub struct IssueRepoParams {
    pub owner: String,
    pub repo: String,
}

/// Filters of the issue list: the state shown and the page.
pub struct IssueListQuery {
    pub state: Option<String>,
    pub page: Option<u32>,
}

/// The number of an issue within its repository.
pub struct IssueNumber {
    pub number: i32,
}

/// The fields of a new issue.
pub struct CreateIssueForm {
    pub title: String,
    pub description: String,
}

impl IssueRepoParams {
    /// The issue list of the repository.
    pub fn issues_url(&self) -> (u: String)
        ensures
            u@ == section_url_text(self.owner@, self.repo@, "/-/issues"@),
    {
        section_url(self.owner.as_str(), self.repo.as_str(), "/-/issues")
    }

    /// The page of issue `number`.
    pub fn issue_url(&self, number: i32) -> (u: String)
        ensures
            u@ == item_url_text(self.owner@, self.repo@, "/-/issues"@, number as int),
    {
        item_url(self.owner.as_str(), self.repo.as_str(), "/-/issues", number)
    }
}

impl IssueListQuery {
    /// The state filter: the one asked for, or `open`.
    pub fn state_filter(&self) -> (s: String)
        ensures
            match self.state {
                Some(st) => s@ == st@,
                None => s@ == "open"@,
            },
    {
        match &self.state {
            Some(st) => st.clone(),
            None => owned("open"),
        }
    }

    /// The page asked for, or the first.
    pub fn page(&self) -> (p: u32)
        ensures
            p == match self.page { Some(n) => n, None => 1u32 },
    {
        match self.page {
            Some(n) => n,
            None => 1,
        }
    }
}

/// The answer to closing an issue, from the number of open issues the
/// update closed: none means there was no such open issue.
pub fn close_outcome(rows_affected: u64) -> (r: Result<(), ServiceError>)
    ensures
        rows_affected == 0 <==> r is Err,
        r matches Err(e) ==> e.is_not_found("Issue not found or already closed."@),
{
    if rows_affected == 0 {
        Err(not_found("Issue not found or already closed."))
    } else {
        Ok(())
    }
}

/// The error for an issue number that does not exist in the repository.
pub fn issue_not_found() -> (e: ServiceError)
    ensures
        e.is_not_found("Issue not found."@),
{
    not_found("Issue not found.")
}

} // verus!
