//! Merge request lists, creation and merging.
use vstd::prelude::*;
use vstd::string::*;
use crate::error::{ServiceError, bad_request, not_found};
use crate::text::{owned, str_equal};
use crate::urls::{item_url, item_url_text};

verus! {

/// The repository a merge request route addresses.
pub struct MRRepoParams {
    pub owner: String,
    pub repo: String,
}

/// Filters of the merge request list: the state shown and the page.
pub struct MRListQuery {
    pub state: Option<String>,
    pub page: Option<u32>,
}

/// The number of a merge request within its repository.
pub struct MRNumber {
    pub number: i32,
}

/// The fields of a new merge request.
pub struct CreateMRForm {
    pub title: String,
    pub description: String,
    pub source_branch: String,
    pub target_branch: String,
}

impl MRRepoParams {
    /// The page of merge request `number`.
    pub fn merge_request_url(&self, number: i32) -> (u: String)
        ensures
            u@ == item_url_text(self.owner@, self.repo@, "/-/merge_requests"@, number as int),
    {
        item_url(self.owner.as_str(), self.repo.as_str(), "/-/merge_requests", number)
    }
}

impl MRListQuery {
    /// The state filter: the one asked for, or `open`.
    pub fn state_filter(&self) -> (s: String)
        ensures
            match self.state {
                Some(st) => s@ == st@,
                None => s@ == "open"@,
            },
    {
        match &self.state {
            Some(st) => st.clone(),
            None => owned("open"),
        }
    }

    /// The page asked for, or the first.
    pub fn page(&self) -> (p: u32)
        ensures
            p == match self.page { Some(n) => n, None => 1u32 },
    {
        match self.page {
            Some(n) => n,
            None => 1,
        }
    }
}

impl CreateMRForm {
    /// A merge request must go between two different branches.
    pub fn check_branches(&self) -> (r: Result<(), ServiceError>)
        ensures
            r is Ok <==> self.source_branch@ != self.target_branch@,
            r matches Err(e) ==> e.is_bad_request("Source and target branches must be different."@),
    {
        check_branches(self.source_branch.as_str(), self.target_branch.as_str())
    }
}

/// A merge request must go between two different branches.
pub fn check_branches(source_branch: &str, target_branch: &str) -> (r: Result<(), ServiceError>)
    ensures
        r is Ok <==> source_branch@ != target_branch@,
        r matches Err(e) ==> e.is_bad_request("Source and target branches must be different."@),
{
    if str_equal(source_branch, target_branch) {
        Err(bad_request("Source and target branches must be different."))
    } else {
        Ok(())
    }
}

/// Only an open merge request can be merged.
pub fn check_mergeable(state: &str) -> (r: Result<(), ServiceError>)
    ensures
        r is Ok <==> state@ == "open"@,
        r matches Err(e) ==> e.is_bad_request("Merge request is not open."@),
{
    if str_equal(state, "open") {
        Ok(())
    } else {
        Err(bad_request("Merge request is not open."))
    }
}

/// The error for a merge request number that does not exist.
pub fn merge_request_not_found() -> (e: ServiceError)
    ensures
        e.is_not_found("Merge request not found."@),
{
    not_found("Merge request not found.")
}

} // verus!
