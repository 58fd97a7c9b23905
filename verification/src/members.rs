//! Repository member routes.
use vstd::prelude::*;
use crate::urls::{section_url, section_url_text};

verus! {

/// The repository a member route addresses.
pub struct MemRepoParams {
    pub owner: String,
    pub repo: String,
}

/// A user to add to a repository, with the permission granted.
pub struct AddMemberForm {
    pub username: String,
    pub permission: String,
}

impl MemRepoParams {
    /// The member list of the repository.
    pub fn members_url(&self) -> (u: String)
        ensures
            u@ == section_url_text(self.owner@, self.repo@, "/-/members"@),
    {
        section_url(self.owner.as_str(), self.repo.as_str(), "/-/members")
    }
}

} // verus!
