//! Label management routes.
use vstd::prelude::*;
use crate::urls::{section_url, section_url_text};

verus! {

/// The repository a label route addresses.
pub struct LabelRepoParams {
    pub owner: String,
    pub repo: String,
}

/// The fields of a new label.
pub struct CreateLabelForm {
    pub name: String,
    pub color: String,
    pub description: Option<String>,
}

impl LabelRepoParams {
    /// The label list of the repository.
    pub fn labels_url(&self) -> (u: String)
        ensures
            u@ == section_url_text(self.owner@, self.repo@, "/-/labels"@),
    {
        section_url(self.owner.as_str(), self.repo.as_str(), "/-/labels")
    }
}

} // verus!
